//! The outbox: one durable record per committed money movement, tracking the
//! delivery of its webhook.
use vstd::prelude::*;
use crate::text::str_eq;
use crate::ledger::TransactionType;
use crate::scheduler::MAX_RETRIES;

verus! {

/// Where an event stands; `Delivered` and `Failed` are terminal.
#[derive(Clone, Copy, Debug, PartialEq, Eq, Structural)]
pub enum EventStatus {
    Pending,
    Delivered,
    Failed,
}

/// The status a stored text names.
pub open spec fn event_status_of(s: Seq<char>) -> Option<EventStatus> {
    if s == seq!['p', 'e', 'n', 'd', 'i', 'n', 'g'] {
        Some(EventStatus::Pending)
    } else if s == seq!['d', 'e', 'l', 'i', 'v', 'e', 'r', 'e', 'd'] {
        Some(EventStatus::Delivered)
    } else if s == seq!['f', 'a', 'i', 'l', 'e', 'd'] {
        Some(EventStatus::Failed)
    } else {
        None
    }
}

impl EventStatus {
    /// Reads the stored text of a status.
    pub fn from_text(s: &str) -> (r: Option<EventStatus>)
        ensures
            r == event_status_of(s@),
    {
        let t0 = "pending";
        let t1 = "delivered";
        let t2 = "failed";
        proof {
            reveal_strlit("pending");
            reveal_strlit("delivered");
            reveal_strlit("failed");
        }
        assert(t0@ =~= seq!['p', 'e', 'n', 'd', 'i', 'n', 'g']);
        assert(t1@ =~= seq!['d', 'e', 'l', 'i', 'v', 'e', 'r', 'e', 'd']);
        assert(t2@ =~= seq!['f', 'a', 'i', 'l', 'e', 'd']);
        if str_eq(s, t0) {
            Some(EventStatus::Pending)
        } else if str_eq(s, t1) {
            Some(EventStatus::Delivered)
        } else if str_eq(s, t2) {
            Some(EventStatus::Failed)
        } else {
            None
        }
    }
}

/// The structured payload of a `transaction.succeeded` event.
#[derive(Clone, Debug)]
pub struct TransactionEvent {
    pub transaction_id: i64,
    pub kind: TransactionType,
    /// Amount in minor currency units.
    pub amount: u64,
    pub from_account_id: Option<i64>,
    pub to_account_id: Option<i64>,
    pub tenant_id: i64,
    pub reference_id: Option<String>,
}

/// One outbox row.
#[derive(Clone, Debug)]
pub struct WebhookEvent {
    pub id: i64,
    pub endpoint_id: i64,
    pub event_type: String,
    pub payload: TransactionEvent,
    pub status: EventStatus,
    pub attempt_count: u32,
    /// Unix seconds; meaningful only while the event is pending.
    pub next_retry_at: Option<i64>,
    pub created_at: i64,
}

/// The outbox rows, in the order of creation; the row of id `k` is at index `k - 1`.
pub struct Outbox {
    pub events: Vec<WebhookEvent>,
}

pub open spec fn is_terminal(s: EventStatus) -> bool {
    s != EventStatus::Pending
}

/// Allowed moves of a row's status: stay, or leave `Pending` for a terminal state.
pub open spec fn status_step(a: EventStatus, b: EventStatus) -> bool {
    a == b || (a == EventStatus::Pending && is_terminal(b))
}

/// Whether a pending event is due for delivery at `now`.
pub open spec fn is_due(e: WebhookEvent, now: i64) -> bool {
    e.status == EventStatus::Pending && match e.next_retry_at {
        None => true,
        Some(t) => t <= now,
    }
}

/// Ids of the events due at `now`, in the order of creation.
pub open spec fn due_ids(evs: Seq<WebhookEvent>, now: i64) -> Seq<i64>
    decreases evs.len(),
{
    if evs.len() == 0 {
        seq![]
    } else {
        let rest = due_ids(evs.drop_last(), now);
        if is_due(evs.last(), now) {
            rest.push(evs.last().id)
        } else {
            rest
        }
    }
}

/// The due ids of rows numbered from one are row numbers, strictly rising.
proof fn lemma_due_ids_rising(evs: Seq<WebhookEvent>, now: i64)
    requires
        forall|i: int| 0 <= i < evs.len() ==> (#[trigger] evs[i]).id == i + 1,
    ensures
        forall|a: int|
            0 <= a < due_ids(evs, now).len() ==> 1 <= #[trigger] due_ids(evs, now)[a] <= evs.len(),
        forall|a: int, b: int|
            0 <= a < b < due_ids(evs, now).len() ==> #[trigger] due_ids(evs, now)[a]
                < #[trigger] due_ids(evs, now)[b],
    decreases evs.len(),
{
    if evs.len() > 0 {
        let p = evs.drop_last();
        assert forall|i: int| 0 <= i < p.len() implies (#[trigger] p[i]).id == i + 1 by {
            assert(p[i] == evs[i]);
        }
        lemma_due_ids_rising(p, now);
        let rest = due_ids(p, now);
        let d = due_ids(evs, now);
        assert(evs.last().id == evs.len());
        if is_due(evs.last(), now) {
            assert(d == rest.push(evs.last().id));
            assert forall|a: int| 0 <= a < d.len() implies 1 <= #[trigger] d[a] <= evs.len() by {
                if a < rest.len() {
                    assert(d[a] == rest[a]);
                }
            }
            assert forall|a: int, b: int| 0 <= a < b < d.len() implies #[trigger] d[a]
                < #[trigger] d[b] by {
                assert(d[a] == rest[a]);
                if b < rest.len() {
                    assert(d[b] == rest[b]);
                }
            }
        } else {
            assert(d == rest);
        }
    }
}

/// How one row may change between two states of the outbox.
pub open spec fn row_step(a: WebhookEvent, b: WebhookEvent) -> bool {
    &&& b.id == a.id
    &&& b.endpoint_id == a.endpoint_id
    &&& b.created_at == a.created_at
    &&& status_step(a.status, b.status)
    &&& a.attempt_count <= b.attempt_count
    &&& is_terminal(a.status) ==> b.attempt_count == a.attempt_count
}

impl Outbox {
    pub open spec fn rows(&self) -> Seq<WebhookEvent> {
        self.events@
    }

    pub open spec fn wf(&self) -> bool {
        &&& self.rows().len() < i64::MAX
        &&& forall|i: int|
            0 <= i < self.rows().len() ==> (#[trigger] self.rows()[i]).id == i + 1
                && self.rows()[i].attempt_count <= MAX_RETRIES
        // rows are kept in the order of their creation time
        &&& forall|i: int, j: int|
            0 <= i < j < self.rows().len() ==> (#[trigger] self.rows()[i]).created_at
                <= (#[trigger] self.rows()[j]).created_at
    }

    /// `now` is no earlier than the creation of any row.
    pub open spec fn admits_time(&self, now: i64) -> bool {
        self.rows().len() == 0 || self.rows().last().created_at <= now
    }

    pub open spec fn has(&self, id: i64) -> bool {
        1 <= id <= self.rows().len()
    }

    pub open spec fn row(&self, id: i64) -> WebhookEvent {
        self.rows()[id - 1]
    }

    /// Every row of `self` is still in `next`, changed only as `row_step` allows.
    pub open spec fn evolves_to(&self, next: &Outbox) -> bool {
        &&& self.rows().len() <= next.rows().len()
        &&& forall|i: int|
            0 <= i < self.rows().len() ==> row_step(
                #[trigger] self.rows()[i],
                next.rows()[i],
            )
    }

    /// `next` differs from `self` at most in row `id`, which became `e`.
    pub open spec fn updated(&self, next: &Outbox, id: i64, e: WebhookEvent) -> bool {
        next.rows() == self.rows().update(id - 1, e)
    }

    pub fn new() -> (r: Outbox)
        ensures
            r.wf(),
            r.rows().len() == 0,
    {
        Outbox { events: Vec::new() }
    }

    /// Inserts a pending event with no attempt yet, and returns its id.
    pub fn create(
        &mut self,
        endpoint_id: i64,
        event_type: String,
        payload: TransactionEvent,
        now: i64,
    ) -> (id: i64)
        requires
            old(self).wf(),
            old(self).rows().len() < i64::MAX - 1,
            old(self).admits_time(now),
        ensures
            final(self).wf(),
            id == old(self).rows().len() + 1,
            final(self).rows() == old(self).rows().push(
                WebhookEvent {
                    id,
                    endpoint_id,
                    event_type,
                    payload,
                    status: EventStatus::Pending,
                    attempt_count: 0,
                    next_retry_at: None,
                    created_at: now,
                },
            ),
            old(self).evolves_to(&*final(self)),
            final(self).admits_time(now),
    {
        let id = self.events.len() as i64 + 1;
        self.events.push(
            WebhookEvent {
                id,
                endpoint_id,
                event_type,
                payload,
                status: EventStatus::Pending,
                attempt_count: 0,
                next_retry_at: None,
                created_at: now,
            },
        );
        id
    }

    /// The row of an event, if there is one.
    pub fn load(&self, id: i64) -> (r: Option<&WebhookEvent>)
        requires
            self.wf(),
        ensures
            match r {
                Some(e) => self.has(id) && *e == self.row(id),
                None => !self.has(id),
            },
    {
        if 1 <= id && id <= self.events.len() as i64 {
            Some(&self.events[(id - 1) as usize])
        } else {
            None
        }
    }

    /// Marks a pending event delivered; returns whether a row changed.
    pub fn mark_delivered(&mut self, id: i64) -> (changed: bool)
        requires
            old(self).wf(),
        ensures
            final(self).wf(),
            old(self).evolves_to(&*final(self)),
            changed == (old(self).has(id) && old(self).row(id).status == EventStatus::Pending),
            changed ==> old(self).updated(
                &*final(self),
                id,
                WebhookEvent { status: EventStatus::Delivered, ..old(self).row(id) },
            ),
            !changed ==> final(self).rows() == old(self).rows(),
    {
        self.set_terminal(id, EventStatus::Delivered)
    }

    /// Marks a pending event failed; returns whether a row changed.
    pub fn mark_failed(&mut self, id: i64) -> (changed: bool)
        requires
            old(self).wf(),
        ensures
            final(self).wf(),
            old(self).evolves_to(&*final(self)),
            changed == (old(self).has(id) && old(self).row(id).status == EventStatus::Pending),
            changed ==> old(self).updated(
                &*final(self),
                id,
                WebhookEvent { status: EventStatus::Failed, ..old(self).row(id) },
            ),
            !changed ==> final(self).rows() == old(self).rows(),
    {
        self.set_terminal(id, EventStatus::Failed)
    }

    fn set_terminal(&mut self, id: i64, status: EventStatus) -> (changed: bool)
        requires
            old(self).wf(),
            is_terminal(status),
        ensures
            final(self).wf(),
            old(self).evolves_to(&*final(self)),
            changed == (old(self).has(id) && old(self).row(id).status == EventStatus::Pending),
            changed ==> old(self).updated(
                &*final(self),
                id,
                WebhookEvent { status, ..old(self).row(id) },
            ),
            !changed ==> final(self).rows() == old(self).rows(),
    {
        if 1 <= id && id <= self.events.len() as i64 {
            let i = (id - 1) as usize;
            if self.events[i].status == EventStatus::Pending {
                self.events[i].status = status;
                return true;
            }
        }
        false
    }

    /// Records a failed attempt of a pending event: one more attempt, and the
    /// time of the next. Only a pending event within the retry budget changes.
    pub fn schedule_retry(&mut self, id: i64, next_retry_at: i64) -> (changed: bool)
        requires
            old(self).wf(),
        ensures
            final(self).wf(),
            old(self).evolves_to(&*final(self)),
            changed == (old(self).has(id) && old(self).row(id).status == EventStatus::Pending
                && old(self).row(id).attempt_count < MAX_RETRIES),
            changed ==> old(self).updated(
                &*final(self),
                id,
                WebhookEvent {
                    attempt_count: (old(self).row(id).attempt_count + 1) as u32,
                    next_retry_at: Some(next_retry_at),
                    ..old(self).row(id)
                },
            ),
            !changed ==> final(self).rows() == old(self).rows(),
    {
        if 1 <= id && id <= self.events.len() as i64 {
            let i = (id - 1) as usize;
            if self.events[i].status == EventStatus::Pending && self.events[i].attempt_count
                < MAX_RETRIES {
                let ghost before = self.rows();
                self.events[i].attempt_count = self.events[i].attempt_count + 1;
                self.events[i].next_retry_at = Some(next_retry_at);
                assert(self.rows() =~= before.update(
                    i as int,
                    (WebhookEvent {
                        attempt_count: (before[i as int].attempt_count + 1) as u32,
                        next_retry_at: Some(next_retry_at),
                        ..before[i as int]
                    }),
                ));
                return true;
            }
        }
        false
    }

    /// Ids of the pending events whose retry time, if any, has come, in the
    /// order of creation, which is the order of `created_at`.
    pub fn list_pending_due(&self, now: i64) -> (r: Vec<i64>)
        requires
            self.wf(),
        ensures
            r@ == due_ids(self.rows(), now),
            forall|a: int, b: int|
                0 <= a < b < r@.len() ==> self.has(#[trigger] r@[a]) && self.has(#[trigger] r@[b])
                    && self.row(r@[a]).created_at <= self.row(r@[b]).created_at,
    {
        proof {
            lemma_due_ids_rising(self.rows(), now);
        }
        let mut out: Vec<i64> = Vec::new();
        let mut i: usize = 0;
        while i < self.events.len()
            invariant
                i <= self.rows().len(),
                out@ == due_ids(self.rows().subrange(0, i as int), now),
            decreases self.rows().len() - i,
        {
            let e = &self.events[i];
            let due = e.status == EventStatus::Pending && match e.next_retry_at {
                None => true,
                Some(t) => t <= now,
            };
            if due {
                out.push(e.id);
            }
            assert(self.rows().subrange(0, i + 1).drop_last() =~= self.rows().subrange(
                0,
                i as int,
            ));
            i = i + 1;
        }
        assert(self.rows().subrange(0, i as int) =~= self.rows());
        out
    }
}

/// Row by row, a status moves only from `Pending` to a terminal state, and a
/// terminal row keeps its state and attempt count, across any run of outbox
/// operations.
pub proof fn lemma_status_graph_across_runs(a: &Outbox, b: &Outbox, c: &Outbox)
    requires
        a.evolves_to(b),
        b.evolves_to(c),
    ensures
        a.evolves_to(c),
{
    assert forall|i: int| 0 <= i < a.rows().len() implies row_step(
        #[trigger] a.rows()[i],
        c.rows()[i],
    ) by {
        assert(row_step(a.rows()[i], b.rows()[i]));
        assert(row_step(b.rows()[i], c.rows()[i]));
    }
}

} // verus!
