//! The delivery worker's decisions: whether an event is posted, and how its
//! outbox row changes after an attempt; and the recovery drain at startup.
use vstd::prelude::*;
use crate::outbox::{due_ids, is_terminal, EventStatus, Outbox, WebhookEvent};
use crate::scheduler::{compute_next_retry, next_retry_at, valid_time, MAX_RETRIES};
use crate::store::Ledger;
use crate::webhooks::{EndpointStatus, WebhookRow};

verus! {

/// What the worker does with an event id taken from the queue.
#[derive(Clone, Copy, Debug, PartialEq, Eq, Structural)]
pub enum DeliveryPlan {
    /// No outbox row has the id: skip it.
    EventMissing,
    /// The row is delivered or failed already: skip it.
    AlreadyTerminal,
    /// The endpoint is gone or disabled: skip, leaving the row pending.
    EndpointUnavailable,
    /// POST the payload to the endpoint.
    Post,
}

/// How the outbox row changes after a POST.
#[derive(Clone, Copy, Debug, PartialEq, Eq, Structural)]
pub enum OutboxUpdate {
    MarkDelivered,
    /// One more attempt recorded; the next is due at this time.
    ScheduleRetry(i64),
    MarkFailed,
}

/// The result of one turn of the worker.
#[derive(Clone, Copy, Debug, PartialEq, Eq, Structural)]
pub enum DeliveryOutcome {
    Skipped(DeliveryPlan),
    Delivered,
    RetryScheduled(i64),
    Exhausted,
}

pub open spec fn delivery_plan_spec(
    event: Option<WebhookEvent>,
    endpoint: Option<WebhookRow>,
) -> DeliveryPlan {
    match event {
        None => DeliveryPlan::EventMissing,
        Some(e) => if is_terminal(e.status) {
            DeliveryPlan::AlreadyTerminal
        } else {
            match endpoint {
                Some(w) => if w.status == EndpointStatus::Active && w.id == e.endpoint_id {
                    DeliveryPlan::Post
                } else {
                    DeliveryPlan::EndpointUnavailable
                },
                None => DeliveryPlan::EndpointUnavailable,
            }
        },
    }
}

pub open spec fn update_after_attempt(attempts: u32, succeeded: bool, now: i64) -> OutboxUpdate {
    if succeeded {
        OutboxUpdate::MarkDelivered
    } else {
        match next_retry_at(attempts, now) {
            Some(t) => OutboxUpdate::ScheduleRetry(t),
            None => OutboxUpdate::MarkFailed,
        }
    }
}

/// Decides what to do with an event, given its row and the row of its
/// endpoint, each if it could be loaded.
pub fn plan_delivery(event: Option<&WebhookEvent>, endpoint: Option<&WebhookRow>) -> (r:
    DeliveryPlan)
    ensures
        r == delivery_plan_spec(
            match event {
                Some(e) => Some(*e),
                None => None,
            },
            match endpoint {
                Some(w) => Some(*w),
                None => None,
            },
        ),
{
    match event {
        None => DeliveryPlan::EventMissing,
        Some(e) => {
            if e.status != EventStatus::Pending {
                DeliveryPlan::AlreadyTerminal
            } else {
                match endpoint {
                    Some(w) => {
                        if w.status == EndpointStatus::Active && w.id == e.endpoint_id {
                            DeliveryPlan::Post
                        } else {
                            DeliveryPlan::EndpointUnavailable
                        }
                    },
                    None => DeliveryPlan::EndpointUnavailable,
                }
            }
        },
    }
}

/// Whether an HTTP status code counts as a delivered webhook: any 2xx.
pub fn is_success_status(code: u16) -> (r: bool)
    ensures
        r == (200 <= code <= 299),
{
    200 <= code && code <= 299
}

/// The outbox change after a POST, from the attempts made before it: a
/// success marks the row delivered; a failure schedules the next attempt, or
/// marks the row failed once the retries are spent.
pub fn after_attempt(attempts: u32, succeeded: bool, now: i64) -> (r: OutboxUpdate)
    requires
        valid_time(now),
    ensures
        r == update_after_attempt(attempts, succeeded, now),
        !succeeded && attempts >= MAX_RETRIES ==> r == OutboxUpdate::MarkFailed,
{
    if succeeded {
        OutboxUpdate::MarkDelivered
    } else {
        match compute_next_retry(attempts, now) {
            Some(t) => OutboxUpdate::ScheduleRetry(t),
            None => OutboxUpdate::MarkFailed,
        }
    }
}

impl Ledger {
    /// The outbox changed only in the status and retry fields of its rows.
    pub open spec fn outbox_step(&self, next: &Ledger) -> bool {
        &&& next.accounts == self.accounts
        &&& next.transactions == self.transactions
        &&& next.webhooks == self.webhooks
        &&& next.queue == self.queue
        &&& self.outbox.evolves_to(&next.outbox)
        &&& next.outbox.rows().len() == self.outbox.rows().len()
        &&& forall|i: int|
            0 <= i < self.outbox.rows().len() ==> (#[trigger] next.outbox.rows()[i]).payload
                == self.outbox.rows()[i].payload
    }

    pub open spec fn endpoint_row(&self, id: i64) -> Option<WebhookRow> {
        if 1 <= id <= self.webhooks@.len() {
            Some(self.webhooks@[id - 1])
        } else {
            None
        }
    }

    /// One turn of the delivery worker for `event_id`. When the plan is to
    /// POST, `post_succeeded` is the endpoint's answer; the outbox row then
    /// changes as `update_after_attempt` says. A skipped event changes nothing.
    pub fn process_delivery(&mut self, event_id: i64, post_succeeded: bool, now: i64) -> (r:
        DeliveryOutcome)
        requires
            old(self).wf(),
            valid_time(now),
        ensures
            final(self).wf(),
            old(self).outbox_step(&*final(self)),
            ({
                let ev = if old(self).outbox.has(event_id) {
                    Some(old(self).outbox.row(event_id))
                } else {
                    None
                };
                let ep = match ev {
                    Some(e) => old(self).endpoint_row(e.endpoint_id),
                    None => None,
                };
                let plan = delivery_plan_spec(ev, ep);
                if plan != DeliveryPlan::Post {
                    r == DeliveryOutcome::Skipped(plan) && *final(self) == *old(self)
                } else {
                    let e = old(self).outbox.row(event_id);
                    match update_after_attempt(e.attempt_count, post_succeeded, now) {
                        OutboxUpdate::MarkDelivered => r == DeliveryOutcome::Delivered
                            && final(self).outbox.rows() == old(self).outbox.rows().update(
                            event_id - 1,
                            WebhookEvent { status: EventStatus::Delivered, ..e },
                        ),
                        OutboxUpdate::ScheduleRetry(t) => r == DeliveryOutcome::RetryScheduled(t)
                            && final(self).outbox.rows() == old(self).outbox.rows().update(
                            event_id - 1,
                            WebhookEvent {
                                attempt_count: (e.attempt_count + 1) as u32,
                                next_retry_at: Some(t),
                                ..e
                            },
                        ),
                        OutboxUpdate::MarkFailed => r == DeliveryOutcome::Exhausted
                            && final(self).outbox.rows() == old(self).outbox.rows().update(
                            event_id - 1,
                            WebhookEvent { status: EventStatus::Failed, ..e },
                        ),
                    }
                }
            }),
    {
        let (plan, attempts) = {
            let event = self.outbox.load(event_id);
            match event {
                None => (plan_delivery(None, None), 0u32),
                Some(e) => {
                    let endpoint = if 1 <= e.endpoint_id && e.endpoint_id
                        <= self.webhooks.len() as i64 {
                        Some(&self.webhooks[(e.endpoint_id - 1) as usize])
                    } else {
                        None
                    };
                    (plan_delivery(Some(e), endpoint), e.attempt_count)
                },
            }
        };
        if plan != DeliveryPlan::Post {
            return DeliveryOutcome::Skipped(plan);
        }
        let ghost before = self.outbox.rows();
        let r = match after_attempt(attempts, post_succeeded, now) {
            OutboxUpdate::MarkDelivered => {
                self.outbox.mark_delivered(event_id);
                DeliveryOutcome::Delivered
            },
            OutboxUpdate::ScheduleRetry(t) => {
                self.outbox.schedule_retry(event_id, t);
                DeliveryOutcome::RetryScheduled(t)
            },
            OutboxUpdate::MarkFailed => {
                self.outbox.mark_failed(event_id);
                DeliveryOutcome::Exhausted
            },
        };
        assert forall|i: int| 0 <= i < before.len() implies (#[trigger] self.outbox.rows()[i]).payload
            == before[i].payload by {
            if i != event_id - 1 {
                assert(self.outbox.rows()[i] == before[i]);
            }
        }
        r
    }

    /// Hands every pending event that is due at `now` to the delivery queue,
    /// in the order of creation; returns how many.
    pub fn recover(&mut self, now: i64) -> (n: usize)
        requires
            old(self).wf(),
        ensures
            final(self).wf(),
            final(self).queue@ == old(self).queue@ + due_ids(old(self).outbox.rows(), now),
            n == due_ids(old(self).outbox.rows(), now).len(),
            final(self).accounts == old(self).accounts,
            final(self).transactions == old(self).transactions,
            final(self).webhooks == old(self).webhooks,
            final(self).outbox == old(self).outbox,
    {
        let due = self.outbox.list_pending_due(now);
        let mut i: usize = 0;
        let ghost start = self.queue@;
        while i < due.len()
            invariant
                i <= due@.len(),
                self.queue@ == start + due@.subrange(0, i as int),
                self.accounts == old(self).accounts,
                self.transactions == old(self).transactions,
                self.webhooks == old(self).webhooks,
                self.outbox == old(self).outbox,
                start == old(self).queue@,
            decreases due@.len() - i,
        {
            self.queue.push(due[i]);
            assert(due@.subrange(0, i + 1) =~= due@.subrange(0, i as int).push(due@[i as int]));
            i = i + 1;
        }
        assert(due@.subrange(0, i as int) =~= due@);
        due.len()
    }
}

} // verus!
