//! An in-memory store that runs the ledger's operations end to end: the
//! idempotency probe, row reads in lock order, validation, balance writes,
//! the transaction row, its outbox event and the hand-off to the delivery
//! queue, all or nothing.
use vstd::prelude::*;
use crate::ledger::{
    credit_result, debit_result, lock_order, plan_credit, plan_debit, plan_transfer,
    transfer_result, AccountStatus, LedgerError, LockedAccount, TransactionStatus,
    TransactionType,
};
use crate::outbox::{Outbox, TransactionEvent, WebhookEvent, EventStatus};
use crate::webhooks::{
    endpoint_status_of, first_active_endpoint, CreateWebhookRequest, EndpointStatus,
    UpdateWebhookRequest, WebhookRow,
};
use crate::accounts::{new_account_check, validate_new_account, AccountError, NewAccount};

verus! {

/// An account of a tenant; the balance is in minor currency units.
#[derive(Clone, Debug)]
pub struct Account {
    pub id: i64,
    pub business_id: i64,
    pub name: String,
    pub balance: u64,
    pub currency: String,
    pub status: AccountStatus,
    pub created_at: i64,
}

/// A committed transaction row.
#[derive(Clone, Debug)]
pub struct Transaction {
    pub id: i64,
    pub business_id: i64,
    pub from_account_id: Option<i64>,
    pub to_account_id: Option<i64>,
    pub txn_type: TransactionType,
    pub amount: u64,
    pub status: TransactionStatus,
    pub reference_id: Option<String>,
    pub idempotency_key: String,
    pub created_at: i64,
}

pub struct CreditRequest {
    pub to_account_id: i64,
    pub amount: u64,
    pub reference_id: Option<String>,
    pub idempotency_key: String,
}

pub struct DebitRequest {
    pub from_account_id: i64,
    pub amount: u64,
    pub reference_id: Option<String>,
    pub idempotency_key: String,
}

pub struct TransferRequest {
    pub from_account_id: i64,
    pub to_account_id: i64,
    pub amount: u64,
    pub reference_id: Option<String>,
    pub idempotency_key: String,
}

/// A successful money movement: newly committed, or a replay of the one
/// already committed under the same idempotency key.
#[derive(Clone, Copy, Debug, PartialEq, Eq, Structural)]
pub enum MoveOutcome {
    Created(i64),
    Replayed(i64),
}

impl MoveOutcome {
    pub open spec fn id_spec(&self) -> i64 {
        match *self {
            MoveOutcome::Created(t) => t,
            MoveOutcome::Replayed(t) => t,
        }
    }

    pub fn txn_id(&self) -> (r: i64)
        ensures
            r == match *self {
                MoveOutcome::Created(t) => t,
                MoveOutcome::Replayed(t) => t,
            },
    {
        match self {
            MoveOutcome::Created(t) => *t,
            MoveOutcome::Replayed(t) => *t,
        }
    }

    /// 201 for a new transaction, 200 for a replay.
    pub fn http_status(&self) -> (r: u16)
        ensures
            r == if *self is Created { 201u16 } else { 200u16 },
    {
        match self {
            MoveOutcome::Created(_) => 201,
            MoveOutcome::Replayed(_) => 200,
        }
    }
}

/// The committed transaction of a tenant under an idempotency key.
pub open spec fn find_txn(txns: Seq<Transaction>, tenant: i64, key: Seq<char>) -> Option<i64>
    decreases txns.len(),
{
    if txns.len() == 0 {
        None
    } else if txns.last().business_id == tenant && txns.last().idempotency_key@ == key {
        Some(txns.last().id)
    } else {
        find_txn(txns.drop_last(), tenant, key)
    }
}

pub open spec fn locked(a: Account) -> LockedAccount {
    LockedAccount { id: a.id, balance: a.balance, status: a.status }
}

/// The name of the event every committed movement emits.
pub open spec fn transaction_succeeded_text() -> Seq<char> {
    seq![
        't', 'r', 'a', 'n', 's', 'a', 'c', 't', 'i', 'o', 'n', '.', 's', 'u', 'c', 'c', 'e', 'e', 'd',
        'e', 'd',
    ]
}

/// The outbox row made for a transaction.
pub open spec fn event_for(e: WebhookEvent, t: Transaction, endpoint_id: i64) -> bool {
    &&& e.endpoint_id == endpoint_id
    &&& e.event_type@ == transaction_succeeded_text()
    &&& e.status == EventStatus::Pending
    &&& e.attempt_count == 0
    &&& e.next_retry_at == None::<i64>
    &&& e.created_at == t.created_at
    &&& e.payload.transaction_id == t.id
    &&& e.payload.kind == t.txn_type
    &&& e.payload.amount == t.amount
    &&& e.payload.from_account_id == t.from_account_id
    &&& e.payload.to_account_id == t.to_account_id
    &&& e.payload.tenant_id == t.business_id
    &&& e.payload.reference_id == t.reference_id
}

/// The transaction row a movement inserts.
pub open spec fn txn_row(
    t: Transaction,
    id: i64,
    tenant: i64,
    from: Option<i64>,
    to: Option<i64>,
    kind: TransactionType,
    amount: u64,
    reference_id: Option<String>,
    key: Seq<char>,
    now: i64,
) -> bool {
    &&& t.id == id
    &&& t.business_id == tenant
    &&& t.from_account_id == from
    &&& t.to_account_id == to
    &&& t.txn_type == kind
    &&& t.amount == amount
    &&& t.status == TransactionStatus::Succeeded
    &&& t.reference_id == reference_id
    &&& t.idempotency_key@ == key
    &&& t.created_at == now
}

/// Accounts, transactions, webhook endpoints, the outbox, and the event ids
/// handed to the delivery queue after each commit.
pub struct Ledger {
    pub accounts: Vec<Account>,
    pub transactions: Vec<Transaction>,
    pub webhooks: Vec<WebhookRow>,
    pub outbox: Outbox,
    pub queue: Vec<i64>,
}

fn clone_reference(r: &Option<String>) -> (c: Option<String>)
    ensures
        c == *r,
{
    match r {
        Some(s) => Some(s.clone()),
        None => None,
    }
}

impl Ledger {
    pub open spec fn wf(&self) -> bool {
        &&& self.outbox.wf()
        &&& self.accounts@.len() < i64::MAX
        &&& self.webhooks@.len() < i64::MAX
        &&& forall|i: int|
            0 <= i < self.accounts@.len() ==> (#[trigger] self.accounts@[i]).id == i + 1
        &&& forall|i: int|
            0 <= i < self.webhooks@.len() ==> (#[trigger] self.webhooks@[i]).id == i + 1
        &&& forall|i: int|
            0 <= i < self.transactions@.len() ==> (#[trigger] self.transactions@[i]).id == i + 1
                && self.transactions@[i].status == TransactionStatus::Succeeded
                && self.transactions@[i].amount > 0
        // one outbox row per committed transaction, made with it
        &&& self.outbox.rows().len() == self.transactions@.len()
        &&& forall|i: int|
            0 <= i < self.transactions@.len() ==> (#[trigger] self.outbox.rows()[i]).payload.transaction_id
                == self.transactions@[i].id
        // at most one transaction per tenant and idempotency key
        &&& forall|i: int, j: int|
            0 <= i < j < self.transactions@.len() ==> !(#[trigger] self.transactions@[i].business_id
                == #[trigger] self.transactions@[j].business_id
                && self.transactions@[i].idempotency_key@ == self.transactions@[j].idempotency_key@)
    }

    pub open spec fn has_account(&self, id: i64) -> bool {
        1 <= id <= self.accounts@.len()
    }

    /// The account exists and belongs to `tenant`.
    pub open spec fn owns_account(&self, tenant: i64, id: i64) -> bool {
        self.has_account(id) && self.account_row(id).business_id == tenant
    }

    pub open spec fn account_row(&self, id: i64) -> Account {
        self.accounts@[id - 1]
    }

    pub open spec fn active_endpoint(&self, tenant: i64) -> Option<i64> {
        first_active_endpoint(self.webhooks@, tenant)
    }

    /// Room for one more transaction id.
    pub open spec fn has_room(&self) -> bool {
        self.transactions@.len() < i64::MAX - 1
    }

    pub fn new() -> (r: Ledger)
        ensures
            r.wf(),
            r.accounts@.len() == 0,
            r.transactions@.len() == 0,
            r.webhooks@.len() == 0,
            r.outbox.rows().len() == 0,
            r.queue@.len() == 0,
    {
        Ledger {
            accounts: Vec::new(),
            transactions: Vec::new(),
            webhooks: Vec::new(),
            outbox: Outbox::new(),
            queue: Vec::new(),
        }
    }

    /// The committed transaction of `tenant` under `key`, if any.
    pub fn check_idempotency(&self, tenant: i64, key: &str) -> (r: Option<i64>)
        ensures
            r == find_txn(self.transactions@, tenant, key@),
    {
        let mut found: Option<i64> = None;
        let mut i: usize = 0;
        while i < self.transactions.len()
            invariant
                i <= self.transactions@.len(),
                found == find_txn(self.transactions@.subrange(0, i as int), tenant, key@),
            decreases self.transactions@.len() - i,
        {
            let t = &self.transactions[i];
            assert(self.transactions@.subrange(0, i + 1).drop_last() =~= self.transactions@.subrange(0, i as int));
            if t.business_id == tenant && crate::text::str_eq(t.idempotency_key.as_str(), key) {
                found = Some(t.id);
            }
            i = i + 1;
        }
        assert(self.transactions@.subrange(0, i as int) =~= self.transactions@);
        found
    }

    /// The row of an account of `tenant`, as read under its lock; `None` when
    /// no account has the id or it belongs to another tenant.
    pub fn lock_account(&self, tenant: i64, id: i64) -> (r: Option<LockedAccount>)
        requires
            self.wf(),
        ensures
            r == if self.owns_account(tenant, id) {
                Some(locked(self.account_row(id)))
            } else {
                None::<LockedAccount>
            },
    {
        if 1 <= id && id <= self.accounts.len() as i64 {
            let a = &self.accounts[(id - 1) as usize];
            if a.business_id == tenant {
                return Some(LockedAccount { id: a.id, balance: a.balance, status: a.status });
            }
        }
        None
    }

    /// The tenant's active webhook endpoint, the first one registered.
    pub fn get_webhook(&self, tenant: i64) -> (r: Option<i64>)
        ensures
            r == self.active_endpoint(tenant),
    {
        crate::webhooks::find_active_endpoint(&self.webhooks, tenant)
    }

    fn set_balance(&mut self, account_id: i64, balance: u64)
        requires
            old(self).wf(),
            old(self).has_account(account_id),
        ensures
            final(self).wf(),
            final(self).accounts@ == old(self).accounts@.update(
                account_id - 1,
                Account { balance, ..old(self).account_row(account_id) },
            ),
            final(self).transactions == old(self).transactions,
            final(self).webhooks == old(self).webhooks,
            final(self).outbox == old(self).outbox,
            final(self).queue == old(self).queue,
    {
        // the length read here bounds the index as a usize
        let count = self.accounts.len();
        let i = (account_id - 1) as usize;
        let ghost before = self.accounts@;
        self.accounts[i].balance = balance;
        assert(self.accounts@ =~= before.update(
            i as int,
            (Account { balance, ..before[i as int] }),
        ));
    }

    /// `next` is `self` after committing a movement: the accounts became
    /// `accounts`, and one transaction row, its outbox event and the event's
    /// place in the delivery queue were added.
    pub open spec fn commits(
        &self,
        next: &Ledger,
        r: Result<MoveOutcome, LedgerError>,
        accounts: Seq<Account>,
        tenant: i64,
        from: Option<i64>,
        to: Option<i64>,
        kind: TransactionType,
        amount: u64,
        reference_id: Option<String>,
        key: Seq<char>,
        now: i64,
    ) -> bool {
        let id = (self.transactions@.len() + 1) as i64;
        let t = next.transactions@.last();
        &&& r == Ok::<MoveOutcome, LedgerError>(MoveOutcome::Created(id))
        &&& next.accounts@ == accounts
        &&& next.webhooks@ == self.webhooks@
        &&& next.transactions@ == self.transactions@.push(t)
        &&& txn_row(t, id, tenant, from, to, kind, amount, reference_id, key, now)
        &&& next.outbox.rows() == self.outbox.rows().push(next.outbox.rows().last())
        &&& self.active_endpoint(tenant) is Some
        &&& event_for(next.outbox.rows().last(), t, self.active_endpoint(tenant)->Some_0)
        &&& next.queue@ == self.queue@.push(id)
    }

    fn commit_movement(
        &mut self,
        tenant: i64,
        from: Option<i64>,
        to: Option<i64>,
        kind: TransactionType,
        amount: u64,
        reference_id: Option<String>,
        key: String,
        endpoint_id: i64,
        now: i64,
    ) -> (id: i64)
        requires
            old(self).wf(),
            old(self).has_room(),
            old(self).outbox.admits_time(now),
            amount > 0,
            find_txn(old(self).transactions@, tenant, key@) is None,
        ensures
            final(self).wf(),
            id == old(self).transactions@.len() + 1,
            final(self).accounts@ == old(self).accounts@,
            final(self).webhooks@ == old(self).webhooks@,
            final(self).transactions@ == old(self).transactions@.push(final(self).transactions@.last()),
            txn_row(final(self).transactions@.last(), id, tenant, from, to, kind, amount, reference_id, key@, now),
            final(self).outbox.rows() == old(self).outbox.rows().push(final(self).outbox.rows().last()),
            event_for(final(self).outbox.rows().last(), final(self).transactions@.last(), endpoint_id),
            final(self).queue@ == old(self).queue@.push(id),
            find_txn(final(self).transactions@, tenant, key@) == Some(id),
    {
        proof {
            lemma_find_txn_none(self.transactions@, tenant, key@);
        }
        let id = self.transactions.len() as i64 + 1;
        let event = TransactionEvent {
            transaction_id: id,
            kind,
            amount,
            from_account_id: from,
            to_account_id: to,
            tenant_id: tenant,
            reference_id: clone_reference(&reference_id),
        };
        let txn = Transaction {
            id,
            business_id: tenant,
            from_account_id: from,
            to_account_id: to,
            txn_type: kind,
            amount,
            status: TransactionStatus::Succeeded,
            reference_id,
            idempotency_key: key,
            created_at: now,
        };
        let ghost old_txns = self.transactions@;
        self.transactions.push(txn);
        proof {
            reveal_strlit("transaction.succeeded");
        }
        let event_type = String::from_str(TRANSACTION_SUCCEEDED);
        assert(event_type@ =~= transaction_succeeded_text());
        let event_id = self.outbox.create(
            endpoint_id,
            event_type,
            event,
            now,
        );
        self.queue.push(event_id);
        assert(self.transactions@.drop_last() =~= old_txns);
        proof {
            assert forall|i: int, j: int|
                0 <= i < j < self.transactions@.len() implies !(
                #[trigger] self.transactions@[i].business_id == #[trigger] self.transactions@[j].business_id
                    && self.transactions@[i].idempotency_key@ == self.transactions@[j].idempotency_key@) by {
                if j < old_txns.len() {
                    assert(self.transactions@[i] == old_txns[i]);
                    assert(self.transactions@[j] == old_txns[j]);
                } else {
                    assert(self.transactions@[i] == old_txns[i]);
                }
            }
        }
        id
    }

    /// Credits an account of the tenant: a replay under a known idempotency key
    /// returns the committed transaction and changes nothing; an account that
    /// is missing or belongs to another tenant is not found; a refused credit changes
    /// nothing; otherwise the destination gains `amount`, and the transaction
    /// and its outbox event are committed together.
    pub fn credit(&mut self, tenant: i64, req: &CreditRequest, now: i64) -> (r: Result<
        MoveOutcome,
        LedgerError,
    >)
        requires
            old(self).wf(),
            old(self).has_room(),
            old(self).outbox.admits_time(now),
        ensures
            final(self).wf(),
            total_balance(final(self).accounts@) == total_balance(old(self).accounts@) + if r
                matches Ok(MoveOutcome::Created(_)) {
                signed_effect(TransactionType::Credit, req.amount)
            } else {
                0
            },
            r matches Ok(m) ==> find_txn(final(self).transactions@, tenant, req.idempotency_key@)
                == Some(m.id_spec()),
            match find_txn(old(self).transactions@, tenant, req.idempotency_key@) {
                Some(t) => r == Ok::<MoveOutcome, LedgerError>(MoveOutcome::Replayed(t))
                    && *final(self) == *old(self),
                None => if !old(self).owns_account(tenant, req.to_account_id) {
                    r == Err::<MoveOutcome, LedgerError>(LedgerError::AccountNotFound)
                        && *final(self) == *old(self)
                } else {
                    let a = old(self).account_row(req.to_account_id);
                    match credit_result(locked(a), req.amount, old(self).active_endpoint(tenant)) {
                        Err(e) => r == Err::<MoveOutcome, LedgerError>(e) && *final(self) == *old(self),
                        Ok(b) => old(self).commits(
                            &*final(self),
                            r,
                            old(self).accounts@.update(req.to_account_id - 1, Account { balance: b, ..a }),
                            tenant,
                            None,
                            Some(req.to_account_id),
                            TransactionType::Credit,
                            req.amount,
                            req.reference_id,
                            req.idempotency_key@,
                            now,
                        ),
                    }
                }
            },
    {
        if let Some(t) = self.check_idempotency(tenant, req.idempotency_key.as_str()) {
            return Ok(MoveOutcome::Replayed(t));
        }
        let dest = match self.lock_account(tenant, req.to_account_id) {
            Some(a) => a,
            None => return Err(LedgerError::AccountNotFound),
        };
        let endpoint = self.get_webhook(tenant);
        let balance = match plan_credit(dest, req.amount, endpoint) {
            Ok(b) => b,
            Err(e) => return Err(e),
        };
        let endpoint_id = match endpoint {
            Some(e) => e,
            None => return Err(LedgerError::NoWebhookEndpoint),
        };
        assert(self.has_account(req.to_account_id));
        let ghost before = self.accounts@;
        self.set_balance(req.to_account_id, balance);
        proof {
            lemma_total_balance_update(before, req.to_account_id - 1, self.accounts@[req.to_account_id - 1]);
        }
        let id = self.commit_movement(
            tenant,
            None,
            Some(req.to_account_id),
            TransactionType::Credit,
            req.amount,
            clone_reference(&req.reference_id),
            req.idempotency_key.clone(),
            endpoint_id,
            now,
        );
        Ok(MoveOutcome::Created(id))
    }

    /// Debits an account of the tenant: a replay returns the committed
    /// transaction and changes nothing; an account that is missing or belongs
    /// to another tenant is not found; a refused debit changes nothing;
    /// otherwise the source loses `amount`, and the transaction and its outbox
    /// event are committed together.
    pub fn debit(&mut self, tenant: i64, req: &DebitRequest, now: i64) -> (r: Result<
        MoveOutcome,
        LedgerError,
    >)
        requires
            old(self).wf(),
            old(self).has_room(),
            old(self).outbox.admits_time(now),
        ensures
            final(self).wf(),
            total_balance(final(self).accounts@) == total_balance(old(self).accounts@) + if r
                matches Ok(MoveOutcome::Created(_)) {
                signed_effect(TransactionType::Debit, req.amount)
            } else {
                0
            },
            r matches Ok(m) ==> find_txn(final(self).transactions@, tenant, req.idempotency_key@)
                == Some(m.id_spec()),
            match find_txn(old(self).transactions@, tenant, req.idempotency_key@) {
                Some(t) => r == Ok::<MoveOutcome, LedgerError>(MoveOutcome::Replayed(t))
                    && *final(self) == *old(self),
                None => if !old(self).owns_account(tenant, req.from_account_id) {
                    r == Err::<MoveOutcome, LedgerError>(LedgerError::AccountNotFound)
                        && *final(self) == *old(self)
                } else {
                    let a = old(self).account_row(req.from_account_id);
                    match debit_result(locked(a), req.amount, old(self).active_endpoint(tenant)) {
                        Err(e) => r == Err::<MoveOutcome, LedgerError>(e) && *final(self) == *old(self),
                        Ok(b) => old(self).commits(
                            &*final(self),
                            r,
                            old(self).accounts@.update(req.from_account_id - 1, Account { balance: b, ..a }),
                            tenant,
                            Some(req.from_account_id),
                            None,
                            TransactionType::Debit,
                            req.amount,
                            req.reference_id,
                            req.idempotency_key@,
                            now,
                        ),
                    }
                }
            },
    {
        if let Some(t) = self.check_idempotency(tenant, req.idempotency_key.as_str()) {
            return Ok(MoveOutcome::Replayed(t));
        }
        let src = match self.lock_account(tenant, req.from_account_id) {
            Some(a) => a,
            None => return Err(LedgerError::AccountNotFound),
        };
        let endpoint = self.get_webhook(tenant);
        let balance = match plan_debit(src, req.amount, endpoint) {
            Ok(b) => b,
            Err(e) => return Err(e),
        };
        let endpoint_id = match endpoint {
            Some(e) => e,
            None => return Err(LedgerError::NoWebhookEndpoint),
        };
        let ghost before = self.accounts@;
        self.set_balance(req.from_account_id, balance);
        proof {
            lemma_total_balance_update(before, req.from_account_id - 1, self.accounts@[req.from_account_id - 1]);
        }
        let id = self.commit_movement(
            tenant,
            Some(req.from_account_id),
            None,
            TransactionType::Debit,
            req.amount,
            clone_reference(&req.reference_id),
            req.idempotency_key.clone(),
            endpoint_id,
            now,
        );
        Ok(MoveOutcome::Created(id))
    }

    /// Transfers between two accounts of the tenant: a replay returns the
    /// committed transaction and changes nothing; an account that is missing
    /// or belongs to another tenant is not found; the rows are read in ascending order of
    /// id; a refused transfer changes nothing; otherwise the source loses and
    /// the destination gains `amount`, and the transaction and its outbox
    /// event are committed together.
    pub fn transfer(&mut self, tenant: i64, req: &TransferRequest, now: i64) -> (r: Result<
        MoveOutcome,
        LedgerError,
    >)
        requires
            old(self).wf(),
            old(self).has_room(),
            old(self).outbox.admits_time(now),
        ensures
            final(self).wf(),
            total_balance(final(self).accounts@) == total_balance(old(self).accounts@) + if r
                matches Ok(MoveOutcome::Created(_)) {
                signed_effect(TransactionType::Transfer, req.amount)
            } else {
                0
            },
            r matches Ok(m) ==> find_txn(final(self).transactions@, tenant, req.idempotency_key@)
                == Some(m.id_spec()),
            match find_txn(old(self).transactions@, tenant, req.idempotency_key@) {
                Some(t) => r == Ok::<MoveOutcome, LedgerError>(MoveOutcome::Replayed(t))
                    && *final(self) == *old(self),
                None => if !old(self).owns_account(tenant, req.from_account_id)
                    || !old(self).owns_account(tenant, req.to_account_id) {
                    r == Err::<MoveOutcome, LedgerError>(LedgerError::AccountNotFound)
                        && *final(self) == *old(self)
                } else {
                    let a = old(self).account_row(req.from_account_id);
                    let b = old(self).account_row(req.to_account_id);
                    match transfer_result(
                        locked(a),
                        locked(b),
                        req.amount,
                        old(self).active_endpoint(tenant),
                    ) {
                        Err(e) => r == Err::<MoveOutcome, LedgerError>(e) && *final(self) == *old(self),
                        Ok((x, y)) => old(self).commits(
                            &*final(self),
                            r,
                            old(self).accounts@.update(
                                req.from_account_id - 1,
                                Account { balance: x, ..a },
                            ).update(req.to_account_id - 1, Account { balance: y, ..b }),
                            tenant,
                            Some(req.from_account_id),
                            Some(req.to_account_id),
                            TransactionType::Transfer,
                            req.amount,
                            req.reference_id,
                            req.idempotency_key@,
                            now,
                        ),
                    }
                }
            },
    {
        if let Some(t) = self.check_idempotency(tenant, req.idempotency_key.as_str()) {
            return Ok(MoveOutcome::Replayed(t));
        }
        let (first, second) = lock_order(req.from_account_id, req.to_account_id);
        let first_row = match self.lock_account(tenant, first) {
            Some(a) => a,
            None => return Err(LedgerError::AccountNotFound),
        };
        let second_row = match self.lock_account(tenant, second) {
            Some(a) => a,
            None => return Err(LedgerError::AccountNotFound),
        };
        let (src, dest) = if first == req.from_account_id {
            (first_row, second_row)
        } else {
            (second_row, first_row)
        };
        let endpoint = self.get_webhook(tenant);
        let (from_balance, to_balance) = match plan_transfer(src, dest, req.amount, endpoint) {
            Ok(p) => p,
            Err(e) => return Err(e),
        };
        let endpoint_id = match endpoint {
            Some(e) => e,
            None => return Err(LedgerError::NoWebhookEndpoint),
        };
        let ghost before = self.accounts@;
        self.set_balance(req.from_account_id, from_balance);
        let ghost middle = self.accounts@;
        self.set_balance(req.to_account_id, to_balance);
        proof {
            lemma_total_balance_update(before, req.from_account_id - 1, middle[req.from_account_id - 1]);
            lemma_total_balance_update(middle, req.to_account_id - 1, self.accounts@[req.to_account_id - 1]);
        }
        let id = self.commit_movement(
            tenant,
            Some(req.from_account_id),
            Some(req.to_account_id),
            TransactionType::Transfer,
            req.amount,
            clone_reference(&req.reference_id),
            req.idempotency_key.clone(),
            endpoint_id,
            now,
        );
        Ok(MoveOutcome::Created(id))
    }
}

impl Ledger {
    /// The balance of an account, if it exists.
    pub fn balance_of(&self, account_id: i64) -> (r: Option<u64>)
        requires
            self.wf(),
        ensures
            r == if self.has_account(account_id) {
                Some(self.account_row(account_id).balance)
            } else {
                None::<u64>
            },
    {
        if 1 <= account_id && account_id <= self.accounts.len() as i64 {
            Some(self.accounts[(account_id - 1) as usize].balance)
        } else {
            None
        }
    }

    /// Opens an active account with a zero balance for a tenant, once the
    /// name and currency pass their checks; returns its id.
    pub fn create_account(&mut self, tenant: i64, new_account: NewAccount, now: i64) -> (r: Result<
        i64,
        AccountError,
    >)
        requires
            old(self).wf(),
            old(self).accounts@.len() < i64::MAX - 2,
        ensures
            final(self).wf(),
            match new_account_check(new_account.name@, new_account.currency@) {
                Err(e) => r == Err::<i64, AccountError>(e) && *final(self) == *old(self),
                Ok(_) => r == Ok::<i64, AccountError>((old(self).accounts@.len() + 1) as i64)
                    && final(self).accounts@ == old(self).accounts@.push(
                    Account {
                        id: (old(self).accounts@.len() + 1) as i64,
                        business_id: tenant,
                        name: new_account.name,
                        balance: 0,
                        currency: new_account.currency,
                        status: AccountStatus::Active,
                        created_at: now,
                    },
                ) && final(self).transactions == old(self).transactions
                    && final(self).webhooks == old(self).webhooks
                    && final(self).outbox == old(self).outbox
                    && final(self).queue == old(self).queue,
            },
    {
        if let Err(e) = validate_new_account(&new_account) {
            return Err(e);
        }
        let id = self.accounts.len() as i64 + 1;
        self.accounts.push(
            Account {
                id,
                business_id: tenant,
                name: new_account.name,
                balance: 0,
                currency: new_account.currency,
                status: AccountStatus::Active,
                created_at: now,
            },
        );
        Ok(id)
    }

    /// Registers an active endpoint for a tenant; returns its id.
    pub fn register_webhook(&mut self, tenant: i64, req: CreateWebhookRequest, secret: String) -> (id:
        i64)
        requires
            old(self).wf(),
            old(self).webhooks@.len() < i64::MAX - 2,
        ensures
            final(self).wf(),
            id == old(self).webhooks@.len() + 1,
            final(self).webhooks@ == old(self).webhooks@.push(
                WebhookRow {
                    id,
                    business_id: tenant,
                    url: req.url,
                    secret,
                    status: EndpointStatus::Active,
                },
            ),
            final(self).accounts == old(self).accounts,
            final(self).transactions == old(self).transactions,
            final(self).outbox == old(self).outbox,
            final(self).queue == old(self).queue,
    {
        let id = self.webhooks.len() as i64 + 1;
        self.webhooks.push(
            WebhookRow {
                id,
                business_id: tenant,
                url: req.url,
                secret,
                status: EndpointStatus::Active,
            },
        );
        id
    }

    pub open spec fn owns_endpoint(&self, tenant: i64, id: i64) -> bool {
        1 <= id <= self.webhooks@.len() && self.webhooks@[id - 1].business_id == tenant
    }

    /// Disables an endpoint of the tenant; returns the number of rows changed.
    pub fn disable_webhook(&mut self, tenant: i64, webhook_id: i64) -> (n: u64)
        requires
            old(self).wf(),
        ensures
            final(self).wf(),
            n == if old(self).owns_endpoint(tenant, webhook_id) { 1u64 } else { 0u64 },
            final(self).webhooks@ == if old(self).owns_endpoint(tenant, webhook_id) {
                old(self).webhooks@.update(
                    webhook_id - 1,
                    WebhookRow { status: EndpointStatus::Disabled, ..old(self).webhooks@[webhook_id - 1] },
                )
            } else {
                old(self).webhooks@
            },
            final(self).accounts == old(self).accounts,
            final(self).transactions == old(self).transactions,
            final(self).outbox == old(self).outbox,
            final(self).queue == old(self).queue,
    {
        if 1 <= webhook_id && webhook_id <= self.webhooks.len() as i64 {
            let i = (webhook_id - 1) as usize;
            if self.webhooks[i].business_id == tenant {
                let ghost before = self.webhooks@;
                self.webhooks[i].status = EndpointStatus::Disabled;
                assert(self.webhooks@ =~= before.update(
                    i as int,
                    (WebhookRow { status: EndpointStatus::Disabled, ..before[i as int] }),
                ));
                return 1;
            }
        }
        0
    }

    /// Changes the URL and status of an endpoint of the tenant, each where
    /// given. `None` when the status text is neither `active` nor `disabled`;
    /// otherwise the number of rows changed.
    pub fn update_webhook(&mut self, tenant: i64, webhook_id: i64, req: UpdateWebhookRequest) -> (r:
        Option<u64>)
        requires
            old(self).wf(),
        ensures
            final(self).wf(),
            final(self).accounts == old(self).accounts,
            final(self).transactions == old(self).transactions,
            final(self).outbox == old(self).outbox,
            final(self).queue == old(self).queue,
            ({
                let status = match req.status {
                    Some(t) => endpoint_status_of(t@),
                    None => None,
                };
                if req.status is Some && status is None {
                    r is None && final(self).webhooks@ == old(self).webhooks@
                } else if !old(self).owns_endpoint(tenant, webhook_id) {
                    r == Some(0u64) && final(self).webhooks@ == old(self).webhooks@
                } else {
                    let w = old(self).webhooks@[webhook_id - 1];
                    r == Some(1u64) && final(self).webhooks@ == old(self).webhooks@.update(
                        webhook_id - 1,
                        WebhookRow {
                            url: match req.url {
                                Some(u) => u,
                                None => w.url,
                            },
                            status: match status {
                                Some(st) => st,
                                None => w.status,
                            },
                            ..w
                        },
                    )
                }
            }),
    {
        let status = match &req.status {
            Some(t) => match EndpointStatus::from_text(t.as_str()) {
                Some(st) => Some(st),
                None => return None,
            },
            None => None,
        };
        if 1 <= webhook_id && webhook_id <= self.webhooks.len() as i64 {
            let i = (webhook_id - 1) as usize;
            if self.webhooks[i].business_id == tenant {
                let ghost before = self.webhooks@;
                if let Some(st) = status {
                    self.webhooks[i].status = st;
                }
                if let Some(u) = req.url {
                    self.webhooks[i].url = u;
                }
                assert(self.webhooks@ =~= before.update(
                    i as int,
                    (WebhookRow {
                        url: match req.url {
                            Some(u) => u,
                            None => before[i as int].url,
                        },
                        status: match status {
                            Some(st) => st,
                            None => before[i as int].status,
                        },
                        ..before[i as int]
                    }),
                ));
                return Some(1);
            }
        }
        Some(0)
    }
}

/// Without a match, no row of `txns` has the tenant and key.
pub proof fn lemma_find_txn_none(txns: Seq<Transaction>, tenant: i64, key: Seq<char>)
    ensures
        find_txn(txns, tenant, key) is None ==> forall|i: int|
            0 <= i < txns.len() ==> !(#[trigger] txns[i].business_id == tenant
                && txns[i].idempotency_key@ == key),
    decreases txns.len(),
{
    if txns.len() > 0 {
        lemma_find_txn_none(txns.drop_last(), tenant, key);
        if find_txn(txns, tenant, key) is None {
            assert forall|i: int| 0 <= i < txns.len() implies !(#[trigger] txns[i].business_id
                == tenant && txns[i].idempotency_key@ == key) by {
                if i < txns.len() - 1 {
                    assert(txns[i] == txns.drop_last()[i]);
                }
            }
        }
    }
}

/// The sum of the balances of `accts`.
pub open spec fn total_balance(accts: Seq<Account>) -> int
    decreases accts.len(),
{
    if accts.len() == 0 {
        0
    } else {
        total_balance(accts.drop_last()) + accts.last().balance
    }
}

/// What a movement does to the sum of balances: a credit adds its amount, a
/// debit takes it away, a transfer leaves the sum as it was.
pub open spec fn signed_effect(kind: TransactionType, amount: u64) -> int {
    match kind {
        TransactionType::Credit => amount as int,
        TransactionType::Debit => -(amount as int),
        TransactionType::Transfer => 0,
    }
}

/// Changing one balance changes the sum by the difference.
pub proof fn lemma_total_balance_update(accts: Seq<Account>, i: int, a: Account)
    requires
        0 <= i < accts.len(),
    ensures
        total_balance(accts.update(i, a)) == total_balance(accts) - accts[i].balance + a.balance,
    decreases accts.len(),
{
    let u = accts.update(i, a);
    if i < accts.len() - 1 {
        assert(u.drop_last() =~= accts.drop_last().update(i, a));
        lemma_total_balance_update(accts.drop_last(), i, a);
    } else {
        assert(u.drop_last() =~= accts.drop_last());
    }
}

pub const TRANSACTION_SUCCEEDED: &'static str = "transaction.succeeded";

} // verus!
