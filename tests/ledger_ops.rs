use payments_ledger::ledger::{lock_sequence, plan_movement};
use payments_ledger::accounts::{AccountError, NewAccount};
use payments_ledger::ledger::{
    lock_order, plan_credit, plan_debit, plan_transfer, AccountStatus, LedgerError,
    LockedAccount, TransactionStatus, TransactionType,
};
use payments_ledger::outbox::EventStatus;
use payments_ledger::store::{CreditRequest, DebitRequest, Ledger, MoveOutcome, TransferRequest};
use payments_ledger::webhooks::{CreateWebhookRequest, EndpointStatus, UpdateWebhookRequest};

const TENANT: i64 = 1;

fn ledger_with_accounts(n: usize, with_endpoint: bool) -> Ledger {
    let mut l = Ledger::new();
    for i in 0..n {
        let id = l
            .create_account(
                TENANT,
                NewAccount { name: format!("acct{}", i), currency: "USD".to_string() },
                1_000,
            )
            .unwrap();
        assert_eq!(id, i as i64 + 1);
    }
    if with_endpoint {
        l.register_webhook(
            TENANT,
            CreateWebhookRequest { url: "https://example.test/hook".to_string() },
            "s3cret".to_string(),
        );
    }
    l
}

fn credit(to: i64, amount: u64, key: &str) -> CreditRequest {
    CreditRequest {
        to_account_id: to,
        amount,
        reference_id: None,
        idempotency_key: key.to_string(),
    }
}

fn total(l: &Ledger) -> u128 {
    l.accounts.iter().map(|a| a.balance as u128).sum()
}

#[test]
fn credit_then_replay_returns_same_transaction() {
    let mut l = ledger_with_accounts(9, true);
    let first = l.credit(TENANT, &credit(7, 10_000, "K1"), 2_000).unwrap();
    assert_eq!(first.http_status(), 201);
    let t = first.txn_id();
    let again = l.credit(TENANT, &credit(7, 10_000, "K1"), 2_001).unwrap();
    assert_eq!(again, MoveOutcome::Replayed(t));
    assert_eq!(again.http_status(), 200);
    assert_eq!(l.balance_of(7), Some(10_000));
    assert_eq!(l.transactions.len(), 1);
    assert_eq!(l.outbox.events.len(), 1);
    let e = &l.outbox.events[0];
    assert_eq!(e.payload.kind, TransactionType::Credit);
    assert_eq!(e.payload.kind.as_text(), "credit");
    assert_eq!(e.payload.amount, 10_000);
    assert_eq!(e.payload.to_account_id, Some(7));
    assert_eq!(e.payload.from_account_id, None);
    assert_eq!(e.payload.transaction_id, t);
    assert_eq!(e.status, EventStatus::Pending);
    assert_eq!(e.attempt_count, 0);
    assert_eq!(e.event_type, "transaction.succeeded");
    assert_eq!(l.queue, vec![e.id]);
}

#[test]
fn debit_beyond_balance_is_refused() {
    let mut l = ledger_with_accounts(9, true);
    l.accounts[6].balance = 1_000;
    let r = l.debit(
        TENANT,
        &DebitRequest {
            from_account_id: 7,
            amount: 5_000,
            reference_id: None,
            idempotency_key: "D1".to_string(),
        },
        2_000,
    );
    assert_eq!(r, Err(LedgerError::InsufficientOrFrozen));
    assert_eq!(r.unwrap_err().reason(), "Insufficient balance or frozen account");
    assert_eq!(r.unwrap_err().http_status(), 400);
    assert_eq!(l.transactions.len(), 0);
    assert_eq!(l.outbox.events.len(), 0);
    assert_eq!(l.balance_of(7), Some(1_000));
}

#[test]
fn transfer_moves_funds_and_emits_event() {
    let mut l = ledger_with_accounts(9, true);
    l.credit(TENANT, &credit(7, 10_000, "seed"), 2_000).unwrap();
    let r = l
        .transfer(
            TENANT,
            &TransferRequest {
                from_account_id: 7,
                to_account_id: 9,
                amount: 2_500,
                reference_id: Some("inv-1".to_string()),
                idempotency_key: "T1".to_string(),
            },
            2_001,
        )
        .unwrap();
    assert_eq!(r.http_status(), 201);
    assert_eq!(l.balance_of(7), Some(7_500));
    assert_eq!(l.balance_of(9), Some(2_500));
    let e = l.outbox.events.last().unwrap();
    assert_eq!(e.payload.kind, TransactionType::Transfer);
    assert_eq!(e.payload.kind.as_text(), "transfer");
    assert_eq!(e.payload.from_account_id, Some(7));
    assert_eq!(e.payload.to_account_id, Some(9));
    assert_eq!(e.payload.reference_id, Some("inv-1".to_string()));
    assert_eq!(e.payload.transaction_id, r.txn_id());
}

#[test]
fn credit_without_endpoint_is_refused() {
    let mut l = ledger_with_accounts(9, false);
    let r = l.credit(TENANT, &credit(7, 10_000, "K1"), 2_000);
    assert_eq!(r, Err(LedgerError::NoWebhookEndpoint));
    assert_eq!(r.unwrap_err().reason(), "Register a Webhook First");
    assert_eq!(r.unwrap_err().http_status(), 404);
    assert_eq!(l.transactions.len(), 0);
    assert_eq!(l.balance_of(7), Some(0));
}

#[test]
fn disabled_endpoint_counts_as_none() {
    let mut l = ledger_with_accounts(2, true);
    assert_eq!(l.disable_webhook(TENANT, 1), 1);
    assert_eq!(l.get_webhook(TENANT), None);
    assert_eq!(l.credit(TENANT, &credit(1, 5, "k"), 1), Err(LedgerError::NoWebhookEndpoint));
}

#[test]
fn total_balance_moves_by_signed_amount() {
    let mut l = ledger_with_accounts(3, true);
    let t0 = total(&l);
    l.credit(TENANT, &credit(1, 700, "a"), 1).unwrap();
    assert_eq!(total(&l), t0 + 700);
    l.debit(
        TENANT,
        &DebitRequest { from_account_id: 1, amount: 200, reference_id: None, idempotency_key: "b".to_string() },
        2,
    )
    .unwrap();
    assert_eq!(total(&l), t0 + 500);
    l.transfer(
        TENANT,
        &TransferRequest {
            from_account_id: 1,
            to_account_id: 3,
            amount: 300,
            reference_id: None,
            idempotency_key: "c".to_string(),
        },
        3,
    )
    .unwrap();
    assert_eq!(total(&l), t0 + 500);
    assert_eq!(l.balance_of(1), Some(200));
    assert_eq!(l.balance_of(3), Some(300));
}

#[test]
fn idempotency_key_is_per_tenant() {
    let mut l = ledger_with_accounts(2, true);
    l.register_webhook(2, CreateWebhookRequest { url: "https://b.test".to_string() }, "x".to_string());
    let other = l
        .create_account(2, NewAccount { name: "b".to_string(), currency: "USD".to_string() }, 1)
        .unwrap();
    let a = l.credit(TENANT, &credit(1, 100, "same"), 1).unwrap();
    let b = l.credit(2, &credit(other, 100, "same"), 1).unwrap();
    assert_ne!(a.txn_id(), b.txn_id());
    assert_eq!(b, MoveOutcome::Created(2));
    // a replay with a different body still answers with the first transaction
    let c = l.credit(TENANT, &credit(2, 999, "same"), 1).unwrap();
    assert_eq!(c, MoveOutcome::Replayed(a.txn_id()));
    assert_eq!(l.transactions.len(), 2);
    assert_eq!(l.check_idempotency(TENANT, "same"), Some(a.txn_id()));
    assert_eq!(l.check_idempotency(3, "same"), None);
}

#[test]
fn debit_of_whole_balance_leaves_zero() {
    let mut l = ledger_with_accounts(1, true);
    l.credit(TENANT, &credit(1, 1_234, "in"), 1).unwrap();
    let r = l.debit(
        TENANT,
        &DebitRequest { from_account_id: 1, amount: 1_234, reference_id: None, idempotency_key: "out".to_string() },
        2,
    );
    assert!(r.is_ok());
    assert_eq!(l.balance_of(1), Some(0));
    let again = l.debit(
        TENANT,
        &DebitRequest { from_account_id: 1, amount: 1, reference_id: None, idempotency_key: "more".to_string() },
        3,
    );
    assert_eq!(again, Err(LedgerError::InsufficientOrFrozen));
    assert_eq!(l.balance_of(1), Some(0));
}

#[test]
fn each_commit_has_one_outbox_row() {
    let mut l = ledger_with_accounts(2, true);
    l.credit(TENANT, &credit(1, 100, "1"), 1).unwrap();
    l.credit(TENANT, &credit(1, 100, "1"), 1).unwrap();
    let _ = l.debit(
        TENANT,
        &DebitRequest { from_account_id: 2, amount: 100, reference_id: None, idempotency_key: "2".to_string() },
        1,
    );
    l.credit(TENANT, &credit(2, 50, "3"), 1).unwrap();
    assert_eq!(l.transactions.len(), 2);
    assert_eq!(l.outbox.events.len(), 2);
    for (t, e) in l.transactions.iter().zip(l.outbox.events.iter()) {
        assert_eq!(e.payload.transaction_id, t.id);
        assert_eq!(t.status, TransactionStatus::Succeeded);
        assert_eq!(t.status.as_text(), "succeeded");
    }
    assert_eq!(l.queue, vec![1, 2]);
}

#[test]
fn cross_transfers_cancel_out() {
    let mut l = ledger_with_accounts(2, true);
    l.credit(TENANT, &credit(1, 1_000, "a"), 1).unwrap();
    l.credit(TENANT, &credit(2, 400, "b"), 1).unwrap();
    let x = 300;
    let ab = TransferRequest { from_account_id: 1, to_account_id: 2, amount: x, reference_id: None, idempotency_key: "ab".to_string() };
    let ba = TransferRequest { from_account_id: 2, to_account_id: 1, amount: x, reference_id: None, idempotency_key: "ba".to_string() };
    l.transfer(TENANT, &ab, 2).unwrap();
    l.transfer(TENANT, &ba, 3).unwrap();
    assert_eq!(l.balance_of(1), Some(1_000));
    assert_eq!(l.balance_of(2), Some(400));
    assert_eq!(lock_order(1, 2), (1, 2));
    assert_eq!(lock_order(2, 1), (1, 2));
    assert_eq!(lock_order(9, 7), (7, 9));
}

#[test]
fn transfer_refusals() {
    let mut l = ledger_with_accounts(2, true);
    l.credit(TENANT, &credit(1, 1_000, "a"), 1).unwrap();
    let same = TransferRequest { from_account_id: 1, to_account_id: 1, amount: 10, reference_id: None, idempotency_key: "s".to_string() };
    assert_eq!(l.transfer(TENANT, &same, 2), Err(LedgerError::SameAccount));
    let zero = TransferRequest { from_account_id: 1, to_account_id: 2, amount: 0, reference_id: None, idempotency_key: "z".to_string() };
    assert_eq!(l.transfer(TENANT, &zero, 2), Err(LedgerError::InvalidAmount));
    let missing = TransferRequest { from_account_id: 1, to_account_id: 5, amount: 1, reference_id: None, idempotency_key: "m".to_string() };
    assert_eq!(l.transfer(TENANT, &missing, 2), Err(LedgerError::AccountNotFound));
    assert_eq!(LedgerError::AccountNotFound.http_status(), 404);
    l.accounts[1].status = AccountStatus::Frozen;
    let frozen = TransferRequest { from_account_id: 1, to_account_id: 2, amount: 1, reference_id: None, idempotency_key: "f".to_string() };
    assert_eq!(l.transfer(TENANT, &frozen, 2), Err(LedgerError::InsufficientOrFrozen));
    assert_eq!(l.transactions.len(), 1);
    assert_eq!(l.balance_of(1), Some(1_000));
}

#[test]
fn credit_refusals() {
    let mut l = ledger_with_accounts(2, true);
    assert_eq!(l.credit(TENANT, &credit(1, 0, "z"), 1), Err(LedgerError::InvalidAmount));
    assert_eq!(LedgerError::InvalidAmount.reason(), "Amount must be positive");
    assert_eq!(l.credit(TENANT, &credit(3, 1, "m"), 1), Err(LedgerError::AccountNotFound));
    l.accounts[0].balance = u64::MAX - 5;
    assert_eq!(l.credit(TENANT, &credit(1, 6, "o"), 1), Err(LedgerError::BalanceOverflow));
    assert_eq!(LedgerError::BalanceOverflow.http_status(), 400);
    assert!(l.credit(TENANT, &credit(1, 5, "p"), 1).is_ok());
    assert_eq!(l.balance_of(1), Some(u64::MAX));
    l.accounts[1].status = AccountStatus::Frozen;
    assert_eq!(l.credit(TENANT, &credit(2, 1, "f"), 1), Err(LedgerError::AccountFrozen));
    assert_eq!(LedgerError::AccountFrozen.reason(), "Account is frozen");
    assert_eq!(LedgerError::SameAccount.http_status(), 400);
}

#[test]
fn plan_functions_give_new_balances() {
    let a = LockedAccount { id: 7, balance: 10_000, status: AccountStatus::Active };
    let b = LockedAccount { id: 9, balance: 0, status: AccountStatus::Active };
    assert_eq!(plan_credit(a, 500, Some(1)), Ok(10_500));
    assert_eq!(plan_debit(a, 500, Some(1)), Ok(9_500));
    assert_eq!(plan_transfer(a, b, 2_500, Some(1)), Ok((7_500, 2_500)));
    assert_eq!(plan_debit(a, 500, None), Err(LedgerError::NoWebhookEndpoint));
    assert_eq!(plan_debit(a, 10_001, Some(1)), Err(LedgerError::InsufficientOrFrozen));
    let frozen = LockedAccount { status: AccountStatus::Frozen, ..a };
    assert_eq!(plan_credit(frozen, 1, Some(1)), Err(LedgerError::AccountFrozen));
    assert_eq!(plan_transfer(b, frozen, 0, Some(1)), Err(LedgerError::InvalidAmount));
}

#[test]
fn new_account_checks() {
    let mut l = Ledger::new();
    let blank = NewAccount { name: " \t ".to_string(), currency: "USD".to_string() };
    assert_eq!(l.create_account(TENANT, blank, 1), Err(AccountError::NameRequired));
    assert_eq!(AccountError::NameRequired.reason(), "Account name is required");
    let bad = NewAccount { name: "ops".to_string(), currency: "US".to_string() };
    assert_eq!(l.create_account(TENANT, bad, 1), Err(AccountError::InvalidCurrency));
    assert_eq!(AccountError::InvalidCurrency.reason(), "Invalid currency code");
    let ok = NewAccount { name: " ops ".to_string(), currency: "EUR".to_string() };
    assert_eq!(l.create_account(TENANT, ok, 1), Ok(1));
    assert_eq!(l.accounts[0].status, AccountStatus::Active);
    assert_eq!(l.balance_of(1), Some(0));
    assert_eq!(l.balance_of(2), None);
}

#[test]
fn endpoint_updates() {
    let mut l = ledger_with_accounts(1, true);
    let none = UpdateWebhookRequest { url: None, status: Some("paused".to_string()) };
    assert_eq!(l.update_webhook(TENANT, 1, none), None);
    let other = UpdateWebhookRequest { url: Some("https://x.test".to_string()), status: None };
    assert_eq!(l.update_webhook(2, 1, other), Some(0));
    assert_eq!(l.disable_webhook(2, 1), 0);
    let off = UpdateWebhookRequest { url: Some("https://new.test".to_string()), status: Some("disabled".to_string()) };
    assert_eq!(l.update_webhook(TENANT, 1, off), Some(1));
    assert_eq!(l.webhooks[0].url, "https://new.test");
    assert_eq!(l.webhooks[0].status, EndpointStatus::Disabled);
    let on = UpdateWebhookRequest { url: None, status: Some("active".to_string()) };
    assert_eq!(l.update_webhook(TENANT, 1, on), Some(1));
    assert_eq!(l.webhooks[0].url, "https://new.test");
    assert_eq!(l.get_webhook(TENANT), Some(1));
}

#[test]
fn status_texts() {
    assert_eq!(AccountStatus::from_text("active"), Some(AccountStatus::Active));
    assert_eq!(AccountStatus::from_text("frozen"), Some(AccountStatus::Frozen));
    assert_eq!(AccountStatus::from_text("Frozen"), None);
    assert_eq!(EndpointStatus::from_text("disabled"), Some(EndpointStatus::Disabled));
    assert_eq!(EventStatus::from_text("delivered"), Some(EventStatus::Delivered));
    assert_eq!(EventStatus::from_text("pending"), Some(EventStatus::Pending));
    assert_eq!(EventStatus::from_text("failed"), Some(EventStatus::Failed));
    assert_eq!(EventStatus::from_text(""), None);
    assert_eq!(TransactionType::Debit.as_text(), "debit");
    assert_eq!(TransactionStatus::Pending.as_text(), "pending");
    assert_eq!(TransactionStatus::Failed.as_text(), "failed");
}

#[test]
fn accounts_of_other_tenants_are_not_found() {
    let mut l = ledger_with_accounts(2, true);
    l.credit(TENANT, &credit(1, 1_000, "seed"), 1).unwrap();
    l.register_webhook(2, CreateWebhookRequest { url: "https://b.test".to_string() }, "x".to_string());
    let foreign = 2;
    let debit = DebitRequest { from_account_id: 1, amount: 500, reference_id: None, idempotency_key: "steal".to_string() };
    assert_eq!(l.debit(foreign, &debit, 2), Err(LedgerError::AccountNotFound));
    assert_eq!(l.credit(foreign, &credit(1, 5, "gift"), 2), Err(LedgerError::AccountNotFound));
    let t = TransferRequest { from_account_id: 1, to_account_id: 2, amount: 1, reference_id: None, idempotency_key: "move".to_string() };
    assert_eq!(l.transfer(foreign, &t, 2), Err(LedgerError::AccountNotFound));
    assert_eq!(LedgerError::AccountNotFound.http_status(), 404);
    assert_eq!(LedgerError::AccountNotFound.reason(), "Account not found");
    assert_eq!(l.balance_of(1), Some(1_000));
    assert_eq!(l.transactions.len(), 1);
    assert_eq!(l.outbox.events.len(), 1);
}

#[test]
fn movement_plans_and_lock_sequences() {
    let a = LockedAccount { id: 9, balance: 10_000, status: AccountStatus::Active };
    let b = LockedAccount { id: 7, balance: 0, status: AccountStatus::Active };
    assert_eq!(lock_sequence(Some(9), Some(7)), vec![7, 9]);
    assert_eq!(lock_sequence(Some(9), None), vec![9]);
    assert_eq!(lock_sequence(None, Some(7)), vec![7]);
    assert_eq!(plan_movement(TransactionType::Transfer, Some(a), Some(b), 2_500, Some(1)), Ok(vec![(9, 7_500), (7, 2_500)]));
    assert_eq!(plan_movement(TransactionType::Credit, None, Some(b), 100, Some(1)), Ok(vec![(7, 100)]));
    assert_eq!(plan_movement(TransactionType::Debit, Some(a), None, 100, Some(1)), Ok(vec![(9, 9_900)]));
    assert_eq!(plan_movement(TransactionType::Transfer, Some(a), None, 100, Some(1)), Err(LedgerError::AccountNotFound));
    assert_eq!(plan_movement(TransactionType::Debit, Some(b), None, 100, Some(1)), Err(LedgerError::InsufficientOrFrozen));
}

#[test]
fn refusal_reason_texts() {
    assert_eq!(LedgerError::SameAccount.reason(), "Source and destination accounts must differ");
    assert_eq!(LedgerError::NoWebhookEndpoint.reason(), "Register a Webhook First");
    assert_eq!(LedgerError::InsufficientOrFrozen.reason(), "Insufficient balance or frozen account");
}
