use payments_ledger::accounts::NewAccount;
use payments_ledger::delivery::{
    after_attempt, is_success_status, plan_delivery, DeliveryOutcome, DeliveryPlan, OutboxUpdate,
};
use payments_ledger::ledger::TransactionType;
use payments_ledger::outbox::{EventStatus, Outbox, TransactionEvent};
use payments_ledger::scheduler::{
    compute_next_retry, parse_webhook_retry_key, retry_delay_secs, retry_key, retry_ttl_secs,
    MAX_RETRIES, RESUBSCRIBE_DELAY_SECS,
};
use payments_ledger::store::{CreditRequest, Ledger};
use payments_ledger::webhooks::CreateWebhookRequest;

fn payload(id: i64) -> TransactionEvent {
    TransactionEvent {
        transaction_id: id,
        kind: TransactionType::Credit,
        amount: 100,
        from_account_id: None,
        to_account_id: Some(1),
        tenant_id: 1,
        reference_id: None,
    }
}

fn ledger_with_event() -> Ledger {
    let mut l = Ledger::new();
    l.create_account(1, NewAccount { name: "a".to_string(), currency: "USD".to_string() }, 0)
        .unwrap();
    l.register_webhook(1, CreateWebhookRequest { url: "https://h.test".to_string() }, "s".to_string());
    l.credit(
        1,
        &CreditRequest { to_account_id: 1, amount: 100, reference_id: None, idempotency_key: "k".to_string() },
        1_000,
    )
    .unwrap();
    l
}

#[test]
fn failing_endpoint_exhausts_after_four_retries() {
    let mut l = ledger_with_event();
    let mut now: i64 = 1_000;
    let mut gaps = Vec::new();
    for _ in 0..4 {
        match l.process_delivery(1, false, now) {
            DeliveryOutcome::RetryScheduled(at) => {
                gaps.push(at - now);
                now = at;
            }
            other => panic!("unexpected {:?}", other),
        }
    }
    assert_eq!(gaps, vec![30, 120, 600, 3600]);
    assert_eq!(l.outbox.events[0].attempt_count, 4);
    assert_eq!(l.outbox.events[0].status, EventStatus::Pending);
    assert_eq!(l.process_delivery(1, false, now), DeliveryOutcome::Exhausted);
    assert_eq!(l.outbox.events[0].status, EventStatus::Failed);
    assert_eq!(l.outbox.events[0].attempt_count, 4);
    // the terminal row is never posted again
    assert_eq!(
        l.process_delivery(1, true, now + 10_000),
        DeliveryOutcome::Skipped(DeliveryPlan::AlreadyTerminal)
    );
    assert_eq!(l.outbox.events[0].status, EventStatus::Failed);
}

#[test]
fn successful_post_marks_delivered() {
    let mut l = ledger_with_event();
    assert_eq!(l.process_delivery(1, false, 5_000), DeliveryOutcome::RetryScheduled(5_030));
    assert_eq!(l.outbox.events[0].next_retry_at, Some(5_030));
    assert_eq!(l.process_delivery(1, true, 5_030), DeliveryOutcome::Delivered);
    assert_eq!(l.outbox.events[0].status, EventStatus::Delivered);
    assert_eq!(l.outbox.events[0].attempt_count, 1);
    assert_eq!(
        l.process_delivery(1, false, 6_000),
        DeliveryOutcome::Skipped(DeliveryPlan::AlreadyTerminal)
    );
    assert_eq!(l.outbox.events[0].status, EventStatus::Delivered);
}

#[test]
fn missing_event_and_disabled_endpoint_are_skipped() {
    let mut l = ledger_with_event();
    assert_eq!(l.process_delivery(9, true, 1), DeliveryOutcome::Skipped(DeliveryPlan::EventMissing));
    l.disable_webhook(1, 1);
    assert_eq!(
        l.process_delivery(1, true, 1),
        DeliveryOutcome::Skipped(DeliveryPlan::EndpointUnavailable)
    );
    assert_eq!(l.outbox.events[0].status, EventStatus::Pending);
    assert_eq!(plan_delivery(None, None), DeliveryPlan::EventMissing);
    assert_eq!(plan_delivery(Some(&l.outbox.events[0]), None), DeliveryPlan::EndpointUnavailable);
}

#[test]
fn terminal_states_are_absorbing() {
    let mut o = Outbox::new();
    let a = o.create(1, "transaction.succeeded".to_string(), payload(1), 10);
    let b = o.create(1, "transaction.succeeded".to_string(), payload(2), 11);
    assert_eq!((a, b), (1, 2));
    assert!(o.mark_delivered(a));
    assert!(!o.mark_failed(a));
    assert!(!o.schedule_retry(a, 99));
    assert_eq!(o.events[0].status, EventStatus::Delivered);
    assert!(o.mark_failed(b));
    assert!(!o.mark_delivered(b));
    assert_eq!(o.events[1].status, EventStatus::Failed);
    assert!(!o.mark_delivered(3));
    assert!(o.load(3).is_none());
    assert_eq!(o.load(2).unwrap().id, 2);
}

#[test]
fn retry_budget_caps_attempts() {
    let mut o = Outbox::new();
    let id = o.create(1, "transaction.succeeded".to_string(), payload(1), 10);
    for i in 0..4 {
        assert!(o.schedule_retry(id, 100 + i));
    }
    assert!(!o.schedule_retry(id, 200));
    assert_eq!(o.events[0].attempt_count, MAX_RETRIES);
    assert_eq!(o.events[0].next_retry_at, Some(103));
    assert_eq!(after_attempt(4, false, 0), OutboxUpdate::MarkFailed);
    assert_eq!(after_attempt(7, false, 0), OutboxUpdate::MarkFailed);
    assert_eq!(after_attempt(3, false, 0), OutboxUpdate::ScheduleRetry(3600));
    assert_eq!(after_attempt(4, true, 0), OutboxUpdate::MarkDelivered);
}

#[test]
fn pending_due_in_creation_order() {
    let mut l = ledger_with_event();
    for k in ["k2", "k3"] {
        l.credit(
            1,
            &CreditRequest { to_account_id: 1, amount: 1, reference_id: None, idempotency_key: k.to_string() },
            1_001,
        )
        .unwrap();
    }
    l.process_delivery(2, false, 2_000);
    l.process_delivery(3, true, 2_000);
    assert_eq!(l.outbox.list_pending_due(2_000), vec![1]);
    assert_eq!(l.outbox.list_pending_due(2_030), vec![1, 2]);
    l.queue.clear();
    assert_eq!(l.recover(2_030), 2);
    assert_eq!(l.queue, vec![1, 2]);
}

#[test]
fn retry_schedule_values() {
    assert_eq!(retry_delay_secs(0), Some(30));
    assert_eq!(retry_delay_secs(1), Some(120));
    assert_eq!(retry_delay_secs(2), Some(600));
    assert_eq!(retry_delay_secs(3), Some(3600));
    assert_eq!(retry_delay_secs(4), None);
    assert_eq!(compute_next_retry(0, 1_700_000_000), Some(1_700_000_030));
    assert_eq!(compute_next_retry(2, 1_700_000_000), Some(1_700_000_600));
    assert_eq!(compute_next_retry(4, 1_700_000_000), None);
    assert_eq!(RESUBSCRIBE_DELAY_SECS, 2);
}

#[test]
fn retry_keys_round_trip() {
    assert_eq!(retry_key(42), "webhook:retry:42");
    assert_eq!(retry_key(0), "webhook:retry:0");
    assert_eq!(retry_key(-5), "webhook:retry:-5");
    assert_eq!(retry_key(i64::MIN), format!("webhook:retry:{}", i64::MIN));
    for id in [0, 7, 10, 99, 1_000_000, i64::MAX, i64::MIN, -1] {
        assert_eq!(parse_webhook_retry_key(&retry_key(id)), Some(id));
    }
}

#[test]
fn foreign_or_malformed_keys_are_ignored() {
    assert_eq!(parse_webhook_retry_key("webhook:retry:123"), Some(123));
    assert_eq!(parse_webhook_retry_key("webhook:retry:+7"), Some(7));
    assert_eq!(parse_webhook_retry_key("webhook:retry:"), None);
    assert_eq!(parse_webhook_retry_key("webhook:retry:-"), None);
    assert_eq!(parse_webhook_retry_key("webhook:retry:12a"), None);
    assert_eq!(parse_webhook_retry_key("webhook:retry: 1"), None);
    assert_eq!(parse_webhook_retry_key("webhook:retry:9223372036854775808"), None);
    assert_eq!(parse_webhook_retry_key("webhook:retry:-9223372036854775808"), Some(i64::MIN));
    assert_eq!(parse_webhook_retry_key("webhook:retry:99999999999999999999"), None);
    assert_eq!(parse_webhook_retry_key("rate_limit:1.2.3.4"), None);
    assert_eq!(parse_webhook_retry_key("webhook:retr"), None);
    assert_eq!(parse_webhook_retry_key(""), None);
}

#[test]
fn timer_ttl_is_at_least_one_second() {
    assert_eq!(retry_ttl_secs(1_030, 1_000), 30);
    assert_eq!(retry_ttl_secs(1_000, 1_000), 1);
    assert_eq!(retry_ttl_secs(900, 1_000), 1);
    assert_eq!(retry_ttl_secs(i64::MAX, i64::MIN), u64::MAX);
}

#[test]
fn success_status_is_2xx() {
    assert!(is_success_status(200));
    assert!(is_success_status(204));
    assert!(is_success_status(299));
    assert!(!is_success_status(199));
    assert!(!is_success_status(300));
    assert!(!is_success_status(500));
}

#[test]
fn clock_reads_current_unix_seconds() {
    let now = payments_ledger::scheduler::current_time();
    // later than 2020-09-13 and within the range timestamps are kept in
    assert!(now > 1_600_000_000);
    assert!(now <= i64::MAX / 2);
    assert_eq!(compute_next_retry(1, now), Some(now + 120));
}
