use webhook_retry::event_log::EventStore;
use webhook_retry::ids::derive_idempotent_id;
use webhook_retry::ids::derive_legacy_event_id;
use webhook_retry::types::Event;
use webhook_retry::types::EventClass;
use webhook_retry::types::EventType;
use webhook_retry::types::WebhookDeliveryAttempt;

fn sample_event(event_id: &str, merchant_id: &str) -> Event {
    Event {
        event_id: String::from(event_id),
        event_type: EventType::PaymentSucceeded,
        event_class: EventClass::Payments,
        is_webhook_notified: false,
        primary_object_id: String::from("pay_1"),
        created_at: 1_700_000_000,
        merchant_id: Some(String::from(merchant_id)),
        business_profile_id: Some(String::from("bp_1")),
        idempotent_event_id: None,
        initial_attempt_id: None,
        request: None,
        response: None,
        delivery_attempt: Some(WebhookDeliveryAttempt::InitialAttempt),
        is_overall_delivery_successful: None,
    }
}

#[test]
fn idempotent_id_is_stable_across_calls() {
    let first = derive_idempotent_id(
        "pay_1",
        EventType::PaymentSucceeded,
        WebhookDeliveryAttempt::AutomaticRetry,
    );
    let second = derive_idempotent_id(
        "pay_1",
        EventType::PaymentSucceeded,
        WebhookDeliveryAttempt::AutomaticRetry,
    );
    assert_eq!(first, second);
    assert_eq!(first, "pay_1_payment_succeeded_automatic_retry");
}

#[test]
fn idempotent_id_differs_between_attempt_kinds() {
    let automatic = derive_idempotent_id(
        "pay_1",
        EventType::PaymentSucceeded,
        WebhookDeliveryAttempt::AutomaticRetry,
    );
    let initial = derive_idempotent_id(
        "pay_1",
        EventType::PaymentSucceeded,
        WebhookDeliveryAttempt::InitialAttempt,
    );
    let manual = derive_idempotent_id(
        "pay_1",
        EventType::PaymentSucceeded,
        WebhookDeliveryAttempt::ManualRetry,
    );
    assert_ne!(automatic, initial);
    assert_ne!(automatic, manual);
    assert_ne!(initial, manual);
    assert_eq!(initial, "pay_1_payment_succeeded_initial");
    assert_eq!(manual, "pay_1_payment_succeeded_manual_retry");
}

#[test]
fn legacy_key_is_object_id_and_event_type() {
    let key = derive_legacy_event_id("pay_1", EventType::RefundSucceeded);
    assert_eq!(key, "pay_1_refund_succeeded");
}

#[test]
fn store_finds_inserted_event_by_id() {
    let mut store = EventStore::new();
    let stored = store.insert(sample_event("evt_1", "m_1"));
    assert_eq!(stored.event_id, "evt_1");
    assert!(store.has_event_id(&String::from("evt_1")));
    assert!(!store.has_event_id(&String::from("evt_2")));
    let found = store.find_by_event_id(&String::from("m_1"), &String::from("evt_1"));
    assert!(found.is_some());
    assert_eq!(found.unwrap().primary_object_id, "pay_1");
}

#[test]
fn store_scopes_lookup_to_merchant() {
    let mut store = EventStore::new();
    store.insert(sample_event("evt_1", "m_1"));
    let other_merchant = store.find_by_event_id(&String::from("m_2"), &String::from("evt_1"));
    assert!(other_merchant.is_none());
    let missing = store.find_by_event_id(&String::from("m_1"), &String::from("evt_9"));
    assert!(missing.is_none());
}

#[test]
fn store_resolves_legacy_jobs_under_composite_key() {
    let mut store = EventStore::new();
    let legacy_id = derive_legacy_event_id("pay_1", EventType::PaymentSucceeded);
    let mut legacy_event = sample_event("ignored", "m_1");
    legacy_event.event_id = legacy_id;
    store.insert(legacy_event);
    let found = store.find_by_legacy_key(
        &String::from("m_1"),
        &String::from("pay_1"),
        EventType::PaymentSucceeded,
    );
    assert!(found.is_some());
    assert_eq!(found.unwrap().event_id, "pay_1_payment_succeeded");
    let wrong_type = store.find_by_legacy_key(
        &String::from("m_1"),
        &String::from("pay_1"),
        EventType::PaymentFailed,
    );
    assert!(wrong_type.is_none());
}

#[test]
fn missing_event_escalates_as_not_found() {
    let store = EventStore::new();
    let found = store.find_by_event_id(&String::from("m_1"), &String::from("evt_1"));
    let resolved = EventStore::require_event(found);
    assert!(matches!(
        resolved,
        Err(webhook_retry::types::WebhookRetryError::NotFound)
    ));
}
