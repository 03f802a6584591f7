use webhook_retry::fetcher::DisputeStatus;
use webhook_retry::fetcher::DomainServiceResponse;
use webhook_retry::fetcher::MandateStatus;
use webhook_retry::fetcher::PaymentIntentStatus;
use webhook_retry::fetcher::PayoutStatus;
use webhook_retry::fetcher::RefundStatus;
use webhook_retry::fetcher::ResourceStatus;
use webhook_retry::fetcher::build_fetch_request;
use webhook_retry::fetcher::content_and_event_type;
use webhook_retry::schedule::OutgoingWebhookRetryProcessTrackerMapping;
use webhook_retry::schedule::RetryScheduleMapping;
use webhook_retry::types::EventClass;
use webhook_retry::types::EventType;
use webhook_retry::types::OutgoingWebhookContent;
use webhook_retry::types::OutgoingWebhookTrackingData;
use webhook_retry::types::WebhookRetryError;

fn tracking(event_class: EventClass, event_type: EventType) -> OutgoingWebhookTrackingData {
    OutgoingWebhookTrackingData {
        merchant_id: String::from("m_1"),
        business_profile_id: String::from("bp_1"),
        event_type,
        event_class,
        primary_object_id: String::from("obj_1"),
        initial_attempt_id: Some(String::from("evt_initial")),
    }
}

#[test]
fn fetch_request_never_forces_sync() {
    let t = tracking(EventClass::Payments, EventType::PaymentSucceeded);
    let request = build_fetch_request(&t).expect("a valid id must yield a request");
    assert!(!request.force_sync);
    assert_eq!(request.primary_object_id, "obj_1");
    assert_eq!(request.event_class, EventClass::Payments);
}

#[test]
fn fetch_request_rejects_malformed_ids() {
    let mut empty = tracking(EventClass::Payments, EventType::PaymentSucceeded);
    empty.primary_object_id = String::new();
    assert!(matches!(
        build_fetch_request(&empty),
        Err(WebhookRetryError::DeserializationFailed)
    ));
    let mut oversized = tracking(EventClass::Payments, EventType::PaymentSucceeded);
    oversized.primary_object_id = "x".repeat(65);
    assert!(matches!(
        build_fetch_request(&oversized),
        Err(WebhookRetryError::DeserializationFailed)
    ));
    let mut at_limit = tracking(EventClass::Payments, EventType::PaymentSucceeded);
    at_limit.primary_object_id = "x".repeat(64);
    assert!(build_fetch_request(&at_limit).is_ok());
}

#[test]
fn structured_content_is_classified_per_class() {
    let t = tracking(EventClass::Payments, EventType::PaymentSucceeded);
    let response = DomainServiceResponse::Json {
        status: ResourceStatus::Payment(PaymentIntentStatus::Succeeded),
        payload: String::from("{\"id\":\"obj_1\"}"),
    };
    let (content, current) = content_and_event_type(&t, response).expect("structured content");
    assert_eq!(current, Some(EventType::PaymentSucceeded));
    match content {
        OutgoingWebhookContent::PaymentDetails(payload) => {
            assert_eq!(payload, "{\"id\":\"obj_1\"}");
        }
        other => panic!("expected payment details, got {:?}", other),
    }
}

#[test]
fn non_content_shapes_are_fetch_failures() {
    let t = tracking(EventClass::Refunds, EventType::RefundSucceeded);
    for response in [
        DomainServiceResponse::StatusOk,
        DomainServiceResponse::TextPlain,
        DomainServiceResponse::JsonForRedirection,
        DomainServiceResponse::Form,
        DomainServiceResponse::GenericLinkForm,
        DomainServiceResponse::PaymentLinkForm,
        DomainServiceResponse::FileData,
    ] {
        match content_and_event_type(&t, response) {
            Err(WebhookRetryError::ResourceFetchingFailed { resource_name }) => {
                assert_eq!(resource_name, "obj_1");
            }
            other => panic!("expected a fetch failure, got {:?}", other),
        }
    }
}

#[test]
fn wrong_class_content_is_a_fetch_failure() {
    let t = tracking(EventClass::Payments, EventType::PaymentSucceeded);
    let response = DomainServiceResponse::Json {
        status: ResourceStatus::Refund(RefundStatus::Success),
        payload: String::from("{}"),
    };
    assert!(matches!(
        content_and_event_type(&t, response),
        Err(WebhookRetryError::ResourceFetchingFailed { .. })
    ));
}

#[test]
fn statuses_map_to_event_types() {
    assert_eq!(
        ResourceStatus::Payment(PaymentIntentStatus::Failed).event_type(),
        Some(EventType::PaymentFailed)
    );
    assert_eq!(
        ResourceStatus::Payment(PaymentIntentStatus::RequiresCustomerAction).event_type(),
        Some(EventType::ActionRequired)
    );
    assert_eq!(
        ResourceStatus::Refund(RefundStatus::Pending).event_type(),
        None
    );
    assert_eq!(
        ResourceStatus::Dispute(DisputeStatus::DisputeWon).event_type(),
        Some(EventType::DisputeWon)
    );
    assert_eq!(
        ResourceStatus::Mandate(MandateStatus::Revoked).event_type(),
        Some(EventType::MandateRevoked)
    );
    assert_eq!(
        ResourceStatus::Payout(PayoutStatus::Reversed).event_type(),
        Some(EventType::PayoutReversed)
    );
}

#[test]
fn event_type_tags_are_snake_case() {
    assert_eq!(EventType::PaymentSucceeded.tag(), "payment_succeeded");
    assert_eq!(EventType::ActionRequired.tag(), "action_required");
    assert_eq!(EventType::DisputeChallenged.tag(), "dispute_challenged");
    assert_eq!(EventType::PayoutProcessing.tag(), "payout_processing");
}

#[test]
fn two_step_mapping_config_builds() {
    let config = OutgoingWebhookRetryProcessTrackerMapping {
        default_mapping: RetryScheduleMapping {
            start_after: 30,
            frequency: vec![120, 600],
            count: vec![3, 2],
        },
        custom_merchant_mapping: vec![],
    };
    assert_eq!(config.default_mapping.frequency.len(), config.default_mapping.count.len());
}
