//! Core data model of the retry engine: resource classes, event types,
//! delivery-attempt kinds, the job's tracking payload, the persisted event
//! record, and the engine's error taxonomy.

use vstd::prelude::*;

verus! {

/// The resource category a notification concerns.
#[derive(Clone, Copy, Debug, PartialEq, Eq, Structural)]
pub enum EventClass {
    Payments,
    Refunds,
    Disputes,
    Mandates,
    Payouts,
}

/// Why a notification is being sent: first try, engine-scheduled retry, or
/// operator-triggered retry.
#[derive(Clone, Copy, Debug, PartialEq, Eq, Structural)]
pub enum WebhookDeliveryAttempt {
    InitialAttempt,
    AutomaticRetry,
    ManualRetry,
}

/// The notification type recorded on an event, derived from the state of the
/// underlying resource.
#[derive(Clone, Copy, Debug, PartialEq, Eq, Structural)]
pub enum EventType {
    PaymentSucceeded,
    PaymentFailed,
    PaymentProcessing,
    PaymentCancelled,
    PaymentAuthorized,
    PaymentCaptured,
    ActionRequired,
    RefundSucceeded,
    RefundFailed,
    DisputeOpened,
    DisputeExpired,
    DisputeAccepted,
    DisputeCancelled,
    DisputeChallenged,
    DisputeWon,
    DisputeLost,
    MandateActive,
    MandateRevoked,
    PayoutSuccess,
    PayoutFailed,
    PayoutInitiated,
    PayoutProcessing,
    PayoutCancelled,
    PayoutExpired,
    PayoutReversed,
}

/// The stable textual tag of an event type, as it appears in derived
/// identifiers such as the idempotent event id and the legacy lookup key.
pub open spec fn event_type_tag(event_type: EventType) -> Seq<char> {
    match event_type {
        EventType::PaymentSucceeded => "payment_succeeded"@,
        EventType::PaymentFailed => "payment_failed"@,
        EventType::PaymentProcessing => "payment_processing"@,
        EventType::PaymentCancelled => "payment_cancelled"@,
        EventType::PaymentAuthorized => "payment_authorized"@,
        EventType::PaymentCaptured => "payment_captured"@,
        EventType::ActionRequired => "action_required"@,
        EventType::RefundSucceeded => "refund_succeeded"@,
        EventType::RefundFailed => "refund_failed"@,
        EventType::DisputeOpened => "dispute_opened"@,
        EventType::DisputeExpired => "dispute_expired"@,
        EventType::DisputeAccepted => "dispute_accepted"@,
        EventType::DisputeCancelled => "dispute_cancelled"@,
        EventType::DisputeChallenged => "dispute_challenged"@,
        EventType::DisputeWon => "dispute_won"@,
        EventType::DisputeLost => "dispute_lost"@,
        EventType::MandateActive => "mandate_active"@,
        EventType::MandateRevoked => "mandate_revoked"@,
        EventType::PayoutSuccess => "payout_success"@,
        EventType::PayoutFailed => "payout_failed"@,
        EventType::PayoutInitiated => "payout_initiated"@,
        EventType::PayoutProcessing => "payout_processing"@,
        EventType::PayoutCancelled => "payout_cancelled"@,
        EventType::PayoutExpired => "payout_expired"@,
        EventType::PayoutReversed => "payout_reversed"@,
    }
}

impl EventType {
    pub fn tag(&self) -> (r: &'static str)
        ensures
            r@ == event_type_tag(*self),
    {
        match self {
            EventType::PaymentSucceeded => "payment_succeeded",
            EventType::PaymentFailed => "payment_failed",
            EventType::PaymentProcessing => "payment_processing",
            EventType::PaymentCancelled => "payment_cancelled",
            EventType::PaymentAuthorized => "payment_authorized",
            EventType::PaymentCaptured => "payment_captured",
            EventType::ActionRequired => "action_required",
            EventType::RefundSucceeded => "refund_succeeded",
            EventType::RefundFailed => "refund_failed",
            EventType::DisputeOpened => "dispute_opened",
            EventType::DisputeExpired => "dispute_expired",
            EventType::DisputeAccepted => "dispute_accepted",
            EventType::DisputeCancelled => "dispute_cancelled",
            EventType::DisputeChallenged => "dispute_challenged",
            EventType::DisputeWon => "dispute_won",
            EventType::DisputeLost => "dispute_lost",
            EventType::MandateActive => "mandate_active",
            EventType::MandateRevoked => "mandate_revoked",
            EventType::PayoutSuccess => "payout_success",
            EventType::PayoutFailed => "payout_failed",
            EventType::PayoutInitiated => "payout_initiated",
            EventType::PayoutProcessing => "payout_processing",
            EventType::PayoutCancelled => "payout_cancelled",
            EventType::PayoutExpired => "payout_expired",
            EventType::PayoutReversed => "payout_reversed",
        }
    }
}

/// The stable textual tag of a delivery-attempt kind. The three tags have
/// pairwise distinct lengths, which keeps derived identifiers distinct
/// between attempt kinds.
pub open spec fn delivery_attempt_tag(attempt: WebhookDeliveryAttempt) -> Seq<char> {
    match attempt {
        WebhookDeliveryAttempt::InitialAttempt => "initial"@,
        WebhookDeliveryAttempt::AutomaticRetry => "automatic_retry"@,
        WebhookDeliveryAttempt::ManualRetry => "manual_retry"@,
    }
}

impl WebhookDeliveryAttempt {
    pub fn tag(&self) -> (r: &'static str)
        ensures
            r@ == delivery_attempt_tag(*self),
    {
        match self {
            WebhookDeliveryAttempt::InitialAttempt => "initial",
            WebhookDeliveryAttempt::AutomaticRetry => "automatic_retry",
            WebhookDeliveryAttempt::ManualRetry => "manual_retry",
        }
    }
}

/// The opaque job payload persisted by the job store: everything the engine
/// needs to re-drive one delivery.
#[derive(Clone, Debug)]
pub struct OutgoingWebhookTrackingData {
    pub merchant_id: String,
    pub business_profile_id: String,
    pub event_type: EventType,
    pub event_class: EventClass,
    pub primary_object_id: String,
    /// Back-reference to the initial delivery attempt. Absent on jobs
    /// enqueued before attempt chaining existed; such jobs are resolved
    /// through the legacy composite key instead.
    pub initial_attempt_id: Option<String>,
}

/// One delivery-attempt record, immutable once persisted in the event log.
#[derive(Clone, Debug)]
pub struct Event {
    /// Freshly minted, unique per delivery attempt, retries included.
    pub event_id: String,
    pub event_type: EventType,
    pub event_class: EventClass,
    pub is_webhook_notified: bool,
    pub primary_object_id: String,
    /// Seconds since the Unix epoch.
    pub created_at: i64,
    pub merchant_id: Option<String>,
    pub business_profile_id: Option<String>,
    /// Derived deduplication key, shared across all automatic retries of the
    /// same logical occurrence.
    pub idempotent_event_id: Option<String>,
    /// Back-reference to the initial event that started this retry chain.
    pub initial_attempt_id: Option<String>,
    /// Serialized request snapshot. Present on current-format events, whose
    /// payload is replayed verbatim on retry; absent on legacy events, which
    /// require reconciliation against the resource's current state.
    pub request: Option<String>,
    pub response: Option<String>,
    pub delivery_attempt: Option<WebhookDeliveryAttempt>,
    pub is_overall_delivery_successful: Option<bool>,
}

/// The rendered notification payload, tagged with the resource kind it
/// describes.
#[derive(Clone, Debug)]
pub enum OutgoingWebhookContent {
    PaymentDetails(String),
    RefundDetails(String),
    DisputeDetails(String),
    MandateDetails(String),
    PayoutDetails(String),
}

/// The ephemeral notification handed to the delivery transport when a fresh
/// payload is built on the reconciliation path.
#[derive(Clone, Debug)]
pub struct OutgoingWebhook {
    pub merchant_id: String,
    pub event_id: String,
    pub event_type: EventType,
    pub content: OutgoingWebhookContent,
    /// Seconds since the Unix epoch; the creation time of the event record
    /// this notification belongs to.
    pub timestamp: i64,
}

/// Terminal outcome tag written on a finished job, distinct from the job
/// store's own execution status.
#[derive(Clone, Copy, Debug, PartialEq, Eq, Structural)]
pub enum BusinessStatus {
    /// The resource moved to a different state since the retry was
    /// scheduled; the engine correctly declined to deliver.
    ResourceStatusMismatch,
    /// The retry budget is exhausted; the engine gave up.
    RetriesExceeded,
    /// The delivery hand-off completed successfully.
    DeliverySuccessful,
}

/// The tag under which a terminal business status is recorded on the job.
pub open spec fn business_status_tag(status: BusinessStatus) -> Seq<char> {
    match status {
        BusinessStatus::ResourceStatusMismatch => "RESOURCE_STATUS_MISMATCH"@,
        BusinessStatus::RetriesExceeded => "RETRIES_EXCEEDED"@,
        BusinessStatus::DeliverySuccessful => "DELIVERY_SUCCESSFUL"@,
    }
}

impl BusinessStatus {
    pub fn tag(&self) -> (r: &'static str)
        ensures
            r@ == business_status_tag(*self),
    {
        match self {
            BusinessStatus::ResourceStatusMismatch => "RESOURCE_STATUS_MISMATCH",
            BusinessStatus::RetriesExceeded => "RETRIES_EXCEEDED",
            BusinessStatus::DeliverySuccessful => "DELIVERY_SUCCESSFUL",
        }
    }
}

/// Infrastructure failures escalated to the job store's generic error
/// handling, never retried under the engine's own schedule.
#[derive(Clone, Debug)]
pub enum WebhookRetryError {
    /// Malformed tracking payload or retry configuration.
    DeserializationFailed,
    /// A required collaborator record (key material, business profile, or
    /// the triggering event) is missing.
    NotFound,
    /// A collaborator returned an unexpected response shape while the
    /// resource's current state was being fetched.
    ResourceFetchingFailed { resource_name: String },
}

} // verus!
