//! The resource state fetcher's verified half: building the read-only
//! retrieve request for a resource class, and turning the domain service's
//! reply into notification content and the resource's current event type.
//!
//! The domain services themselves are collaborators: they look the resource
//! up and reply with a response shape. Everything the engine decides about
//! that reply is here.

use vstd::prelude::*;
use vstd::string::StrSliceExecFns;

use crate::types::EventClass;
use crate::types::EventType;
use crate::types::OutgoingWebhookContent;
use crate::types::OutgoingWebhookTrackingData;
use crate::types::WebhookRetryError;

verus! {

/// Canonical status of a payment intent, as the payments service reports it.
#[derive(Clone, Copy, Debug, PartialEq, Eq, Structural)]
pub enum PaymentIntentStatus {
    Succeeded,
    Failed,
    Cancelled,
    Processing,
    RequiresCustomerAction,
    RequiresMerchantAction,
    RequiresCapture,
    PartiallyCaptured,
}

/// Canonical status of a refund.
#[derive(Clone, Copy, Debug, PartialEq, Eq, Structural)]
pub enum RefundStatus {
    Success,
    Failure,
    Pending,
    ManualReview,
}

/// Canonical status of a dispute.
#[derive(Clone, Copy, Debug, PartialEq, Eq, Structural)]
pub enum DisputeStatus {
    DisputeOpened,
    DisputeExpired,
    DisputeAccepted,
    DisputeCancelled,
    DisputeChallenged,
    DisputeWon,
    DisputeLost,
}

/// Canonical status of a mandate.
#[derive(Clone, Copy, Debug, PartialEq, Eq, Structural)]
pub enum MandateStatus {
    Active,
    Revoked,
    Pending,
    Inactive,
}

/// Canonical status of a payout.
#[derive(Clone, Copy, Debug, PartialEq, Eq, Structural)]
pub enum PayoutStatus {
    Success,
    Failed,
    Cancelled,
    Initiated,
    Expired,
    Reversed,
    Pending,
    RequiresFulfillment,
}

/// The canonical status of a resource, tagged with its class.
#[derive(Clone, Copy, Debug, PartialEq, Eq, Structural)]
pub enum ResourceStatus {
    Payment(PaymentIntentStatus),
    Refund(RefundStatus),
    Dispute(DisputeStatus),
    Mandate(MandateStatus),
    Payout(PayoutStatus),
}

/// The resource class a status belongs to.
pub open spec fn resource_class(status: ResourceStatus) -> EventClass {
    match status {
        ResourceStatus::Payment(_) => EventClass::Payments,
        ResourceStatus::Refund(_) => EventClass::Refunds,
        ResourceStatus::Dispute(_) => EventClass::Disputes,
        ResourceStatus::Mandate(_) => EventClass::Mandates,
        ResourceStatus::Payout(_) => EventClass::Payouts,
    }
}

/// The event type a resource's current status maps to, or `None` for
/// statuses that no notification is defined for.
pub open spec fn resource_event_type(status: ResourceStatus) -> Option<EventType> {
    match status {
        ResourceStatus::Payment(s) => match s {
            PaymentIntentStatus::Succeeded => Some(EventType::PaymentSucceeded),
            PaymentIntentStatus::Failed => Some(EventType::PaymentFailed),
            PaymentIntentStatus::Cancelled => Some(EventType::PaymentCancelled),
            PaymentIntentStatus::Processing => Some(EventType::PaymentProcessing),
            PaymentIntentStatus::RequiresCustomerAction => Some(EventType::ActionRequired),
            PaymentIntentStatus::RequiresMerchantAction => Some(EventType::ActionRequired),
            PaymentIntentStatus::RequiresCapture => Some(EventType::PaymentAuthorized),
            PaymentIntentStatus::PartiallyCaptured => Some(EventType::PaymentCaptured),
        },
        ResourceStatus::Refund(s) => match s {
            RefundStatus::Success => Some(EventType::RefundSucceeded),
            RefundStatus::Failure => Some(EventType::RefundFailed),
            RefundStatus::Pending => None,
            RefundStatus::ManualReview => None,
        },
        ResourceStatus::Dispute(s) => match s {
            DisputeStatus::DisputeOpened => Some(EventType::DisputeOpened),
            DisputeStatus::DisputeExpired => Some(EventType::DisputeExpired),
            DisputeStatus::DisputeAccepted => Some(EventType::DisputeAccepted),
            DisputeStatus::DisputeCancelled => Some(EventType::DisputeCancelled),
            DisputeStatus::DisputeChallenged => Some(EventType::DisputeChallenged),
            DisputeStatus::DisputeWon => Some(EventType::DisputeWon),
            DisputeStatus::DisputeLost => Some(EventType::DisputeLost),
        },
        ResourceStatus::Mandate(s) => match s {
            MandateStatus::Active => Some(EventType::MandateActive),
            MandateStatus::Revoked => Some(EventType::MandateRevoked),
            MandateStatus::Pending => None,
            MandateStatus::Inactive => None,
        },
        ResourceStatus::Payout(s) => match s {
            PayoutStatus::Success => Some(EventType::PayoutSuccess),
            PayoutStatus::Failed => Some(EventType::PayoutFailed),
            PayoutStatus::Cancelled => Some(EventType::PayoutCancelled),
            PayoutStatus::Initiated => Some(EventType::PayoutInitiated),
            PayoutStatus::Expired => Some(EventType::PayoutExpired),
            PayoutStatus::Reversed => Some(EventType::PayoutReversed),
            PayoutStatus::Pending => Some(EventType::PayoutProcessing),
            PayoutStatus::RequiresFulfillment => None,
        },
    }
}

impl ResourceStatus {
    /// The resource class this status belongs to.
    pub fn class(&self) -> (class: EventClass)
        ensures
            class == resource_class(*self),
    {
        match self {
            ResourceStatus::Payment(_) => EventClass::Payments,
            ResourceStatus::Refund(_) => EventClass::Refunds,
            ResourceStatus::Dispute(_) => EventClass::Disputes,
            ResourceStatus::Mandate(_) => EventClass::Mandates,
            ResourceStatus::Payout(_) => EventClass::Payouts,
        }
    }

    /// The event type this status maps to, if any.
    pub fn event_type(&self) -> (mapped: Option<EventType>)
        ensures
            mapped == resource_event_type(*self),
    {
        match self {
            ResourceStatus::Payment(s) => match s {
                PaymentIntentStatus::Succeeded => Some(EventType::PaymentSucceeded),
                PaymentIntentStatus::Failed => Some(EventType::PaymentFailed),
                PaymentIntentStatus::Cancelled => Some(EventType::PaymentCancelled),
                PaymentIntentStatus::Processing => Some(EventType::PaymentProcessing),
                PaymentIntentStatus::RequiresCustomerAction => Some(EventType::ActionRequired),
                PaymentIntentStatus::RequiresMerchantAction => Some(EventType::ActionRequired),
                PaymentIntentStatus::RequiresCapture => Some(EventType::PaymentAuthorized),
                PaymentIntentStatus::PartiallyCaptured => Some(EventType::PaymentCaptured),
            },
            ResourceStatus::Refund(s) => match s {
                RefundStatus::Success => Some(EventType::RefundSucceeded),
                RefundStatus::Failure => Some(EventType::RefundFailed),
                RefundStatus::Pending => None,
                RefundStatus::ManualReview => None,
            },
            ResourceStatus::Dispute(s) => match s {
                DisputeStatus::DisputeOpened => Some(EventType::DisputeOpened),
                DisputeStatus::DisputeExpired => Some(EventType::DisputeExpired),
                DisputeStatus::DisputeAccepted => Some(EventType::DisputeAccepted),
                DisputeStatus::DisputeCancelled => Some(EventType::DisputeCancelled),
                DisputeStatus::DisputeChallenged => Some(EventType::DisputeChallenged),
                DisputeStatus::DisputeWon => Some(EventType::DisputeWon),
                DisputeStatus::DisputeLost => Some(EventType::DisputeLost),
            },
            ResourceStatus::Mandate(s) => match s {
                MandateStatus::Active => Some(EventType::MandateActive),
                MandateStatus::Revoked => Some(EventType::MandateRevoked),
                MandateStatus::Pending => None,
                MandateStatus::Inactive => None,
            },
            ResourceStatus::Payout(s) => match s {
                PayoutStatus::Success => Some(EventType::PayoutSuccess),
                PayoutStatus::Failed => Some(EventType::PayoutFailed),
                PayoutStatus::Cancelled => Some(EventType::PayoutCancelled),
                PayoutStatus::Initiated => Some(EventType::PayoutInitiated),
                PayoutStatus::Expired => Some(EventType::PayoutExpired),
                PayoutStatus::Reversed => Some(EventType::PayoutReversed),
                PayoutStatus::Pending => Some(EventType::PayoutProcessing),
                PayoutStatus::RequiresFulfillment => None,
            },
        }
    }
}

/// A resource identifier the engine accepts: non-empty and at most 64
/// characters.
pub open spec fn valid_object_id(object_id: Seq<char>) -> bool {
    1 <= object_id.len() <= 64
}

/// The read-only retrieve request handed to the domain service of a class.
/// `force_sync` is always false: the fetch must never trigger out-of-band
/// synchronization with an upstream network.
#[derive(Clone, Debug)]
pub struct ResourceFetchRequest {
    pub event_class: EventClass,
    pub primary_object_id: String,
    pub force_sync: bool,
}

/// Build the retrieve request for a job's resource. A malformed resource id
/// is a deserialization failure, exactly as a malformed tracking payload is.
pub fn build_fetch_request(tracking: &OutgoingWebhookTrackingData) -> (request: Result<
    ResourceFetchRequest,
    WebhookRetryError,
>)
    ensures
        match request {
            Ok(r) => {
                &&& valid_object_id(tracking.primary_object_id@)
                &&& r.event_class == tracking.event_class
                &&& r.primary_object_id == tracking.primary_object_id
                &&& r.force_sync == false
            },
            Err(error) => !valid_object_id(tracking.primary_object_id@) && error
                is DeserializationFailed,
        },
{
    let id_len = tracking.primary_object_id.as_str().unicode_len();
    if id_len == 0 || id_len > 64 {
        return Err(WebhookRetryError::DeserializationFailed);
    }
    Ok(ResourceFetchRequest {
        event_class: tracking.event_class,
        primary_object_id: tracking.primary_object_id.clone(),
        force_sync: false,
    })
}

/// A domain service's reply to a retrieve request: structured content
/// carrying the resource's canonical status and rendered payload, or one of
/// the non-content shapes the service can produce for other callers.
#[derive(Clone, Debug)]
pub enum DomainServiceResponse {
    Json { status: ResourceStatus, payload: String },
    JsonWithHeaders { status: ResourceStatus, payload: String },
    StatusOk,
    TextPlain,
    JsonForRedirection,
    Form,
    GenericLinkForm,
    PaymentLinkForm,
    FileData,
}

/// The notification content wrapper for a resource class.
pub open spec fn content_for_class(class: EventClass, payload: String) -> OutgoingWebhookContent {
    match class {
        EventClass::Payments => OutgoingWebhookContent::PaymentDetails(payload),
        EventClass::Refunds => OutgoingWebhookContent::RefundDetails(payload),
        EventClass::Disputes => OutgoingWebhookContent::DisputeDetails(payload),
        EventClass::Mandates => OutgoingWebhookContent::MandateDetails(payload),
        EventClass::Payouts => OutgoingWebhookContent::PayoutDetails(payload),
    }
}

/// What the engine concludes from a domain service's reply: content and the
/// resource's current event type on structured content of the expected
/// class, and a fetch failure on every other shape. A reply of the wrong
/// shape or class is a contract violation by the collaborator, not a
/// business outcome.
pub open spec fn classify_response_spec(
    tracking: OutgoingWebhookTrackingData,
    response: DomainServiceResponse,
) -> Result<(OutgoingWebhookContent, Option<EventType>), WebhookRetryError> {
    match response {
        DomainServiceResponse::Json { status, payload } => classify_content_spec(
            tracking,
            status,
            payload,
        ),
        DomainServiceResponse::JsonWithHeaders { status, payload } => classify_content_spec(
            tracking,
            status,
            payload,
        ),
        _ => Err(
            WebhookRetryError::ResourceFetchingFailed {
                resource_name: tracking.primary_object_id,
            },
        ),
    }
}

/// The structured-content half of [`classify_response_spec`].
pub open spec fn classify_content_spec(
    tracking: OutgoingWebhookTrackingData,
    status: ResourceStatus,
    payload: String,
) -> Result<(OutgoingWebhookContent, Option<EventType>), WebhookRetryError> {
    if resource_class(status) == tracking.event_class {
        Ok((content_for_class(tracking.event_class, payload), resource_event_type(status)))
    } else {
        Err(WebhookRetryError::ResourceFetchingFailed { resource_name: tracking.primary_object_id })
    }
}

/// Turn the domain service's reply into notification content and the
/// resource's current event type, rejecting every reply that is not
/// structured content of the job's resource class.
pub fn content_and_event_type(
    tracking: &OutgoingWebhookTrackingData,
    response: DomainServiceResponse,
) -> (classified: Result<(OutgoingWebhookContent, Option<EventType>), WebhookRetryError>)
    ensures
        classified == classify_response_spec(*tracking, response),
{
    match response {
        DomainServiceResponse::Json { status, payload } => classify_content(
            tracking,
            status,
            payload,
        ),
        DomainServiceResponse::JsonWithHeaders { status, payload } => classify_content(
            tracking,
            status,
            payload,
        ),
        _ => Err(
            WebhookRetryError::ResourceFetchingFailed {
                resource_name: tracking.primary_object_id.clone(),
            },
        ),
    }
}

/// Accept structured content when its class matches the job's.
fn classify_content(
    tracking: &OutgoingWebhookTrackingData,
    status: ResourceStatus,
    payload: String,
) -> (classified: Result<(OutgoingWebhookContent, Option<EventType>), WebhookRetryError>)
    ensures
        classified == classify_content_spec(*tracking, status, payload),
{
    if status.class() == tracking.event_class {
        let content = match tracking.event_class {
            EventClass::Payments => OutgoingWebhookContent::PaymentDetails(payload),
            EventClass::Refunds => OutgoingWebhookContent::RefundDetails(payload),
            EventClass::Disputes => OutgoingWebhookContent::DisputeDetails(payload),
            EventClass::Mandates => OutgoingWebhookContent::MandateDetails(payload),
            EventClass::Payouts => OutgoingWebhookContent::PayoutDetails(payload),
        };
        Ok((content, status.event_type()))
    } else {
        Err(WebhookRetryError::ResourceFetchingFailed {
            resource_name: tracking.primary_object_id.clone(),
        })
    }
}

} // verus!
