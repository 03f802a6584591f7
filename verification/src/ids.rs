//! Identifier derivation: the subscriber-facing idempotent event id and the
//! legacy composite lookup key.
//!
//! The idempotent id is a pure function of the resource id, the event type
//! and the delivery-attempt kind. It deliberately ignores the per-attempt
//! event id and the retry count, so every automatic retry of one logical
//! occurrence carries the same idempotent id, while the initial attempt
//! carries a different one.

use vstd::prelude::*;
use vstd::string::StringExecFns;

use crate::types::EventType;
use crate::types::WebhookDeliveryAttempt;
use crate::types::delivery_attempt_tag;
use crate::types::event_type_tag;

verus! {

/// The idempotent event id as a sequence of characters:
/// `{primary_object_id}_{event_type}_{delivery_attempt}`.
pub open spec fn idempotent_event_id_seq(
    primary_object_id: Seq<char>,
    event_type: EventType,
    delivery_attempt: WebhookDeliveryAttempt,
) -> Seq<char> {
    primary_object_id + "_"@ + event_type_tag(event_type) + "_"@ + delivery_attempt_tag(
        delivery_attempt,
    )
}

/// The legacy composite key as a sequence of characters:
/// `{primary_object_id}_{event_type}`. Jobs whose tracking payload predates
/// attempt chaining are resolved in the event log under this key.
pub open spec fn legacy_event_id_seq(
    primary_object_id: Seq<char>,
    event_type: EventType,
) -> Seq<char> {
    primary_object_id + "_"@ + event_type_tag(event_type)
}

/// Derive the stable, subscriber-facing idempotent id for one logical
/// occurrence and one delivery-attempt kind.
pub fn derive_idempotent_id(
    primary_object_id: &str,
    event_type: EventType,
    delivery_attempt: WebhookDeliveryAttempt,
) -> (r: String)
    ensures
        r@ == idempotent_event_id_seq(primary_object_id@, event_type, delivery_attempt),
{
    let mut id = String::new();
    id.append(primary_object_id);
    id.append("_");
    id.append(event_type.tag());
    id.append("_");
    id.append(delivery_attempt.tag());
    proof {
        assert(id@ =~= idempotent_event_id_seq(
            primary_object_id@,
            event_type,
            delivery_attempt,
        ));
    }
    id
}

/// Derive the legacy composite lookup key for a job without an
/// initial-attempt back-reference.
pub fn derive_legacy_event_id(primary_object_id: &str, event_type: EventType) -> (r: String)
    ensures
        r@ == legacy_event_id_seq(primary_object_id@, event_type),
{
    let mut id = String::new();
    id.append(primary_object_id);
    id.append("_");
    id.append(event_type.tag());
    proof {
        assert(id@ =~= legacy_event_id_seq(primary_object_id@, event_type));
    }
    id
}

/// The idempotent id is a pure function of its three arguments: repeated
/// derivations for the same occurrence and attempt kind agree, across calls
/// and across processes.
pub proof fn lemma_idempotent_id_stable(
    primary_object_id: Seq<char>,
    other_object_id: Seq<char>,
    event_type: EventType,
    delivery_attempt: WebhookDeliveryAttempt,
)
    requires
        primary_object_id == other_object_id,
    ensures
        idempotent_event_id_seq(primary_object_id, event_type, delivery_attempt)
            == idempotent_event_id_seq(other_object_id, event_type, delivery_attempt),
{
}

/// An automatic retry never shares an idempotent id with the initial
/// attempt of the same occurrence: the attempt tags have different lengths,
/// so the derived ids differ.
pub proof fn lemma_idempotent_id_distinguishes_attempts(
    primary_object_id: Seq<char>,
    event_type: EventType,
)
    ensures
        idempotent_event_id_seq(
            primary_object_id,
            event_type,
            WebhookDeliveryAttempt::AutomaticRetry,
        ) != idempotent_event_id_seq(
            primary_object_id,
            event_type,
            WebhookDeliveryAttempt::InitialAttempt,
        ),
{
    reveal_strlit("automatic_retry");
    reveal_strlit("initial");
    assert(delivery_attempt_tag(WebhookDeliveryAttempt::AutomaticRetry).len() == 15);
    assert(delivery_attempt_tag(WebhookDeliveryAttempt::InitialAttempt).len() == 7);
    assert(idempotent_event_id_seq(
        primary_object_id,
        event_type,
        WebhookDeliveryAttempt::AutomaticRetry,
    ).len() != idempotent_event_id_seq(
        primary_object_id,
        event_type,
        WebhookDeliveryAttempt::InitialAttempt,
    ).len());
}

} // verus!
