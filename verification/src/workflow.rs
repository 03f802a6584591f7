//! The delivery orchestrator, as an explicit state machine.
//!
//! One machine drives one due job. Every step consumes the result of the
//! last piece of outside work (a lookup, a persist, a fetch, a delivery
//! hand-off) and returns the next action for the caller to perform; the
//! decisions in between — chained versus legacy lookup, replay versus
//! reconciliation, deliver versus abort, reschedule versus finish — are all
//! taken here, under contract. The caller owns the I/O and owns nothing
//! else: it performs each action against the job store, the event log, the
//! domain services and the delivery transport, and hands the outcome back.

use vstd::pervasive::unreached;
use vstd::prelude::*;

use crate::event_log::clone_opt_string;
use crate::fetcher::DomainServiceResponse;
use crate::fetcher::ResourceFetchRequest;
use crate::fetcher::build_fetch_request;
use crate::fetcher::classify_response_spec;
use crate::fetcher::content_and_event_type;
use crate::fetcher::valid_object_id;
use crate::ids::derive_idempotent_id;
use crate::ids::derive_legacy_event_id;
use crate::ids::idempotent_event_id_seq;
use crate::ids::legacy_event_id_seq;
use crate::schedule::OutgoingWebhookRetryProcessTrackerMapping;
use crate::schedule::loaded_delay_spec;
use crate::schedule::next_retry_delay_or_default;
use crate::types::BusinessStatus;
use crate::types::Event;
use crate::types::EventType;
use crate::types::OutgoingWebhook;
use crate::types::OutgoingWebhookContent;
use crate::types::OutgoingWebhookTrackingData;
use crate::types::WebhookDeliveryAttempt;
use crate::types::WebhookRetryError;

verus! {

/// How the triggering event of a job is found in the event log: by the
/// chained initial-attempt id when the tracking payload carries one, by the
/// legacy composite key when it does not.
#[derive(Clone, Debug)]
pub enum EventLookup {
    ByEventId { event_id: String },
    ByLegacyKey { legacy_key: String },
}

/// What is handed to the delivery transport: a stored request replayed
/// verbatim, or a freshly built notification for the caller to render.
#[derive(Clone, Debug)]
pub enum DeliveryPayload {
    Replay { body: String },
    Fresh { webhook: OutgoingWebhook },
}

/// One delivery hand-off: the payload, and the deduplication data surfaced
/// to the subscriber alongside it.
#[derive(Clone, Debug)]
pub struct DeliveryRequest {
    pub payload: DeliveryPayload,
    pub idempotent_event_id: Option<String>,
    pub delivery_attempt: WebhookDeliveryAttempt,
}

/// The terminal result of one job execution.
#[derive(Clone, Debug)]
pub enum RetryOutcome {
    /// The job was rescheduled for another attempt after this delay.
    Rescheduled { delay_seconds: u32 },
    /// The delivery hand-off succeeded.
    FinishedSuccess,
    /// The resource moved on; the retry was aborted.
    FinishedMismatch,
    /// The retry budget is exhausted.
    FinishedExhausted,
    /// An infrastructure failure, escalated to the job store's own error
    /// handling rather than this engine's schedule.
    FailedExecution { error: WebhookRetryError },
}

/// Where one job execution stands between two pieces of outside work.
#[derive(Clone, Debug)]
pub enum RetryStage {
    /// Waiting for merchant key material and the business profile.
    ResolveContext,
    /// Waiting for the triggering event from the event log.
    ResolveTriggerEvent,
    /// Waiting for the freshly minted retry event to be persisted.
    PersistRetryEvent,
    /// Waiting for the resource's current state (reconciliation path).
    AwaitResourceState { stored_event: Event },
    /// Waiting for the delivery transport's outcome.
    AwaitDeliveryOutcome { stored_event: Event },
    /// Waiting for the retry configuration after a failed hand-off.
    ResolveSchedule,
    /// Terminal.
    Done { outcome: RetryOutcome },
}

/// The result of the outside work a stage waits for.
#[derive(Clone, Debug)]
pub enum RetryInput {
    /// Whether key material and business profile were both found.
    ContextResolved { found: bool },
    /// The triggering event, if the lookup found one.
    TriggerEvent { event: Option<Event> },
    /// The retry event as the event log stored it. A store that cannot
    /// persist must fail the whole execution instead of stepping on.
    EventPersisted { stored: Event },
    /// The domain service's reply for the job's resource.
    ResourceState { response: DomainServiceResponse },
    /// Whether the delivery hand-off succeeded.
    DeliveryOutcome { delivered: bool },
    /// The retry configuration, or `None` when it could not be loaded.
    ScheduleConfig { config: Option<OutgoingWebhookRetryProcessTrackerMapping> },
}

/// The next piece of outside work the caller performs for the machine.
#[derive(Clone, Debug)]
pub enum RetryAction {
    /// Resolve merchant key material and the business profile.
    FetchContext { merchant_id: String, business_profile_id: String },
    /// Look the triggering event up in the event log.
    LookupTriggerEvent { merchant_id: String, lookup: EventLookup },
    /// Persist this freshly minted retry event.
    PersistEvent { event: Event },
    /// Fetch the resource's current state, read-only.
    FetchResourceState { request: ResourceFetchRequest },
    /// Hand this payload to the delivery transport.
    DeliverWebhook { request: DeliveryRequest },
    /// Load the retry configuration.
    LoadScheduleConfig,
    /// Reschedule the job after this delay.
    Reschedule { delay_seconds: u32 },
    /// Finish the job with this terminal business status.
    FinishWithStatus { status: BusinessStatus },
    /// Escalate an infrastructure failure to the job store.
    FailExecution { error: WebhookRetryError },
}

/// One job execution: the job's payload and counters, and the stage the
/// execution stands at.
pub struct OutgoingWebhookRetryWorkflow {
    pub tracking_data: OutgoingWebhookTrackingData,
    /// Completed retries so far; the attempt about to be scheduled is
    /// `retry_count + 1`.
    pub retry_count: u32,
    /// The event id minted for this execution, one per execution.
    pub fresh_event_id: String,
    /// Seconds since the Unix epoch at the start of this execution.
    pub now: i64,
    pub stage: RetryStage,
}

/// The input a stage waits for. A terminal machine waits for nothing: no
/// input is accepted and no further action — in particular no delivery —
/// can be emitted once the job is done.
pub open spec fn expects(stage: RetryStage, input: RetryInput) -> bool {
    match stage {
        RetryStage::ResolveContext => input is ContextResolved,
        RetryStage::ResolveTriggerEvent => input is TriggerEvent,
        RetryStage::PersistRetryEvent => input is EventPersisted,
        RetryStage::AwaitResourceState { .. } => input is ResourceState,
        RetryStage::AwaitDeliveryOutcome { .. } => input is DeliveryOutcome,
        RetryStage::ResolveSchedule => input is ScheduleConfig,
        RetryStage::Done { .. } => false,
    }
}

/// The machine failed its execution with this error: the action escalates
/// it and the stage is terminal.
pub open spec fn fails_with(
    post: OutgoingWebhookRetryWorkflow,
    action: RetryAction,
    error: WebhookRetryError,
) -> bool {
    &&& action matches RetryAction::FailExecution { error: a } && a == error
    &&& post.stage matches RetryStage::Done { outcome } && outcome matches
        RetryOutcome::FailedExecution { error: o } && o == error
}

/// The event minted for this retry: a fresh event id, the idempotent id
/// derived for an automatic retry of this occurrence, a back-reference to
/// the triggering chain's initial event, and the triggering event's request
/// snapshot carried over unchanged.
pub open spec fn is_retry_event_for(
    event: Event,
    trigger: Event,
    tracking: OutgoingWebhookTrackingData,
    fresh_event_id: String,
    now: i64,
) -> bool {
    &&& event.event_id == fresh_event_id
    &&& event.event_type == trigger.event_type
    &&& event.event_class == trigger.event_class
    &&& event.is_webhook_notified == false
    &&& event.primary_object_id == trigger.primary_object_id
    &&& event.created_at == now
    &&& event.merchant_id matches Some(m) && m == tracking.merchant_id
    &&& event.business_profile_id matches Some(p) && p == tracking.business_profile_id
    &&& event.idempotent_event_id matches Some(id) && id@ == idempotent_event_id_seq(
        tracking.primary_object_id@,
        tracking.event_type,
        WebhookDeliveryAttempt::AutomaticRetry,
    )
    &&& event.initial_attempt_id matches Some(id) && id == trigger.event_id
    &&& event.request == trigger.request
    &&& event.response is None
    &&& event.delivery_attempt == Some(WebhookDeliveryAttempt::AutomaticRetry)
    &&& event.is_overall_delivery_successful == Some(false)
}

/// The notification built on the reconciliation path, from the fetched
/// content and the stored retry event.
pub open spec fn is_fresh_webhook(
    webhook: OutgoingWebhook,
    tracking: OutgoingWebhookTrackingData,
    stored: Event,
    content: OutgoingWebhookContent,
    current: EventType,
) -> bool {
    &&& webhook.merchant_id == tracking.merchant_id
    &&& webhook.event_id == stored.event_id
    &&& webhook.event_type == current
    &&& webhook.content == content
    &&& webhook.timestamp == stored.created_at
}

/// The deduplication data every delivery hand-off carries: the stored
/// event's idempotent id and the automatic-retry attempt kind.
pub open spec fn carries_retry_headers(request: DeliveryRequest, stored: Event) -> bool {
    &&& request.idempotent_event_id == stored.idempotent_event_id
    &&& request.delivery_attempt == WebhookDeliveryAttempt::AutomaticRetry
}

/// Steps 1–2: with key material and profile resolved, the triggering event
/// is looked up — by the chained initial-attempt id when the tracking
/// payload has one, else by the legacy composite key
/// `{primary_object_id}_{event_type}`. A missing context fails the
/// execution.
pub open spec fn context_resolved_transition(
    pre: OutgoingWebhookRetryWorkflow,
    found: bool,
    post: OutgoingWebhookRetryWorkflow,
    action: RetryAction,
) -> bool {
    if found {
        &&& post.stage is ResolveTriggerEvent
        &&& action matches RetryAction::LookupTriggerEvent { merchant_id, lookup }
            && merchant_id == pre.tracking_data.merchant_id
            && match pre.tracking_data.initial_attempt_id {
            Some(initial_attempt_id) => lookup matches EventLookup::ByEventId { event_id }
                && event_id == initial_attempt_id,
            None => lookup matches EventLookup::ByLegacyKey { legacy_key } && legacy_key@
                == legacy_event_id_seq(
                pre.tracking_data.primary_object_id@,
                pre.tracking_data.event_type,
            ),
        }
    } else {
        fails_with(post, action, WebhookRetryError::NotFound)
    }
}

/// Step 3: a new event is minted for this delivery attempt and handed to
/// the event log. A missing triggering event fails the execution.
pub open spec fn trigger_event_transition(
    pre: OutgoingWebhookRetryWorkflow,
    event: Option<Event>,
    post: OutgoingWebhookRetryWorkflow,
    action: RetryAction,
) -> bool {
    match event {
        Some(trigger) => {
            &&& post.stage is PersistRetryEvent
            &&& action matches RetryAction::PersistEvent { event: minted }
                && is_retry_event_for(
                minted,
                trigger,
                pre.tracking_data,
                pre.fresh_event_id,
                pre.now,
            )
        },
        None => fails_with(post, action, WebhookRetryError::NotFound),
    }
}

/// Step 4, routing: a stored request snapshot is replayed verbatim — the
/// delivery hand-off carries exactly the stored body, and the resource
/// state fetcher is bypassed entirely. Without a snapshot the machine turns
/// to reconciliation and requests the resource's current state.
pub open spec fn event_persisted_transition(
    pre: OutgoingWebhookRetryWorkflow,
    stored: Event,
    post: OutgoingWebhookRetryWorkflow,
    action: RetryAction,
) -> bool {
    match stored.request {
        Some(body) => {
            &&& post.stage matches RetryStage::AwaitDeliveryOutcome { stored_event }
                && stored_event == stored
            &&& action matches RetryAction::DeliverWebhook { request }
                && request.payload matches DeliveryPayload::Replay { body: replayed }
                && replayed == body && carries_retry_headers(request, stored)
        },
        None => {
            if valid_object_id(pre.tracking_data.primary_object_id@) {
                &&& post.stage matches RetryStage::AwaitResourceState { stored_event }
                    && stored_event == stored
                &&& action matches RetryAction::FetchResourceState { request }
                    && request.event_class == pre.tracking_data.event_class
                    && request.primary_object_id == pre.tracking_data.primary_object_id
                    && request.force_sync == false
            } else {
                fails_with(post, action, WebhookRetryError::DeserializationFailed)
            }
        },
    }
}

/// Step 4, reconciliation: the fetched state is compared against the event
/// type recorded when the retry was scheduled. Equal: a fresh notification
/// is built and delivered. Not equal (or no event type defined): the
/// delivery transport is never invoked and the job finishes with
/// RESOURCE_STATUS_MISMATCH. A malformed reply fails the execution.
pub open spec fn resource_state_transition(
    pre: OutgoingWebhookRetryWorkflow,
    response: DomainServiceResponse,
    post: OutgoingWebhookRetryWorkflow,
    action: RetryAction,
) -> bool {
    &&& pre.stage matches RetryStage::AwaitResourceState { stored_event }
    &&& match classify_response_spec(pre.tracking_data, response) {
        Ok((content, current)) => {
            if current matches Some(current_type) && current_type
                == pre.tracking_data.event_type {
                &&& post.stage matches RetryStage::AwaitDeliveryOutcome { stored_event: s }
                    && s == stored_event
                &&& action matches RetryAction::DeliverWebhook { request }
                    && request.payload matches DeliveryPayload::Fresh { webhook }
                    && is_fresh_webhook(
                    webhook,
                    pre.tracking_data,
                    stored_event,
                    content,
                    pre.tracking_data.event_type,
                ) && carries_retry_headers(request, stored_event)
            } else {
                &&& post.stage matches RetryStage::Done { outcome } && outcome
                    is FinishedMismatch
                &&& action matches RetryAction::FinishWithStatus { status } && status
                    is ResourceStatusMismatch
            }
        },
        Err(error) => fails_with(post, action, error),
    }
}

/// Steps 5–6, outcome: a successful hand-off finishes the job; a failed
/// one turns to the retry schedule.
pub open spec fn delivery_outcome_transition(
    pre: OutgoingWebhookRetryWorkflow,
    delivered: bool,
    post: OutgoingWebhookRetryWorkflow,
    action: RetryAction,
) -> bool {
    if delivered {
        &&& post.stage matches RetryStage::Done { outcome } && outcome is FinishedSuccess
        &&& action matches RetryAction::FinishWithStatus { status } && status
            is DeliverySuccessful
    } else {
        &&& post.stage is ResolveSchedule
        &&& action is LoadScheduleConfig
    }
}

/// Step 6, schedule: the resolver decides with attempt number
/// `retry_count + 1`, under the loaded configuration or the built-in
/// default. A delay reschedules the job; exhaustion finishes it with
/// RETRIES_EXCEEDED.
pub open spec fn schedule_config_transition(
    pre: OutgoingWebhookRetryWorkflow,
    config: Option<OutgoingWebhookRetryProcessTrackerMapping>,
    post: OutgoingWebhookRetryWorkflow,
    action: RetryAction,
) -> bool {
    let delay = match config {
        Some(c) => loaded_delay_spec(Some(&c), pre.tracking_data.merchant_id@, pre.retry_count),
        None => loaded_delay_spec(None, pre.tracking_data.merchant_id@, pre.retry_count),
    };
    match delay {
        Some(delay_seconds) => {
            &&& post.stage matches RetryStage::Done { outcome } && outcome matches
                RetryOutcome::Rescheduled { delay_seconds: d } && d == delay_seconds
            &&& action matches RetryAction::Reschedule { delay_seconds: d } && d
                == delay_seconds
        },
        None => {
            &&& post.stage matches RetryStage::Done { outcome } && outcome
                is FinishedExhausted
            &&& action matches RetryAction::FinishWithStatus { status } && status
                is RetriesExceeded
        },
    }
}

impl OutgoingWebhookRetryWorkflow {
    /// The attempt about to be scheduled, `retry_count + 1`, stays
    /// representable.
    pub open spec fn wf(&self) -> bool {
        self.retry_count < u32::MAX
    }

    /// Whether the execution reached a terminal stage.
    pub fn is_done(&self) -> (done: bool)
        ensures
            done == self.stage matches RetryStage::Done { .. },
    {
        match self.stage {
            RetryStage::Done { .. } => true,
            _ => false,
        }
    }

    /// Start one execution for a due job. The caller mints one fresh event
    /// id per execution and reads the clock once; the first action resolves
    /// the merchant context.
    pub fn new(
        tracking_data: OutgoingWebhookTrackingData,
        retry_count: u32,
        fresh_event_id: String,
        now: i64,
    ) -> (started: (OutgoingWebhookRetryWorkflow, RetryAction))
        requires
            retry_count < u32::MAX,
        ensures
            started.0.wf(),
            started.0.stage is ResolveContext,
            started.0.tracking_data == tracking_data,
            started.0.retry_count == retry_count,
            started.0.fresh_event_id == fresh_event_id,
            started.0.now == now,
            started.1 matches RetryAction::FetchContext { merchant_id, business_profile_id }
                && merchant_id == tracking_data.merchant_id && business_profile_id
                == tracking_data.business_profile_id,
    {
        let action = RetryAction::FetchContext {
            merchant_id: tracking_data.merchant_id.clone(),
            business_profile_id: tracking_data.business_profile_id.clone(),
        };
        let workflow = OutgoingWebhookRetryWorkflow {
            tracking_data,
            retry_count,
            fresh_event_id,
            now,
            stage: RetryStage::ResolveContext,
        };
        (workflow, action)
    }

    /// Consume the result of the last piece of outside work and return the
    /// next action. Each transition's contract is the corresponding
    /// `*_transition` predicate.
    pub fn step(&mut self, input: RetryInput) -> (action: RetryAction)
        requires
            old(self).wf(),
            expects(old(self).stage, input),
        ensures
            final(self).wf(),
            final(self).tracking_data == old(self).tracking_data,
            final(self).retry_count == old(self).retry_count,
            final(self).fresh_event_id == old(self).fresh_event_id,
            final(self).now == old(self).now,
            input matches RetryInput::ContextResolved { found }
                ==> context_resolved_transition(*old(self), found, *final(self), action),
            input matches RetryInput::TriggerEvent { event } ==> trigger_event_transition(
                *old(self),
                event,
                *final(self),
                action,
            ),
            input matches RetryInput::EventPersisted { stored } ==> event_persisted_transition(
                *old(self),
                stored,
                *final(self),
                action,
            ),
            input matches RetryInput::ResourceState { response } ==> resource_state_transition(
                *old(self),
                response,
                *final(self),
                action,
            ),
            input matches RetryInput::DeliveryOutcome { delivered }
                ==> delivery_outcome_transition(*old(self), delivered, *final(self), action),
            input matches RetryInput::ScheduleConfig { config } ==> schedule_config_transition(
                *old(self),
                config,
                *final(self),
                action,
            ),
    {
        let mut previous = RetryStage::ResolveContext;
        core::mem::swap(&mut self.stage, &mut previous);
        match (previous, input) {
            (RetryStage::ResolveContext, RetryInput::ContextResolved { found }) => {
                if found {
                    let lookup = match &self.tracking_data.initial_attempt_id {
                        Some(initial_attempt_id) => EventLookup::ByEventId {
                            event_id: initial_attempt_id.clone(),
                        },
                        None => EventLookup::ByLegacyKey {
                            legacy_key: derive_legacy_event_id(
                                self.tracking_data.primary_object_id.as_str(),
                                self.tracking_data.event_type,
                            ),
                        },
                    };
                    self.stage = RetryStage::ResolveTriggerEvent;
                    RetryAction::LookupTriggerEvent {
                        merchant_id: self.tracking_data.merchant_id.clone(),
                        lookup,
                    }
                } else {
                    self.stage = RetryStage::Done {
                        outcome: RetryOutcome::FailedExecution {
                            error: WebhookRetryError::NotFound,
                        },
                    };
                    RetryAction::FailExecution { error: WebhookRetryError::NotFound }
                }
            },
            (RetryStage::ResolveTriggerEvent, RetryInput::TriggerEvent { event }) => {
                match event {
                    Some(trigger) => {
                        let minted = build_retry_event(
                            &trigger,
                            &self.tracking_data,
                            self.fresh_event_id.clone(),
                            self.now,
                        );
                        self.stage = RetryStage::PersistRetryEvent;
                        RetryAction::PersistEvent { event: minted }
                    },
                    None => {
                        self.stage = RetryStage::Done {
                            outcome: RetryOutcome::FailedExecution {
                                error: WebhookRetryError::NotFound,
                            },
                        };
                        RetryAction::FailExecution { error: WebhookRetryError::NotFound }
                    },
                }
            },
            (RetryStage::PersistRetryEvent, RetryInput::EventPersisted { stored }) => {
                match &stored.request {
                    Some(body) => {
                        let replayed = body.clone();
                        let idempotent_event_id = clone_opt_string(&stored.idempotent_event_id);
                        self.stage = RetryStage::AwaitDeliveryOutcome { stored_event: stored };
                        RetryAction::DeliverWebhook {
                            request: DeliveryRequest {
                                payload: DeliveryPayload::Replay { body: replayed },
                                idempotent_event_id,
                                delivery_attempt: WebhookDeliveryAttempt::AutomaticRetry,
                            },
                        }
                    },
                    None => {
                        match build_fetch_request(&self.tracking_data) {
                            Ok(request) => {
                                self.stage = RetryStage::AwaitResourceState {
                                    stored_event: stored,
                                };
                                RetryAction::FetchResourceState { request }
                            },
                            Err(_) => {
                                self.stage = RetryStage::Done {
                                    outcome: RetryOutcome::FailedExecution {
                                        error: WebhookRetryError::DeserializationFailed,
                                    },
                                };
                                RetryAction::FailExecution {
                                    error: WebhookRetryError::DeserializationFailed,
                                }
                            },
                        }
                    },
                }
            },
            (
                RetryStage::AwaitResourceState { stored_event },
                RetryInput::ResourceState { response },
            ) => {
                match content_and_event_type(&self.tracking_data, response) {
                    Ok((content, current)) => {
                        let delivers = match &current {
                            Some(current_type) => *current_type == self.tracking_data.event_type,
                            None => false,
                        };
                        if delivers {
                            let webhook = OutgoingWebhook {
                                merchant_id: self.tracking_data.merchant_id.clone(),
                                event_id: stored_event.event_id.clone(),
                                event_type: self.tracking_data.event_type,
                                content,
                                timestamp: stored_event.created_at,
                            };
                            let idempotent_event_id = clone_opt_string(
                                &stored_event.idempotent_event_id,
                            );
                            self.stage = RetryStage::AwaitDeliveryOutcome { stored_event };
                            RetryAction::DeliverWebhook {
                                request: DeliveryRequest {
                                    payload: DeliveryPayload::Fresh { webhook },
                                    idempotent_event_id,
                                    delivery_attempt: WebhookDeliveryAttempt::AutomaticRetry,
                                },
                            }
                        } else {
                            self.stage = RetryStage::Done {
                                outcome: RetryOutcome::FinishedMismatch,
                            };
                            RetryAction::FinishWithStatus {
                                status: BusinessStatus::ResourceStatusMismatch,
                            }
                        }
                    },
                    Err(error) => {
                        let escalated = clone_retry_error(&error);
                        self.stage = RetryStage::Done {
                            outcome: RetryOutcome::FailedExecution { error },
                        };
                        RetryAction::FailExecution { error: escalated }
                    },
                }
            },
            (
                RetryStage::AwaitDeliveryOutcome { stored_event: _ },
                RetryInput::DeliveryOutcome { delivered },
            ) => {
                if delivered {
                    self.stage = RetryStage::Done { outcome: RetryOutcome::FinishedSuccess };
                    RetryAction::FinishWithStatus { status: BusinessStatus::DeliverySuccessful }
                } else {
                    self.stage = RetryStage::ResolveSchedule;
                    RetryAction::LoadScheduleConfig
                }
            },
            (RetryStage::ResolveSchedule, RetryInput::ScheduleConfig { config }) => {
                let delay = match &config {
                    Some(c) => next_retry_delay_or_default(
                        Some(c),
                        &self.tracking_data.merchant_id,
                        self.retry_count,
                    ),
                    None => next_retry_delay_or_default(
                        None,
                        &self.tracking_data.merchant_id,
                        self.retry_count,
                    ),
                };
                match delay {
                    Some(delay_seconds) => {
                        self.stage = RetryStage::Done {
                            outcome: RetryOutcome::Rescheduled { delay_seconds },
                        };
                        RetryAction::Reschedule { delay_seconds }
                    },
                    None => {
                        self.stage = RetryStage::Done {
                            outcome: RetryOutcome::FinishedExhausted,
                        };
                        RetryAction::FinishWithStatus {
                            status: BusinessStatus::RetriesExceeded,
                        }
                    },
                }
            },
            _ => unreached(),
        }
    }
}

/// Mint the event for this delivery attempt from the triggering event, the
/// job's tracking payload, a fresh event id and the current time.
pub fn build_retry_event(
    trigger: &Event,
    tracking: &OutgoingWebhookTrackingData,
    fresh_event_id: String,
    now: i64,
) -> (minted: Event)
    ensures
        is_retry_event_for(minted, *trigger, *tracking, fresh_event_id, now),
{
    Event {
        event_id: fresh_event_id,
        event_type: trigger.event_type,
        event_class: trigger.event_class,
        is_webhook_notified: false,
        primary_object_id: trigger.primary_object_id.clone(),
        created_at: now,
        merchant_id: Some(tracking.merchant_id.clone()),
        business_profile_id: Some(tracking.business_profile_id.clone()),
        idempotent_event_id: Some(
            derive_idempotent_id(
                tracking.primary_object_id.as_str(),
                tracking.event_type,
                WebhookDeliveryAttempt::AutomaticRetry,
            ),
        ),
        initial_attempt_id: Some(trigger.event_id.clone()),
        request: clone_opt_string(&trigger.request),
        response: None,
        delivery_attempt: Some(WebhookDeliveryAttempt::AutomaticRetry),
        is_overall_delivery_successful: Some(false),
    }
}

/// Copy an error value; the copy equals the original.
pub fn clone_retry_error(error: &WebhookRetryError) -> (copy: WebhookRetryError)
    ensures
        copy == *error,
{
    match error {
        WebhookRetryError::DeserializationFailed => WebhookRetryError::DeserializationFailed,
        WebhookRetryError::NotFound => WebhookRetryError::NotFound,
        WebhookRetryError::ResourceFetchingFailed { resource_name } => {
            WebhookRetryError::ResourceFetchingFailed { resource_name: resource_name.clone() }
        },
    }
}

/// The well-known configuration key the retry schedule is stored under.
pub fn retry_config_key() -> (key: &'static str)
    ensures
        key@ == "pt_mapping_outgoing_webhooks"@,
{
    "pt_mapping_outgoing_webhooks"
}

/// Mismatch abort: when reconciliation finds the resource's current event
/// type differing from the one recorded at scheduling time, the step never
/// emits a delivery action — the job finishes terminally with
/// RESOURCE_STATUS_MISMATCH, even when retry budget remains.
pub proof fn lemma_mismatch_never_delivers(
    pre: OutgoingWebhookRetryWorkflow,
    response: DomainServiceResponse,
    post: OutgoingWebhookRetryWorkflow,
    action: RetryAction,
)
    requires
        resource_state_transition(pre, response, post, action),
        classify_response_spec(pre.tracking_data, response) matches Ok((content, current))
            && current != Some(pre.tracking_data.event_type),
    ensures
        !(action matches RetryAction::DeliverWebhook { .. }),
        action matches RetryAction::FinishWithStatus { status } && status
            is ResourceStatusMismatch,
        post.stage matches RetryStage::Done { outcome } && outcome is FinishedMismatch,
{
}

/// Replay fidelity: a stored request snapshot is handed to the transport
/// byte-identical, and the resource state fetcher is bypassed entirely —
/// the step neither requests a fetch nor enters the reconciliation stage.
pub proof fn lemma_replay_bypasses_fetcher(
    pre: OutgoingWebhookRetryWorkflow,
    stored: Event,
    post: OutgoingWebhookRetryWorkflow,
    action: RetryAction,
    body: String,
)
    requires
        event_persisted_transition(pre, stored, post, action),
        stored.request == Some(body),
    ensures
        action matches RetryAction::DeliverWebhook { request } && request.payload matches
            DeliveryPayload::Replay { body: replayed } && replayed == body,
        !(action matches RetryAction::FetchResourceState { .. }),
        post.stage matches RetryStage::AwaitDeliveryOutcome { stored_event } && stored_event
            == stored,
        !(post.stage matches RetryStage::AwaitResourceState { .. }),
{
}

/// A terminal machine accepts no further input, so no action — in
/// particular no delivery and no reschedule — follows a finished job.
pub proof fn lemma_done_accepts_no_input(stage: RetryStage, input: RetryInput)
    requires
        stage matches RetryStage::Done { .. },
    ensures
        !expects(stage, input),
{
}

} // verus!
