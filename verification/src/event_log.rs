//! Append-only log of delivery-attempt records.
//!
//! Each record is chained to the initial attempt it retries. Records are
//! looked up either by their own event id or, for jobs enqueued before
//! attempt chaining existed, by the legacy composite key
//! `{primary_object_id}_{event_type}`.

use vstd::prelude::*;

use crate::ids::derive_legacy_event_id;
use crate::ids::legacy_event_id_seq;
use crate::types::Event;
use crate::types::EventType;
use crate::types::WebhookRetryError;

verus! {

/// A record matches a lookup when it belongs to the merchant and carries
/// the looked-up event id.
pub open spec fn event_matches_key(event: Event, merchant_id: Seq<char>, event_id: Seq<char>)
    -> bool {
    &&& event.event_id@ == event_id
    &&& event.merchant_id matches Some(m) && m@ == merchant_id
}

/// Whether some record in the log carries the given event id.
pub open spec fn log_contains_event_id(log: Seq<Event>, event_id: Seq<char>) -> bool {
    exists|i: int| 0 <= i < log.len() && log[i].event_id@ == event_id
}

/// An append-only store of delivery-attempt records, in insertion order,
/// with pairwise distinct event ids.
pub struct EventStore {
    records: Vec<Event>,
}

impl View for EventStore {
    type V = Seq<Event>;

    closed spec fn view(&self) -> Seq<Event> {
        self.records@
    }
}

impl EventStore {
    /// Event ids are unique across the log.
    pub open spec fn wf(&self) -> bool {
        forall|i: int, j: int|
            0 <= i < j < self@.len() ==> self@[i].event_id@ != self@[j].event_id@
    }

    /// An empty log.
    pub fn new() -> (store: EventStore)
        ensures
            store@ =~= Seq::<Event>::empty(),
            store.wf(),
    {
        EventStore { records: Vec::new() }
    }

    /// Whether a record with this event id is already persisted.
    pub fn has_event_id(&self, event_id: &String) -> (found: bool)
        ensures
            found == log_contains_event_id(self@, event_id@),
    {
        let mut i: usize = 0;
        while i < self.records.len()
            invariant
                i <= self.records.len(),
                self.records@ == self@,
                forall|j: int| 0 <= j < i ==> self@[j].event_id@ != event_id@,
            decreases self.records.len() - i,
        {
            if self.records[i].event_id == *event_id {
                return true;
            }
            i = i + 1;
        }
        false
    }

    /// Append one record. The engine mints a fresh event id for every
    /// delivery attempt, so the id may not collide with a persisted record;
    /// the record is returned as stored.
    pub fn insert(&mut self, event: Event) -> (stored: Event)
        requires
            old(self).wf(),
            !log_contains_event_id(old(self)@, event.event_id@),
        ensures
            final(self).wf(),
            final(self)@ =~= old(self)@.push(event),
            stored == event,
    {
        let stored = clone_event(&event);
        self.records.push(event);
        stored
    }

    /// Look up the first record of the merchant with the given event id.
    /// Returns `None` exactly when no record matches.
    pub fn find_by_event_id(&self, merchant_id: &String, event_id: &String) -> (found: Option<
        &Event>)
        ensures
            match found {
                Some(event) => exists|i: int|
                    0 <= i < self@.len() && self@[i] == *event && event_matches_key(
                        *event,
                        merchant_id@,
                        event_id@,
                    ) && forall|j: int|
                        0 <= j < i ==> !event_matches_key(self@[j], merchant_id@, event_id@),
                None => forall|i: int|
                    0 <= i < self@.len() ==> !event_matches_key(self@[i], merchant_id@, event_id@),
            },
    {
        let mut i: usize = 0;
        while i < self.records.len()
            invariant
                i <= self.records.len(),
                self.records@ == self@,
                forall|j: int| 0 <= j < i ==> !event_matches_key(self@[j], merchant_id@,
                    event_id@),
            decreases self.records.len() - i,
        {
            let candidate = &self.records[i];
            if candidate.event_id == *event_id {
                match &candidate.merchant_id {
                    Some(m) => {
                        if *m == *merchant_id {
                            return Some(candidate);
                        }
                    },
                    None => {},
                }
            }
            i = i + 1;
        }
        None
    }

    /// Look up the triggering record of a legacy job: the merchant's record
    /// stored under the composite key `{primary_object_id}_{event_type}`.
    pub fn find_by_legacy_key(
        &self,
        merchant_id: &String,
        primary_object_id: &String,
        event_type: EventType,
    ) -> (found: Option<&Event>)
        ensures
            match found {
                Some(event) => event_matches_key(
                    *event,
                    merchant_id@,
                    legacy_event_id_seq(primary_object_id@, event_type),
                ) && exists|i: int| 0 <= i < self@.len() && self@[i] == *event,
                None => forall|i: int|
                    0 <= i < self@.len() ==> !event_matches_key(
                        self@[i],
                        merchant_id@,
                        legacy_event_id_seq(primary_object_id@, event_type),
                    ),
            },
    {
        let legacy_key = derive_legacy_event_id(primary_object_id.as_str(), event_type);
        self.find_by_event_id(merchant_id, &legacy_key)
    }

    /// Resolve an event into an execution error when it is missing.
    pub fn require_event(found: Option<&Event>) -> (resolved: Result<&Event, WebhookRetryError>)
        ensures
            match resolved {
                Ok(event) => found matches Some(e) && e == event,
                Err(error) => found is None && error is NotFound,
            },
    {
        match found {
            Some(event) => Ok(event),
            None => Err(WebhookRetryError::NotFound),
        }
    }
}

/// Copy a record field by field; the copy equals the original.
pub fn clone_event(event: &Event) -> (copy: Event)
    ensures
        copy == *event,
{
    Event {
        event_id: event.event_id.clone(),
        event_type: event.event_type,
        event_class: event.event_class,
        is_webhook_notified: event.is_webhook_notified,
        primary_object_id: event.primary_object_id.clone(),
        created_at: event.created_at,
        merchant_id: clone_opt_string(&event.merchant_id),
        business_profile_id: clone_opt_string(&event.business_profile_id),
        idempotent_event_id: clone_opt_string(&event.idempotent_event_id),
        initial_attempt_id: clone_opt_string(&event.initial_attempt_id),
        request: clone_opt_string(&event.request),
        response: clone_opt_string(&event.response),
        delivery_attempt: event.delivery_attempt,
        is_overall_delivery_successful: event.is_overall_delivery_successful,
    }
}

/// Copy an optional string; the copy equals the original.
pub fn clone_opt_string(value: &Option<String>) -> (copy: Option<String>)
    ensures
        copy == *value,
{
    match value {
        Some(s) => Some(s.clone()),
        None => None,
    }
}

} // verus!
