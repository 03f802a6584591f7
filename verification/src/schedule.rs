//! The retry schedule resolver: a pure step function from (mapping, attempt
//! number) to the next delay in seconds, or exhaustion.
//!
//! Attempt numbers are 1-based: callers pass `retry_count + 1`, the retry
//! about to be scheduled. Attempt 1 always uses `start_after`; after that
//! the parallel `frequency`/`count` arrays are consumed as a step function —
//! the first `count[0]` further attempts use `frequency[0]`, the next
//! `count[1]` use `frequency[1]`, and so on. Once the cumulative count is
//! exhausted the resolver reports that no more retries remain.

use vstd::prelude::*;

use crate::types::BusinessStatus;

verus! {

/// One retry schedule: the delay before the first retry, then parallel
/// arrays of step delays and how many attempts each step covers.
#[derive(Clone, Debug)]
pub struct RetryScheduleMapping {
    pub start_after: u32,
    pub frequency: Vec<u32>,
    pub count: Vec<u32>,
}

/// The retry configuration under the well-known config key: a default
/// schedule and per-merchant overrides.
#[derive(Clone, Debug)]
pub struct OutgoingWebhookRetryProcessTrackerMapping {
    pub default_mapping: RetryScheduleMapping,
    pub custom_merchant_mapping: Vec<(String, RetryScheduleMapping)>,
}

/// The delay for the `position`-th retry attempt after the first (1-based),
/// read off the parallel step arrays; `None` once the cumulative count is
/// exhausted or the arrays run out.
pub open spec fn step_delay(frequency: Seq<u32>, count: Seq<u32>, position: int) -> Option<u32>
    decreases frequency.len(),
{
    if frequency.len() == 0 || count.len() == 0 {
        None
    } else if position <= count[0] {
        Some(frequency[0])
    } else {
        step_delay(frequency.drop_first(), count.drop_first(), position - count[0])
    }
}

/// The delay before the given 1-based attempt under a mapping, or `None`
/// when the mapping's budget is exhausted.
pub open spec fn resolve_delay(mapping: RetryScheduleMapping, attempt_number: int) -> Option<u32> {
    if attempt_number == 1 {
        Some(mapping.start_after)
    } else {
        step_delay(mapping.frequency@, mapping.count@, attempt_number - 1)
    }
}

/// Resolve the next retry delay for a 1-based attempt number.
pub fn resolve(mapping: &RetryScheduleMapping, attempt_number: u32) -> (delay: Option<u32>)
    requires
        attempt_number >= 1,
    ensures
        delay == resolve_delay(*mapping, attempt_number as int),
{
    if attempt_number == 1 {
        return Some(mapping.start_after);
    }
    let mut remaining: u64 = (attempt_number - 1) as u64;
    let mut i: usize = 0;
    let pairs: usize = if mapping.frequency.len() < mapping.count.len() {
        mapping.frequency.len()
    } else {
        mapping.count.len()
    };
    proof {
        assert(mapping.frequency@.skip(0) =~= mapping.frequency@);
        assert(mapping.count@.skip(0) =~= mapping.count@);
    }
    while i < pairs
        invariant
            i <= pairs,
            pairs <= mapping.frequency.len(),
            pairs <= mapping.count.len(),
            remaining >= 1,
            step_delay(mapping.frequency@.skip(i as int), mapping.count@.skip(i as int),
                remaining as int) == resolve_delay(*mapping, attempt_number as int),
        decreases pairs - i,
    {
        let step_count = mapping.count[i];
        if remaining <= step_count as u64 {
            return Some(mapping.frequency[i]);
        }
        proof {
            assert(mapping.frequency@.skip(i as int).drop_first() =~= mapping.frequency@.skip(
                i as int + 1));
            assert(mapping.count@.skip(i as int).drop_first() =~= mapping.count@.skip(
                i as int + 1));
        }
        remaining = remaining - step_count as u64;
        i = i + 1;
    }
    proof {
        assert(mapping.frequency@.skip(pairs as int).len() == 0 || mapping.count@.skip(
            pairs as int).len() == 0);
    }
    None
}

/// The first custom schedule recorded for a merchant, if any.
pub open spec fn custom_mapping_for(
    entries: Seq<(String, RetryScheduleMapping)>,
    merchant_id: Seq<char>,
) -> Option<RetryScheduleMapping>
    decreases entries.len(),
{
    if entries.len() == 0 {
        None
    } else if entries[0].0@ == merchant_id {
        Some(entries[0].1)
    } else {
        custom_mapping_for(entries.drop_first(), merchant_id)
    }
}

/// The schedule that applies to a merchant: its own override when one is
/// configured, otherwise the default schedule.
pub open spec fn mapping_for_merchant_spec(
    config: OutgoingWebhookRetryProcessTrackerMapping,
    merchant_id: Seq<char>,
) -> RetryScheduleMapping {
    match custom_mapping_for(config.custom_merchant_mapping@, merchant_id) {
        Some(mapping) => mapping,
        None => config.default_mapping,
    }
}

/// Select the schedule for a merchant: the per-merchant override when
/// present, else the default.
pub fn mapping_for_merchant<'a>(
    config: &'a OutgoingWebhookRetryProcessTrackerMapping,
    merchant_id: &String,
) -> (mapping: &'a RetryScheduleMapping)
    ensures
        *mapping == mapping_for_merchant_spec(*config, merchant_id@),
{
    let entries = &config.custom_merchant_mapping;
    let mut i: usize = 0;
    proof {
        assert(entries@.skip(0) =~= entries@);
    }
    while i < entries.len()
        invariant
            i <= entries.len(),
            entries@ == config.custom_merchant_mapping@,
            custom_mapping_for(entries@.skip(i as int), merchant_id@) == custom_mapping_for(
                entries@, merchant_id@),
        decreases entries.len() - i,
    {
        if entries[i].0 == *merchant_id {
            proof {
                assert(entries@.skip(i as int)[0] == entries@[i as int]);
                assert(custom_mapping_for(entries@.skip(i as int), merchant_id@) == Some(
                    entries@[i as int].1));
            }
            return &entries[i].1;
        }
        proof {
            assert(entries@.skip(i as int).drop_first() =~= entries@.skip(i as int + 1));
        }
        i = i + 1;
    }
    &config.default_mapping
}

/// The delay resolved for the retry after `retry_count` completed attempts
/// under the schedule that applies to the merchant.
pub open spec fn schedule_delay_spec(
    config: OutgoingWebhookRetryProcessTrackerMapping,
    merchant_id: Seq<char>,
    retry_count: u32,
) -> Option<u32> {
    resolve_delay(mapping_for_merchant_spec(config, merchant_id), retry_count + 1)
}

/// Resolve the delay before the next retry of a job that has already been
/// retried `retry_count` times.
pub fn next_retry_delay(
    config: &OutgoingWebhookRetryProcessTrackerMapping,
    merchant_id: &String,
    retry_count: u32,
) -> (delay: Option<u32>)
    requires
        retry_count < u32::MAX,
    ensures
        delay == schedule_delay_spec(*config, merchant_id@, retry_count),
{
    let mapping = mapping_for_merchant(config, merchant_id);
    resolve(mapping, retry_count + 1)
}

/// The built-in schedule used when the retry configuration cannot be
/// loaded: first retry after 60 seconds, then five retries 300 seconds
/// apart.
pub fn default_process_tracker_mapping() -> (config: OutgoingWebhookRetryProcessTrackerMapping)
    ensures
        config.default_mapping.start_after == 60,
        config.default_mapping.frequency@ =~= seq![300u32],
        config.default_mapping.count@ =~= seq![5u32],
        config.custom_merchant_mapping@ =~= Seq::<(String, RetryScheduleMapping)>::empty(),
{
    let mut frequency: Vec<u32> = Vec::new();
    frequency.push(300);
    let mut count: Vec<u32> = Vec::new();
    count.push(5);
    OutgoingWebhookRetryProcessTrackerMapping {
        default_mapping: RetryScheduleMapping { start_after: 60, frequency, count },
        custom_merchant_mapping: Vec::new(),
    }
}

/// A mapping with one step pair exhausts after `1 + count[0]` attempts:
/// attempt 1 uses `start_after`, the next `count[0]` attempts use
/// `frequency[0]`, every later attempt resolves to no delay.
pub proof fn lemma_single_step_exhaustion(mapping: RetryScheduleMapping, attempt_number: int)
    requires
        mapping.frequency@.len() == 1,
        mapping.count@.len() == 1,
        attempt_number >= 1,
    ensures
        attempt_number == 1 ==> resolve_delay(mapping, attempt_number) == Some(
            mapping.start_after),
        2 <= attempt_number <= 1 + mapping.count@[0] ==> resolve_delay(mapping, attempt_number)
            == Some(mapping.frequency@[0]),
        attempt_number > 1 + mapping.count@[0] ==> resolve_delay(mapping, attempt_number)
            is None,
{
    if attempt_number > 1 + mapping.count@[0] {
        assert(step_delay(mapping.frequency@.drop_first(), mapping.count@.drop_first(),
            attempt_number - 1 - mapping.count@[0]) is None);
    }
}

/// A mapping with two step pairs walks both steps in order and exhausts
/// after `1 + count[0] + count[1]` attempts.
pub proof fn lemma_two_step_exhaustion(mapping: RetryScheduleMapping, attempt_number: int)
    requires
        mapping.frequency@.len() == 2,
        mapping.count@.len() == 2,
        attempt_number >= 1,
    ensures
        attempt_number == 1 ==> resolve_delay(mapping, attempt_number) == Some(
            mapping.start_after),
        2 <= attempt_number <= 1 + mapping.count@[0] ==> resolve_delay(mapping, attempt_number)
            == Some(mapping.frequency@[0]),
        1 + mapping.count@[0] < attempt_number <= 1 + mapping.count@[0] + mapping.count@[1]
            ==> resolve_delay(mapping, attempt_number) == Some(mapping.frequency@[1]),
        attempt_number > 1 + mapping.count@[0] + mapping.count@[1] ==> resolve_delay(mapping,
            attempt_number) is None,
{
    if attempt_number > 1 + mapping.count@[0] {
        assert(step_delay(mapping.frequency@, mapping.count@, attempt_number - 1) == step_delay(
            mapping.frequency@.drop_first(),
            mapping.count@.drop_first(),
            attempt_number - 1 - mapping.count@[0],
        ));
        if attempt_number > 1 + mapping.count@[0] + mapping.count@[1] {
            assert(step_delay(mapping.frequency@.drop_first().drop_first(),
                mapping.count@.drop_first().drop_first(),
                attempt_number - 1 - mapping.count@[0] - mapping.count@[1]) is None);
        }
    }
}

/// The delays of the built-in schedule, the fallback when the retry
/// configuration cannot be loaded: attempt 1 after 60 seconds, attempts 2
/// through 6 after 300 seconds each, exhausted afterwards.
pub open spec fn built_in_delay(attempt_number: int) -> Option<u32> {
    if attempt_number == 1 {
        Some(60u32)
    } else if 2 <= attempt_number <= 6 {
        Some(300u32)
    } else {
        None
    }
}

/// The built-in schedule resolves exactly to [`built_in_delay`].
pub proof fn lemma_built_in_mapping_delay(
    config: OutgoingWebhookRetryProcessTrackerMapping,
    merchant_id: Seq<char>,
    retry_count: u32,
)
    requires
        config.default_mapping.start_after == 60,
        config.default_mapping.frequency@ =~= seq![300u32],
        config.default_mapping.count@ =~= seq![5u32],
        config.custom_merchant_mapping@ =~= Seq::<(String, RetryScheduleMapping)>::empty(),
        retry_count < u32::MAX,
    ensures
        schedule_delay_spec(config, merchant_id, retry_count) == built_in_delay(
            retry_count + 1),
{
    assert(custom_mapping_for(config.custom_merchant_mapping@, merchant_id) is None);
    assert(mapping_for_merchant_spec(config, merchant_id) == config.default_mapping);
    lemma_single_step_exhaustion(config.default_mapping, retry_count + 1);
    assert(config.default_mapping.frequency@[0] == 300u32);
    assert(config.default_mapping.count@[0] == 5u32);
}

/// The resolver is a pure function: equal mappings and equal attempt
/// numbers resolve to equal delays.
pub proof fn lemma_resolver_deterministic(
    first: RetryScheduleMapping,
    second: RetryScheduleMapping,
    attempt_number: int,
)
    requires
        first == second,
    ensures
        resolve_delay(first, attempt_number) == resolve_delay(second, attempt_number),
{
}

/// The delay resolved for a job under a loaded configuration, or under the
/// built-in schedule when none could be loaded.
pub open spec fn loaded_delay_spec(
    config: Option<&OutgoingWebhookRetryProcessTrackerMapping>,
    merchant_id: Seq<char>,
    retry_count: u32,
) -> Option<u32> {
    match config {
        Some(c) => schedule_delay_spec(*c, merchant_id, retry_count),
        None => built_in_delay(retry_count + 1),
    }
}

/// Resolve the next retry delay under a loaded configuration, falling back
/// to the built-in schedule when none could be loaded.
pub fn next_retry_delay_or_default(
    config: Option<&OutgoingWebhookRetryProcessTrackerMapping>,
    merchant_id: &String,
    retry_count: u32,
) -> (delay: Option<u32>)
    requires
        retry_count < u32::MAX,
    ensures
        delay == loaded_delay_spec(config, merchant_id@, retry_count),
{
    match config {
        Some(c) => next_retry_delay(c, merchant_id, retry_count),
        None => {
            let fallback = default_process_tracker_mapping();
            let delay = next_retry_delay(&fallback, merchant_id, retry_count);
            proof {
                lemma_built_in_mapping_delay(fallback, merchant_id@, retry_count);
            }
            delay
        },
    }
}

/// Relies on `time::OffsetDateTime::now_utc` and
/// `time::OffsetDateTime::unix_timestamp`: the current moment as whole
/// seconds since the Unix epoch.
#[verifier::external_body]
fn now_unix_timestamp() -> i64 {
    time::OffsetDateTime::now_utc().unix_timestamp()
}

/// The absolute timestamp `delay_seconds` after `now`, unless it leaves the
/// timestamp range.
pub fn schedule_time_from_delay(now: i64, delay_seconds: u32) -> (at: Option<i64>)
    ensures
        now + delay_seconds <= i64::MAX ==> at == Some((now + delay_seconds) as i64),
        now + delay_seconds > i64::MAX ==> at is None,
{
    if now <= i64::MAX - delay_seconds as i64 {
        Some(now + delay_seconds as i64)
    } else {
        None
    }
}

/// The schedule time for the retry after `retry_count` completed attempts:
/// the current time plus the resolved delay. `None` when the budget is
/// exhausted (and on a timestamp past the representable range).
pub fn get_webhook_delivery_retry_schedule_time(
    config: Option<&OutgoingWebhookRetryProcessTrackerMapping>,
    merchant_id: &String,
    retry_count: u32,
) -> (at: Option<i64>)
    requires
        retry_count < u32::MAX,
    ensures
        at is Some ==> loaded_delay_spec(config, merchant_id@, retry_count) is Some,
        loaded_delay_spec(config, merchant_id@, retry_count) is None ==> at is None,
{
    match next_retry_delay_or_default(config, merchant_id, retry_count) {
        Some(delay_seconds) => {
            let now = now_unix_timestamp();
            schedule_time_from_delay(now, delay_seconds)
        },
        None => None,
    }
}

/// The single reschedule-or-finish decision made for a job whose delivery
/// hand-off failed.
#[derive(Clone, Debug)]
pub enum ScheduleDecision {
    /// Reschedule the job at this timestamp.
    RetryAt { schedule_time: i64 },
    /// Finish the job with a terminal business status.
    Finish { status: BusinessStatus },
}

/// Decide, exactly once, whether a job whose delivery failed is rescheduled
/// or finished: reschedule at `now` plus the resolved delay (saturating at
/// the end of the timestamp range), or finish with RETRIES_EXCEEDED when
/// the schedule is exhausted.
pub fn retry_webhook_delivery_decision(
    config: Option<&OutgoingWebhookRetryProcessTrackerMapping>,
    merchant_id: &String,
    retry_count: u32,
    now: i64,
) -> (decision: ScheduleDecision)
    requires
        retry_count < u32::MAX,
    ensures
        match loaded_delay_spec(config, merchant_id@, retry_count) {
            Some(delay) => decision matches ScheduleDecision::RetryAt { schedule_time }
                && schedule_time == if now + delay <= i64::MAX {
                    now + delay
                } else {
                    i64::MAX as int
                },
            None => decision matches ScheduleDecision::Finish { status } && status
                is RetriesExceeded,
        },
{
    match next_retry_delay_or_default(config, merchant_id, retry_count) {
        Some(delay_seconds) => {
            let schedule_time = match schedule_time_from_delay(now, delay_seconds) {
                Some(at) => at,
                None => i64::MAX,
            };
            ScheduleDecision::RetryAt { schedule_time }
        },
        None => ScheduleDecision::Finish { status: BusinessStatus::RetriesExceeded },
    }
}

} // verus!
