use webhook_retry::schedule::OutgoingWebhookRetryProcessTrackerMapping;
use webhook_retry::schedule::RetryScheduleMapping;
use webhook_retry::schedule::ScheduleDecision;
use webhook_retry::schedule::default_process_tracker_mapping;
use webhook_retry::schedule::get_webhook_delivery_retry_schedule_time;
use webhook_retry::schedule::mapping_for_merchant;
use webhook_retry::schedule::next_retry_delay;
use webhook_retry::schedule::next_retry_delay_or_default;
use webhook_retry::schedule::resolve;
use webhook_retry::schedule::retry_webhook_delivery_decision;
use webhook_retry::schedule::schedule_time_from_delay;
use webhook_retry::types::BusinessStatus;

fn mapping(start_after: u32, frequency: Vec<u32>, count: Vec<u32>) -> RetryScheduleMapping {
    RetryScheduleMapping { start_after, frequency, count }
}

#[test]
fn resolver_is_deterministic() {
    let m = mapping(60, vec![300], vec![5]);
    for attempt in 1..10u32 {
        assert_eq!(resolve(&m, attempt), resolve(&m, attempt));
    }
}

#[test]
fn resolver_exhausts_single_step_mapping() {
    let m = mapping(60, vec![300], vec![5]);
    assert_eq!(resolve(&m, 1), Some(60));
    for attempt in 2..=6u32 {
        assert_eq!(resolve(&m, attempt), Some(300));
    }
    assert_eq!(resolve(&m, 7), None);
    assert_eq!(resolve(&m, 100), None);
}

#[test]
fn resolver_walks_two_step_mapping() {
    let m = mapping(30, vec![120, 600], vec![3, 2]);
    assert_eq!(resolve(&m, 1), Some(30));
    assert_eq!(resolve(&m, 2), Some(120));
    assert_eq!(resolve(&m, 3), Some(120));
    assert_eq!(resolve(&m, 4), Some(120));
    assert_eq!(resolve(&m, 5), Some(600));
    assert_eq!(resolve(&m, 6), Some(600));
    assert_eq!(resolve(&m, 7), None);
}

#[test]
fn resolver_with_empty_steps_exhausts_after_first() {
    let m = mapping(45, vec![], vec![]);
    assert_eq!(resolve(&m, 1), Some(45));
    assert_eq!(resolve(&m, 2), None);
}

#[test]
fn merchant_override_is_selected() {
    let config = OutgoingWebhookRetryProcessTrackerMapping {
        default_mapping: mapping(60, vec![300], vec![5]),
        custom_merchant_mapping: vec![
            (String::from("m_custom"), mapping(10, vec![20], vec![1])),
        ],
    };
    let chosen = mapping_for_merchant(&config, &String::from("m_custom"));
    assert_eq!(chosen.start_after, 10);
    let fallback = mapping_for_merchant(&config, &String::from("m_other"));
    assert_eq!(fallback.start_after, 60);
}

#[test]
fn next_retry_delay_uses_override_then_default() {
    let config = OutgoingWebhookRetryProcessTrackerMapping {
        default_mapping: mapping(30, vec![120, 600], vec![3, 2]),
        custom_merchant_mapping: vec![
            (String::from("m_custom"), mapping(10, vec![20], vec![1])),
        ],
    };
    assert_eq!(next_retry_delay(&config, &String::from("m_custom"), 0), Some(10));
    assert_eq!(next_retry_delay(&config, &String::from("m_custom"), 1), Some(20));
    assert_eq!(next_retry_delay(&config, &String::from("m_custom"), 2), None);
    assert_eq!(next_retry_delay(&config, &String::from("m_plain"), 0), Some(30));
    assert_eq!(next_retry_delay(&config, &String::from("m_plain"), 1), Some(120));
}

#[test]
fn built_in_default_covers_six_attempts() {
    let built_in = default_process_tracker_mapping();
    assert_eq!(built_in.default_mapping.start_after, 60);
    assert_eq!(built_in.default_mapping.frequency, vec![300]);
    assert_eq!(built_in.default_mapping.count, vec![5]);
    let merchant = String::from("m_any");
    assert_eq!(next_retry_delay_or_default(None, &merchant, 0), Some(60));
    assert_eq!(next_retry_delay_or_default(None, &merchant, 1), Some(300));
    assert_eq!(next_retry_delay_or_default(None, &merchant, 5), Some(300));
    assert_eq!(next_retry_delay_or_default(None, &merchant, 6), None);
}

#[test]
fn schedule_time_adds_delay() {
    assert_eq!(schedule_time_from_delay(1_000_000, 300), Some(1_000_300));
    assert_eq!(schedule_time_from_delay(-500, 200), Some(-300));
    assert_eq!(schedule_time_from_delay(i64::MAX - 10, 300), None);
}

#[test]
fn retry_decision_reschedules_then_finishes() {
    let config = OutgoingWebhookRetryProcessTrackerMapping {
        default_mapping: mapping(30, vec![120, 600], vec![3, 2]),
        custom_merchant_mapping: vec![],
    };
    let merchant = String::from("m_plain");
    match retry_webhook_delivery_decision(Some(&config), &merchant, 0, 10_000) {
        ScheduleDecision::RetryAt { schedule_time } => assert_eq!(schedule_time, 10_030),
        other => panic!("expected a reschedule, got {:?}", other),
    }
    match retry_webhook_delivery_decision(Some(&config), &merchant, 4, 10_000) {
        ScheduleDecision::RetryAt { schedule_time } => assert_eq!(schedule_time, 10_600),
        other => panic!("expected a reschedule, got {:?}", other),
    }
    match retry_webhook_delivery_decision(Some(&config), &merchant, 6, 10_000) {
        ScheduleDecision::Finish { status } => {
            assert_eq!(status, BusinessStatus::RetriesExceeded);
        }
        other => panic!("expected a finish, got {:?}", other),
    }
}

#[test]
fn schedule_time_reflects_exhaustion() {
    let config = OutgoingWebhookRetryProcessTrackerMapping {
        default_mapping: mapping(60, vec![300], vec![5]),
        custom_merchant_mapping: vec![],
    };
    let merchant = String::from("m_plain");
    assert!(get_webhook_delivery_retry_schedule_time(Some(&config), &merchant, 0).is_some());
    assert!(get_webhook_delivery_retry_schedule_time(Some(&config), &merchant, 3).is_some());
    assert_eq!(get_webhook_delivery_retry_schedule_time(Some(&config), &merchant, 6), None);
    assert!(get_webhook_delivery_retry_schedule_time(None, &merchant, 0).is_some());
    assert_eq!(get_webhook_delivery_retry_schedule_time(None, &merchant, 6), None);
}
