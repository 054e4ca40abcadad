use router::enums::{AttemptStatus, IntentStatus};
use router::schedule::{
    get_delay, get_schedule_time, get_sync_process_schedule_time, pt_mapping_key, resolve_mapping, time_after,
    ConnectorPTMapping, RetryMapping,
};
use router::workflow::{
    is_terminal, retry_sync_task, BusinessStatus, PaymentAttempt, PaymentsSyncWorkflow, ProcessStatus,
    ProcessTracker, ProcessTrackerError, SyncStep,
};

#[test]
fn test_get_default_schedule_time() {
    let merchant_id = "-";
    let schedule_time_delta = get_schedule_time(&ConnectorPTMapping::default(), merchant_id, 0).unwrap();
    let first_retry_time_delta = get_schedule_time(&ConnectorPTMapping::default(), merchant_id, 1).unwrap();
    let cpt_default = ConnectorPTMapping::default().default_mapping;
    assert_eq!(
        vec![schedule_time_delta, first_retry_time_delta],
        vec![cpt_default.start_after, cpt_default.frequencies.first().unwrap().0]
    );
}

fn example_mapping() -> ConnectorPTMapping {
    ConnectorPTMapping {
        default_mapping: RetryMapping { start_after: 60, frequencies: vec![(300, 5)] },
        custom_merchant_mapping: Vec::new(),
        max_retries_count: 5,
    }
}

#[test]
fn example_mapping_intervals() {
    let m = example_mapping();
    assert_eq!(get_schedule_time(&m, "m1", 0), Some(60));
    assert_eq!(get_schedule_time(&m, "m1", 1), Some(300));
    assert_eq!(get_schedule_time(&m, "m1", 5), Some(300));
    assert_eq!(get_schedule_time(&m, "m1", 6), None);
}

#[test]
fn start_after_and_beyond_max_retries() {
    let m = ConnectorPTMapping {
        default_mapping: RetryMapping { start_after: 15, frequencies: vec![(60, 10)] },
        custom_merchant_mapping: Vec::new(),
        max_retries_count: 3,
    };
    assert_eq!(get_schedule_time(&m, "m1", 0), Some(15));
    assert_eq!(get_schedule_time(&m, "m1", 3), Some(60));
    assert_eq!(get_schedule_time(&m, "m1", 4), None);
}

#[test]
fn buckets_are_consumed_in_order() {
    let f = vec![(10, 2), (20, 1), (30, 3)];
    assert_eq!(get_delay(0, &f), None);
    assert_eq!(get_delay(1, &f), Some(10));
    assert_eq!(get_delay(2, &f), Some(10));
    assert_eq!(get_delay(3, &f), Some(20));
    assert_eq!(get_delay(4, &f), Some(30));
    assert_eq!(get_delay(6, &f), Some(30));
    assert_eq!(get_delay(7, &f), None);
    assert_eq!(get_delay(1, &Vec::new()), None);
}

#[test]
fn merchant_schedule_overrides_default() {
    let mut m = example_mapping();
    m.custom_merchant_mapping.push((
        "m2".to_string(),
        RetryMapping { start_after: 5, frequencies: vec![(7, 1)] },
    ));
    assert_eq!(get_schedule_time(&m, "m2", 0), Some(5));
    assert_eq!(get_schedule_time(&m, "m2", 1), Some(7));
    assert_eq!(get_schedule_time(&m, "m2", 2), None);
    assert_eq!(get_schedule_time(&m, "m1", 2), Some(300));
}

#[test]
fn unreadable_schedule_falls_back_to_default() {
    let d = resolve_mapping(None);
    assert_eq!(d, ConnectorPTMapping::default());
    assert_eq!(resolve_mapping(Some(example_mapping())), example_mapping());
    assert_eq!(get_sync_process_schedule_time(None, "m1", 0, 1_000), Some(1_060));
    assert_eq!(get_sync_process_schedule_time(None, "m1", 6, 1_000), None);
    assert_eq!(pt_mapping_key("trustpay"), "pt_mapping_trustpay");
}

#[test]
fn schedule_time_saturates() {
    assert_eq!(time_after(i64::MAX - 1, 300), i64::MAX);
    assert_eq!(time_after(i64::MIN + 1, -300), i64::MIN);
    assert_eq!(time_after(100, -30), 70);
}

fn job(retry_count: i32) -> ProcessTracker {
    ProcessTracker { id: "job_1".to_string(), retry_count, status: ProcessStatus::New, schedule_time: None }
}

fn attempt(status: AttemptStatus, connector_transaction_id: Option<&str>) -> PaymentAttempt {
    PaymentAttempt {
        merchant_id: "m1".to_string(),
        status,
        connector: Some("trustpay".to_string()),
        connector_transaction_id: connector_transaction_id.map(|s| s.to_string()),
    }
}

#[test]
fn terminal_statuses() {
    for s in [
        AttemptStatus::RouterDeclined,
        AttemptStatus::Charged,
        AttemptStatus::AutoRefunded,
        AttemptStatus::Voided,
        AttemptStatus::VoidFailed,
        AttemptStatus::CaptureFailed,
        AttemptStatus::Failure,
    ] {
        assert!(is_terminal(s));
    }
    assert!(!is_terminal(AttemptStatus::Pending));
    assert!(!is_terminal(AttemptStatus::Authorized));
}

#[test]
fn terminal_status_completes_job_without_rescheduling() {
    let w = PaymentsSyncWorkflow;
    let r = w.on_attempt_status(job(2), &attempt(AttemptStatus::Charged, Some("txn")));
    match r {
        Ok(SyncStep::Finished(p)) => {
            assert_eq!(p.status, ProcessStatus::Completed(BusinessStatus::CompletedByWorkflow));
            assert_eq!(p.retry_count, 2);
            assert_eq!(p.schedule_time, None);
            assert_eq!(BusinessStatus::CompletedByWorkflow.tag(), "COMPLETED_BY_PT");
        }
        _ => panic!("terminal status must finish the job"),
    }
}

#[test]
fn pending_without_connector_is_an_error() {
    let w = PaymentsSyncWorkflow;
    let mut a = attempt(AttemptStatus::Pending, None);
    a.connector = None;
    assert_eq!(w.on_attempt_status(job(0), &a), Err(ProcessTrackerError::MissingRequiredField));
}

#[test]
fn pending_status_asks_for_connector_schedule() {
    let w = PaymentsSyncWorkflow;
    let r = w.on_attempt_status(job(0), &attempt(AttemptStatus::Pending, None));
    assert_eq!(r, Ok(SyncStep::LoadSchedule { connector: "trustpay".to_string() }));
}

#[test]
fn non_terminal_status_reschedules() {
    let w = PaymentsSyncWorkflow;
    let out = w.on_schedule(job(0), &attempt(AttemptStatus::Pending, None), &example_mapping(), 1_000);
    assert!(!out.is_last_retry);
    assert_eq!(out.process.retry_count, 1);
    assert_eq!(out.process.status, ProcessStatus::Retry);
    assert_eq!(out.process.schedule_time, Some(1_300));
    assert_eq!(out.timeout_failure, None);
}

#[test]
fn last_retry_of_pending_attempt_fails_the_payment() {
    let w = PaymentsSyncWorkflow;
    let out = w.on_schedule(job(5), &attempt(AttemptStatus::Pending, None), &example_mapping(), 1_000);
    assert!(out.is_last_retry);
    assert_eq!(out.process.status, ProcessStatus::Completed(BusinessStatus::RetriesExceeded));
    assert_eq!(out.process.retry_count, 5);
    let f = out.timeout_failure.unwrap();
    assert_eq!(f.attempt.status, AttemptStatus::Failure);
    assert_eq!(
        f.attempt.error_reason,
        "This Payment has been moved to failed as there is no response from the connector"
    );
    assert_eq!(f.attempt.amount_capturable, 0);
    assert_eq!(f.intent.status, IntentStatus::Failed);
    assert_eq!(f.intent.incremental_authorization_allowed, Some(false));
    assert!(f.notify_merchant);
    assert_eq!(BusinessStatus::RetriesExceeded.tag(), "RETRIES_EXCEEDED");
}

#[test]
fn last_retry_with_transaction_id_only_finishes_job() {
    let w = PaymentsSyncWorkflow;
    let out = w.on_schedule(job(5), &attempt(AttemptStatus::Pending, Some("txn")), &example_mapping(), 1_000);
    assert!(out.is_last_retry);
    assert_eq!(out.timeout_failure, None);
    let out = w.on_schedule(job(5), &attempt(AttemptStatus::Authorized, None), &example_mapping(), 1_000);
    assert_eq!(out.timeout_failure, None);
}

#[test]
fn retry_count_at_limit_is_exhausted() {
    let (p, last) = retry_sync_task(&example_mapping(), "m1", job(i32::MAX), 0);
    assert!(last);
    assert_eq!(p.status, ProcessStatus::Completed(BusinessStatus::RetriesExceeded));
}

#[test]
fn schedule_now_reschedules() {
    let w = PaymentsSyncWorkflow;
    let out = w.on_schedule_now(job(1), &attempt(AttemptStatus::Pending, None), &example_mapping());
    assert_eq!(out.process.retry_count, 2);
    assert!(out.process.schedule_time.is_some());
}
