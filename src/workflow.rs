//! The payment status synchronisation job: after each status inquiry it
//! finishes the job, or reschedules it, or gives up and fails the payment.
use vstd::prelude::*;
use vstd::string::*;

use crate::clock::now_unix_timestamp;
use crate::enums::{AttemptStatus, IntentStatus};
use crate::schedule::{get_schedule_time, spec_get_schedule_time, spec_time_after, time_after, ConnectorPTMapping};

verus! {

/// Why a finished job stopped.
#[derive(Debug, Clone, Copy, PartialEq, Eq, Structural)]
pub enum BusinessStatus {
    /// The payment reached a terminal status.
    CompletedByWorkflow,
    /// The retry schedule was exhausted.
    RetriesExceeded,
}

impl BusinessStatus {
    pub open spec fn spec_tag(self) -> Seq<char> {
        match self {
            BusinessStatus::CompletedByWorkflow => "COMPLETED_BY_PT"@,
            BusinessStatus::RetriesExceeded => "RETRIES_EXCEEDED"@,
        }
    }

    /// The tag recorded on the job.
    pub fn tag(&self) -> (r: &'static str)
        ensures
            r@ == self.spec_tag(),
    {
        match self {
            BusinessStatus::CompletedByWorkflow => "COMPLETED_BY_PT",
            BusinessStatus::RetriesExceeded => "RETRIES_EXCEEDED",
        }
    }
}

/// Status of a job record.
#[derive(Debug, Clone, Copy, PartialEq, Eq, Structural)]
pub enum ProcessStatus {
    New,
    ProcessStarted,
    Retry,
    Completed(BusinessStatus),
}

/// A job record of the job tracker.
#[derive(Debug, Clone, PartialEq, Eq)]
pub struct ProcessTracker {
    pub id: String,
    pub retry_count: i32,
    pub status: ProcessStatus,
    /// Next run, in unix seconds.
    pub schedule_time: Option<i64>,
}

/// What the status inquiry reported of the payment attempt.
#[derive(Debug, Clone, PartialEq, Eq)]
pub struct PaymentAttempt {
    pub merchant_id: String,
    pub status: AttemptStatus,
    pub connector: Option<String>,
    pub connector_transaction_id: Option<String>,
}

/// Errors the workflow hands to the job tracker's error handler.
#[derive(Debug, Clone, Copy, PartialEq, Eq, Structural)]
pub enum ProcessTrackerError {
    MissingRequiredField,
}

/// The statuses after which no further synchronisation is meaningful.
pub open spec fn spec_is_terminal(status: AttemptStatus) -> bool {
    ||| status == AttemptStatus::RouterDeclined
    ||| status == AttemptStatus::Charged
    ||| status == AttemptStatus::AutoRefunded
    ||| status == AttemptStatus::Voided
    ||| status == AttemptStatus::VoidFailed
    ||| status == AttemptStatus::CaptureFailed
    ||| status == AttemptStatus::Failure
}

/// Whether the attempt status is terminal.
pub fn is_terminal(status: AttemptStatus) -> (r: bool)
    ensures
        r == spec_is_terminal(status),
{
    match status {
        AttemptStatus::RouterDeclined | AttemptStatus::Charged | AttemptStatus::AutoRefunded
        | AttemptStatus::Voided | AttemptStatus::VoidFailed | AttemptStatus::CaptureFailed
        | AttemptStatus::Failure => true,
        _ => false,
    }
}

/// The job once finished with a business status; nothing else changes.
pub open spec fn finished(process: ProcessTracker, business_status: BusinessStatus) -> ProcessTracker {
    ProcessTracker { status: ProcessStatus::Completed(business_status), ..process }
}

/// The job once rescheduled for `time`.
pub open spec fn retried(process: ProcessTracker, time: i64) -> ProcessTracker {
    ProcessTracker {
        retry_count: (process.retry_count + 1) as i32,
        status: ProcessStatus::Retry,
        schedule_time: Some(time),
        ..process
    }
}

/// Finishes the job with a business status.
pub fn finish_process_with_business_status(process: ProcessTracker, business_status: BusinessStatus) -> (r:
    ProcessTracker)
    ensures
        r == finished(process, business_status),
{
    ProcessTracker { status: ProcessStatus::Completed(business_status), ..process }
}

/// Reschedules the job for `time`, counting one more retry.
pub fn retry_process(process: ProcessTracker, time: i64) -> (r: ProcessTracker)
    requires
        process.retry_count < i32::MAX,
    ensures
        r == retried(process, time),
{
    let retry_count = process.retry_count + 1;
    ProcessTracker { retry_count, status: ProcessStatus::Retry, schedule_time: Some(time), ..process }
}

/// When the job runs next, counted from `now`; none when its schedule is
/// exhausted.
pub open spec fn next_run_time(mapping: ConnectorPTMapping, merchant_id: Seq<char>, process: ProcessTracker, now: i64) -> Option<i64> {
    match spec_get_schedule_time(mapping, merchant_id, process.retry_count + 1) {
        Some(delay) => Some(spec_time_after(now, delay)),
        None => None,
    }
}

/// The job after the schedule was consulted, and whether this was its last
/// retry.
pub open spec fn spec_retry_sync_task(
    mapping: ConnectorPTMapping,
    merchant_id: Seq<char>,
    process: ProcessTracker,
    now: i64,
) -> (ProcessTracker, bool) {
    match next_run_time(mapping, merchant_id, process, now) {
        Some(time) => (retried(process, time), false),
        None => (finished(process, BusinessStatus::RetriesExceeded), true),
    }
}

/// Reschedules the job for its next run under the schedule, or, where the
/// schedule is exhausted, finishes it with `RetriesExceeded`. Returns the job
/// and whether this was the last retry.
pub fn retry_sync_task(mapping: &ConnectorPTMapping, merchant_id: &str, process: ProcessTracker, now: i64) -> (r: (
    ProcessTracker,
    bool,
))
    ensures
        r == spec_retry_sync_task(*mapping, merchant_id@, process, now),
{
    let delay = if process.retry_count == i32::MAX {
        None
    } else {
        get_schedule_time(mapping, merchant_id, process.retry_count + 1)
    };
    match delay {
        Some(delay) => {
            let time = time_after(now, delay);
            (retry_process(process, time), false)
        },
        None => (finish_process_with_business_status(process, BusinessStatus::RetriesExceeded), true),
    }
}

/// The reason recorded on an attempt failed for want of a connector response.
pub open spec fn spec_request_timeout_message() -> Seq<char> {
    "This Payment has been moved to failed as there is no response from the connector"@
}

/// The update that fails the payment attempt.
#[derive(Debug, Clone, PartialEq, Eq)]
pub struct AttemptFailureUpdate {
    pub status: AttemptStatus,
    pub error_reason: String,
    pub amount_capturable: i64,
}

/// The update that fails the payment intent.
#[derive(Debug, Clone, Copy, PartialEq, Eq, Structural)]
pub struct IntentFailureUpdate {
    pub status: IntentStatus,
    pub incremental_authorization_allowed: Option<bool>,
}

/// Failing a payment whose connector never answered: the attempt and intent
/// updates, then an outgoing webhook to the merchant, whose failure is only
/// logged.
#[derive(Debug, Clone, PartialEq, Eq)]
pub struct TimeoutFailure {
    pub attempt: AttemptFailureUpdate,
    pub intent: IntentFailureUpdate,
    pub notify_merchant: bool,
}

pub open spec fn is_timeout_failure(f: TimeoutFailure) -> bool {
    &&& f.attempt.status == AttemptStatus::Failure
    &&& f.attempt.error_reason@ == spec_request_timeout_message()
    &&& f.attempt.amount_capturable == 0
    &&& f.intent.status == IntentStatus::Failed
    &&& f.intent.incremental_authorization_allowed == Some(false)
    &&& f.notify_merchant
}

/// The failure of a payment whose connector never answered.
pub fn timeout_failure() -> (r: TimeoutFailure)
    ensures
        is_timeout_failure(r),
{
    TimeoutFailure {
        attempt: AttemptFailureUpdate {
            status: AttemptStatus::Failure,
            error_reason: String::from_str(
                "This Payment has been moved to failed as there is no response from the connector",
            ),
            amount_capturable: 0,
        },
        intent: IntentFailureUpdate { status: IntentStatus::Failed, incremental_authorization_allowed: Some(false) },
        notify_merchant: true,
    }
}

/// What to do after the status inquiry.
#[derive(Debug, Clone, PartialEq, Eq)]
pub enum SyncStep {
    /// The job is finished; this is its record.
    Finished(ProcessTracker),
    /// Load the retry schedule of this connector, then call `on_schedule`.
    LoadSchedule { connector: String },
}

/// What `on_attempt_status` returns.
pub open spec fn on_attempt_status_post(
    process: ProcessTracker,
    attempt: PaymentAttempt,
    r: Result<SyncStep, ProcessTrackerError>,
) -> bool {
    if spec_is_terminal(attempt.status) {
        r == Ok::<SyncStep, ProcessTrackerError>(
            SyncStep::Finished(finished(process, BusinessStatus::CompletedByWorkflow)),
        )
    } else {
        match attempt.connector {
            None => r == Err::<SyncStep, ProcessTrackerError>(ProcessTrackerError::MissingRequiredField),
            Some(c) => r matches Ok(SyncStep::LoadSchedule { connector }) && connector@ == c@,
        }
    }
}

/// The job after the schedule was consulted, whether that was its last
/// retry, and the failure to apply to the payment, if any.
#[derive(Debug, Clone, PartialEq, Eq)]
pub struct SyncOutcome {
    pub process: ProcessTracker,
    pub is_last_retry: bool,
    pub timeout_failure: Option<TimeoutFailure>,
}

/// What `on_schedule` returns.
pub open spec fn on_schedule_post(
    process: ProcessTracker,
    attempt: PaymentAttempt,
    mapping: ConnectorPTMapping,
    now: i64,
    r: SyncOutcome,
) -> bool {
    let (p, last) = spec_retry_sync_task(mapping, attempt.merchant_id@, process, now);
    &&& r.process == p
    &&& r.is_last_retry == last
    &&& (r.timeout_failure is Some <==> (last && attempt.status == AttemptStatus::Pending
        && attempt.connector_transaction_id is None))
    &&& (r.timeout_failure matches Some(f) ==> is_timeout_failure(f))
}

/// The decisions of the payment status synchronisation job. Each run starts
/// from the attempt status the inquiry reports, so a run repeated after a
/// crash decides afresh.
#[derive(Debug, Clone, Copy, PartialEq, Eq, Structural)]
pub struct PaymentsSyncWorkflow;

impl PaymentsSyncWorkflow {
    /// After the status inquiry: a terminal status finishes the job with
    /// `CompletedByWorkflow` and touches nothing else; otherwise the
    /// connector's retry schedule is needed.
    pub fn on_attempt_status(&self, process: ProcessTracker, attempt: &PaymentAttempt) -> (r: Result<
        SyncStep,
        ProcessTrackerError,
    >)
        ensures
            on_attempt_status_post(process, *attempt, r),
    {
        if is_terminal(attempt.status) {
            Ok(SyncStep::Finished(finish_process_with_business_status(process, BusinessStatus::CompletedByWorkflow)))
        } else {
            match &attempt.connector {
                None => Err(ProcessTrackerError::MissingRequiredField),
                Some(c) => Ok(SyncStep::LoadSchedule { connector: c.clone() }),
            }
        }
    }

    /// With the connector's schedule: reschedule the job, or finish it with
    /// `RetriesExceeded`; on the last retry of a still pending attempt that
    /// never got a connector transaction id, fail the payment too.
    pub fn on_schedule(
        &self,
        process: ProcessTracker,
        attempt: &PaymentAttempt,
        mapping: &ConnectorPTMapping,
        now: i64,
    ) -> (r: SyncOutcome)
        ensures
            on_schedule_post(process, *attempt, *mapping, now, r),
    {
        let (process, is_last_retry) = retry_sync_task(mapping, attempt.merchant_id.as_str(), process, now);
        let timeout = is_last_retry && attempt.status == AttemptStatus::Pending
            && attempt.connector_transaction_id.is_none();
        let timeout_failure = if timeout {
            Some(timeout_failure())
        } else {
            None
        };
        SyncOutcome { process, is_last_retry, timeout_failure }
    }

    /// `on_schedule`, counted from the current time.
    pub fn on_schedule_now(&self, process: ProcessTracker, attempt: &PaymentAttempt, mapping: &ConnectorPTMapping) -> (r:
        SyncOutcome)
        ensures
            exists|now: i64| on_schedule_post(process, *attempt, *mapping, now, r),
    {
        let now = now_unix_timestamp();
        self.on_schedule(process, attempt, mapping, now)
    }
}

/// A run that observes a terminal attempt status finishes the job with
/// `CompletedByWorkflow`, leaving its retry count and schedule untouched.
pub proof fn lemma_terminal_status_completes_job(
    process: ProcessTracker,
    attempt: PaymentAttempt,
    r: Result<SyncStep, ProcessTrackerError>,
)
    requires
        spec_is_terminal(attempt.status),
        on_attempt_status_post(process, attempt, r),
    ensures
        r matches Ok(SyncStep::Finished(p)) && p.status == ProcessStatus::Completed(BusinessStatus::CompletedByWorkflow)
            && p.retry_count == process.retry_count && p.schedule_time == process.schedule_time
            && p.id == process.id,
{
}

/// A run on the last allowed retry of a pending attempt with no connector
/// transaction id finishes the job with `RetriesExceeded`, and fails the
/// attempt and the intent and notifies the merchant; the job's record is
/// settled before the webhook is sent, so the webhook's fate cannot touch it.
pub proof fn lemma_last_retry_pending_times_out(
    process: ProcessTracker,
    attempt: PaymentAttempt,
    mapping: ConnectorPTMapping,
    now: i64,
    step: Result<SyncStep, ProcessTrackerError>,
    outcome: SyncOutcome,
)
    requires
        attempt.status == AttemptStatus::Pending,
        attempt.connector is Some,
        attempt.connector_transaction_id is None,
        process.retry_count >= mapping.max_retries_count,
        on_attempt_status_post(process, attempt, step),
        on_schedule_post(process, attempt, mapping, now, outcome),
    ensures
        step matches Ok(SyncStep::LoadSchedule { connector }),
        outcome.process == finished(process, BusinessStatus::RetriesExceeded),
        outcome.is_last_retry,
        outcome.timeout_failure matches Some(f) && f.attempt.status == AttemptStatus::Failure && f.intent.status
            == IntentStatus::Failed && f.notify_merchant,
{
}

} // verus!
