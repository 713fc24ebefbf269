use actix_web_lets_encrypt::scheduler::{
    CheckAction, IssueAction, JobPhase, Scheduler, StartupOutcome,
};
use actix_web_lets_encrypt::{Instant, LifecycleError, TimeSpan};

const HOUR: u64 = 3_600;

fn at(secs: i64) -> Instant {
    Instant::from_secs(secs)
}

fn two_jobs() -> Scheduler {
    Scheduler::new(vec![TimeSpan::from_secs(12 * HOUR), TimeSpan::from_secs(HOUR)])
}

fn armed_two_jobs() -> Scheduler {
    let mut s = two_jobs();
    assert_eq!(s.check(0, at(0), Ok(false)), CheckAction::Wait);
    assert_eq!(s.check(1, at(0), Ok(false)), CheckAction::Wait);
    assert_eq!(s.finish_startup(at(0)), StartupOutcome::Armed);
    s
}

#[test]
fn new_scheduler_has_every_job_unchecked() {
    let s = two_jobs();
    assert_eq!(s.job_count(), 2);
    assert_eq!(s.phase(0), Some(JobPhase::Unchecked));
    assert_eq!(s.phase(1), Some(JobPhase::Unchecked));
    assert_eq!(s.phase(2), None);
    assert!(!s.restart_requested());
    assert!(!s.armed());
}

#[test]
fn every_job_is_due_once_at_startup() {
    let mut s = two_jobs();
    assert!(s.is_due(0, at(0)));
    assert!(s.is_due(1, at(-5)));
    assert!(!s.is_due(2, at(0)));
    assert_eq!(s.check(0, at(0), Ok(false)), CheckAction::Wait);
    assert_eq!(s.phase(0), Some(JobPhase::Waiting));
    assert!(!s.is_due(0, at(1_000_000)));
    assert_eq!(s.check(0, at(1_000_000), Ok(true)), CheckAction::Skip);
    assert_eq!(s.phase(0), Some(JobPhase::Waiting));
    assert!(s.is_due(1, at(0)));
}

#[test]
fn startup_is_pending_until_every_job_is_settled() {
    let mut s = two_jobs();
    assert_eq!(s.finish_startup(at(0)), StartupOutcome::Pending);
    s.check(0, at(0), Ok(false));
    assert_eq!(s.finish_startup(at(0)), StartupOutcome::Pending);
    assert_eq!(s.check(1, at(0), Ok(true)), CheckAction::Issue);
    assert_eq!(s.finish_startup(at(0)), StartupOutcome::Pending);
    assert!(!s.armed());
}

#[test]
fn startup_without_issuance_arms_the_periodic_checks() {
    let mut s = armed_two_jobs();
    assert!(s.armed());
    assert!(!s.restart_requested());
    assert_eq!(s.finish_startup(at(5)), StartupOutcome::Running);
}

#[test]
fn startup_issuance_asks_for_restart_and_arms_nothing() {
    let mut s = two_jobs();
    assert_eq!(s.check(0, at(0), Ok(true)), CheckAction::Issue);
    assert_eq!(s.phase(0), Some(JobPhase::Issuing));
    assert_eq!(s.issued(0, at(10), Ok(())), IssueAction::SignalRestart);
    assert_eq!(s.phase(0), Some(JobPhase::Issued));
    assert!(s.restart_requested());
    // the remaining job is still examined during startup
    assert!(s.is_due(1, at(10)));
    assert_eq!(s.check(1, at(10), Ok(false)), CheckAction::Wait);
    assert_eq!(s.finish_startup(at(10)), StartupOutcome::Restart);
    assert!(!s.armed());
    assert!(!s.is_due(0, at(1_000_000_000)));
    assert!(!s.is_due(1, at(1_000_000_000)));
}

#[test]
fn second_startup_issuance_finds_restart_pending() {
    let mut s = two_jobs();
    s.check(0, at(0), Ok(true));
    assert_eq!(s.issued(0, at(1), Ok(())), IssueAction::SignalRestart);
    s.check(1, at(1), Ok(true));
    assert_eq!(s.issued(1, at(2), Ok(())), IssueAction::RestartPending);
    assert!(s.restart_requested());
    assert_eq!(s.finish_startup(at(2)), StartupOutcome::Restart);
}

#[test]
fn startup_issuance_failure_is_fatal() {
    let mut s = two_jobs();
    s.check(0, at(0), Ok(true));
    assert_eq!(
        s.issued(0, at(1), Err(LifecycleError::ValidationFailed)),
        IssueAction::Fatal(LifecycleError::ValidationFailed)
    );
    assert_eq!(s.phase(0), Some(JobPhase::Failed));
    s.check(1, at(1), Ok(false));
    assert_eq!(s.finish_startup(at(1)), StartupOutcome::Failed);
    assert!(!s.armed());
    assert!(!s.restart_requested());
}

#[test]
fn startup_examination_failure_is_fatal() {
    let mut s = two_jobs();
    assert_eq!(
        s.check(0, at(0), Err(LifecycleError::FileIo)),
        CheckAction::Fatal(LifecycleError::FileIo)
    );
    assert_eq!(s.phase(0), Some(JobPhase::Failed));
}

#[test]
fn malformed_certificate_is_reported_and_reissued() {
    let mut s = two_jobs();
    assert_eq!(
        s.check(0, at(0), Err(LifecycleError::MalformedCertificate)),
        CheckAction::ReportAndIssue(LifecycleError::MalformedCertificate)
    );
    assert_eq!(s.phase(0), Some(JobPhase::Issuing));

    let mut armed = armed_two_jobs();
    assert_eq!(
        armed.check(1, at(3_600), Err(LifecycleError::MalformedCertificate)),
        CheckAction::ReportAndIssue(LifecycleError::MalformedCertificate)
    );
    assert_eq!(armed.phase(1), Some(JobPhase::Issuing));
}

#[test]
fn job_is_due_when_its_own_interval_has_passed() {
    let s = armed_two_jobs();
    assert!(!s.is_due(1, at(3_599)));
    assert!(s.is_due(1, at(3_600)));
    assert!(!s.is_due(0, at(3_600)));
    assert!(!s.is_due(0, at(43_199)));
    assert!(s.is_due(0, at(43_200)));
    assert!(!s.is_due(1, Instant::new(3_599, 999_999_999)));
}

#[test]
fn interval_counts_from_the_last_check() {
    let mut s = armed_two_jobs();
    assert_eq!(s.check(1, at(4_000), Ok(false)), CheckAction::Wait);
    assert!(!s.is_due(1, at(7_200)));
    assert!(!s.is_due(1, at(7_599)));
    assert!(s.is_due(1, at(7_600)));
}

#[test]
fn check_before_the_interval_is_skipped() {
    let mut s = armed_two_jobs();
    assert_eq!(s.check(1, at(100), Ok(true)), CheckAction::Skip);
    assert_eq!(s.phase(1), Some(JobPhase::Waiting));
    assert_eq!(s.check(7, at(100_000), Ok(true)), CheckAction::Skip);
}

#[test]
fn two_overdue_ticks_start_one_issuance() {
    let mut s = armed_two_jobs();
    // both ticks find the job overdue and the certificate inside its window
    assert_eq!(s.check(1, at(10_000), Ok(true)), CheckAction::Issue);
    assert_eq!(s.check(1, at(10_000), Ok(true)), CheckAction::Skip);
    assert_eq!(s.check(1, at(20_000), Ok(true)), CheckAction::Skip);
    assert!(!s.is_due(1, at(20_000)));
    assert_eq!(s.phase(1), Some(JobPhase::Issuing));
    // the first attempt runs to its end before the job can be taken up again
    assert_eq!(
        s.issued(1, at(10_050), Err(LifecycleError::Network)),
        IssueAction::Retry(LifecycleError::Network)
    );
    assert_eq!(s.phase(1), Some(JobPhase::Failed));
    assert!(!s.is_due(1, at(10_051)));
    assert!(s.is_due(1, at(13_650)));
    assert_eq!(s.check(1, at(13_650), Ok(true)), CheckAction::Issue);
}

#[test]
fn in_flight_issuance_does_not_block_other_jobs() {
    let mut s = armed_two_jobs();
    assert_eq!(s.check(1, at(50_000), Ok(true)), CheckAction::Issue);
    assert!(s.is_due(0, at(50_000)));
    assert_eq!(s.check(0, at(50_000), Ok(false)), CheckAction::Wait);
    assert_eq!(s.phase(1), Some(JobPhase::Issuing));
}

#[test]
fn steady_state_failure_is_retried_at_the_next_check() {
    let mut s = armed_two_jobs();
    assert_eq!(s.check(1, at(3_600), Ok(true)), CheckAction::Issue);
    assert_eq!(
        s.issued(1, at(3_700), Err(LifecycleError::ChallengeUnavailable)),
        IssueAction::Retry(LifecycleError::ChallengeUnavailable)
    );
    assert!(!s.restart_requested());
    assert!(s.is_due(1, at(7_300)));
    assert_eq!(
        s.check(0, at(43_200), Err(LifecycleError::FileIo)),
        CheckAction::Report(LifecycleError::FileIo)
    );
    assert_eq!(s.phase(0), Some(JobPhase::Failed));
    assert!(s.is_due(0, at(86_400)));
}

#[test]
fn steady_state_issuance_signals_restart_once() {
    let mut s = armed_two_jobs();
    assert_eq!(s.check(0, at(50_000), Ok(true)), CheckAction::Issue);
    assert_eq!(s.check(1, at(50_000), Ok(true)), CheckAction::Issue);
    assert_eq!(s.issued(1, at(50_010), Ok(())), IssueAction::SignalRestart);
    assert_eq!(s.issued(0, at(50_020), Ok(())), IssueAction::RestartPending);
    assert!(s.restart_requested());
    // while the process lingers the jobs keep their rhythm, and a further
    // certificate raises no second signal
    assert!(!s.is_due(1, at(50_011)));
    assert!(s.is_due(1, at(53_610)));
    assert_eq!(s.check(1, at(53_610), Ok(false)), CheckAction::Wait);
    assert_eq!(s.phase(1), Some(JobPhase::Waiting));
    assert_eq!(s.check(1, at(60_000), Ok(true)), CheckAction::Issue);
    assert_eq!(s.issued(1, at(60_001), Ok(())), IssueAction::RestartPending);
    assert!(s.restart_requested());
}

#[test]
fn report_without_issuance_in_flight_is_ignored() {
    let mut s = armed_two_jobs();
    assert_eq!(s.issued(0, at(1), Ok(())), IssueAction::Ignore);
    assert_eq!(s.issued(9, at(1), Ok(())), IssueAction::Ignore);
    assert_eq!(s.issued(1, at(1), Err(LifecycleError::Network)), IssueAction::Ignore);
    assert!(!s.restart_requested());
    assert_eq!(s.phase(0), Some(JobPhase::Waiting));
}

#[test]
fn scheduler_without_jobs_arms_at_once() {
    let mut s = Scheduler::new(Vec::new());
    assert_eq!(s.job_count(), 0);
    assert_eq!(s.finish_startup(at(0)), StartupOutcome::Armed);
    assert!(!s.is_due(0, at(0)));
}
