//! When each job's certificate is looked at again, and what follows from
//! what was found.
//!
//! The scheduler holds no timer and touches no file. The caller asks whether
//! a job is due, examines the job's certificate when it is, and reports the
//! verdict; where the scheduler answers that a certificate must be issued, the
//! caller runs the issuance and reports how it ended.

use vstd::prelude::*;
use crate::error::LifecycleError;
use crate::time::{elapsed, Instant, TimeSpan};

verus! {

/// Where a job stands.
#[derive(Clone, Copy, Debug, PartialEq, Eq, Structural)]
pub enum JobPhase {
    /// Never examined in this process.
    Unchecked,
    /// An issuance for the job is in flight.
    Issuing,
    /// The last issuance wrote a fresh certificate; the job waits for its
    /// next check.
    Issued,
    /// The last examination or issuance failed; the job waits for its next
    /// check, which is the retry.
    Failed,
    /// The certificate was found good; the job waits for its next check.
    Waiting,
}

/// The answer to a verdict on a job's certificate.
#[derive(Clone, Copy, Debug, PartialEq, Eq, Structural)]
pub enum CheckAction {
    /// The job was not due, or has an issuance in flight: nothing changed.
    Skip,
    /// The certificate is good: look again after the job's interval.
    Wait,
    /// Issue a certificate now.
    Issue,
    /// The certificate on disk is unusable: report the error, then issue.
    ReportAndIssue(LifecycleError),
    /// The examination failed: report the error; the job is looked at again
    /// after its interval.
    Report(LifecycleError),
    /// The examination failed during startup: the process must not go on.
    Fatal(LifecycleError),
}

/// The answer to the end of an issuance.
#[derive(Clone, Copy, Debug, PartialEq, Eq, Structural)]
pub enum IssueAction {
    /// No issuance was in flight for the job: nothing changed.
    Ignore,
    /// A certificate was written and nobody had asked for a restart yet: ask
    /// for it now.
    SignalRestart,
    /// A certificate was written, and a restart is already asked for.
    RestartPending,
    /// The issuance failed: report the error; the next check of the job tries
    /// again.
    Retry(LifecycleError),
    /// The issuance failed during startup: the process must not go on.
    Fatal(LifecycleError),
}

/// How the startup pass ended.
#[derive(Clone, Copy, Debug, PartialEq, Eq, Structural)]
pub enum StartupOutcome {
    /// Some job is not examined yet, or its issuance is still in flight.
    Pending,
    /// A job failed during startup.
    Failed,
    /// A certificate was issued during startup: the process has to restart,
    /// and no periodic check is scheduled.
    Restart,
    /// No job needed a certificate: the periodic checks are armed.
    Armed,
    /// The periodic checks were armed before.
    Running,
}

/// What a `Scheduler` stands for.
pub struct SchedulerView {
    /// The phase of each job.
    pub phases: Seq<JobPhase>,
    /// For each job, the instant from which its interval is counted.
    pub last_checked: Seq<Instant>,
    /// For each job, the time between two checks.
    pub intervals: Seq<TimeSpan>,
    /// Whether the startup pass is over and the periodic checks run.
    pub armed: bool,
    /// Whether a restart of the process has been asked for.
    pub restart_requested: bool,
}

impl SchedulerView {
    /// The three sequences speak of the same jobs; once the periodic checks
    /// run every job has been examined; and a certificate that was issued has
    /// raised the restart signal.
    pub open spec fn wf(self) -> bool {
        &&& self.last_checked.len() == self.phases.len()
        &&& self.intervals.len() == self.phases.len()
        &&& self.armed ==> !self.phases.contains(JobPhase::Unchecked)
        &&& self.phases.contains(JobPhase::Issued) ==> self.restart_requested
    }

    /// The scheduler's state before anything has happened.
    pub open spec fn initial(intervals: Seq<TimeSpan>) -> SchedulerView {
        SchedulerView {
            phases: Seq::new(intervals.len(), |i: int| JobPhase::Unchecked),
            last_checked: Seq::new(intervals.len(), |i: int| Instant { secs: 0, nanos: 0 }),
            intervals,
            armed: false,
            restart_requested: false,
        }
    }

    /// Whether `job` is to be examined at `now`: once during startup, and,
    /// once the periodic checks are armed, whenever its interval has passed;
    /// but never while an issuance for it is in flight.
    pub open spec fn due(self, job: int, now: Instant) -> bool {
        &&& 0 <= job < self.phases.len()
        &&& match self.phases[job] {
            JobPhase::Unchecked => true,
            JobPhase::Issuing => false,
            _ => self.armed && elapsed(self.last_checked[job], now, self.intervals[job]),
        }
    }

    /// The state in which `job` has the given phase.
    pub open spec fn with_phase(self, job: int, phase: JobPhase) -> SchedulerView {
        SchedulerView { phases: self.phases.update(job, phase), ..self }
    }

    /// The state in which `job` has the given phase, its interval counted
    /// from `now`.
    pub open spec fn settled(self, job: int, phase: JobPhase, now: Instant) -> SchedulerView {
        SchedulerView {
            phases: self.phases.update(job, phase),
            last_checked: self.last_checked.update(job, now),
            ..self
        }
    }

    /// What a verdict on the certificate of `job` leads to. `Ok(true)` says
    /// that a certificate is missing or inside its renewal window.
    pub open spec fn check_step(
        self,
        job: int,
        now: Instant,
        verdict: Result<bool, LifecycleError>,
    ) -> (SchedulerView, CheckAction) {
        if !self.due(job, now) {
            (self, CheckAction::Skip)
        } else {
            match verdict {
                Ok(false) => (self.settled(job, JobPhase::Waiting, now), CheckAction::Wait),
                Ok(true) => (self.with_phase(job, JobPhase::Issuing), CheckAction::Issue),
                Err(LifecycleError::MalformedCertificate) => (
                    self.with_phase(job, JobPhase::Issuing),
                    CheckAction::ReportAndIssue(LifecycleError::MalformedCertificate),
                ),
                Err(e) => (
                    self.settled(job, JobPhase::Failed, now),
                    if self.armed {
                        CheckAction::Report(e)
                    } else {
                        CheckAction::Fatal(e)
                    },
                ),
            }
        }
    }

    /// What the end of an issuance for `job` leads to.
    pub open spec fn issued_step(
        self,
        job: int,
        now: Instant,
        result: Result<(), LifecycleError>,
    ) -> (SchedulerView, IssueAction) {
        if !(0 <= job < self.phases.len() && self.phases[job] is Issuing) {
            (self, IssueAction::Ignore)
        } else {
            match result {
                Ok(_) => (
                    SchedulerView {
                        restart_requested: true,
                        ..self.settled(job, JobPhase::Issued, now)
                    },
                    if self.restart_requested {
                        IssueAction::RestartPending
                    } else {
                        IssueAction::SignalRestart
                    },
                ),
                Err(e) => (
                    self.settled(job, JobPhase::Failed, now),
                    if self.armed {
                        IssueAction::Retry(e)
                    } else {
                        IssueAction::Fatal(e)
                    },
                ),
            }
        }
    }

    /// What the end of the startup pass leads to: the periodic checks are
    /// armed, each interval counted from `now`, unless a job is unsettled, a
    /// job failed or a certificate was issued.
    pub open spec fn startup_step(self, now: Instant) -> (SchedulerView, StartupOutcome) {
        if self.armed {
            (self, StartupOutcome::Running)
        } else if self.phases.contains(JobPhase::Unchecked) || self.phases.contains(
            JobPhase::Issuing,
        ) {
            (self, StartupOutcome::Pending)
        } else if self.phases.contains(JobPhase::Failed) {
            (self, StartupOutcome::Failed)
        } else if self.restart_requested {
            (self, StartupOutcome::Restart)
        } else {
            (
                SchedulerView {
                    armed: true,
                    last_checked: Seq::new(self.phases.len(), |i: int| now),
                    ..self
                },
                StartupOutcome::Armed,
            )
        }
    }
}

/// The schedule of a set of jobs.
pub struct Scheduler {
    phases: Vec<JobPhase>,
    last_checked: Vec<Instant>,
    intervals: Vec<TimeSpan>,
    armed: bool,
    restart_requested: bool,
}

impl View for Scheduler {
    type V = SchedulerView;

    closed spec fn view(&self) -> SchedulerView {
        SchedulerView {
            phases: self.phases@,
            last_checked: self.last_checked@,
            intervals: self.intervals@,
            armed: self.armed,
            restart_requested: self.restart_requested,
        }
    }
}

impl Scheduler {
    /// A scheduler for jobs with the given intervals between checks: every
    /// job is unexamined, and no restart is asked for.
    pub fn new(intervals: Vec<TimeSpan>) -> (scheduler: Scheduler)
        ensures
            scheduler@ == SchedulerView::initial(intervals@),
            scheduler@.wf(),
    {
        let count = intervals.len();
        let mut phases: Vec<JobPhase> = Vec::new();
        let mut last_checked: Vec<Instant> = Vec::new();
        let mut i: usize = 0;
        while i < count
            invariant
                i <= count,
                count == intervals.len(),
                phases@ == Seq::new(i as nat, |k: int| JobPhase::Unchecked),
                last_checked@ == Seq::new(i as nat, |k: int| Instant { secs: 0, nanos: 0 }),
            decreases count - i,
        {
            phases.push(JobPhase::Unchecked);
            last_checked.push(Instant { secs: 0, nanos: 0 });
            i = i + 1;
        }
        Scheduler { phases, last_checked, intervals, armed: false, restart_requested: false }
    }

    /// The number of jobs.
    pub fn job_count(&self) -> (count: usize)
        ensures
            count == self@.phases.len(),
    {
        self.phases.len()
    }

    /// The phase of `job`, if there is such a job.
    pub fn phase(&self, job: usize) -> (phase: Option<JobPhase>)
        ensures
            phase == if job < self@.phases.len() {
                Some(self@.phases[job as int])
            } else {
                None
            },
    {
        if job < self.phases.len() {
            Some(self.phases[job])
        } else {
            None
        }
    }

    /// Whether a restart of the process has been asked for.
    pub fn restart_requested(&self) -> (asked: bool)
        ensures
            asked == self@.restart_requested,
    {
        self.restart_requested
    }

    /// Whether the periodic checks run.
    pub fn armed(&self) -> (armed: bool)
        ensures
            armed == self@.armed,
    {
        self.armed
    }

    /// Whether `job` is to be examined at `now`.
    pub fn is_due(&self, job: usize, now: Instant) -> (due: bool)
        requires
            self@.wf(),
        ensures
            due == self@.due(job as int, now),
    {
        if job >= self.phases.len() {
            return false;
        }
        match self.phases[job] {
            JobPhase::Unchecked => true,
            JobPhase::Issuing => false,
            _ => self.armed && now.has_elapsed_since(
                &self.last_checked[job],
                &self.intervals[job],
            ),
        }
    }

    /// Takes the verdict on the certificate of `job` and says what to do. A
    /// job that is not due, or whose issuance is in flight, is skipped.
    pub fn check(&mut self, job: usize, now: Instant, verdict: Result<bool, LifecycleError>) -> (action:
        CheckAction)
        requires
            old(self)@.wf(),
        ensures
            (final(self)@, action) == old(self)@.check_step(job as int, now, verdict),
            final(self)@.wf(),
    {
        if !self.is_due(job, now) {
            return CheckAction::Skip;
        }
        match verdict {
            Ok(false) => {
                self.settle(job, JobPhase::Waiting, now);
                CheckAction::Wait
            },
            Ok(true) => {
                self.phases.set(job, JobPhase::Issuing);
                CheckAction::Issue
            },
            Err(LifecycleError::MalformedCertificate) => {
                self.phases.set(job, JobPhase::Issuing);
                CheckAction::ReportAndIssue(LifecycleError::MalformedCertificate)
            },
            Err(e) => {
                self.settle(job, JobPhase::Failed, now);
                if self.armed {
                    CheckAction::Report(e)
                } else {
                    CheckAction::Fatal(e)
                }
            },
        }
    }

    /// Takes the end of the issuance for `job` and says what to do. The first
    /// certificate that is written raises the restart signal; later ones find
    /// it raised.
    pub fn issued(&mut self, job: usize, now: Instant, result: Result<(), LifecycleError>) -> (action:
        IssueAction)
        requires
            old(self)@.wf(),
        ensures
            (final(self)@, action) == old(self)@.issued_step(job as int, now, result),
            final(self)@.wf(),
    {
        if job >= self.phases.len() {
            return IssueAction::Ignore;
        }
        match self.phases[job] {
            JobPhase::Issuing => {},
            _ => {
                return IssueAction::Ignore;
            },
        }
        match result {
            Ok(_) => {
                let asked_before = self.restart_requested;
                self.restart_requested = true;
                self.settle(job, JobPhase::Issued, now);
                if asked_before {
                    IssueAction::RestartPending
                } else {
                    IssueAction::SignalRestart
                }
            },
            Err(e) => {
                self.settle(job, JobPhase::Failed, now);
                if self.armed {
                    IssueAction::Retry(e)
                } else {
                    IssueAction::Fatal(e)
                }
            },
        }
    }

    /// Ends the startup pass, if it is over: arms the periodic checks unless
    /// a job failed or a certificate was issued.
    pub fn finish_startup(&mut self, now: Instant) -> (outcome: StartupOutcome)
        requires
            old(self)@.wf(),
        ensures
            (final(self)@, outcome) == old(self)@.startup_step(now),
            final(self)@.wf(),
    {
        if self.armed {
            return StartupOutcome::Running;
        }
        if self.has_phase(JobPhase::Unchecked) || self.has_phase(JobPhase::Issuing) {
            return StartupOutcome::Pending;
        }
        if self.has_phase(JobPhase::Failed) {
            return StartupOutcome::Failed;
        }
        if self.restart_requested {
            return StartupOutcome::Restart;
        }
        let count = self.phases.len();
        let mut fresh: Vec<Instant> = Vec::new();
        let mut i: usize = 0;
        while i < count
            invariant
                i <= count,
                fresh@ == Seq::new(i as nat, |k: int| now),
            decreases count - i,
        {
            fresh.push(now);
            i = i + 1;
        }
        self.last_checked = fresh;
        self.armed = true;
        StartupOutcome::Armed
    }

    fn has_phase(&self, wanted: JobPhase) -> (found: bool)
        ensures
            found == self@.phases.contains(wanted),
    {
        let mut i: usize = 0;
        while i < self.phases.len()
            invariant
                i <= self.phases.len(),
                forall|k: int| 0 <= k < i ==> self.phases@[k] != wanted,
            decreases self.phases.len() - i,
        {
            if self.phases[i] == wanted {
                return true;
            }
            i = i + 1;
        }
        false
    }

    fn settle(&mut self, job: usize, phase: JobPhase, now: Instant)
        requires
            old(self)@.wf(),
            job < old(self)@.phases.len(),
            phase != JobPhase::Unchecked,
            phase == JobPhase::Issued ==> old(self)@.restart_requested,
        ensures
            final(self)@ == old(self)@.settled(job as int, phase, now),
            final(self)@.wf(),
    {
        self.phases.set(job, phase);
        self.last_checked.set(job, now);
    }
}

/// Every step keeps the scheduler's state well formed.
pub proof fn steps_keep_wf(
    s: SchedulerView,
    job: int,
    now: Instant,
    verdict: Result<bool, LifecycleError>,
    result: Result<(), LifecycleError>,
)
    requires
        s.wf(),
    ensures
        s.check_step(job, now, verdict).0.wf(),
        s.issued_step(job, now, result).0.wf(),
        s.startup_step(now).0.wf(),
{
}

/// The phase that `from` may turn into in one step: an unexamined or
/// waiting job is found good, starts an issuance or fails its examination;
/// an issuance ends well or badly; nothing else happens to a job.
pub open spec fn may_follow(from: JobPhase, to: JobPhase) -> bool {
    from == to || match from {
        JobPhase::Issuing => to is Issued || to is Failed,
        _ => to is Issuing || to is Waiting || to is Failed,
    }
}

/// Every job moves along the arrows of `may_follow`, whatever step is taken
/// for whatever job; and a job other than the one that the step is about
/// stays where it is.
pub proof fn phases_follow_the_machine(
    s: SchedulerView,
    job: int,
    about: int,
    now: Instant,
    verdict: Result<bool, LifecycleError>,
    result: Result<(), LifecycleError>,
)
    requires
        s.wf(),
        0 <= job < s.phases.len(),
    ensures
        s.check_step(about, now, verdict).0.phases.len() == s.phases.len(),
        s.issued_step(about, now, result).0.phases.len() == s.phases.len(),
        s.startup_step(now).0.phases == s.phases,
        may_follow(s.phases[job], s.check_step(about, now, verdict).0.phases[job]),
        may_follow(s.phases[job], s.issued_step(about, now, result).0.phases[job]),
        about != job ==> s.check_step(about, now, verdict).0.phases[job] == s.phases[job]
            && s.issued_step(about, now, result).0.phases[job] == s.phases[job],
        s.check_step(about, now, verdict).0.intervals == s.intervals,
        s.issued_step(about, now, result).0.intervals == s.intervals,
        s.startup_step(now).0.intervals == s.intervals,
{
}

/// At most one issuance per job is in flight. A check that starts an issuance
/// found none in flight and leaves one in flight; from then on every check of
/// that job is skipped and changes nothing, whatever the clock and the
/// verdict, until the end of that issuance is reported.
pub proof fn at_most_one_in_flight(
    s: SchedulerView,
    job: int,
    now: Instant,
    verdict: Result<bool, LifecycleError>,
    later: Instant,
    second: Result<bool, LifecycleError>,
)
    requires
        s.wf(),
    ensures
        ({
            let (started, action) = s.check_step(job, now, verdict);
            (action is Issue || action is ReportAndIssue) ==> {
                &&& 0 <= job < s.phases.len()
                &&& !(s.phases[job] is Issuing)
                &&& started.phases[job] is Issuing
                &&& started.check_step(job, later, second) == (started, CheckAction::Skip)
            }
        }),
        0 <= job < s.phases.len() && s.phases[job] is Issuing ==> s.check_step(
            job,
            later,
            second,
        ) == (s, CheckAction::Skip),
{
}

/// An issuance in flight stays in flight through whatever happens to other
/// jobs, through checks of its own job and through the end of the startup
/// pass; only the report of its own end takes it out of flight.
pub proof fn in_flight_until_reported(
    s: SchedulerView,
    job: int,
    other: int,
    now: Instant,
    verdict: Result<bool, LifecycleError>,
    result: Result<(), LifecycleError>,
)
    requires
        s.wf(),
        0 <= job < s.phases.len(),
        s.phases[job] is Issuing,
    ensures
        s.check_step(other, now, verdict).0.phases[job] is Issuing,
        other != job ==> s.issued_step(other, now, result).0.phases[job] is Issuing,
        s.startup_step(now) == (s, StartupOutcome::Pending) || s.startup_step(now) == (
            s,
            StartupOutcome::Running,
        ),
        !(s.issued_step(job, now, result).0.phases[job] is Issuing),
{
}

/// The restart signal is raised once: by the first issuance that ends well.
/// Once a restart is asked for it stays asked for, no later step raises the
/// signal again, and the end of the startup pass arms no periodic check.
pub proof fn restart_is_signalled_once(
    s: SchedulerView,
    job: int,
    now: Instant,
    verdict: Result<bool, LifecycleError>,
    result: Result<(), LifecycleError>,
)
    requires
        s.wf(),
    ensures
        s.issued_step(job, now, result).1 is SignalRestart <==> !s.restart_requested && 0 <= job
            < s.phases.len() && s.phases[job] is Issuing && result is Ok,
        s.issued_step(job, now, result).1 is SignalRestart ==> s.issued_step(
            job,
            now,
            result,
        ).0.restart_requested,
        s.restart_requested ==> {
            &&& s.check_step(job, now, verdict).0.restart_requested
            &&& s.issued_step(job, now, result).0.restart_requested
            &&& s.startup_step(now).0.restart_requested
            &&& !(s.startup_step(now).1 is Armed)
            &&& s.startup_step(now).0.armed == s.armed
        },
{
}

/// During startup every job is examined exactly once: an unexamined job is
/// due whatever the clock says, and a job that has been examined is not due
/// again before the periodic checks are armed.
pub proof fn startup_examines_each_job_once(s: SchedulerView, job: int, now: Instant)
    requires
        s.wf(),
        !s.armed,
        0 <= job < s.phases.len(),
    ensures
        s.due(job, now) <==> s.phases[job] is Unchecked,
        s.startup_step(now).1 is Armed ==> forall|j: int|
            0 <= j < s.phases.len() ==> s.phases[j] is Waiting,
{
}

} // verus!
