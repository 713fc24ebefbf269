//! The order of the steps that obtain one certificate for a set of domains.
//!
//! Talking to the certificate authority and writing files is the caller's
//! part. The issuer says which step comes next: the caller performs it,
//! reports how it went, and is told the step after that.

use vstd::prelude::*;
use crate::error::LifecycleError;

verus! {

/// Which directory of the certificate authority an account is opened with.
#[derive(Clone, Copy, Debug, PartialEq, Eq, Structural)]
pub enum Endpoint {
    /// The authority's production directory.
    Production,
    /// The staging directory: free of production rate limits, and its
    /// certificates are not trusted by ordinary clients.
    Staging,
}

/// The step whose outcome the issuer is waiting for.
#[derive(Clone, Copy, Debug, PartialEq, Eq, Structural)]
pub enum IssuerState {
    OpeningDirectory,
    Registering,
    /// Waiting for the authorization of the domain with this index.
    Authorizing(usize),
    /// Waiting for the proof file of this domain to be written.
    SavingProof(usize),
    /// Waiting for the authority to confirm the proof of this domain.
    Validating(usize),
    Signing,
    SavingCertificate,
    SavingKey,
    /// Both files are written.
    Done,
    /// The attempt was given up for this reason.
    Failed(LifecycleError),
}

/// What the caller has to do next.
#[derive(Clone, Copy, Debug, PartialEq, Eq, Structural)]
pub enum IssuerAction {
    /// Open the given directory of the authority.
    OpenDirectory(Endpoint),
    /// Register an account, with the job's contact email if it has one.
    RegisterAccount,
    /// Ask for an authorization of the domain with this index and look for
    /// its HTTP-01 challenge.
    Authorize(usize),
    /// Write the key authorization of this domain's challenge below the nonce
    /// directory, and flush it.
    SaveProof(usize),
    /// Ask the authority to validate this domain's challenge and wait for
    /// its verdict.
    Validate(usize),
    /// Ask for one certificate over all the job's domains, in their order.
    Sign,
    /// Write the signed chain to the job's certificate path.
    SaveCertificate,
    /// Write the private key to the job's key path.
    SavePrivateKey,
    /// Nothing is left to do: the certificate is issued.
    Finish,
    /// Nothing is left to do: the attempt failed.
    Abort(LifecycleError),
}

/// How the step that was asked for went.
#[derive(Clone, Copy, Debug, PartialEq, Eq, Structural)]
pub enum IssuerEvent {
    /// The step was carried out.
    Succeeded,
    /// The authorization came, but the authority offers no HTTP-01 challenge.
    ChallengeMissing,
    /// The step failed.
    Failed,
}

/// The directory that a job uses.
pub open spec fn endpoint_for(production: bool) -> Endpoint {
    if production {
        Endpoint::Production
    } else {
        Endpoint::Staging
    }
}

/// A state names only domains that the job has.
pub open spec fn state_in_range(count: nat, state: IssuerState) -> bool {
    match state {
        IssuerState::Authorizing(i) => i < count,
        IssuerState::SavingProof(i) => i < count,
        IssuerState::Validating(i) => i < count,
        _ => true,
    }
}

/// The attempt is over, one way or the other.
pub open spec fn is_terminal(state: IssuerState) -> bool {
    state is Done || state is Failed
}

/// Where the attempt goes once the domains before `next` are validated: on to
/// domain `next`, or to signing when none is left.
pub open spec fn advance_to(count: nat, next: nat) -> (IssuerState, IssuerAction) {
    if next < count {
        (IssuerState::Authorizing(next as usize), IssuerAction::Authorize(next as usize))
    } else {
        (IssuerState::Signing, IssuerAction::Sign)
    }
}

/// The kind of error that a failure of the awaited step stands for.
pub open spec fn failure_kind(state: IssuerState) -> LifecycleError {
    match state {
        IssuerState::SavingProof(_) => LifecycleError::FileIo,
        IssuerState::SavingCertificate => LifecycleError::FileIo,
        IssuerState::SavingKey => LifecycleError::FileIo,
        IssuerState::Validating(_) => LifecycleError::ValidationFailed,
        IssuerState::Failed(e) => e,
        _ => LifecycleError::Network,
    }
}

/// The state and the action that follow `event` in `state`, for a job with
/// `count` domains.
pub open spec fn issuer_step(count: nat, state: IssuerState, event: IssuerEvent) -> (
    IssuerState,
    IssuerAction,
) {
    match state {
        IssuerState::Done => (IssuerState::Done, IssuerAction::Finish),
        IssuerState::Failed(e) => (IssuerState::Failed(e), IssuerAction::Abort(e)),
        _ => match event {
            IssuerEvent::Succeeded => match state {
                IssuerState::OpeningDirectory => (
                    IssuerState::Registering,
                    IssuerAction::RegisterAccount,
                ),
                IssuerState::Registering => advance_to(count, 0),
                IssuerState::Authorizing(i) => (
                    IssuerState::SavingProof(i),
                    IssuerAction::SaveProof(i),
                ),
                IssuerState::SavingProof(i) => (
                    IssuerState::Validating(i),
                    IssuerAction::Validate(i),
                ),
                IssuerState::Validating(i) => advance_to(count, (i + 1) as nat),
                IssuerState::Signing => (
                    IssuerState::SavingCertificate,
                    IssuerAction::SaveCertificate,
                ),
                IssuerState::SavingCertificate => (
                    IssuerState::SavingKey,
                    IssuerAction::SavePrivateKey,
                ),
                _ => (IssuerState::Done, IssuerAction::Finish),
            },
            IssuerEvent::ChallengeMissing => {
                let kind = if state is Authorizing {
                    LifecycleError::ChallengeUnavailable
                } else {
                    failure_kind(state)
                };
                (IssuerState::Failed(kind), IssuerAction::Abort(kind))
            },
            IssuerEvent::Failed => (
                IssuerState::Failed(failure_kind(state)),
                IssuerAction::Abort(failure_kind(state)),
            ),
        },
    }
}

/// How many steps have succeeded when the issuer is in `state`; for a failed
/// attempt, nothing is said (0).
pub open spec fn progress(count: nat, state: IssuerState) -> nat {
    match state {
        IssuerState::OpeningDirectory => 0,
        IssuerState::Registering => 1,
        IssuerState::Authorizing(i) => (2 + 3 * i) as nat,
        IssuerState::SavingProof(i) => (3 + 3 * i) as nat,
        IssuerState::Validating(i) => (4 + 3 * i) as nat,
        IssuerState::Signing => 2 + 3 * count,
        IssuerState::SavingCertificate => 3 + 3 * count,
        IssuerState::SavingKey => 4 + 3 * count,
        IssuerState::Done => 5 + 3 * count,
        IssuerState::Failed(_) => 0,
    }
}

/// The step that an attempt for `count` domains waits for after `k` steps
/// have succeeded and none has failed.
pub open spec fn planned_state(count: nat, k: nat) -> IssuerState {
    if k == 0 {
        IssuerState::OpeningDirectory
    } else if k == 1 {
        IssuerState::Registering
    } else if k < 2 + 3 * count {
        let domain = ((k - 2) / 3) as usize;
        if (k - 2) % 3 == 0 {
            IssuerState::Authorizing(domain)
        } else if (k - 2) % 3 == 1 {
            IssuerState::SavingProof(domain)
        } else {
            IssuerState::Validating(domain)
        }
    } else if k == 2 + 3 * count {
        IssuerState::Signing
    } else if k == 3 + 3 * count {
        IssuerState::SavingCertificate
    } else if k == 4 + 3 * count {
        IssuerState::SavingKey
    } else {
        IssuerState::Done
    }
}

/// The action that is asked for to get from `k` successes to the next: the
/// directory, the account, then for each domain in turn its authorization,
/// its proof file and its validation, then the certificate over all domains,
/// the certificate file and the key file.
pub open spec fn planned_action(count: nat, production: bool, k: nat) -> IssuerAction {
    if k == 0 {
        IssuerAction::OpenDirectory(endpoint_for(production))
    } else if k == 1 {
        IssuerAction::RegisterAccount
    } else if k < 2 + 3 * count {
        let domain = ((k - 2) / 3) as usize;
        if (k - 2) % 3 == 0 {
            IssuerAction::Authorize(domain)
        } else if (k - 2) % 3 == 1 {
            IssuerAction::SaveProof(domain)
        } else {
            IssuerAction::Validate(domain)
        }
    } else if k == 2 + 3 * count {
        IssuerAction::Sign
    } else if k == 3 + 3 * count {
        IssuerAction::SaveCertificate
    } else if k == 4 + 3 * count {
        IssuerAction::SavePrivateKey
    } else {
        IssuerAction::Finish
    }
}

/// One attempt to obtain a certificate for a job.
pub struct Issuer {
    domain_count: usize,
    state: IssuerState,
}

/// What an `Issuer` stands for: the number of domains of its job, and the step
/// it is waiting for.
pub struct IssuerView {
    pub domain_count: nat,
    pub state: IssuerState,
}

impl View for Issuer {
    type V = IssuerView;

    closed spec fn view(&self) -> IssuerView {
        IssuerView { domain_count: self.domain_count as nat, state: self.state }
    }
}

impl Issuer {
    #[verifier::type_invariant]
    spec fn in_range(self) -> bool {
        state_in_range(self.domain_count as nat, self.state)
    }

    /// Begins an attempt for a job with `domain_count` domains: the first
    /// thing to do is to open the directory that the job's flag selects.
    pub fn start(production: bool, domain_count: usize) -> (begun: (Issuer, IssuerAction))
        ensures
            begun.0@ == (IssuerView {
                domain_count: domain_count as nat,
                state: IssuerState::OpeningDirectory,
            }),
            begun.1 == IssuerAction::OpenDirectory(endpoint_for(production)),
    {
        let endpoint = if production {
            Endpoint::Production
        } else {
            Endpoint::Staging
        };
        (
            Issuer { domain_count, state: IssuerState::OpeningDirectory },
            IssuerAction::OpenDirectory(endpoint),
        )
    }

    /// The step that the issuer is waiting for.
    pub fn state(&self) -> (state: IssuerState)
        ensures
            state == self@.state,
            state_in_range(self@.domain_count, state),
    {
        proof {
            use_type_invariant(self);
        }
        self.state
    }

    /// The number of domains of the job.
    pub fn domain_count(&self) -> (count: usize)
        ensures
            count == self@.domain_count,
    {
        self.domain_count
    }

    /// Whether the attempt is over.
    pub fn finished(&self) -> (over: bool)
        ensures
            over == is_terminal(self@.state),
    {
        match self.state {
            IssuerState::Done => true,
            IssuerState::Failed(_) => true,
            _ => false,
        }
    }

    /// The outcome of an attempt that is over: `Some(Ok(()))` once both files
    /// are written, `Some(Err(..))` once the attempt has failed, `None` while
    /// it is under way.
    pub fn outcome(&self) -> (result: Option<Result<(), LifecycleError>>)
        ensures
            result == match self@.state {
                IssuerState::Done => Some(Ok::<(), LifecycleError>(())),
                IssuerState::Failed(e) => Some(Err::<(), LifecycleError>(e)),
                _ => None::<Result<(), LifecycleError>>,
            },
    {
        match self.state {
            IssuerState::Done => Some(Ok(())),
            IssuerState::Failed(e) => Some(Err(e)),
            _ => None,
        }
    }

    /// Takes the outcome of the step that was asked for last and says what to
    /// do next. A failure of any step ends the attempt; nothing is retried.
    /// A missing challenge that is reported for another step than an
    /// authorization counts as a failure of that step.
    pub fn step(&mut self, event: IssuerEvent) -> (action: IssuerAction)
        ensures
            final(self)@.domain_count == old(self)@.domain_count,
            (final(self)@.state, action) == issuer_step(
                old(self)@.domain_count,
                old(self)@.state,
                event,
            ),
    {
        proof {
            use_type_invariant(&*self);
        }
        let count = self.domain_count;
        let (next, action) = match self.state {
            IssuerState::Done => (IssuerState::Done, IssuerAction::Finish),
            IssuerState::Failed(e) => (IssuerState::Failed(e), IssuerAction::Abort(e)),
            state => match event {
                IssuerEvent::Succeeded => match state {
                    IssuerState::OpeningDirectory => (
                        IssuerState::Registering,
                        IssuerAction::RegisterAccount,
                    ),
                    IssuerState::Registering => Self::advance(count, 0),
                    IssuerState::Authorizing(i) => (
                        IssuerState::SavingProof(i),
                        IssuerAction::SaveProof(i),
                    ),
                    IssuerState::SavingProof(i) => (
                        IssuerState::Validating(i),
                        IssuerAction::Validate(i),
                    ),
                    IssuerState::Validating(i) => Self::advance(count, i + 1),
                    IssuerState::Signing => (
                        IssuerState::SavingCertificate,
                        IssuerAction::SaveCertificate,
                    ),
                    IssuerState::SavingCertificate => (
                        IssuerState::SavingKey,
                        IssuerAction::SavePrivateKey,
                    ),
                    _ => (IssuerState::Done, IssuerAction::Finish),
                },
                IssuerEvent::ChallengeMissing => {
                    let kind = match state {
                        IssuerState::Authorizing(_) => LifecycleError::ChallengeUnavailable,
                        _ => Self::kind_of_failure(state),
                    };
                    (IssuerState::Failed(kind), IssuerAction::Abort(kind))
                },
                IssuerEvent::Failed => {
                    let kind = Self::kind_of_failure(state);
                    (IssuerState::Failed(kind), IssuerAction::Abort(kind))
                },
            },
        };
        self.state = next;
        action
    }

    fn advance(count: usize, next: usize) -> (to: (IssuerState, IssuerAction))
        ensures
            to == advance_to(count as nat, next as nat),
    {
        if next < count {
            (IssuerState::Authorizing(next), IssuerAction::Authorize(next))
        } else {
            (IssuerState::Signing, IssuerAction::Sign)
        }
    }

    fn kind_of_failure(state: IssuerState) -> (kind: LifecycleError)
        ensures
            kind == failure_kind(state),
    {
        match state {
            IssuerState::SavingProof(_) => LifecycleError::FileIo,
            IssuerState::SavingCertificate => LifecycleError::FileIo,
            IssuerState::SavingKey => LifecycleError::FileIo,
            IssuerState::Validating(_) => LifecycleError::ValidationFailed,
            IssuerState::Failed(e) => e,
            _ => LifecycleError::Network,
        }
    }
}

/// A step keeps the state within the job's domains.
pub proof fn step_stays_in_range(count: nat, state: IssuerState, event: IssuerEvent)
    requires
        count <= usize::MAX,
        state_in_range(count, state),
    ensures
        state_in_range(count, issuer_step(count, state, event).0),
{
}

/// Every success moves the attempt one step forward, so an attempt for
/// `count` domains is done after exactly `5 + 3 * count` successes.
pub proof fn success_advances(count: nat, state: IssuerState)
    requires
        count <= usize::MAX,
        state_in_range(count, state),
        !is_terminal(state),
    ensures
        progress(count, issuer_step(count, state, IssuerEvent::Succeeded).0) == progress(
            count,
            state,
        ) + 1,
        progress(count, IssuerState::OpeningDirectory) == 0,
        progress(count, IssuerState::Done) == 5 + 3 * count,
{
}

/// An attempt in which nothing fails follows the plan: it starts in the
/// plan's first state with the plan's first action, every success leads to
/// the plan's next state and action, and after `5 + 3 * count` successes it
/// is done.
pub proof fn success_follows_the_plan(count: nat, production: bool, k: nat)
    requires
        count <= usize::MAX,
    ensures
        planned_state(count, 0) == IssuerState::OpeningDirectory,
        issuer_step(count, planned_state(count, k), IssuerEvent::Succeeded) == (
            planned_state(count, k + 1),
            planned_action(count, production, k + 1),
        ),
        state_in_range(count, planned_state(count, k)),
        planned_state(count, k) is Done <==> k >= 5 + 3 * count,
        k <= 5 + 3 * count ==> progress(count, planned_state(count, k)) == k,
{
}

/// Validation of a domain is asked for only upon the news that this domain's
/// proof file is written: the responder can serve it before the authority
/// looks.
pub proof fn proof_saved_before_validation(
    count: nat,
    state: IssuerState,
    event: IssuerEvent,
    domain: usize,
)
    requires
        issuer_step(count, state, event).1 == IssuerAction::Validate(domain),
    ensures
        state == IssuerState::SavingProof(domain),
        event == IssuerEvent::Succeeded,
{
}

/// The certificate is asked for only when the last domain has been validated
/// (or when the job has no domain at all), and it is written before the key.
pub proof fn signing_follows_all_validations(count: nat, state: IssuerState, event: IssuerEvent)
    requires
        count <= usize::MAX,
        state_in_range(count, state),
    ensures
        issuer_step(count, state, event).1 == IssuerAction::Sign ==> event
            == IssuerEvent::Succeeded && (if count == 0 {
            state == IssuerState::Registering
        } else {
            state == IssuerState::Validating((count - 1) as usize)
        }),
        issuer_step(count, state, event).1 == IssuerAction::SaveCertificate ==> state
            == IssuerState::Signing && event == IssuerEvent::Succeeded,
        issuer_step(count, state, event).1 == IssuerAction::SavePrivateKey ==> state
            == IssuerState::SavingCertificate && event == IssuerEvent::Succeeded,
        issuer_step(count, state, event).1 == IssuerAction::Finish ==> state
            == IssuerState::Done || (state == IssuerState::SavingKey && event
            == IssuerEvent::Succeeded),
{
}

/// Any event but a success ends an attempt that is under way, with an error;
/// and once the attempt is over no event changes its state.
pub proof fn failure_is_final(count: nat, state: IssuerState, event: IssuerEvent)
    ensures
        !is_terminal(state) && event != IssuerEvent::Succeeded ==> issuer_step(
            count,
            state,
            event,
        ).0 is Failed,
        is_terminal(state) ==> issuer_step(count, state, event).0 == state,
        issuer_step(count, state, event).0 matches IssuerState::Failed(e) ==> issuer_step(
            count,
            state,
            event,
        ).1 == IssuerAction::Abort(e),
{
}

} // verus!
