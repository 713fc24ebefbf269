use actix_web_lets_encrypt::issuer::{Endpoint, Issuer, IssuerAction, IssuerEvent, IssuerState};
use actix_web_lets_encrypt::LifecycleError;

fn run(production: bool, domains: usize, events: &[IssuerEvent]) -> (Issuer, Vec<IssuerAction>) {
    let (mut issuer, first) = Issuer::start(production, domains);
    let mut actions = vec![first];
    for event in events {
        actions.push(issuer.step(*event));
    }
    (issuer, actions)
}

#[test]
fn production_job_opens_production_directory() {
    let (issuer, first) = Issuer::start(true, 1);
    assert_eq!(first, IssuerAction::OpenDirectory(Endpoint::Production));
    assert_eq!(issuer.state(), IssuerState::OpeningDirectory);
    assert_eq!(issuer.domain_count(), 1);
    assert!(!issuer.finished());
    assert_eq!(issuer.outcome(), None);
}

#[test]
fn test_job_opens_staging_directory() {
    let (_, first) = Issuer::start(false, 1);
    assert_eq!(first, IssuerAction::OpenDirectory(Endpoint::Staging));
}

#[test]
fn single_domain_runs_all_steps_in_order() {
    let (issuer, actions) = run(true, 1, &[IssuerEvent::Succeeded; 8]);
    assert_eq!(
        actions,
        vec![
            IssuerAction::OpenDirectory(Endpoint::Production),
            IssuerAction::RegisterAccount,
            IssuerAction::Authorize(0),
            IssuerAction::SaveProof(0),
            IssuerAction::Validate(0),
            IssuerAction::Sign,
            IssuerAction::SaveCertificate,
            IssuerAction::SavePrivateKey,
            IssuerAction::Finish,
        ]
    );
    assert_eq!(issuer.state(), IssuerState::Done);
    assert!(issuer.finished());
    assert_eq!(issuer.outcome(), Some(Ok(())));
}

#[test]
fn domains_are_authorized_one_after_the_other_before_signing() {
    let (issuer, actions) = run(false, 3, &[IssuerEvent::Succeeded; 14]);
    assert_eq!(
        actions,
        vec![
            IssuerAction::OpenDirectory(Endpoint::Staging),
            IssuerAction::RegisterAccount,
            IssuerAction::Authorize(0),
            IssuerAction::SaveProof(0),
            IssuerAction::Validate(0),
            IssuerAction::Authorize(1),
            IssuerAction::SaveProof(1),
            IssuerAction::Validate(1),
            IssuerAction::Authorize(2),
            IssuerAction::SaveProof(2),
            IssuerAction::Validate(2),
            IssuerAction::Sign,
            IssuerAction::SaveCertificate,
            IssuerAction::SavePrivateKey,
            IssuerAction::Finish,
        ]
    );
    assert_eq!(issuer.outcome(), Some(Ok(())));
}

#[test]
fn success_count_is_five_plus_three_per_domain() {
    for domains in 0..5usize {
        let (mut issuer, _) = Issuer::start(true, domains);
        let mut successes = 0;
        while !issuer.finished() {
            issuer.step(IssuerEvent::Succeeded);
            successes += 1;
            assert!(successes <= 100);
        }
        assert_eq!(successes, 5 + 3 * domains);
        assert_eq!(issuer.outcome(), Some(Ok(())));
    }
}

#[test]
fn job_without_domains_goes_straight_to_signing() {
    let (_, actions) = run(true, 0, &[IssuerEvent::Succeeded; 2]);
    assert_eq!(actions[2], IssuerAction::Sign);
}

#[test]
fn missing_http_challenge_aborts_the_attempt() {
    let (issuer, actions) = run(
        true,
        2,
        &[IssuerEvent::Succeeded, IssuerEvent::Succeeded, IssuerEvent::ChallengeMissing],
    );
    assert_eq!(
        actions.last(),
        Some(&IssuerAction::Abort(LifecycleError::ChallengeUnavailable))
    );
    assert_eq!(issuer.state(), IssuerState::Failed(LifecycleError::ChallengeUnavailable));
    assert_eq!(issuer.outcome(), Some(Err(LifecycleError::ChallengeUnavailable)));
    assert!(issuer.finished());
}

#[test]
fn missing_challenge_on_second_domain_aborts_too() {
    let mut events = vec![IssuerEvent::Succeeded; 5];
    events.push(IssuerEvent::ChallengeMissing);
    let (issuer, actions) = run(true, 2, &events);
    assert_eq!(actions[5], IssuerAction::Authorize(1));
    assert_eq!(actions[6], IssuerAction::Abort(LifecycleError::ChallengeUnavailable));
    assert_eq!(issuer.outcome(), Some(Err(LifecycleError::ChallengeUnavailable)));
}

fn failure_after(successes: usize) -> LifecycleError {
    let mut events = vec![IssuerEvent::Succeeded; successes];
    events.push(IssuerEvent::Failed);
    let (issuer, actions) = run(true, 1, &events);
    match (issuer.outcome(), actions.last()) {
        (Some(Err(e)), Some(IssuerAction::Abort(a))) => {
            assert_eq!(e, *a);
            e
        }
        other => panic!("attempt did not fail: {:?}", other),
    }
}

#[test]
fn each_step_fails_with_its_own_kind_of_error() {
    assert_eq!(failure_after(0), LifecycleError::Network); // opening the directory
    assert_eq!(failure_after(1), LifecycleError::Network); // registering
    assert_eq!(failure_after(2), LifecycleError::Network); // authorizing
    assert_eq!(failure_after(3), LifecycleError::FileIo); // writing the proof
    assert_eq!(failure_after(4), LifecycleError::ValidationFailed); // validating
    assert_eq!(failure_after(5), LifecycleError::Network); // signing
    assert_eq!(failure_after(6), LifecycleError::FileIo); // writing the certificate
    assert_eq!(failure_after(7), LifecycleError::FileIo); // writing the key
}

#[test]
fn finished_attempt_ignores_further_events() {
    let (mut issuer, _) = run(true, 1, &[IssuerEvent::Succeeded; 8]);
    for event in [IssuerEvent::Succeeded, IssuerEvent::Failed, IssuerEvent::ChallengeMissing] {
        assert_eq!(issuer.step(event), IssuerAction::Finish);
        assert_eq!(issuer.state(), IssuerState::Done);
    }
}

#[test]
fn failed_attempt_is_not_retried() {
    let (mut issuer, _) = run(true, 1, &[IssuerEvent::Succeeded, IssuerEvent::Failed]);
    for event in [IssuerEvent::Succeeded, IssuerEvent::Failed, IssuerEvent::ChallengeMissing] {
        assert_eq!(issuer.step(event), IssuerAction::Abort(LifecycleError::Network));
        assert_eq!(issuer.state(), IssuerState::Failed(LifecycleError::Network));
    }
}

#[test]
fn validation_is_asked_only_after_the_proof_is_saved() {
    let (mut issuer, _) = Issuer::start(true, 2);
    let mut previous = IssuerAction::OpenDirectory(Endpoint::Production);
    loop {
        let action = issuer.step(IssuerEvent::Succeeded);
        if let IssuerAction::Validate(i) = action {
            assert_eq!(previous, IssuerAction::SaveProof(i));
        }
        if let IssuerAction::SavePrivateKey = action {
            assert_eq!(previous, IssuerAction::SaveCertificate);
        }
        if action == IssuerAction::Finish {
            break;
        }
        previous = action;
    }
}

#[test]
fn challenge_missing_outside_authorization_counts_as_failure_of_the_step() {
    let (issuer, actions) = run(true, 1, &[IssuerEvent::ChallengeMissing]);
    assert_eq!(actions[1], IssuerAction::Abort(LifecycleError::Network));
    assert_eq!(issuer.outcome(), Some(Err(LifecycleError::Network)));
}
