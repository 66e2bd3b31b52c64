use productized_shell::attempt::{AttemptState, AttemptTransitionError, PreparedAttempt};
use productized_shell::identity::{
    AttemptId, AuthorizationId, GrantId, NodeId, OrchestrationId, WorkItemId, WorkflowRunId,
};

fn attempt() -> PreparedAttempt {
    PreparedAttempt::new(
        AttemptId::new("att-1".into()),
        "proj-1".into(),
        OrchestrationId::new("orch-1".into()),
        WorkflowRunId::new("run-1".into()),
        WorkItemId::new("wi-1".into()),
        NodeId::new("node-1".into()),
        "role-sess-1".into(),
        AuthorizationId::new("auth-1".into()),
        1,
        1000,
    )
}

#[test]
fn new_attempt_is_not_runnable() {
    let a = attempt();
    assert_eq!(a.state(), &AttemptState::PreparedNonRunnable);
    assert!(!a.is_runnable());
    assert!(a.grant_id.is_none());
}

#[test]
fn minted_grant_does_not_make_runnable() {
    let mut a = attempt();
    a.begin_grant_binding(1100).unwrap();
    a.attach_minted_grant(GrantId::new("g-1".into()), 1200).unwrap();
    assert_eq!(a.state(), &AttemptState::GrantPendingNonRunnable);
    assert!(!a.is_runnable());
}

#[test]
fn grant_ready_is_still_not_runnable() {
    let mut a = attempt();
    let gid = GrantId::new("g-1".into());
    a.begin_grant_binding(1100).unwrap();
    a.attach_minted_grant(gid.clone(), 1200).unwrap();
    a.confirm_grant_ready(&gid, 1300).unwrap();
    assert_eq!(a.state(), &AttemptState::GrantReadyNonRunnable);
    assert!(!a.is_runnable());
}

#[test]
fn only_dispatch_makes_runnable() {
    let mut a = attempt();
    let gid = GrantId::new("g-1".into());
    a.begin_grant_binding(1100).unwrap();
    a.attach_minted_grant(gid.clone(), 1200).unwrap();
    a.confirm_grant_ready(&gid, 1300).unwrap();
    a.mark_dispatched(1400).unwrap();
    assert!(a.is_runnable());
    assert_eq!(a.state(), &AttemptState::Dispatched);
}

#[test]
fn empty_grant_id_rejected() {
    let mut a = attempt();
    a.begin_grant_binding(1100).unwrap();
    let err = a.attach_minted_grant(GrantId::new("".into()), 1200).unwrap_err();
    assert!(matches!(err, AttemptTransitionError::InvalidGrant(_)));
    assert!(!a.is_runnable());
}

#[test]
fn grant_mismatch_rejected() {
    let mut a = attempt();
    a.begin_grant_binding(1100).unwrap();
    a.attach_minted_grant(GrantId::new("g-1".into()), 1200).unwrap();
    let err = a
        .confirm_grant_ready(&GrantId::new("g-other".into()), 1300)
        .unwrap_err();
    assert!(matches!(err, AttemptTransitionError::InvalidGrant(_)));
    assert!(!a.is_runnable());
}

#[test]
fn recover_clears_grant_and_stays_non_runnable() {
    let mut a = attempt();
    a.begin_grant_binding(1100).unwrap();
    a.attach_minted_grant(GrantId::new("g-1".into()), 1200).unwrap();
    a.recover_grant_failure(1300).unwrap();
    assert_eq!(a.state(), &AttemptState::PreparedNonRunnable);
    assert!(a.grant_id.is_none());
    assert!(!a.is_runnable());
}

#[test]
fn cannot_start_before_dispatch() {
    let mut a = attempt();
    let err = a.start_execution(2000).unwrap_err();
    assert!(matches!(err, AttemptTransitionError::InvalidTransition { .. }));
}

#[test]
fn cancel_from_prepared() {
    let mut a = attempt();
    a.cancel(2000).unwrap();
    assert_eq!(a.state(), &AttemptState::Cancelled);
    assert!(!a.is_runnable());
}

#[test]
fn state_displays_m1_names() {
    assert_eq!(
        AttemptState::PreparedNonRunnable.to_display_string(),
        "PREPARED_NON_RUNNABLE"
    );
    assert_eq!(
        AttemptState::GrantReadyNonRunnable.to_display_string(),
        "GRANT_READY_NON_RUNNABLE"
    );
}

#[test]
fn every_state_name_parses_back() {
    let states = [
        AttemptState::PreparedNonRunnable,
        AttemptState::GrantPendingNonRunnable,
        AttemptState::GrantReadyNonRunnable,
        AttemptState::Dispatched,
        AttemptState::Running,
        AttemptState::Succeeded,
        AttemptState::Failed,
        AttemptState::Cancelled,
        AttemptState::TimedOut,
        AttemptState::UnknownReadback,
    ];
    for s in states {
        assert_eq!(AttemptState::parse(s.as_m1_str()).unwrap(), s);
    }
    assert!(AttemptState::parse("BOGUS").is_err());
}

#[test]
fn transitions_bump_revision_and_time() {
    let mut a = attempt();
    assert_eq!(a.revision, 1);
    a.begin_grant_binding(1100).unwrap();
    assert_eq!(a.revision, 2);
    assert_eq!(a.updated_at_ms, 1100);
    assert_eq!(a.created_at_ms, 1000);
}

#[test]
fn refused_transition_leaves_attempt_unchanged() {
    let mut a = attempt();
    let err = a.mark_dispatched(1500).unwrap_err();
    assert_eq!(
        err.to_display_string(),
        "invalid transition from PREPARED_NON_RUNNABLE to DISPATCHED"
    );
    assert_eq!(a.state(), &AttemptState::PreparedNonRunnable);
    assert_eq!(a.revision, 1);
}

#[test]
fn running_attempt_completes_once() {
    let mut a = attempt();
    let gid = GrantId::new("g-1".into());
    a.begin_grant_binding(1100).unwrap();
    a.attach_minted_grant(gid.clone(), 1200).unwrap();
    a.confirm_grant_ready(&gid, 1300).unwrap();
    a.mark_dispatched(1400).unwrap();
    a.start_execution(1500).unwrap();
    a.succeed(1600).unwrap();
    assert!(a.is_completed());
    let err = a.cancel(1700).unwrap_err();
    assert!(matches!(err, AttemptTransitionError::AlreadyCompleted));
    assert_eq!(err.to_display_string(), "attempt already completed");
}
