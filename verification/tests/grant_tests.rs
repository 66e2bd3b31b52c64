use productized_shell::grant::{compute_grant_hash, ExecutionGrant, GrantMintInput, GrantStatus};
use productized_shell::identity::{
    AttemptId, AuthorizationId, OrchestrationId, WorkItemId, WorkflowRunId,
};

fn sample_input() -> GrantMintInput {
    GrantMintInput {
        project_id: "proj-1".into(),
        orchestration_id: OrchestrationId::new("orch-1".into()),
        workflow_run_id: WorkflowRunId::new("run-1".into()),
        work_item_id: WorkItemId::new("wi-1".into()),
        attempt_id: AttemptId::new("att-1".into()),
        authorization_id: AuthorizationId::new("auth-1".into()),
        authorization_revision: 1,
        principal_actor_id: "actor-1".into(),
        worker_role_session_id: "role-1".into(),
        scope_fingerprint: "scope-1".into(),
        allowed_commands: vec!["echo".into()],
        cwd_ref: "/tmp/scratch".into(),
        write_root_refs: vec!["/tmp/scratch".into()],
        object_refs: vec!["obj:1".into()],
        policy_decision_ref: "pol-1".into(),
        issued_at_ms: 1000,
        expires_at_ms: 10_000,
        idempotency_key: "idem-1".into(),
        effect_key: "eff-1".into(),
        created_by_command_receipt_ref: "rcpt-1".into(),
    }
}

#[test]
fn mint_starts_pending_and_hashes() {
    let grant = ExecutionGrant::mint(sample_input()).unwrap();
    assert_eq!(grant.status, GrantStatus::MintPending);
    assert_eq!(grant.grant_hash, compute_grant_hash(&grant));
    assert!(!grant.is_active(1000));
}

#[test]
fn readback_activates() {
    let mut grant = ExecutionGrant::mint(sample_input()).unwrap();
    let hash = grant.grant_hash.clone();
    grant.confirm_readback(&hash, 2000).unwrap();
    assert_eq!(grant.status, GrantStatus::Active);
    assert!(grant.is_active(2000));
}

#[test]
fn readback_hash_mismatch_fails() {
    let mut grant = ExecutionGrant::mint(sample_input()).unwrap();
    let err = grant.confirm_readback("deadbeef", 2000).unwrap_err();
    assert_eq!(err, "grant_readback_hash_mismatch");
    assert_eq!(grant.status, GrantStatus::MintPending);
}

#[test]
fn incomplete_input_is_refused() {
    let mut input = sample_input();
    input.allowed_commands.clear();
    assert_eq!(
        ExecutionGrant::mint(input).unwrap_err(),
        "grant_mint_input_incomplete"
    );
    let mut input = sample_input();
    input.expires_at_ms = input.issued_at_ms;
    assert!(ExecutionGrant::mint(input).is_err());
}

#[test]
fn hash_is_hex_digest_and_depends_on_scope() {
    let a = ExecutionGrant::mint(sample_input()).unwrap();
    assert_eq!(a.grant_hash.len(), 64);
    assert!(a.grant_hash.chars().all(|c| c.is_ascii_hexdigit() && !c.is_ascii_uppercase()));
    let mut input = sample_input();
    input.scope_fingerprint = "scope-2".into();
    let b = ExecutionGrant::mint(input).unwrap();
    // grant ids differ too, so compare the payloads without them
    assert_ne!(a.grant_hash, b.grant_hash);
}

#[test]
fn readback_after_expiry_expires_grant() {
    let mut grant = ExecutionGrant::mint(sample_input()).unwrap();
    let hash = grant.grant_hash.clone();
    let err = grant.confirm_readback(&hash, 10_000).unwrap_err();
    assert_eq!(err, "grant_expired_on_readback");
    assert_eq!(grant.status, GrantStatus::Expired);
}

#[test]
fn revoked_grant_is_not_active_and_keeps_hash() {
    let mut grant = ExecutionGrant::mint(sample_input()).unwrap();
    let hash = grant.grant_hash.clone();
    grant.confirm_readback(&hash, 2000).unwrap();
    grant.revoke(3000);
    assert_eq!(grant.status, GrantStatus::Revoked);
    assert_eq!(grant.revoked_at_ms, Some(3000));
    assert!(!grant.is_active(3000));
    assert_eq!(grant.grant_hash, hash);
}

#[test]
fn grant_limits_commands_and_roots() {
    let grant = ExecutionGrant::mint(sample_input()).unwrap();
    assert!(grant.allows_command("echo"));
    assert!(!grant.allows_command("rm"));
    assert!(grant.allows_write_root("/tmp/scratch"));
    assert!(grant.allows_write_root("/tmp/scratch/sub"));
    assert!(!grant.allows_write_root("/etc"));
}

#[test]
fn status_names_round_trip() {
    for s in [
        GrantStatus::MintPending,
        GrantStatus::Active,
        GrantStatus::Revoked,
        GrantStatus::Expired,
    ] {
        assert_eq!(GrantStatus::parse(s.as_m1_str()).unwrap(), s);
    }
    assert!(GrantStatus::parse("nope").is_err());
}
