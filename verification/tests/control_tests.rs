use productized_shell::consult::request_fingerprint;
use productized_shell::control::{
    check_profile_capability, check_profile_manifest, inactive_status,
    independent_reviewer_from_authority, valid_run_id, LoadedExactChain, OrdinaryControlManifest,
    OrdinaryControlManifestPaths, OrdinaryControlPhase, ORDINARY_CONTROL_PURPOSE,
};

const CAPABILITY: &str = "0123456789abcdef0123456789ABCDEF0123456789abcdef0123456789abcdef";

fn manifest() -> OrdinaryControlManifest {
    OrdinaryControlManifest {
        schema_version: 1,
        purpose: ORDINARY_CONTROL_PURPOSE.into(),
        run_id: "syn-m5r07-0123456789abcdef".into(),
        expires_at_ms: 10_000,
        capability_sha256: request_fingerprint(CAPABILITY),
        project_relative_path: "project".into(),
        paths: OrdinaryControlManifestPaths {
            app_data_relative_path: "app-data".into(),
            index_relative_path: "index.json".into(),
            tasks_relative_path: "tasks.json".into(),
            logs_relative_path: "logs".into(),
        },
    }
}

fn full_chain() -> LoadedExactChain {
    let s = |v: &str| Some(v.to_string());
    LoadedExactChain {
        proposal_id: s("prop"),
        authorization_decision_id: s("dec"),
        authorization_id: s("auth"),
        workflow_run_id: s("run"),
        work_item_id: s("item"),
        attempt_id: s("attempt"),
        grant_id: s("grant"),
        dispatch_id: s("dispatch"),
        runtime_receipt_id: s("receipt"),
        execution_readback_id: s("readback"),
        claim_id: s("claim"),
        executed_claim_id: s("claim"),
        review_id: s("assessment"),
        result_decision_id: s("result"),
        fact_id: s("fact"),
        join_project_id: s("project-1"),
        orchestration_id: s("orch"),
        node_id: s("node"),
        worker_session_id: s("session:worker"),
        review_outcome: s("VERIFIED"),
        result_decision: s("ACCEPTED_RESULT"),
        review_reviewer_actor: s("actor:assessor"),
        review_reviewer_session: s("session:assessor"),
        claim_worker_session: s("session:worker"),
        terminal_readback: true,
        joins_hold: true,
    }
}

#[test]
fn phases_parse_and_print() {
    assert_eq!(OrdinaryControlPhase::parse("first"), Ok(OrdinaryControlPhase::First));
    assert_eq!(OrdinaryControlPhase::parse("reopen"), Ok(OrdinaryControlPhase::Reopen));
    assert_eq!(
        OrdinaryControlPhase::parse("First"),
        Err("m5r07_ordinary_control_phase_invalid".to_string())
    );
    assert_eq!(OrdinaryControlPhase::First.as_str(), "first");
    assert_eq!(OrdinaryControlPhase::Reopen.as_str(), "reopen");
}

#[test]
fn ordinary_acceptance_inactive_status_is_empty() {
    let s = inactive_status();
    assert!(!s.active);
    assert_eq!(s.composition, "INACTIVE");
    assert!(s.project_id.is_empty());
    assert!(!s.open_available);
}

#[test]
fn run_ids_have_a_prefix_and_sixteen_lower_hex_digits() {
    assert!(valid_run_id("syn-m5r07-0123456789abcdef"));
    assert!(!valid_run_id("syn-m5r07-0123456789ABCDEF"));
    assert!(!valid_run_id("syn-m5r07-0123456789abcde"));
    assert!(!valid_run_id("syn-m5r08-0123456789abcdef"));
}

#[test]
fn capabilities_are_sixty_four_hex_digits() {
    assert_eq!(check_profile_capability(CAPABILITY), Ok(()));
    assert_eq!(
        check_profile_capability(&CAPABILITY[1..]),
        Err("m5r07_ordinary_control_capability_invalid".to_string())
    );
    let mut bad = CAPABILITY.to_string();
    bad.replace_range(0..1, "g");
    assert_eq!(
        check_profile_capability(&bad),
        Err("m5r07_ordinary_control_capability_invalid".to_string())
    );
}

#[test]
fn manifests_are_checked_in_order() {
    assert_eq!(check_profile_manifest(&manifest(), CAPABILITY, 9_999), Ok(()));
    let mut m = manifest();
    m.schema_version = 2;
    m.expires_at_ms = 0;
    assert_eq!(
        check_profile_manifest(&m, CAPABILITY, 9_999),
        Err("m5r07_ordinary_control_profile_schema_invalid".to_string())
    );
    let mut m = manifest();
    m.purpose = "other".into();
    assert_eq!(
        check_profile_manifest(&m, CAPABILITY, 9_999),
        Err("m5r07_ordinary_control_profile_schema_invalid".to_string())
    );
    assert_eq!(
        check_profile_manifest(&manifest(), CAPABILITY, 10_000),
        Err("m5r07_ordinary_control_profile_expired".to_string())
    );
    let mut m = manifest();
    m.capability_sha256 = request_fingerprint("another capability");
    assert_eq!(
        check_profile_manifest(&m, CAPABILITY, 9_999),
        Err("m5r07_ordinary_control_capability_mismatch".to_string())
    );
    let mut m = manifest();
    m.run_id = "syn-m5r07-xyz".into();
    assert_eq!(
        check_profile_manifest(&m, CAPABILITY, 9_999),
        Err("m5r07_ordinary_control_run_id_invalid".to_string())
    );
}

#[test]
fn exact_chain_is_complete_only_with_every_link() {
    assert!(full_chain().is_complete("project-1", &true));
    assert!(!full_chain().is_complete("project-1", &false));
    assert!(!full_chain().is_complete("project-2", &true));
    let mut c = full_chain();
    c.fact_id = None;
    assert!(!c.is_complete("project-1", &true));
    let mut c = full_chain();
    c.review_outcome = Some("REJECTED".into());
    assert!(!c.is_complete("project-1", &true));
    let mut c = full_chain();
    c.joins_hold = false;
    assert!(!c.is_complete("project-1", &true));
}

#[test]
fn assessor_independence_from_authority() {
    let worker = Some(("actor:worker".to_string(), "session:worker".to_string()));
    let assessor = Some(("actor:assessor".to_string(), "session:assessor".to_string()));
    assert!(independent_reviewer_from_authority(&worker, &assessor, &full_chain()));
    assert!(!independent_reviewer_from_authority(&None, &assessor, &full_chain()));
    assert!(!independent_reviewer_from_authority(&worker, &worker, &full_chain()));
    let mut c = full_chain();
    c.review_reviewer_actor = Some("actor:someone-else".into());
    assert!(!independent_reviewer_from_authority(&worker, &assessor, &c));
    let mut c = full_chain();
    c.claim_worker_session = Some("session:assessor".into());
    assert!(!independent_reviewer_from_authority(&worker, &assessor, &c));
    let mut c = full_chain();
    c.review_reviewer_session = None;
    c.claim_worker_session = None;
    assert!(independent_reviewer_from_authority(&worker, &assessor, &c));
}
