use productized_shell::advisory::{
    consult_handoff_ref_for, M6OrgCrossProjectAdvisory, M6OrgFreshnessState,
    M6OrgProjectSummaryQueryInput,
};
use productized_shell::consult::{
    check_consult_decision, consult_recipient_permission, correlation_id, handoff_id_for,
    handoff_object_refs, m4_record_for_outcome, member_contact_handoff_id,
    member_contact_object_refs, member_contact_source_refs, opaque, outcome_from_handoff, request_fingerprint,
    scrubbed_service_error, sealed_ref, validate_decision_request, validate_external_ref,
    validate_start_request, validation_source_refs, ConsultHandoffRecord,
    M4SecretaryHandoffPortRecord, M6OrgConsultDecision, M6OrgConsultHandoffProjection,
    M6OrgGlobalSupervisorConsultDecisionRequest, M6OrgSecretaryConsultOutcome,
    M6OrgSecretaryConsultStartRequest,
};

const NOW_MS: i64 = 1_767_225_600_000; // 2026-01-01T00:00:00.000Z

fn start_request() -> M6OrgSecretaryConsultStartRequest {
    M6OrgSecretaryConsultStartRequest {
        question_ref: "question-ref:m6d04".into(),
        source_refs: vec!["source-ref:b".into(), "source-ref:a".into()],
        project_queries: vec![
            query("project-beta"),
            query("project-alpha"),
        ],
        accept_by_utc: "2026-01-01T00:10:00.000Z".into(),
        return_by_utc: "2026-01-01T01:00:00.000Z".into(),
        idempotency_key: "consult-1".into(),
    }
}

fn query(project_id: &str) -> M6OrgProjectSummaryQueryInput {
    M6OrgProjectSummaryQueryInput {
        project_id: project_id.into(),
        summary_id: None,
        project_owner_ref: None,
        policy_decision_ref: None,
        expected_schema_version: None,
        expected_version: None,
        expected_source_watermark: None,
        expected_summary_hash: None,
    }
}

fn start(r: &M6OrgSecretaryConsultStartRequest) -> Result<M6OrgSecretaryConsultStartRequest, String> {
    validate_start_request(r, r.project_queries.clone(), Ok(()), NOW_MS)
}

#[test]
fn sealed_refs_hide_their_material() {
    let r = sealed_ref("handoff", "secret material");
    assert!(r.starts_with("handoff:sha256:"));
    assert_eq!(r.len(), "handoff:sha256:".len() + 64);
    assert!(!r.contains("secret"));
    assert_eq!(
        sealed_ref("x", "abc"),
        format!("x:sha256:{}", request_fingerprint("abc"))
    );
    assert_eq!(
        request_fingerprint("abc"),
        "ba7816bf8f01cfea414140de5dae2223b00361a396177a9cb410ff61f20015ad"
    );
    assert_eq!(opaque("source", "a"), sealed_ref("source", "a"));
    assert_eq!(correlation_id("m"), sealed_ref("correlation", "m"));
}

#[test]
fn handoff_id_is_stable_per_session_and_key() {
    let r = start_request();
    let a = handoff_id_for("session-1", &r);
    assert_eq!(
        a,
        sealed_ref("handoff", "syn.m6.org.consult-handoff/v1/session-1/consult-1")
    );
    assert_eq!(a, handoff_id_for("session-1", &r));
    assert_ne!(a, handoff_id_for("session-2", &r));
}

#[test]
fn external_refs_refuse_paths_urls_and_secrets() {
    assert!(validate_external_ref("f", "source-ref:ok_1").is_ok());
    for bad in [
        "",
        " padded",
        "padded ",
        "a\u{7}b",
        "a\\b",
        "/abs",
        "./rel",
        "../up",
        "a/./b",
        "a/../b",
        "HTTPS://x",
        "me@host",
        "my_PASSWORD",
        "credential-1",
        "api_key",
        "ApiKey",
        "access_token",
        "refresh_token",
        "private_key",
    ] {
        assert_eq!(
            validate_external_ref("field", bad).unwrap_err(),
            "m6_org_consult_invalid_ref:field",
            "{bad:?}"
        );
    }
    assert!(validate_external_ref("f", &"a".repeat(512)).is_ok());
    assert!(validate_external_ref("f", &"a".repeat(513)).is_err());
    assert!(validate_external_ref("f", &"é".repeat(256)).is_ok());
    assert!(validate_external_ref("f", &format!("{}a", "é".repeat(256))).is_err());
}

#[test]
fn service_errors_are_scrubbed_to_codes() {
    assert_eq!(scrubbed_service_error("m6_org_consult_recipient_unavailable".into()), "M6_CONSULT_UNAVAILABLE");
    assert_eq!(scrubbed_service_error("x_missing".into()), "M6_CONSULT_UNAVAILABLE");
    assert_eq!(scrubbed_service_error("m6_org_consult_deadline_invalid".into()), "M6_CONSULT_DEADLINE_INVALID");
    assert_eq!(scrubbed_service_error("idempotency".into()), "M6_CONSULT_IDEMPOTENCY_CONFLICT");
    assert_eq!(scrubbed_service_error("advisory_collision".into()), "M6_CONSULT_IDEMPOTENCY_CONFLICT");
    assert_eq!(scrubbed_service_error("anything else".into()), "M6_CONSULT_FAILED");
}

#[test]
fn decisions_carry_a_reason_exactly_when_rejecting() {
    let accept = M6OrgGlobalSupervisorConsultDecisionRequest {
        handoff_id: "h".into(),
        decision: M6OrgConsultDecision::Accept,
        rejection_reason: None,
    };
    assert!(validate_decision_request(&accept, true).is_ok());
    assert_eq!(
        validate_decision_request(&accept, false).unwrap_err(),
        "m6_org_consult_handoff_id_invalid"
    );
    let mut accept_with_reason = accept.clone();
    accept_with_reason.rejection_reason = Some("OUT_OF_SCOPE".into());
    assert_eq!(
        validate_decision_request(&accept_with_reason, true).unwrap_err(),
        "m6_org_consult_accept_reason_forbidden"
    );
    let reject = M6OrgGlobalSupervisorConsultDecisionRequest {
        handoff_id: "h".into(),
        decision: M6OrgConsultDecision::Reject,
        rejection_reason: None,
    };
    assert_eq!(
        validate_decision_request(&reject, true).unwrap_err(),
        "m6_org_consult_rejection_reason_required"
    );
    let mut reject_with_reason = reject;
    reject_with_reason.rejection_reason = Some("OUT_OF_SCOPE".into());
    assert!(validate_decision_request(&reject_with_reason, true).is_ok());
}

#[test]
fn start_request_is_normalized() {
    let n = start(&start_request()).unwrap();
    assert_eq!(n.source_refs, vec!["source-ref:a".to_string(), "source-ref:b".to_string()]);
    assert_eq!(n.project_queries[0].project_id, "project-alpha");
    assert_eq!(n.project_queries[1].project_id, "project-beta");
}

#[test]
fn missing_fields_reject_before_any_write() {
    let mut r = start_request();
    r.source_refs.clear();
    assert_eq!(start(&r).unwrap_err(), "m6_org_consult_source_refs_required");
    let mut r = start_request();
    r.source_refs = (0..65).map(|i| format!("s{i}")).collect();
    assert_eq!(start(&r).unwrap_err(), "m6_org_consult_source_refs_required");
    let mut r = start_request();
    r.source_refs.push("source-ref:a".into());
    assert_eq!(start(&r).unwrap_err(), "m6_org_consult_duplicate_source_ref");
    let mut r = start_request();
    r.question_ref = "/etc/passwd".into();
    assert_eq!(start(&r).unwrap_err(), "m6_org_consult_invalid_ref:question_ref");
    let mut r = start_request();
    r.source_refs[1] = "http://x".into();
    assert_eq!(start(&r).unwrap_err(), "m6_org_consult_invalid_ref:source_ref");
    let r = start_request();
    assert_eq!(
        validate_start_request(&r, r.project_queries.clone(), Err("queries_bad".into()), NOW_MS)
            .unwrap_err(),
        "queries_bad"
    );
}

#[test]
fn deadlines_must_follow_now_and_each_other() {
    let mut r = start_request();
    r.accept_by_utc = "2026-01-01T00:00:00.000Z".into();
    assert_eq!(start(&r).unwrap_err(), "m6_org_consult_deadline_invalid");
    let mut r = start_request();
    r.return_by_utc = r.accept_by_utc.clone();
    assert_eq!(start(&r).unwrap_err(), "m6_org_consult_deadline_invalid");
    let mut r = start_request();
    r.accept_by_utc = "2026-01-01 00:10:00".into();
    assert_eq!(start(&r).unwrap_err(), "m6_org_consult_utc_millis_required");
}

#[test]
fn handoff_objects_are_sorted_and_unique() {
    let mut r = start_request();
    r.project_queries.push(query("project-alpha"));
    let refs = handoff_object_refs("object:current", &r);
    let mut expected = vec![
        "object:current".to_string(),
        opaque("question", "question-ref:m6d04"),
        opaque("source", "source-ref:a"),
        opaque("source", "source-ref:b"),
        opaque("project-summary", "project-alpha"),
        opaque("project-summary", "project-beta"),
    ];
    expected.sort();
    assert_eq!(refs, expected);
}

#[test]
fn consult_recipient_is_read_only() {
    let p = consult_recipient_permission("perm:1");
    assert_eq!(p.snapshot_ref, "perm:1");
    assert!(p.allowed_capability_refs.is_empty());
    assert_eq!(p.denied_capability_refs.len(), 5);
    assert!(p.denied_capability_refs.contains(&opaque("capability", "write_project_fact")));
    let mut sorted = p.denied_capability_refs.clone();
    sorted.sort();
    assert_eq!(sorted, p.denied_capability_refs);
    assert_eq!(p.constraint_refs.len(), 3);
    assert!(p.constraint_refs.contains(&opaque("constraint", "read_only")));
}

fn handoff_record(status: &str) -> ConsultHandoffRecord {
    ConsultHandoffRecord {
        handoff_id: "handoff:sha256:h1".into(),
        revision: 3,
        status_ref: status.into(),
        current_receipt_id: "receipt:sha256:r3".into(),
        from_role_session_id: "session:sha256:secretary".into(),
        to_role_ref: "role:global-supervisor".into(),
        to_recipient_ref: "actor:global".into(),
        scope_ref: "scope:personal".into(),
        object_refs: vec!["z-object".into(), "a-object".into(), "m-object".into(), "a-object".into()],
    }
}

fn advisory() -> M6OrgCrossProjectAdvisory {
    M6OrgCrossProjectAdvisory {
        advisory_id: "m6-advisory:abc".into(),
        global_role_session_id: "session:global".into(),
        consult_handoff_ref: "m6-consult-handoff:x".into(),
        consumed_summaries: Vec::new(),
        policy_decision_ref: "policy".into(),
        generated_at_ms: NOW_MS,
        source_links: Vec::new(),
        findings: Vec::new(),
        lifecycle_status: "ISSUED".into(),
        freshness_state: M6OrgFreshnessState::Fresh,
        revision: 1,
        idempotency_key: "consult-1:advisory".into(),
        request_hash: "0".repeat(64),
        created_at_ms: NOW_MS,
    }
}

fn projection(advisory: Option<M6OrgCrossProjectAdvisory>, reason: Option<&str>) -> M6OrgConsultHandoffProjection {
    M6OrgConsultHandoffProjection {
        handoff_id: "handoff:sha256:h1".into(),
        idempotency_key: "consult-1".into(),
        request_hash: "1".repeat(64),
        request: start_request(),
        source_session_revision: 1,
        source_validation_receipt_ref: "receipt:sha256:v".into(),
        advisory,
        advisory_blocked_reasons: vec!["blocked".into()],
        accepted_receipt_ref: None,
        accepted_revision: None,
        returned_receipt_ref: None,
        rejection_reason: reason.map(|r| r.to_string()),
        created_at_ms: NOW_MS,
        updated_at_ms: NOW_MS,
    }
}

fn outcome(status: &str, advisory: Option<M6OrgCrossProjectAdvisory>, reason: Option<&str>) -> M6OrgSecretaryConsultOutcome {
    outcome_from_handoff(&handoff_record(status), projection(advisory, reason), false).unwrap()
}

#[test]
fn consult_outcome_reports_the_handoff_and_never_a_project_write() {
    let o = outcome_from_handoff(&handoff_record("ACCEPTED"), projection(None, None), true).unwrap();
    let b = &o.handoff;
    assert_eq!(
        b.consult_handoff_ref,
        consult_handoff_ref_for("handoff:sha256:h1", 3, "ACCEPTED", "receipt:sha256:r3")
    );
    assert_eq!(b.handoff_id, "handoff:sha256:h1");
    assert_eq!(b.handoff_revision, 3);
    assert_eq!(b.status_ref, "ACCEPTED");
    assert_eq!(b.consult_kind, "SECRETARY_TO_GLOBAL_SUPERVISOR");
    assert_eq!(b.question_ref, "question-ref:m6d04");
    assert_eq!(b.object_refs, vec!["a-object".to_string(), "m-object".into(), "z-object".into()]);
    assert_eq!(b.receipt_ref, "receipt:sha256:r3");
    assert!(!b.project_write_capability);
    assert_eq!(o.blocked_reasons, vec!["blocked".to_string()]);
    assert!(o.advisory.is_none());
    assert!(o.replayed);
    assert_eq!(o.project_command_attempts, 0);
    assert_eq!(o.provider_invocations, 0);
}

#[test]
fn pending_statuses_map_to_a_pending_record() {
    for status in ["CREATED", "ACCEPTED", "RETURN_PENDING"] {
        match m4_record_for_outcome(&outcome(status, None, None), "").unwrap() {
            M4SecretaryHandoffPortRecord::Pending { handoff_ref, request_receipt_ref } => {
                assert_eq!(handoff_ref, "handoff:sha256:h1");
                assert_eq!(request_receipt_ref, "receipt:sha256:r3");
            }
            other => panic!("unexpected record {other:?}"),
        }
    }
}

#[test]
fn returned_record_carries_the_advisory_result_and_digest() {
    let json = "{\"advisory_id\":\"m6-advisory:abc\"}";
    match m4_record_for_outcome(&outcome("RETURNED", Some(advisory()), None), json).unwrap() {
        M4SecretaryHandoffPortRecord::Returned { handoff_ref, receipt } => {
            assert_eq!(handoff_ref, "handoff:sha256:h1");
            assert_eq!(receipt.receipt_ref, "receipt:sha256:r3");
            assert_eq!(receipt.handoff_ref, "handoff:sha256:h1");
            assert_eq!(receipt.receipt_kind_code, "RETURNED");
            assert_eq!(receipt.status_code, "RETURNED");
            assert_eq!(receipt.result_ref, Some(opaque("advisory-result", "m6-advisory:abc")));
            assert_eq!(receipt.result_hash, Some(request_fingerprint(json)));
        }
        other => panic!("unexpected record {other:?}"),
    }
    assert_eq!(
        m4_record_for_outcome(&outcome("RETURNED", None, None), "").unwrap_err(),
        "m6_org_consult_returned_advisory_missing"
    );
}

#[test]
fn rejected_and_terminal_records_fail_with_recovery_codes() {
    match m4_record_for_outcome(&outcome("REJECTED", None, Some("OUT_OF_SCOPE")), "").unwrap() {
        M4SecretaryHandoffPortRecord::Failed { handoff_ref, receipt, recovery_code } => {
            assert_eq!(handoff_ref, "handoff:sha256:h1");
            let receipt = receipt.expect("rejected receipt");
            assert_eq!(receipt.receipt_kind_code, "REJECTED");
            assert_eq!(receipt.status_code, "REJECTED");
            assert_eq!(receipt.result_ref, None);
            assert_eq!(receipt.result_hash, None);
            assert_eq!(recovery_code, "M6_CONSULT_REJECTED_OUT_OF_SCOPE");
        }
        other => panic!("unexpected record {other:?}"),
    }
    match m4_record_for_outcome(&outcome("REJECTED", None, None), "").unwrap() {
        M4SecretaryHandoffPortRecord::Failed { recovery_code, .. } => {
            assert_eq!(recovery_code, "M6_CONSULT_REJECTED_REASON_UNAVAILABLE");
        }
        other => panic!("unexpected record {other:?}"),
    }
    match m4_record_for_outcome(&outcome("EXPIRED", None, None), "").unwrap() {
        M4SecretaryHandoffPortRecord::Failed { receipt, recovery_code, .. } => {
            assert!(receipt.is_none());
            assert_eq!(recovery_code, "M6_CONSULT_TERMINAL_FAILURE");
        }
        other => panic!("unexpected record {other:?}"),
    }
}

#[test]
fn decisions_are_checked_against_the_handoff_status() {
    let reason = Some("OUT_OF_SCOPE".to_string());
    let other = Some("DUPLICATE".to_string());
    assert_eq!(check_consult_decision(M6OrgConsultDecision::Accept, "CREATED", &None, &None), Ok(()));
    assert_eq!(check_consult_decision(M6OrgConsultDecision::Accept, "RETURNED", &None, &None), Ok(()));
    assert_eq!(
        check_consult_decision(M6OrgConsultDecision::Accept, "REJECTED", &None, &None),
        Err("m6_org_consult_decision_conflict".to_string())
    );
    assert_eq!(check_consult_decision(M6OrgConsultDecision::Reject, "CREATED", &reason, &None), Ok(()));
    assert_eq!(check_consult_decision(M6OrgConsultDecision::Reject, "REJECTED", &reason, &reason), Ok(()));
    assert_eq!(
        check_consult_decision(M6OrgConsultDecision::Reject, "ACCEPTED", &reason, &None),
        Err("m6_org_consult_decision_conflict".to_string())
    );
    assert_eq!(
        check_consult_decision(M6OrgConsultDecision::Reject, "CREATED", &None, &None),
        Err("m6_org_consult_rejection_reason_required".to_string())
    );
    assert_eq!(
        check_consult_decision(M6OrgConsultDecision::Reject, "REJECTED", &reason, &other),
        Err("m6_org_consult_rejection_reason_conflict".to_string())
    );
}

#[test]
fn validation_sources_are_sealed_sorted_and_unique() {
    let mut r = start_request();
    r.source_refs.push("source-ref:a".into());
    let refs = validation_source_refs(&r);
    let mut expected = vec![
        opaque("source", "source-ref:b"),
        opaque("source", "source-ref:a"),
        opaque("project-summary", "project-beta"),
        opaque("project-summary", "project-alpha"),
    ];
    expected.sort();
    assert_eq!(refs, expected);
}

#[test]
fn member_contact_refs_are_sealed_sorted_and_unique() {
    assert_eq!(
        member_contact_handoff_id("member-7", "contact-1"),
        sealed_ref("handoff", "syn.m6.org.member-contact/v1/member-7/contact-1")
    );
    let sources = vec!["src:b".to_string(), "src:a".to_string(), "src:b".to_string()];
    let mut expected = vec![
        opaque("source", "src:a"),
        opaque("source", "src:b"),
        opaque("stable-member", "member-7"),
        opaque("contact-binding", "binding-3"),
    ];
    expected.sort();
    assert_eq!(member_contact_source_refs(&sources, "member-7", "binding-3"), expected);
    let mut objects = vec![
        "object:current".to_string(),
        opaque("stable-member", "member-7"),
        opaque("contact-binding", "binding-3"),
        opaque("reason", "reason:ask"),
        opaque("source", "src:a"),
        opaque("source", "src:b"),
    ];
    objects.sort();
    assert_eq!(
        member_contact_object_refs("object:current", "member-7", "binding-3", "reason:ask", &sources),
        objects
    );
}
