use std::cell::RefCell;
use std::collections::BTreeSet;

use productized_shell::advisory::{
    adopt_with_store, adoption_decision, admit_summary, advisory_priority_score, build_findings,
    build_source_links, consult_handoff_ref_for, context_refs, finding, is_sha256,
    map_query_error, observe_application_with_store, policy_allow_ref_for, project_owner_ref_for,
    require_nonempty, run_with_port, AdvisoryJournal, SummaryQueries, source_context_ref, summary_id_for,
    validate_application_receipt, validate_consult_handoff, validate_request_shape,
    M6OrgAdvisoryAdoptionRequest, M6OrgAdvisoryStore, M6OrgApplicationOutcome,
    M6OrgApplicationReceiptObservationRequest, M6OrgConsultHandoffRefInput,
    M6OrgConsumedProjectSummaryRef, M6OrgCrossProjectAdvisory, M6OrgCrossProjectAdvisoryRequest,
    M6OrgDecisionRequest, M6OrgFreshnessState, M6OrgGlobalRoleSession,
    M6OrgGlobalSummaryConsumerLease, M6OrgPerProjectApplicationObservation,
    M6OrgProjectSummaryQueryInput,
};
use productized_shell::summary::{
    ProjectSummary, ProjectSummaryQueryPort, QueryError, SourceRef, SummaryConsumer,
};

const NOW_MS: i64 = 1_000_000;

fn hash_of(seed: u64) -> String {
    format!("{:064x}", seed)
}

fn summary(
    project_id: &str,
    orchestration_id: &str,
    version: u64,
    watermark_ms: i64,
    unverified_claim_count: u32,
    open_run_count: u32,
) -> ProjectSummary {
    ProjectSummary {
        project_id: project_id.to_string(),
        orchestration_id: orchestration_id.to_string(),
        schema_version: "m5.project-summary.v1".to_string(),
        version,
        watermark_ms,
        summary_hash: hash_of(version * 1_000 + watermark_ms as u64),
        source_refs: vec![SourceRef {
            source_type: "project_fact".to_string(),
            source_id: format!("fact-ref-{project_id}"),
            last_updated_ms: watermark_ms,
        }],
        fact_count: version as u32 + 2,
        unverified_claim_count,
        open_run_count,
        rebuilt_at_ms: watermark_ms,
    }
}

fn query(summary: &ProjectSummary) -> M6OrgProjectSummaryQueryInput {
    let owner = project_owner_ref_for(&summary.project_id);
    M6OrgProjectSummaryQueryInput {
        summary_id: Some(summary_id_for(&summary.project_id)),
        project_id: summary.project_id.clone(),
        project_owner_ref: Some(owner.clone()),
        policy_decision_ref: Some(policy_allow_ref_for(&summary.project_id, &owner)),
        expected_schema_version: Some(summary.schema_version.clone()),
        expected_version: Some(summary.version),
        expected_source_watermark: Some(summary.watermark_ms),
        expected_summary_hash: Some(summary.summary_hash.clone()),
    }
}

fn handoff() -> M6OrgConsultHandoffRefInput {
    let handoff_id = "consult-handoff-m6d03";
    let receipt_ref = "consult-receipt:m6d03";
    let status_ref = "ACCEPTED";
    M6OrgConsultHandoffRefInput {
        consult_handoff_ref: consult_handoff_ref_for(handoff_id, 1, status_ref, receipt_ref),
        handoff_id: handoff_id.to_string(),
        handoff_revision: 1,
        status_ref: status_ref.to_string(),
        receipt_ref: receipt_ref.to_string(),
    }
}

fn request(summaries: &[ProjectSummary], idempotency_key: &str) -> M6OrgCrossProjectAdvisoryRequest {
    M6OrgCrossProjectAdvisoryRequest {
        project_queries: summaries.iter().map(query).collect(),
        consult_handoff: handoff(),
        idempotency_key: idempotency_key.to_string(),
    }
}

struct Slot;

impl M6OrgGlobalRoleSession for Slot {
    type Status = (usize, usize);
    fn global_scope_kind(&self) -> String {
        "GLOBAL".to_string()
    }
    fn status(&self) -> (usize, usize) {
        (0, 0)
    }
    fn status_with_minimal_context(
        &self,
        summary_refs: Vec<String>,
        source_refs: Vec<String>,
    ) -> Result<(usize, usize), String> {
        Ok((summary_refs.len(), source_refs.len()))
    }
}

fn lease() -> M6OrgGlobalSummaryConsumerLease {
    M6OrgGlobalSummaryConsumerLease {
        role_session_id: "global-session-1".to_string(),
        role_session_revision: 3,
        scope_kind: "GLOBAL".to_string(),
        consumer_expires_at_ms: NOW_MS + 60_000,
    }
}

#[derive(Default)]
struct FakePort {
    summaries: Vec<ProjectSummary>,
    failures: Vec<(String, QueryError)>,
    calls: RefCell<Vec<(String, SummaryConsumer, i64)>>,
}

impl ProjectSummaryQueryPort for FakePort {
    fn get_summary(
        &self,
        project_id: &str,
        consumer: &SummaryConsumer,
        now_ms: i64,
    ) -> Result<ProjectSummary, QueryError> {
        self.calls
            .borrow_mut()
            .push((project_id.to_string(), consumer.clone(), now_ms));
        if let Some((_, e)) = self.failures.iter().find(|(p, _)| p == project_id) {
            return Err(e.clone());
        }
        self.summaries
            .iter()
            .find(|s| s.project_id == project_id)
            .cloned()
            .ok_or_else(|| QueryError::ProjectNotFound(project_id.to_string()))
    }
}

#[derive(Default)]
struct MemAdvisoryStore {
    advisories: Vec<M6OrgCrossProjectAdvisory>,
    decisions: Vec<M6OrgDecisionRequest>,
    observations: Vec<M6OrgPerProjectApplicationObservation>,
    stale_marks: usize,
}

impl M6OrgAdvisoryStore for MemAdvisoryStore {
    fn load_advisory_by_idempotency(
        &self,
        idempotency_key: &str,
    ) -> Result<Option<M6OrgCrossProjectAdvisory>, String> {
        Ok(self
            .advisories
            .iter()
            .find(|a| a.idempotency_key == idempotency_key)
            .cloned())
    }
    fn mark_issued_advisories_stale_for_source_changes(
        &mut self,
        _observed_current: &Vec<M6OrgConsumedProjectSummaryRef>,
        _now_ms: i64,
    ) -> Result<Vec<String>, String> {
        self.stale_marks += 1;
        Ok(Vec::new())
    }
    fn record_advisory(
        &mut self,
        advisory: &M6OrgCrossProjectAdvisory,
    ) -> Result<M6OrgCrossProjectAdvisory, String> {
        self.advisories.push(advisory.clone());
        Ok(advisory.clone())
    }
    fn load_advisory(&self, advisory_id: &str) -> Result<Option<M6OrgCrossProjectAdvisory>, String> {
        Ok(self
            .advisories
            .iter()
            .find(|a| a.advisory_id == advisory_id)
            .cloned())
    }
    fn record_decision_request(
        &mut self,
        decision: &M6OrgDecisionRequest,
    ) -> Result<M6OrgDecisionRequest, String> {
        self.decisions.push(decision.clone());
        Ok(decision.clone())
    }
    type ApplicationProjection = usize;
    fn record_application_observation(
        &mut self,
        observation: &M6OrgPerProjectApplicationObservation,
    ) -> Result<usize, String> {
        self.observations.push(observation.clone());
        Ok(self.observations.len())
    }
}

#[test]
fn two_project_advisory_is_deterministic_sourced_and_context_minimal() {
    let alpha = summary("project-alpha", "shared-orchestration", 1, 999_000, 2, 1);
    let beta = summary("project-beta", "shared-orchestration", 3, 999_500, 0, 2);
    let port = FakePort {
        summaries: vec![beta.clone(), alpha.clone()],
        ..FakePort::default()
    };
    let req = request(&[beta, alpha], "deterministic-request");
    let mut first_store = AdvisoryJournal::new(MemAdvisoryStore::default());
    let first = run_with_port(&Slot, &lease(), &mut SummaryQueries::new(&port), &mut first_store, &req, NOW_MS).unwrap();
    let mut second_store = AdvisoryJournal::new(MemAdvisoryStore::default());
    let second = run_with_port(&Slot, &lease(), &mut SummaryQueries::new(&port), &mut second_store, &req, NOW_MS).unwrap();
    let a1 = first.advisory.as_ref().expect("advisory");
    let a2 = second.advisory.as_ref().expect("advisory");
    assert_eq!(a1.advisory_id, a2.advisory_id);
    assert_eq!(a1.consumed_summaries.len(), 2);
    assert_eq!(a1.consumed_summaries[0].project_id, "project-alpha");
    assert!(a1.source_links.len() >= 2);
    assert_eq!(
        a1.findings
            .iter()
            .map(|f| f.finding_kind.as_str())
            .collect::<BTreeSet<_>>(),
        BTreeSet::from(["conflict", "dependency", "priority", "risk"])
    );
    for f in &a1.findings {
        assert!(!f.summary_refs.is_empty());
        assert!(!f.source_link_refs.is_empty());
    }
    let priorities: Vec<u32> = a1.findings.iter().map(|f| f.priority).collect();
    let mut sorted = priorities.clone();
    sorted.sort_by(|a, b| b.cmp(a));
    assert_eq!(priorities, sorted);
    assert_eq!(first.global_role_session, (2, 2));
    assert_eq!(a1.generated_at_ms, 999_500);
    assert_eq!(a1.lifecycle_status, "ISSUED");
    assert!(first.blocked_reasons.is_empty());
    let calls = port.calls.borrow();
    assert_eq!(calls.len(), 4);
    for (project_id, consumer, observed_now) in calls.iter() {
        assert_eq!(&consumer.scope_project_id, project_id);
        assert_eq!(consumer.role, "global_supervisor");
        assert_eq!(consumer.role_session_id, "global-session-1");
        assert_eq!(*observed_now, NOW_MS);
    }
    drop(calls);
    let replay = run_with_port(&Slot, &lease(), &mut SummaryQueries::new(&port), &mut first_store, &req, NOW_MS).unwrap();
    assert_eq!(replay.advisory.unwrap().advisory_id, a1.advisory_id);
    assert_eq!(first_store.store().advisories.len(), 1);
}

#[test]
fn freshness_states_fail_closed_without_cached_advisory() {
    let inputs = [
        summary("project-missing", "orch-a", 1, 999_100, 0, 0),
        summary("project-denied", "orch-b", 1, 999_200, 0, 0),
        summary("project-stale", "orch-c", 1, 999_300, 0, 0),
        summary("project-degraded", "orch-d", 1, 999_400, 0, 0),
    ];
    let port = FakePort {
        summaries: Vec::new(),
        failures: vec![
            ("project-missing".into(), QueryError::ProjectNotFound("x".into())),
            ("project-denied".into(), QueryError::InsufficientPermission("x".into())),
            ("project-stale".into(), QueryError::SummaryStale("x".into())),
            ("project-degraded".into(), QueryError::StorageError("x".into())),
        ],
        ..FakePort::default()
    };
    let mut store = AdvisoryJournal::new(MemAdvisoryStore::default());
    let response = run_with_port(
        &Slot,
        &lease(),
        &mut SummaryQueries::new(&port),
        &mut store,
        &request(&inputs, "freshness-states"),
        NOW_MS,
    )
    .unwrap();
    assert!(response.advisory.is_none());
    let states: Vec<M6OrgFreshnessState> = response
        .freshness_judgements
        .iter()
        .map(|j| j.freshness_state)
        .collect();
    for s in [
        M6OrgFreshnessState::Missing,
        M6OrgFreshnessState::Denied,
        M6OrgFreshnessState::Stale,
        M6OrgFreshnessState::Degraded,
    ] {
        assert!(states.contains(&s));
    }
    assert!(response.freshness_judgements.iter().all(|j| !j.cache_reuse));
    assert_eq!(store.store().advisories.len(), 0);
    assert_eq!(
        response.blocked_reasons,
        vec![
            "summary_consumer_denied".to_string(),
            "summary_missing".to_string(),
            "summary_projector_degraded".to_string(),
            "summary_projector_stale".to_string()
        ]
    );
}

#[test]
fn owner_watermark_policy_scope_and_foreign_summary_are_rejected_before_write() {
    let alpha = summary("project-alpha", "orch-a", 1, 999_000, 0, 0);
    let beta = summary("project-beta", "orch-b", 1, 999_500, 0, 0);
    let port = FakePort {
        summaries: vec![alpha.clone(), beta.clone()],
        ..FakePort::default()
    };
    let mut store = AdvisoryJournal::new(MemAdvisoryStore::default());

    let mut missing_owner = request(&[alpha.clone(), beta.clone()], "missing-owner");
    missing_owner.project_queries[0].project_owner_ref = None;
    assert_eq!(
        run_with_port(&Slot, &lease(), &mut SummaryQueries::new(&port), &mut store, &missing_owner, NOW_MS).unwrap_err(),
        "m6_org_summary_owner_required"
    );

    let mut missing_watermark = request(&[alpha.clone(), beta.clone()], "missing-watermark");
    missing_watermark.project_queries[0].expected_source_watermark = None;
    assert_eq!(
        run_with_port(&Slot, &lease(), &mut SummaryQueries::new(&port), &mut store, &missing_watermark, NOW_MS).unwrap_err(),
        "m6_org_summary_watermark_required"
    );

    let mut denied_policy = request(&[alpha.clone(), beta.clone()], "denied-policy");
    denied_policy.project_queries[0].policy_decision_ref = Some("deny".to_string());
    assert_eq!(
        run_with_port(&Slot, &lease(), &mut SummaryQueries::new(&port), &mut store, &denied_policy, NOW_MS).unwrap_err(),
        "m6_org_policy_decision_denied"
    );

    let mut expired = lease();
    expired.consumer_expires_at_ms = NOW_MS;
    assert_eq!(
        run_with_port(
            &Slot,
            &expired,
            &mut SummaryQueries::new(&port),
            &mut store,
            &request(&[alpha.clone(), beta.clone()], "expired"),
            NOW_MS
        )
        .unwrap_err(),
        "m6_org_summary_consumer_gate_denied"
    );
    assert_eq!(port.calls.borrow().len(), 0);

    let mut foreign_alpha = summary("project-foreign", "orch-a", 1, 999_000, 0, 0);
    foreign_alpha.project_id = "project-foreign".into();
    let foreign_port = FakePort {
        summaries: vec![beta.clone()],
        ..FakePort::default()
    };
    struct Redirect<'a>(&'a FakePort, ProjectSummary);
    impl ProjectSummaryQueryPort for Redirect<'_> {
        fn get_summary(
            &self,
            project_id: &str,
            consumer: &SummaryConsumer,
            now_ms: i64,
        ) -> Result<ProjectSummary, QueryError> {
            if project_id == "project-alpha" {
                Ok(self.1.clone())
            } else {
                self.0.get_summary(project_id, consumer, now_ms)
            }
        }
    }
    let redirect = Redirect(&foreign_port, foreign_alpha);
    let foreign = run_with_port(
        &Slot,
        &lease(),
        &mut SummaryQueries::new(&redirect),
        &mut store,
        &request(&[alpha, beta], "foreign-summary"),
        NOW_MS,
    )
    .unwrap();
    assert!(foreign.advisory.is_none());
    assert!(foreign.freshness_judgements.iter().any(|j| {
        j.freshness_state == M6OrgFreshnessState::Denied
            && j.reason_code == "summary_foreign_project"
    }));
    assert_eq!(store.store().advisories.len(), 0);
}

#[test]
fn request_needs_two_projects_and_an_accepted_handoff() {
    let alpha = summary("project-alpha", "orch-a", 1, 999_000, 0, 0);
    let beta = summary("project-beta", "orch-b", 1, 999_500, 0, 0);
    let one = request(&[alpha.clone()], "one");
    assert_eq!(
        validate_request_shape(&one).unwrap_err(),
        "m6_org_advisory_requires_two_projects"
    );
    let mut dup = request(&[alpha.clone(), alpha.clone()], "dup");
    assert_eq!(
        validate_request_shape(&dup).unwrap_err(),
        "m6_org_duplicate_project_query"
    );
    dup.idempotency_key = " ".into();
    assert_eq!(
        validate_request_shape(&dup).unwrap_err(),
        "m6_org_required_field_missing:idempotency_key"
    );
    let mut pending = request(&[alpha.clone(), beta.clone()], "pending");
    pending.consult_handoff.status_ref = "CREATED".into();
    assert_eq!(
        validate_request_shape(&pending).unwrap_err(),
        "m6_org_handoff_not_accepted"
    );
    let mut forged = handoff();
    forged.handoff_revision = 2;
    assert_eq!(
        validate_consult_handoff(&forged).unwrap_err(),
        "m6_org_handoff_exact_join_mismatch"
    );
    let mut zero = handoff();
    zero.handoff_revision = 0;
    assert_eq!(
        validate_consult_handoff(&zero).unwrap_err(),
        "m6_org_handoff_revision_required"
    );
    let ok = validate_request_shape(&request(&[alpha, beta], "ok")).unwrap();
    assert_eq!(ok.len(), 2);
    assert_eq!(ok[0].project_id, "project-alpha");
}

#[test]
fn query_fields_are_checked_in_order() {
    let alpha = summary("project-alpha", "orch-a", 1, 999_000, 0, 0);
    let beta = summary("project-beta", "orch-b", 1, 999_500, 0, 0);
    let cases: Vec<(fn(&mut M6OrgProjectSummaryQueryInput), &str)> = vec![
        (|q| q.project_owner_ref = Some("project-owner:other".into()), "m6_org_summary_owner_mismatch"),
        (|q| q.summary_id = None, "m6_org_summary_id_required"),
        (|q| q.summary_id = Some("project-summary:other".into()), "m6_org_summary_id_mismatch"),
        (|q| q.policy_decision_ref = Some(" ".into()), "m6_org_policy_decision_required"),
        (|q| q.expected_schema_version = None, "m6_org_summary_schema_version_required"),
        (|q| q.expected_version = Some(0), "m6_org_summary_version_required"),
        (|q| q.expected_source_watermark = Some(0), "m6_org_summary_watermark_required"),
        (|q| q.expected_summary_hash = Some("ABC".into()), "m6_org_summary_hash_required"),
        (|q| q.project_id = "  ".into(), "m6_org_required_field_missing:project_id"),
    ];
    for (edit, expected) in cases {
        let mut r = request(&[alpha.clone(), beta.clone()], "fields");
        edit(&mut r.project_queries[1]);
        assert_eq!(validate_request_shape(&r).unwrap_err(), expected);
    }
}

#[test]
fn summary_admission_judges_each_outcome() {
    let alpha = summary("project-alpha", "orch-a", 1, 999_000, 0, 0);
    let q = validate_request_shape(&request(
        &[alpha.clone(), summary("project-beta", "orch-b", 1, 1, 0, 0)],
        "k",
    ))
    .unwrap()
    .remove(0);
    let fresh = admit_summary(&q, alpha.clone()).unwrap();
    assert_eq!(fresh.consumed.freshness_state, M6OrgFreshnessState::Fresh);
    assert_eq!(
        fresh.consumed.source_refs,
        vec!["source-ref:project-alpha:project_fact:fact-ref-project-alpha:at999000".to_string()]
    );
    let mut newer = alpha.clone();
    newer.version = 2;
    let (state, reason, current) = admit_summary(&q, newer).err().unwrap();
    assert_eq!(state, M6OrgFreshnessState::Stale);
    assert_eq!(reason, "summary_version_watermark_or_hash_stale");
    assert_eq!(current.unwrap().version, 2);
    let mut broken = alpha.clone();
    broken.source_refs[0].last_updated_ms = 0;
    let (state, reason, current) = admit_summary(&q, broken).err().unwrap();
    assert_eq!(state, M6OrgFreshnessState::Degraded);
    assert_eq!(reason, "summary_required_metadata_incomplete");
    assert!(current.is_none());
    let mut other = alpha;
    other.project_id = "project-gamma".into();
    let (state, reason, _) = admit_summary(&q, other).err().unwrap();
    assert_eq!(state, M6OrgFreshnessState::Denied);
    assert_eq!(reason, "summary_foreign_project");
}

#[test]
fn query_errors_map_to_freshness_states() {
    assert_eq!(
        map_query_error(QueryError::ProjectNotFound("p".into())),
        (M6OrgFreshnessState::Missing, "summary_missing".to_string())
    );
    assert_eq!(
        map_query_error(QueryError::ConsumerExpired("p".into())),
        (M6OrgFreshnessState::Denied, "summary_consumer_denied".to_string())
    );
    assert_eq!(
        map_query_error(QueryError::SummaryStale("p".into())).0,
        M6OrgFreshnessState::Stale
    );
    assert_eq!(
        map_query_error(QueryError::StorageError("p".into())).1,
        "summary_projector_degraded"
    );
}

#[test]
fn reference_formats() {
    assert_eq!(project_owner_ref_for("p1"), "project-owner:p1");
    assert_eq!(summary_id_for("p1"), "project-summary:p1");
    assert!(policy_allow_ref_for("p1", "o").starts_with("m6-policy-allow:"));
    assert_eq!(policy_allow_ref_for("p1", "o").len(), "m6-policy-allow:".len() + 64);
    assert_ne!(policy_allow_ref_for("p1", "o"), policy_allow_ref_for("p2", "o"));
    assert_ne!(
        consult_handoff_ref_for("h", 1, "ACCEPTED", "r"),
        consult_handoff_ref_for("h", 2, "ACCEPTED", "r")
    );
    let src = SourceRef {
        source_type: "t".into(),
        source_id: "i".into(),
        last_updated_ms: -5,
    };
    assert_eq!(source_context_ref("p", &src), "source-ref:p:t:i:at-5");
    assert!(is_sha256(&hash_of(7)));
    assert!(!is_sha256(&hash_of(7).to_uppercase().replace('0', "A")));
    assert!(!is_sha256("abc"));
    assert_eq!(
        require_nonempty("field", "\t ").unwrap_err(),
        "m6_org_required_field_missing:field"
    );
    assert!(require_nonempty("field", "x").is_ok());
}

fn consumed(project_id: &str, orch: &str, unverified: u32, open: u32, facts: u32) -> M6OrgConsumedProjectSummaryRef {
    M6OrgConsumedProjectSummaryRef {
        summary_id: summary_id_for(project_id),
        project_id: project_id.into(),
        project_owner_ref: project_owner_ref_for(project_id),
        schema_version: "v1".into(),
        version: 1,
        source_watermark: 10,
        summary_hash: hash_of(1),
        policy_decision_ref: "pol".into(),
        freshness_state: M6OrgFreshnessState::Fresh,
        source_refs: vec![format!("source-ref:{project_id}")],
        orchestration_id: orch.into(),
        fact_count: facts,
        unverified_claim_count: unverified,
        open_run_count: open,
    }
}

#[test]
fn priority_score_weighs_claims_runs_then_facts() {
    assert_eq!(advisory_priority_score(&consumed("p", "o", 2, 3, 4)), 234);
    assert_eq!(
        advisory_priority_score(&consumed("p", "o", u32::MAX, u32::MAX, u32::MAX)),
        u32::MAX as u64 * 111
    );
}

#[test]
fn findings_without_links_or_risk() {
    let summaries = vec![consumed("a", "o1", 0, 0, 1), consumed("b", "o2", 0, 0, 5)];
    let findings = build_findings(&summaries, &Vec::new());
    assert_eq!(findings.len(), 1);
    assert_eq!(findings[0].finding_kind, "priority");
    assert_eq!(findings[0].summary_refs, vec![summary_id_for("b")]);
    assert!(findings[0].source_link_refs.is_empty());
    assert!(build_findings(&Vec::new(), &Vec::new()).is_empty());
}

#[test]
fn priority_tie_prefers_smaller_project() {
    let summaries = vec![consumed("b", "o1", 0, 0, 5), consumed("a", "o2", 0, 0, 5)];
    let findings = build_findings(&summaries, &Vec::new());
    assert_eq!(findings[0].summary_refs, vec![summary_id_for("a")]);
}

#[test]
fn finding_sorts_and_dedups_refs() {
    let f = finding(
        "risk",
        "r",
        90,
        vec!["b".into(), "a".into(), "b".into()],
        vec!["z".into(), "z".into()],
    );
    assert_eq!(f.summary_refs, vec!["a".to_string(), "b".to_string()]);
    assert_eq!(f.source_link_refs, vec!["z".to_string()]);
    assert!(f.finding_id.starts_with("m6-finding:"));
    assert_eq!(
        f.finding_id["m6-finding:".len()..],
        f.explanation_ref["m6-explanation:".len()..]
    );
    let g = finding("risk", "r", 90, vec!["a".into(), "b".into()], vec!["z".into()]);
    assert_eq!(f.finding_id, g.finding_id);
}

#[test]
fn source_links_and_context_refs() {
    let alpha = summary("project-alpha", "o", 1, 999_000, 0, 0);
    let q = validate_request_shape(&request(
        &[alpha.clone(), summary("project-beta", "o", 1, 1, 0, 0)],
        "k",
    ))
    .unwrap()
    .remove(0);
    let fresh = vec![admit_summary(&q, alpha).unwrap()];
    let links = build_source_links(&fresh);
    assert_eq!(links.len(), 1);
    assert_eq!(links[0].object_ref, "project_fact:fact-ref-project-alpha");
    assert_eq!(links[0].title_ref, "title-ref:project_fact");
    assert_eq!(links[0].scrubbed_summary_ref, "summary-ref:project-summary:project-alpha:v1");
    let (summary_refs, source_refs) = context_refs(&vec![fresh[0].consumed.clone()]);
    assert_eq!(
        summary_refs,
        vec![format!(
            "project-summary:project-alpha:v1:w999000:h{}",
            fresh[0].consumed.summary_hash
        )]
    );
    assert_eq!(source_refs, fresh[0].consumed.source_refs);
}

fn receipt_request() -> M6OrgApplicationReceiptObservationRequest {
    M6OrgApplicationReceiptObservationRequest {
        advisory_id: "m6-advisory:x".into(),
        decision_request_id: "m6-decision-request:y".into(),
        project_id: "project-alpha".into(),
        project_owner_ref: project_owner_ref_for("project-alpha"),
        authoritative_command_receipt_ref: "rcpt-1".into(),
        grant_ref: "grant-1".into(),
        outcome: M6OrgApplicationOutcome::Applied,
        observed_at_ms: NOW_MS,
        source_receipt_hash: hash_of(9),
    }
}

#[test]
fn application_receipts_are_validated_then_recorded() {
    assert!(validate_application_receipt(&receipt_request()).is_ok());
    let mut bad = receipt_request();
    bad.project_owner_ref = "project-owner:other".into();
    assert_eq!(
        validate_application_receipt(&bad).unwrap_err(),
        "m6_org_application_owner_mismatch"
    );
    let mut bad = receipt_request();
    bad.observed_at_ms = 0;
    assert_eq!(
        validate_application_receipt(&bad).unwrap_err(),
        "m6_org_application_receipt_incomplete"
    );
    let mut bad = receipt_request();
    bad.grant_ref = "".into();
    assert_eq!(
        validate_application_receipt(&bad).unwrap_err(),
        "m6_org_required_field_missing:grant_ref"
    );
    let mut store = AdvisoryJournal::new(MemAdvisoryStore::default());
    assert_eq!(observe_application_with_store(&mut store, &receipt_request()).unwrap(), 1);
    let mut failed = receipt_request();
    failed.outcome = M6OrgApplicationOutcome::RolledBack;
    assert_eq!(observe_application_with_store(&mut store, &failed).unwrap(), 2);
    assert!(store.store().observations[0].observation_id.starts_with("m6-application-observation:"));
    assert_eq!(store.store().observations[0].observation_id, store.store().observations[1].observation_id);
}

#[test]
fn adoption_records_only_a_pending_decision() {
    let alpha = summary("project-alpha", "shared", 1, 999_000, 1, 1);
    let beta = summary("project-beta", "shared", 1, 999_500, 0, 1);
    let port = FakePort {
        summaries: vec![alpha.clone(), beta.clone()],
        ..FakePort::default()
    };
    let mut store = AdvisoryJournal::new(MemAdvisoryStore::default());
    let response = run_with_port(
        &Slot,
        &lease(),
        &mut SummaryQueries::new(&port),
        &mut store,
        &request(&[alpha, beta], "adopt"),
        NOW_MS,
    )
    .unwrap();
    let advisory = response.advisory.unwrap();
    let unconfirmed = M6OrgAdvisoryAdoptionRequest {
        advisory_id: advisory.advisory_id.clone(),
        actor_ref: "user-1".into(),
        idempotency_key: "adopt-1".into(),
        user_confirmed: false,
    };
    assert_eq!(
        adopt_with_store(&mut store, &unconfirmed, "GLOBAL", NOW_MS).unwrap_err(),
        "m6_org_advisory_adoption_user_confirmation_required"
    );
    let mut confirmed = unconfirmed.clone();
    confirmed.user_confirmed = true;
    let decision = adopt_with_store(&mut store, &confirmed, "GLOBAL", NOW_MS).unwrap();
    assert_eq!(decision.status, "PENDING");
    assert_eq!(decision.required_scope_ref, "GLOBAL");
    assert_eq!(decision.source_object_ref, advisory.advisory_id);
    assert_eq!(decision.expires_at_ms, NOW_MS + 86_400_000);
    assert_eq!(store.store().decisions.len(), 1);
    let mut missing = confirmed.clone();
    missing.advisory_id = "m6-advisory:none".into();
    assert_eq!(
        adopt_with_store(&mut store, &missing, "GLOBAL", NOW_MS).unwrap_err(),
        "m6_org_advisory_not_found"
    );
    let mut stale = advisory.clone();
    stale.lifecycle_status = "STALE".into();
    assert_eq!(
        adoption_decision(&confirmed, &stale, "GLOBAL", NOW_MS).unwrap_err(),
        "m6_org_advisory_not_issuable_for_adoption"
    );
    assert_eq!(
        adoption_decision(&confirmed, &advisory, "GLOBAL", i64::MAX).unwrap_err(),
        "m6_org_decision_expiry_overflow"
    );
}
