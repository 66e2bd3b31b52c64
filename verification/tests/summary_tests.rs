use productized_shell::consult::request_fingerprint;
use productized_shell::summary::{
    compose_project_summary, consumer_from_session, gate_summary_consumer, get_summary,
    to_summary_read, ProjectSummary, QueryError, SourceRef, SummaryConsumer, SummaryRowSource,
};
use productized_shell::records::SupervisorSessionRef;

struct Rows(Option<ProjectSummary>);

impl SummaryRowSource for Rows {
    fn load_summary_row(&self, project_id: &str) -> Result<Option<ProjectSummary>, String> {
        Ok(self.0.clone().filter(|s| s.project_id == project_id))
    }
}

fn row(watermark_ms: i64) -> ProjectSummary {
    ProjectSummary {
        project_id: "proj-1".into(),
        orchestration_id: "orch-1".into(),
        schema_version: "m5.project-summary.v1".into(),
        version: 1,
        watermark_ms,
        summary_hash: "0".repeat(64),
        source_refs: vec![SourceRef {
            source_type: "workflow_run".into(),
            source_id: "run-1".into(),
            last_updated_ms: watermark_ms,
        }],
        fact_count: 0,
        unverified_claim_count: 0,
        open_run_count: 1,
        rebuilt_at_ms: watermark_ms,
    }
}

fn consumer(project: &str, role: &str, exp: i64) -> SummaryConsumer {
    SummaryConsumer {
        role_session_id: format!("rs-{role}"),
        role: role.into(),
        scope_project_id: project.into(),
        expires_at_ms: exp,
    }
}

#[test]
fn query_rejects_cross_project_and_expired_and_stale() {
    let port = Rows(Some(row(2000)));
    assert!(matches!(
        get_summary(&port, "proj-1", &consumer("proj-other", "secretary", 9000), 3000),
        Err(QueryError::InsufficientPermission(_))
    ));
    assert!(matches!(
        get_summary(&port, "proj-1", &consumer("proj-1", "secretary", 1000), 3000),
        Err(QueryError::ConsumerExpired(_))
    ));
    assert!(matches!(
        get_summary(&port, "proj-1", &consumer("proj-1", "secretary", 9_000_000), 80_000),
        Err(QueryError::SummaryStale(_))
    ));
    let ok = get_summary(&port, "proj-1", &consumer("proj-1", "secretary", 9000), 3000).unwrap();
    assert_eq!(ok.project_id, "proj-1");
    assert!(ok.source_refs.iter().all(|r| r.source_id.len() < 80));
}

#[test]
fn unknown_role_and_missing_row_are_refused() {
    let port = Rows(Some(row(2000)));
    match gate_summary_consumer("proj-1", &consumer("proj-1", "worker", 9000), 3000) {
        Err(QueryError::InsufficientPermission(m)) => assert_eq!(m, "worker"),
        other => panic!("unexpected {other:?}"),
    }
    assert!(matches!(
        get_summary(&Rows(None), "proj-1", &consumer("proj-1", "secretary", 9000), 3000),
        Err(QueryError::ProjectNotFound(_))
    ));
    let mut raw = row(2000);
    raw.source_refs[0].source_id = "line one\nline two".into();
    assert!(matches!(
        get_summary(&Rows(Some(raw)), "proj-1", &consumer("proj-1", "secretary", 9000), 3000),
        Err(QueryError::StorageError(_))
    ));
    let stale = get_summary(&port, "proj-1", &consumer("proj-1", "secretary", 9_000_000), 80_000);
    match stale {
        Err(e) => assert_eq!(e.to_display_string(), "summary stale: watermark=2000 now=80000"),
        Ok(_) => panic!("expected stale"),
    }
}

#[test]
fn summary_read_and_session_consumer() {
    let read = to_summary_read(&row(5), true);
    assert_eq!(read.project_id, "proj-1");
    assert_eq!(read.open_run_count, 1);
    assert!(read.stale);
    let session = SupervisorSessionRef {
        role_session_id: "rs-1".into(),
        project_id: "proj-1".into(),
        actor_id: "actor-1".into(),
        role: "project_supervisor".into(),
        status: "ACTIVE".into(),
    };
    let c = consumer_from_session(&session, 1_000);
    assert_eq!(c.expires_at_ms, 3_601_000);
    assert_eq!(c.scope_project_id, "proj-1");
}

#[test]
fn rebuild_is_deterministic_for_same_facts() {
    // One dispatched chain: one open workflow run, no facts, no claims.
    let a = compose_project_summary("proj-1", "orch-1", 0, 0, 1, None, 2000);
    let b = compose_project_summary("proj-1", "orch-1", 0, 0, 1, Some(a.version), 2000);
    assert_eq!(a.open_run_count, b.open_run_count);
    assert_eq!(a.fact_count, b.fact_count);
    assert_eq!(a.schema_version, "m5.project-summary.v1");
    assert_eq!(b.version, a.version + 1);
    assert_eq!(a.summary_hash, b.summary_hash);
}

#[test]
fn rebuilt_summary_names_present_sources_and_hashes_its_counts() {
    let s = compose_project_summary("proj-1", "orch-1", 3, 0, 2, Some(6), 2000);
    assert_eq!(s.version, 7);
    assert_eq!(s.watermark_ms, 2000);
    assert_eq!(s.rebuilt_at_ms, 2000);
    assert_eq!(s.fact_count, 3);
    assert_eq!(s.unverified_claim_count, 0);
    assert_eq!(s.open_run_count, 2);
    let kinds: Vec<(String, String, i64)> = s
        .source_refs
        .iter()
        .map(|r| (r.source_type.clone(), r.source_id.clone(), r.last_updated_ms))
        .collect();
    assert_eq!(
        kinds,
        vec![
            ("project_fact".to_string(), "facts:proj-1".to_string(), 2000),
            ("workflow_run".to_string(), "runs:proj-1".to_string(), 2000),
        ]
    );
    assert_eq!(s.summary_hash, request_fingerprint("proj-1:orch-1:3:0:2:2000"));
    let empty = compose_project_summary("proj-2", "orch:unknown", 0, 0, 0, None, -5);
    assert!(empty.source_refs.is_empty());
    assert_eq!(empty.version, 1);
    assert_eq!(empty.summary_hash, request_fingerprint("proj-2:orch:unknown:0:0:0:-5"));
}
