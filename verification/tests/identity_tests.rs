use productized_shell::identity::{
    AttemptId, CorrelationId, OrchestrationId, OrchestrationIdentity, WorkflowRunId,
};

#[test]
fn correlation_id_display() {
    let id = CorrelationId::new("test-123".to_string());
    assert_eq!(id.to_display_string(), "corr:test-123");
}

#[test]
fn orchestration_id_display() {
    let id = OrchestrationId::new("orch-456".to_string());
    assert_eq!(id.to_display_string(), "orch:orch-456");
}

#[test]
fn workflow_run_id_display() {
    let id = WorkflowRunId::new("run-789".to_string());
    assert_eq!(id.to_display_string(), "run:run-789");
}

#[test]
fn attempt_id_display() {
    let id = AttemptId::new("att-012".to_string());
    assert_eq!(id.to_display_string(), "attempt:att-012");
}

#[test]
fn generate_unique_identity() {
    let id1 = OrchestrationIdentity::generate();
    let id2 = OrchestrationIdentity::generate();
    assert_ne!(id1.correlation_id, id2.correlation_id);
    assert_ne!(id1.orchestration_id, id2.orchestration_id);
    assert_ne!(id1.workflow_run_id, id2.workflow_run_id);
}

#[test]
fn identity_preserves_values() {
    let corr = CorrelationId::new("c1".to_string());
    let orch = OrchestrationId::new("o1".to_string());
    let run = WorkflowRunId::new("r1".to_string());
    let identity = OrchestrationIdentity::new(corr.clone(), orch.clone(), run.clone());
    assert_eq!(identity.correlation_id, corr);
    assert_eq!(identity.orchestration_id, orch);
    assert_eq!(identity.workflow_run_id, run);
}

#[test]
fn generated_ids_are_hyphenated_uuids() {
    let id = OrchestrationIdentity::generate();
    assert_eq!(id.correlation_id.as_str().len(), 36);
    assert_eq!(id.orchestration_id.as_str().matches('-').count(), 4);
}

#[test]
fn ids_compare_by_text() {
    assert_eq!(AttemptId::new("a".into()), AttemptId::new("a".into()));
    assert_ne!(AttemptId::new("a".into()), AttemptId::new("b".into()));
}
