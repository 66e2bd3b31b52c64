//! The persisted records of the orchestration chain and the role-session
//! views the chain is joined against.

use vstd::prelude::*;

verus! {

/// A user's decision on a proposal.
#[derive(Debug, Clone)]
pub struct AuthorizationDecisionRecord {
    pub authorization_decision_id: String,
    pub proposal_id: String,
    pub proposal_revision: i64,
    pub project_id: String,
    pub orchestration_id: String,
    pub deciding_actor_id: String,
    pub decision: String,
    pub constraint_ref: Option<String>,
    pub reason_code: Option<String>,
    pub idempotency_key: String,
    pub recorded_by_command_receipt_ref: String,
    pub decided_at_ms: i64,
}

/// The plan authorization an approved decision creates.
#[derive(Debug, Clone)]
pub struct PlanAuthorizationRecord {
    pub authorization_id: String,
    pub authorization_revision: i64,
    pub authorization_decision_id: String,
    pub proposal_id: String,
    pub proposal_revision: i64,
    pub project_id: String,
    pub orchestration_id: String,
    pub authorized_scope_ref: String,
    pub allowed_commands: Vec<String>,
    pub allowed_object_refs: Vec<String>,
    pub cwd_ref: String,
    pub write_root_refs: Vec<String>,
    pub risk_constraints: Option<String>,
    pub status: String,
    pub expires_at_ms: i64,
    pub revoked_at_ms: Option<i64>,
    pub authorization_hash: String,
    pub created_by_command_receipt_ref: String,
}

/// One authorized workflow run.
#[derive(Debug, Clone)]
pub struct WorkflowRunRecord {
    pub workflow_run_id: String,
    pub project_id: String,
    pub orchestration_id: String,
    pub authorization_id: String,
    pub authorization_revision: i64,
    pub workflow_ref: String,
    pub status: String,
    pub revision: i64,
    pub created_by_command_receipt_ref: String,
    pub created_at_ms: i64,
}

/// One work item of a run.
#[derive(Debug, Clone)]
pub struct WorkItemRecord {
    pub work_item_id: String,
    pub project_id: String,
    pub orchestration_id: String,
    pub workflow_run_id: String,
    pub source_object_ref: String,
    pub node_id: String,
    pub status: String,
    pub revision: i64,
    pub created_by_command_receipt_ref: String,
}

/// The binding of a worker role session to an attempt.
#[derive(Debug, Clone)]
pub struct WorkerBindingRecord {
    pub binding_id: String,
    pub project_id: String,
    pub orchestration_id: String,
    pub workflow_run_id: String,
    pub work_item_id: String,
    pub attempt_id: String,
    pub worker_role_session_id: String,
    pub principal_actor_id: String,
    pub created_at_ms: i64,
}

/// One dispatch of a granted attempt.
#[derive(Debug, Clone)]
pub struct DispatchRecord {
    pub dispatch_id: String,
    pub project_id: String,
    pub orchestration_id: String,
    pub workflow_run_id: String,
    pub work_item_id: String,
    pub node_id: String,
    pub attempt_id: String,
    pub grant_id: String,
    pub grant_revision: i64,
    pub worker_role_session_id: String,
    pub outbox_item_id: String,
    pub effect_id: String,
    pub state: String,
    pub revision: i64,
    pub created_by_command_receipt_ref: String,
    pub created_at_ms: i64,
}

/// The roles a project role session can hold.
#[derive(Debug, Clone, Copy, PartialEq, Eq, Structural)]
pub enum M3ProjectRole {
    ProjectSupervisor,
    Worker,
    IndependentReviewer,
}

/// An immutable view of a project role session, as its authority hands it out.
#[derive(Debug, Clone)]
pub struct M3ProjectRoleSessionView {
    pub project_id: String,
    pub role: M3ProjectRole,
    pub role_session_id: String,
    pub actor_id: String,
}

/// A project supervisor's binding to its project.
#[derive(Debug, Clone)]
pub struct SupervisorBinding {
    pub binding_id: String,
    pub project_id: String,
    pub role_session_id: String,
    pub actor_id: String,
}

/// A role session as the project supervisor sees it.
#[derive(Debug, Clone)]
pub struct SupervisorSessionRef {
    pub role_session_id: String,
    pub project_id: String,
    pub actor_id: String,
    pub role: String,
    pub status: String,
}

/// A proposal submitted by a project supervisor.
#[derive(Debug, Clone)]
pub struct SupervisorProposal {
    pub proposal_id: String,
    pub binding_id: String,
    pub project_id: String,
    pub authorized_action: String,
    pub status: String,
}

/// The workcell an admitted runtime executes in.
#[derive(Debug, Clone)]
pub struct WorkcellRun {
    pub workcell_id: String,
    pub profile_digest: String,
    pub session_ref: String,
    pub parent_grant_id: String,
    pub attempt_id: String,
    pub dispatch_id: String,
    pub effect_id: String,
    pub actor_binding: String,
    pub command: String,
    pub child_depth: u32,
    pub budget_tokens: u32,
    pub stop_conditions: Vec<String>,
    pub dynamic_package_enabled: bool,
}

} // verus!
