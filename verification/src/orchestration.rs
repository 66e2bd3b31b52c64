//! The authorized execution chain: decision, plan authorization, run, work
//! item, prepared attempt, minted grant, readback, dispatch.

use vstd::prelude::*;
use crate::identity::{AttemptId, AuthorizationId, DispatchId, GrantId, WorkItemId, WorkflowRunId};

verus! {

/// A fault injected at one step of the chain, to exercise its recovery.
#[derive(Debug, Clone, Copy, PartialEq, Eq, Structural)]
pub enum ChainFault {
    NoFault,
    FailPersistGrant,
    FailReadback,
    FailDispatch,
}

/// What an authorized execution is requested with.
#[derive(Debug, Clone)]
pub struct AuthorizedExecutionRequest {
    pub project_id: String,
    pub proposal_id: String,
    pub deciding_actor_id: String,
    pub worker_role_session_id: String,
    pub principal_actor_id: String,
    pub workflow_ref: String,
    pub source_object_ref: String,
    pub allowed_commands: Vec<String>,
    pub cwd_ref: String,
    pub write_root_refs: Vec<String>,
    pub object_refs: Vec<String>,
    pub scope_fingerprint: String,
    pub policy_decision_ref: String,
    pub now_ms: i64,
    pub ttl_ms: i64,
}

/// The identifiers an authorized execution produced.
#[derive(Debug, Clone)]
pub struct AuthorizedExecutionResult {
    pub authorization_id: AuthorizationId,
    pub workflow_run_id: WorkflowRunId,
    pub work_item_id: WorkItemId,
    pub attempt_id: AttemptId,
    pub grant_id: Option<GrantId>,
    pub dispatch_id: Option<DispatchId>,
    pub outbox_item_id: Option<String>,
}

} // verus!
