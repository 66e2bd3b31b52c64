//! Stable identifiers of the orchestration chain. Each is a newtype over its
//! text; two identifiers of one kind are equal exactly when their texts are.

use vstd::prelude::*;
use crate::text::cat;
use crate::outside::new_uuid_v4;

verus! {

/// Correlation id: the top-level identifier that joins every object of one orchestration chain.
#[derive(Debug, Clone)]
pub struct CorrelationId(pub String);

impl CorrelationId {
    pub fn new(id: String) -> (r: Self)
        ensures
            r.0@ == id@,
    {
        CorrelationId(id)
    }

    pub fn as_str(&self) -> (r: &str)
        ensures
            r@ == self.0@,
    {
        self.0.as_str()
    }

    /// The display form `corr:<id>`.
    pub fn to_display_string(&self) -> (r: String)
        ensures
            r@ == "corr:"@ + self.0@,
    {
        cat("corr:", self.0.as_str())
    }
}

impl PartialEq for CorrelationId {
    fn eq(&self, other: &Self) -> (r: bool) {
        self.0 == other.0
    }
}

impl Eq for CorrelationId {}

impl vstd::std_specs::cmp::PartialEqSpecImpl for CorrelationId {
    open spec fn obeys_eq_spec() -> bool {
        true
    }

    open spec fn eq_spec(&self, other: &Self) -> bool {
        self.0@ == other.0@
    }
}

/// Orchestration id: one proposal → authorization → execution chain.
#[derive(Debug, Clone)]
pub struct OrchestrationId(pub String);

impl OrchestrationId {
    pub fn new(id: String) -> (r: Self)
        ensures
            r.0@ == id@,
    {
        OrchestrationId(id)
    }

    pub fn as_str(&self) -> (r: &str)
        ensures
            r@ == self.0@,
    {
        self.0.as_str()
    }

    /// The display form `orch:<id>`.
    pub fn to_display_string(&self) -> (r: String)
        ensures
            r@ == "orch:"@ + self.0@,
    {
        cat("orch:", self.0.as_str())
    }
}

impl PartialEq for OrchestrationId {
    fn eq(&self, other: &Self) -> (r: bool) {
        self.0 == other.0
    }
}

impl Eq for OrchestrationId {}

impl vstd::std_specs::cmp::PartialEqSpecImpl for OrchestrationId {
    open spec fn obeys_eq_spec() -> bool {
        true
    }

    open spec fn eq_spec(&self, other: &Self) -> bool {
        self.0@ == other.0@
    }
}

/// Workflow run id: one concrete run of a workflow (retries get new ones).
#[derive(Debug, Clone)]
pub struct WorkflowRunId(pub String);

impl WorkflowRunId {
    pub fn new(id: String) -> (r: Self)
        ensures
            r.0@ == id@,
    {
        WorkflowRunId(id)
    }

    pub fn as_str(&self) -> (r: &str)
        ensures
            r@ == self.0@,
    {
        self.0.as_str()
    }

    /// The display form `run:<id>`.
    pub fn to_display_string(&self) -> (r: String)
        ensures
            r@ == "run:"@ + self.0@,
    {
        cat("run:", self.0.as_str())
    }
}

impl PartialEq for WorkflowRunId {
    fn eq(&self, other: &Self) -> (r: bool) {
        self.0 == other.0
    }
}

impl Eq for WorkflowRunId {}

impl vstd::std_specs::cmp::PartialEqSpecImpl for WorkflowRunId {
    open spec fn obeys_eq_spec() -> bool {
        true
    }

    open spec fn eq_spec(&self, other: &Self) -> bool {
        self.0@ == other.0@
    }
}

/// Attempt id: one execution attempt.
#[derive(Debug, Clone)]
pub struct AttemptId(pub String);

impl AttemptId {
    pub fn new(id: String) -> (r: Self)
        ensures
            r.0@ == id@,
    {
        AttemptId(id)
    }

    pub fn as_str(&self) -> (r: &str)
        ensures
            r@ == self.0@,
    {
        self.0.as_str()
    }

    /// The display form `attempt:<id>`.
    pub fn to_display_string(&self) -> (r: String)
        ensures
            r@ == "attempt:"@ + self.0@,
    {
        cat("attempt:", self.0.as_str())
    }
}

impl PartialEq for AttemptId {
    fn eq(&self, other: &Self) -> (r: bool) {
        self.0 == other.0
    }
}

impl Eq for AttemptId {}

impl vstd::std_specs::cmp::PartialEqSpecImpl for AttemptId {
    open spec fn obeys_eq_spec() -> bool {
        true
    }

    open spec fn eq_spec(&self, other: &Self) -> bool {
        self.0@ == other.0@
    }
}

/// Proposal id.
#[derive(Debug, Clone)]
pub struct ProposalId(pub String);

impl ProposalId {
    pub fn new(id: String) -> (r: Self)
        ensures
            r.0@ == id@,
    {
        ProposalId(id)
    }

    pub fn as_str(&self) -> (r: &str)
        ensures
            r@ == self.0@,
    {
        self.0.as_str()
    }
}

impl PartialEq for ProposalId {
    fn eq(&self, other: &Self) -> (r: bool) {
        self.0 == other.0
    }
}

impl Eq for ProposalId {}

impl vstd::std_specs::cmp::PartialEqSpecImpl for ProposalId {
    open spec fn obeys_eq_spec() -> bool {
        true
    }

    open spec fn eq_spec(&self, other: &Self) -> bool {
        self.0@ == other.0@
    }
}

/// Plan authorization id.
#[derive(Debug, Clone)]
pub struct AuthorizationId(pub String);

impl AuthorizationId {
    pub fn new(id: String) -> (r: Self)
        ensures
            r.0@ == id@,
    {
        AuthorizationId(id)
    }

    pub fn as_str(&self) -> (r: &str)
        ensures
            r@ == self.0@,
    {
        self.0.as_str()
    }
}

impl PartialEq for AuthorizationId {
    fn eq(&self, other: &Self) -> (r: bool) {
        self.0 == other.0
    }
}

impl Eq for AuthorizationId {}

impl vstd::std_specs::cmp::PartialEqSpecImpl for AuthorizationId {
    open spec fn obeys_eq_spec() -> bool {
        true
    }

    open spec fn eq_spec(&self, other: &Self) -> bool {
        self.0@ == other.0@
    }
}

/// Authorization decision id: the user's decision on a proposal.
#[derive(Debug, Clone)]
pub struct AuthorizationDecisionId(pub String);

impl AuthorizationDecisionId {
    pub fn new(id: String) -> (r: Self)
        ensures
            r.0@ == id@,
    {
        AuthorizationDecisionId(id)
    }

    pub fn as_str(&self) -> (r: &str)
        ensures
            r@ == self.0@,
    {
        self.0.as_str()
    }
}

impl PartialEq for AuthorizationDecisionId {
    fn eq(&self, other: &Self) -> (r: bool) {
        self.0 == other.0
    }
}

impl Eq for AuthorizationDecisionId {}

impl vstd::std_specs::cmp::PartialEqSpecImpl for AuthorizationDecisionId {
    open spec fn obeys_eq_spec() -> bool {
        true
    }

    open spec fn eq_spec(&self, other: &Self) -> bool {
        self.0@ == other.0@
    }
}

/// Result decision id: the user's final decision on a report and its
/// independent assessment.
#[derive(Debug, Clone)]
pub struct ResultUserDecisionId(pub String);

impl ResultUserDecisionId {
    pub fn new(id: String) -> (r: Self)
        ensures
            r.0@ == id@,
    {
        ResultUserDecisionId(id)
    }

    pub fn as_str(&self) -> (r: &str)
        ensures
            r@ == self.0@,
    {
        self.0.as_str()
    }
}

impl PartialEq for ResultUserDecisionId {
    fn eq(&self, other: &Self) -> (r: bool) {
        self.0 == other.0
    }
}

impl Eq for ResultUserDecisionId {}

impl vstd::std_specs::cmp::PartialEqSpecImpl for ResultUserDecisionId {
    open spec fn obeys_eq_spec() -> bool {
        true
    }

    open spec fn eq_spec(&self, other: &Self) -> bool {
        self.0@ == other.0@
    }
}

/// Work item id: one item of work inside a run.
#[derive(Debug, Clone)]
pub struct WorkItemId(pub String);

impl WorkItemId {
    pub fn new(id: String) -> (r: Self)
        ensures
            r.0@ == id@,
    {
        WorkItemId(id)
    }

    pub fn as_str(&self) -> (r: &str)
        ensures
            r@ == self.0@,
    {
        self.0.as_str()
    }
}

impl PartialEq for WorkItemId {
    fn eq(&self, other: &Self) -> (r: bool) {
        self.0 == other.0
    }
}

impl Eq for WorkItemId {}

impl vstd::std_specs::cmp::PartialEqSpecImpl for WorkItemId {
    open spec fn obeys_eq_spec() -> bool {
        true
    }

    open spec fn eq_spec(&self, other: &Self) -> bool {
        self.0@ == other.0@
    }
}

/// Workflow node id.
#[derive(Debug, Clone)]
pub struct NodeId(pub String);

impl NodeId {
    pub fn new(id: String) -> (r: Self)
        ensures
            r.0@ == id@,
    {
        NodeId(id)
    }

    pub fn as_str(&self) -> (r: &str)
        ensures
            r@ == self.0@,
    {
        self.0.as_str()
    }
}

impl PartialEq for NodeId {
    fn eq(&self, other: &Self) -> (r: bool) {
        self.0 == other.0
    }
}

impl Eq for NodeId {}

impl vstd::std_specs::cmp::PartialEqSpecImpl for NodeId {
    open spec fn obeys_eq_spec() -> bool {
        true
    }

    open spec fn eq_spec(&self, other: &Self) -> bool {
        self.0@ == other.0@
    }
}

/// Dispatch id: one dispatch of a granted attempt.
#[derive(Debug, Clone)]
pub struct DispatchId(pub String);

impl DispatchId {
    pub fn new(id: String) -> (r: Self)
        ensures
            r.0@ == id@,
    {
        DispatchId(id)
    }

    pub fn as_str(&self) -> (r: &str)
        ensures
            r@ == self.0@,
    {
        self.0.as_str()
    }
}

impl PartialEq for DispatchId {
    fn eq(&self, other: &Self) -> (r: bool) {
        self.0 == other.0
    }
}

impl Eq for DispatchId {}

impl vstd::std_specs::cmp::PartialEqSpecImpl for DispatchId {
    open spec fn obeys_eq_spec() -> bool {
        true
    }

    open spec fn eq_spec(&self, other: &Self) -> bool {
        self.0@ == other.0@
    }
}

/// Runtime receipt id: an authoritative receipt produced by the independent verifier.
#[derive(Debug, Clone)]
pub struct RuntimeReceiptId(pub String);

impl RuntimeReceiptId {
    pub fn new(id: String) -> (r: Self)
        ensures
            r.0@ == id@,
    {
        RuntimeReceiptId(id)
    }

    pub fn as_str(&self) -> (r: &str)
        ensures
            r@ == self.0@,
    {
        self.0.as_str()
    }
}

impl PartialEq for RuntimeReceiptId {
    fn eq(&self, other: &Self) -> (r: bool) {
        self.0 == other.0
    }
}

impl Eq for RuntimeReceiptId {}

impl vstd::std_specs::cmp::PartialEqSpecImpl for RuntimeReceiptId {
    open spec fn obeys_eq_spec() -> bool {
        true
    }

    open spec fn eq_spec(&self, other: &Self) -> bool {
        self.0@ == other.0@
    }
}

/// Report id: one execution, manual or offline claim.
#[derive(Debug, Clone)]
pub struct ReportId(pub String);

impl ReportId {
    pub fn new(id: String) -> (r: Self)
        ensures
            r.0@ == id@,
    {
        ReportId(id)
    }

    pub fn as_str(&self) -> (r: &str)
        ensures
            r@ == self.0@,
    {
        self.0.as_str()
    }
}

impl PartialEq for ReportId {
    fn eq(&self, other: &Self) -> (r: bool) {
        self.0 == other.0
    }
}

impl Eq for ReportId {}

impl vstd::std_specs::cmp::PartialEqSpecImpl for ReportId {
    open spec fn obeys_eq_spec() -> bool {
        true
    }

    open spec fn eq_spec(&self, other: &Self) -> bool {
        self.0@ == other.0@
    }
}

/// Grant id: one attempt-scoped execution grant.
#[derive(Debug, Clone)]
pub struct GrantId(pub String);

impl GrantId {
    pub fn new(id: String) -> (r: Self)
        ensures
            r.0@ == id@,
    {
        GrantId(id)
    }

    pub fn as_str(&self) -> (r: &str)
        ensures
            r@ == self.0@,
    {
        self.0.as_str()
    }
}

impl PartialEq for GrantId {
    fn eq(&self, other: &Self) -> (r: bool) {
        self.0 == other.0
    }
}

impl Eq for GrantId {}

impl vstd::std_specs::cmp::PartialEqSpecImpl for GrantId {
    open spec fn obeys_eq_spec() -> bool {
        true
    }

    open spec fn eq_spec(&self, other: &Self) -> bool {
        self.0@ == other.0@
    }
}

/// The three identifiers that stay fixed for a whole orchestration lifecycle.
#[derive(Debug, Clone)]
pub struct OrchestrationIdentity {
    pub correlation_id: CorrelationId,
    pub orchestration_id: OrchestrationId,
    pub workflow_run_id: WorkflowRunId,
}

impl OrchestrationIdentity {
    pub fn new(
        correlation_id: CorrelationId,
        orchestration_id: OrchestrationId,
        workflow_run_id: WorkflowRunId,
    ) -> (r: Self)
        ensures
            r.correlation_id == correlation_id,
            r.orchestration_id == orchestration_id,
            r.workflow_run_id == workflow_run_id,
    {
        OrchestrationIdentity { correlation_id, orchestration_id, workflow_run_id }
    }

    /// A fresh identity: three newly drawn random (version 4) UUIDs.
    pub fn generate() -> (r: Self)
        ensures
            r.correlation_id.0@.len() == 36,
            r.orchestration_id.0@.len() == 36,
            r.workflow_run_id.0@.len() == 36,
    {
        let correlation_id = CorrelationId(new_uuid_v4());
        let orchestration_id = OrchestrationId(new_uuid_v4());
        let workflow_run_id = WorkflowRunId(new_uuid_v4());
        Self::new(correlation_id, orchestration_id, workflow_run_id)
    }
}

} // verus!
