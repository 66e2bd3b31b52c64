//! The read side of the orchestration store, as the verified logic sees it.
//! An implementation loads persisted records by id; the logic that calls it
//! holds for whatever the store hands back.

use vstd::prelude::*;
use crate::attempt::PreparedAttempt;
use crate::grant::ExecutionGrant;
use crate::records::{DispatchRecord, PlanAuthorizationRecord, SupervisorProposal};

verus! {

/// Loads of persisted orchestration records. `Ok(None)` means no record with
/// that id exists; `Err` carries a storage failure.
pub trait OrchestrationReadPort {
    fn load_dispatch(&self, dispatch_id: &str) -> Result<Option<DispatchRecord>, String>;

    fn load_attempt(&self, attempt_id: &str) -> Result<Option<PreparedAttempt>, String>;

    fn load_authorization(&self, authorization_id: &str) -> Result<
        Option<PlanAuthorizationRecord>,
        String,
    >;

    fn load_grant(&self, grant_id: &str) -> Result<Option<ExecutionGrant>, String>;

    /// The supervisor proposal with this id, bound to this project and binding.
    fn load_supervisor_proposal(
        &self,
        proposal_id: &str,
        project_id: &str,
        binding_id: &str,
    ) -> Result<SupervisorProposal, String>;
}

} // verus!
