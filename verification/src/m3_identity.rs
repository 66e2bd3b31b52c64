//! Identity adapter rules: the single whitelisted command, the policy decision
//! ref derived from an action, role-session views as supervisor sessions, and
//! how a stored proposal becomes an authorized execution request.

use vstd::prelude::*;
use crate::orchestration::AuthorizedExecutionRequest;
use crate::records::{M3ProjectRole, M3ProjectRoleSessionView, SupervisorBinding, SupervisorProposal, SupervisorSessionRef};
use crate::text::{cat, is_blank, is_blank_seq, starts_with, starts_with_str, str_eq, trim_seq, trim_string};

verus! {

/// The only command a granted runtime may run.
pub const WHITELISTED_COMMAND: &'static str = "echo";

/// The action a supervisor goal asks for: `echo` for the goal `echo` or any
/// goal starting `echo `, after trimming; `none` for anything else.
pub open spec fn whitelisted_action(goal: Seq<char>) -> Seq<char> {
    let t = trim_seq(goal);
    if t == "echo"@ || starts_with(t, "echo "@) {
        "echo"@
    } else {
        "none"@
    }
}

pub fn classify_whitelisted_action(goal: &str) -> (r: &'static str)
    ensures
        r@ == whitelisted_action(goal@),
{
    let trimmed = trim_string(goal);
    if str_eq(trimmed.as_str(), "echo") || starts_with_str(trimmed.as_str(), "echo ") {
        "echo"
    } else {
        "none"
    }
}

/// The policy decision ref under which an action was authorized.
pub fn policy_decision_ref_for_action(action: &str) -> (r: String)
    ensures
        r@ == "pol:m5r07:"@ + action@,
{
    cat("pol:m5r07:", action)
}

/// The name of a role as a supervisor session records it.
pub open spec fn role_name(role: M3ProjectRole) -> Seq<char> {
    match role {
        M3ProjectRole::ProjectSupervisor => "project_supervisor"@,
        M3ProjectRole::Worker => "worker"@,
        M3ProjectRole::IndependentReviewer => "independent_reviewer"@,
    }
}

/// A role-session view as an ACTIVE supervisor session.
pub fn view_to_session_ref(view: &M3ProjectRoleSessionView) -> (r: SupervisorSessionRef)
    ensures
        r.role_session_id@ == view.role_session_id@,
        r.project_id@ == view.project_id@,
        r.actor_id@ == view.actor_id@,
        r.role@ == role_name(view.role),
        r.status@ == "ACTIVE"@,
{
    SupervisorSessionRef {
        role_session_id: String::from_str(view.role_session_id.as_str()),
        project_id: String::from_str(view.project_id.as_str()),
        actor_id: String::from_str(view.actor_id.as_str()),
        role: String::from_str(
            match view.role {
                M3ProjectRole::ProjectSupervisor => "project_supervisor",
                M3ProjectRole::Worker => "worker",
                M3ProjectRole::IndependentReviewer => "independent_reviewer",
            },
        ),
        status: String::from_str("ACTIVE"),
    }
}

/// A read port over exactly one installed role-session view.
pub struct InstalledViewPort {
    session: SupervisorSessionRef,
}

impl InstalledViewPort {
    pub closed spec fn spec_session(&self) -> SupervisorSessionRef {
        self.session
    }

    pub fn from_view(view: &M3ProjectRoleSessionView) -> (r: Self)
        ensures
            r.spec_session().role_session_id@ == view.role_session_id@,
            r.spec_session().project_id@ == view.project_id@,
            r.spec_session().actor_id@ == view.actor_id@,
            r.spec_session().role@ == role_name(view.role),
            r.spec_session().status@ == "ACTIVE"@,
    {
        InstalledViewPort { session: view_to_session_ref(view) }
    }

    pub fn session(&self) -> (r: &SupervisorSessionRef)
        ensures
            *r == self.spec_session(),
    {
        &self.session
    }

    /// The installed session; a caller naming any other session is refused.
    pub fn load(&self, role_session_id: &str) -> (r: Result<SupervisorSessionRef, String>)
        ensures
            role_session_id@.len() != 0 && role_session_id@ != self.spec_session().role_session_id@
                ==> (r matches Err(e) && e@ == "caller_invented_role_session_rejected"@),
            role_session_id@.len() == 0 || role_session_id@ == self.spec_session().role_session_id@
                ==> (r matches Ok(s) && s.role_session_id@ == self.spec_session().role_session_id@
                && s.project_id@ == self.spec_session().project_id@ && s.actor_id@
                == self.spec_session().actor_id@ && s.role@ == self.spec_session().role@
                && s.status@ == self.spec_session().status@),
    {
        if role_session_id.unicode_len() != 0 && !str_eq(
            role_session_id,
            self.session.role_session_id.as_str(),
        ) {
            return Err(String::from_str("caller_invented_role_session_rejected"));
        }
        Ok(
            SupervisorSessionRef {
                role_session_id: String::from_str(self.session.role_session_id.as_str()),
                project_id: String::from_str(self.session.project_id.as_str()),
                actor_id: String::from_str(self.session.actor_id.as_str()),
                role: String::from_str(self.session.role.as_str()),
                status: String::from_str(self.session.status.as_str()),
            },
        )
    }
}

/// Why a stored proposal cannot become an authorized execution request, or `None`.
pub open spec fn proposal_refusal(
    binding: SupervisorBinding,
    proposal: SupervisorProposal,
    worker: M3ProjectRoleSessionView,
) -> Option<Seq<char>> {
    if proposal.authorized_action@ != WHITELISTED_COMMAND@ {
        Some("proposal_has_no_authorized_action"@)
    } else if proposal.project_id@ != binding.project_id@ || proposal.binding_id@
        != binding.binding_id@ {
        Some("proposal_binding_exact_join_failed"@)
    } else if worker.project_id@ != binding.project_id@ {
        Some("worker_project_mismatch"@)
    } else if worker.role != M3ProjectRole::Worker {
        Some("worker_role_mismatch"@)
    } else if is_blank_seq(worker.actor_id@) || is_blank_seq(worker.role_session_id@) {
        Some("worker_view_unbound"@)
    } else if proposal.status@ != "DRAFT"@ && proposal.status@ != "APPROVED"@ {
        Some("supervisor_proposal_not_draft"@)
    } else {
        None
    }
}

/// The execution request a stored whitelisted proposal authorizes: the
/// binding's project and actor, the worker's session, the whitelisted command
/// only, project-scoped refs, and a one-minute lifetime.
pub fn authorized_request_from_stored_proposal(
    binding: &SupervisorBinding,
    proposal: &SupervisorProposal,
    worker: &M3ProjectRoleSessionView,
    now_ms: i64,
) -> (r: Result<AuthorizedExecutionRequest, String>)
    ensures
        match proposal_refusal(*binding, *proposal, *worker) {
            Some(m) => r matches Err(e) && e@ == m,
            None => r matches Ok(req) && {
                let p = binding.project_id@;
                &&& req.project_id@ == p
                &&& req.proposal_id@ == proposal.proposal_id@
                &&& req.deciding_actor_id@ == binding.actor_id@
                &&& req.worker_role_session_id@ == worker.role_session_id@
                &&& req.principal_actor_id@ == binding.actor_id@
                &&& req.workflow_ref@ == "workflow:"@ + p
                &&& req.source_object_ref@ == "object:"@ + p
                &&& req.allowed_commands@.len() == 1
                &&& req.allowed_commands@[0]@ == WHITELISTED_COMMAND@
                &&& req.cwd_ref@ == "scratch:"@ + p
                &&& req.write_root_refs@.len() == 1
                &&& req.write_root_refs@[0]@ == "scratch:"@ + p
                &&& req.object_refs@.len() == 1
                &&& req.object_refs@[0]@ == "object:"@ + p
                &&& req.scope_fingerprint@ == "scope:"@ + p
                &&& req.policy_decision_ref@ == "pol:m5r07:"@ + proposal.authorized_action@
                &&& req.now_ms == now_ms
                &&& req.ttl_ms == 60_000
            },
        },
{
    if !str_eq(proposal.authorized_action.as_str(), WHITELISTED_COMMAND) {
        return Err(String::from_str("proposal_has_no_authorized_action"));
    }
    if !str_eq(proposal.project_id.as_str(), binding.project_id.as_str()) || !str_eq(
        proposal.binding_id.as_str(),
        binding.binding_id.as_str(),
    ) {
        return Err(String::from_str("proposal_binding_exact_join_failed"));
    }
    if !str_eq(worker.project_id.as_str(), binding.project_id.as_str()) {
        return Err(String::from_str("worker_project_mismatch"));
    }
    if worker.role != M3ProjectRole::Worker {
        return Err(String::from_str("worker_role_mismatch"));
    }
    if is_blank(worker.actor_id.as_str()) || is_blank(worker.role_session_id.as_str()) {
        return Err(String::from_str("worker_view_unbound"));
    }
    if !str_eq(proposal.status.as_str(), "DRAFT") && !str_eq(proposal.status.as_str(), "APPROVED") {
        return Err(String::from_str("supervisor_proposal_not_draft"));
    }
    let p = binding.project_id.as_str();
    let mut allowed_commands: Vec<String> = Vec::new();
    allowed_commands.push(String::from_str(WHITELISTED_COMMAND));
    let mut write_root_refs: Vec<String> = Vec::new();
    write_root_refs.push(cat("scratch:", p));
    let mut object_refs: Vec<String> = Vec::new();
    object_refs.push(cat("object:", p));
    Ok(
        AuthorizedExecutionRequest {
            project_id: String::from_str(p),
            proposal_id: String::from_str(proposal.proposal_id.as_str()),
            deciding_actor_id: String::from_str(binding.actor_id.as_str()),
            worker_role_session_id: String::from_str(worker.role_session_id.as_str()),
            principal_actor_id: String::from_str(binding.actor_id.as_str()),
            workflow_ref: cat("workflow:", p),
            source_object_ref: cat("object:", p),
            allowed_commands,
            cwd_ref: cat("scratch:", p),
            write_root_refs,
            object_refs,
            scope_fingerprint: cat("scope:", p),
            policy_decision_ref: policy_decision_ref_for_action(proposal.authorized_action.as_str()),
            now_ms,
            ttl_ms: 60_000,
        },
    )
}

} // verus!
