//! Opaque runtime admission. Only admission issues a capability; the
//! consumers of one may check it against the stored chain but cannot forge it.
//! Admission joins the plan authorization, attempt, grant and dispatch exactly.

use vstd::prelude::*;
use crate::attempt::{AttemptState, PreparedAttempt};
use crate::gateway::GrantUseRequest;
use crate::grant::{grant_hash_of, holds_text, texts, ExecutionGrant, GrantStatus};
use crate::records::{
    DispatchRecord, M3ProjectRole, M3ProjectRoleSessionView, PlanAuthorizationRecord,
    SupervisorBinding, WorkcellRun,
};
use crate::text::{cat, clone_strings, i64_to_decimal, int_decimal, is_blank, is_blank_seq, str_eq};
use crate::grant::compute_grant_hash;
use crate::m3_identity::{policy_decision_ref_for_action, WHITELISTED_COMMAND};
use crate::ports::OrchestrationReadPort;
use crate::side_effect::{admit_granted_side_effect, load_grant_by_id};
use crate::identity::GrantId;

verus! {

/// Element-wise text equality of two string vectors.
pub fn same_texts(a: &Vec<String>, b: &Vec<String>) -> (r: bool)
    ensures
        r == (texts(a@) == texts(b@)),
{
    if a.len() != b.len() {
        assert(texts(a@).len() != texts(b@).len());
        return false;
    }
    let mut i: usize = 0;
    while i < a.len()
        invariant
            a.len() == b.len(),
            i <= a.len(),
            forall|j: int| 0 <= j < i ==> a@[j]@ == b@[j]@,
        decreases a.len() - i,
    {
        if !str_eq(a[i].as_str(), b[i].as_str()) {
            assert(texts(a@)[i as int] != texts(b@)[i as int]);
            return false;
        }
        i = i + 1;
    }
    assert(texts(a@) =~= texts(b@));
    true
}

/// A capability to run one admitted runtime step: the exact grant, dispatch,
/// attempt and command that admission joined.
#[derive(Debug)]
pub struct AdmittedRuntimeCapability {
    grant_id: String,
    grant_hash: String,
    grant_revision: i64,
    dispatch_id: String,
    attempt_id: String,
    effect_id: String,
    project_id: String,
    orchestration_id: String,
    workflow_run_id: String,
    work_item_id: String,
    node_id: String,
    worker_role_session_id: String,
    principal_actor_id: String,
    command: String,
    expires_at_ms: i64,
}

impl AdmittedRuntimeCapability {
    pub closed spec fn spec_grant_id(&self) -> Seq<char> {
        self.grant_id@
    }

    pub closed spec fn spec_grant_hash(&self) -> Seq<char> {
        self.grant_hash@
    }

    pub closed spec fn spec_grant_revision(&self) -> i64 {
        self.grant_revision
    }

    pub closed spec fn spec_dispatch_id(&self) -> Seq<char> {
        self.dispatch_id@
    }

    pub closed spec fn spec_attempt_id(&self) -> Seq<char> {
        self.attempt_id@
    }

    pub closed spec fn spec_effect_id(&self) -> Seq<char> {
        self.effect_id@
    }

    pub closed spec fn spec_project_id(&self) -> Seq<char> {
        self.project_id@
    }

    pub closed spec fn spec_orchestration_id(&self) -> Seq<char> {
        self.orchestration_id@
    }

    pub closed spec fn spec_workflow_run_id(&self) -> Seq<char> {
        self.workflow_run_id@
    }

    pub closed spec fn spec_work_item_id(&self) -> Seq<char> {
        self.work_item_id@
    }

    pub closed spec fn spec_node_id(&self) -> Seq<char> {
        self.node_id@
    }

    pub closed spec fn spec_worker_role_session_id(&self) -> Seq<char> {
        self.worker_role_session_id@
    }

    pub closed spec fn spec_principal_actor_id(&self) -> Seq<char> {
        self.principal_actor_id@
    }

    pub closed spec fn spec_command(&self) -> Seq<char> {
        self.command@
    }

    pub closed spec fn spec_expires_at_ms(&self) -> i64 {
        self.expires_at_ms
    }

    /// The capability carries exactly the joined grant, dispatch and attempt.
    pub open spec fn issued_for(
        self,
        grant: ExecutionGrant,
        dispatch: DispatchRecord,
        attempt: PreparedAttempt,
        command: Seq<char>,
    ) -> bool {
        &&& self.spec_grant_id() == grant.grant_id.0@
        &&& self.spec_grant_hash() == grant.grant_hash@
        &&& self.spec_grant_revision() == grant.revision
        &&& self.spec_dispatch_id() == dispatch.dispatch_id@
        &&& self.spec_attempt_id() == attempt.attempt_id.0@
        &&& self.spec_effect_id() == dispatch.effect_id@
        &&& self.spec_project_id() == grant.project_id@
        &&& self.spec_orchestration_id() == grant.orchestration_id.0@
        &&& self.spec_workflow_run_id() == grant.workflow_run_id.0@
        &&& self.spec_work_item_id() == grant.work_item_id.0@
        &&& self.spec_node_id() == dispatch.node_id@
        &&& self.spec_worker_role_session_id() == grant.worker_role_session_id@
        &&& self.spec_principal_actor_id() == grant.principal_actor_id@
        &&& self.spec_command() == command
        &&& self.spec_expires_at_ms() == grant.expires_at_ms
    }

    fn issue(
        grant: &ExecutionGrant,
        dispatch: &DispatchRecord,
        attempt: &PreparedAttempt,
        command: &str,
    ) -> (r: Self)
        ensures
            r.issued_for(*grant, *dispatch, *attempt, command@),
    {
        AdmittedRuntimeCapability {
            grant_id: String::from_str(grant.grant_id.as_str()),
            grant_hash: String::from_str(grant.grant_hash.as_str()),
            grant_revision: grant.revision,
            dispatch_id: String::from_str(dispatch.dispatch_id.as_str()),
            attempt_id: String::from_str(attempt.attempt_id.as_str()),
            effect_id: String::from_str(dispatch.effect_id.as_str()),
            project_id: String::from_str(grant.project_id.as_str()),
            orchestration_id: String::from_str(grant.orchestration_id.as_str()),
            workflow_run_id: String::from_str(grant.workflow_run_id.as_str()),
            work_item_id: String::from_str(grant.work_item_id.as_str()),
            node_id: String::from_str(dispatch.node_id.as_str()),
            worker_role_session_id: String::from_str(grant.worker_role_session_id.as_str()),
            principal_actor_id: String::from_str(grant.principal_actor_id.as_str()),
            command: String::from_str(command),
            expires_at_ms: grant.expires_at_ms,
        }
    }

    pub fn grant_id(&self) -> (r: &str)
        ensures
            r@ == self.spec_grant_id(),
    {
        self.grant_id.as_str()
    }

    pub fn dispatch_id(&self) -> (r: &str)
        ensures
            r@ == self.spec_dispatch_id(),
    {
        self.dispatch_id.as_str()
    }

    pub fn attempt_id(&self) -> (r: &str)
        ensures
            r@ == self.spec_attempt_id(),
    {
        self.attempt_id.as_str()
    }

    pub fn effect_id(&self) -> (r: &str)
        ensures
            r@ == self.spec_effect_id(),
    {
        self.effect_id.as_str()
    }

    pub fn worker_role_session_id(&self) -> (r: &str)
        ensures
            r@ == self.spec_worker_role_session_id(),
    {
        self.worker_role_session_id.as_str()
    }

    pub fn command(&self) -> (r: &str)
        ensures
            r@ == self.spec_command(),
    {
        self.command.as_str()
    }


    /// The message of the first workcell field that disagrees with the
    /// capability, or `None` when the workcell is exactly the admitted one.
    pub open spec fn workcell_refusal(self, w: WorkcellRun) -> Option<Seq<char>> {
        if w.parent_grant_id@ != self.spec_grant_id() {
            Some("admission_workcell_grant_mismatch"@)
        } else if w.dispatch_id@ != self.spec_dispatch_id() {
            Some("admission_workcell_dispatch_mismatch"@)
        } else if w.attempt_id@ != self.spec_attempt_id() {
            Some("admission_workcell_attempt_mismatch"@)
        } else if w.effect_id@ != self.spec_effect_id() {
            Some("admission_workcell_effect_mismatch"@)
        } else if w.actor_binding@ != self.spec_worker_role_session_id() {
            Some("admission_workcell_actor_mismatch"@)
        } else if w.command@ != self.spec_command() {
            Some("admission_workcell_command_mismatch"@)
        } else {
            None
        }
    }

    /// The message of the first check that the stored grant, dispatch and
    /// attempt fail against the capability at `now_ms`, or `None`.
    pub open spec fn stored_refusal(
        self,
        g: ExecutionGrant,
        d: DispatchRecord,
        a: PreparedAttempt,
        now_ms: i64,
    ) -> Option<Seq<char>> {
        if g.status != GrantStatus::Active {
            if g.revoked_at_ms is Some || g.status == GrantStatus::Revoked {
                Some("grant revoked"@)
            } else if now_ms >= g.expires_at_ms || g.status == GrantStatus::Expired {
                Some("grant expired"@)
            } else {
                Some("grant_not_active"@)
            }
        } else if g.revoked_at_ms is Some {
            Some("grant revoked"@)
        } else if now_ms >= g.expires_at_ms {
            Some("grant expired"@)
        } else if grant_hash_of(g) != g.grant_hash@ {
            Some("grant integrity failed"@)
        } else if self.spec_grant_id() != g.grant_id.0@ || self.spec_grant_id() != d.grant_id@
            || !(a.grant_id matches Some(b) && b.0@ == self.spec_grant_id()) {
            Some("admission_grant_join_failed"@)
        } else if self.spec_grant_hash() != g.grant_hash@ || grant_hash_of(g) != self.spec_grant_hash() {
            Some("admission_grant_hash_mismatch"@)
        } else if self.spec_grant_revision() != g.revision || self.spec_grant_revision()
            != d.grant_revision {
            Some("admission_grant_revision_mismatch"@)
        } else if self.spec_dispatch_id() != d.dispatch_id@ {
            Some("admission_dispatch_join_failed"@)
        } else if self.spec_attempt_id() != a.attempt_id.0@ || self.spec_attempt_id()
            != d.attempt_id@ || self.spec_attempt_id() != g.attempt_id.0@ {
            Some("admission_attempt_join_failed"@)
        } else if self.spec_effect_id() != d.effect_id@ || self.spec_effect_id() != g.effect_key@
            || is_blank_seq(self.spec_effect_id()) {
            Some("admission_effect_join_failed"@)
        } else if self.spec_project_id() != g.project_id@ || self.spec_project_id()
            != d.project_id@ || self.spec_project_id() != a.project_id@ {
            Some("admission_project_join_failed"@)
        } else if self.spec_orchestration_id() != g.orchestration_id.0@
            || self.spec_orchestration_id() != d.orchestration_id@ || self.spec_orchestration_id()
            != a.orchestration_id.0@ {
            Some("admission_orchestration_join_failed"@)
        } else if self.spec_workflow_run_id() != g.workflow_run_id.0@ || self.spec_workflow_run_id()
            != d.workflow_run_id@ || self.spec_workflow_run_id() != a.workflow_run_id.0@ {
            Some("admission_run_join_failed"@)
        } else if self.spec_work_item_id() != g.work_item_id.0@ || self.spec_work_item_id()
            != d.work_item_id@ || self.spec_work_item_id() != a.work_item_id.0@ {
            Some("admission_item_join_failed"@)
        } else if self.spec_node_id() != d.node_id@ || self.spec_node_id() != a.node_id.0@ {
            Some("admission_node_join_failed"@)
        } else if self.spec_worker_role_session_id() != g.worker_role_session_id@
            || self.spec_worker_role_session_id() != d.worker_role_session_id@
            || self.spec_worker_role_session_id() != a.worker_role_session_id@ {
            Some("admission_worker_session_join_failed"@)
        } else if self.spec_principal_actor_id() != g.principal_actor_id@ {
            Some("admission_actor_join_failed"@)
        } else if self.spec_expires_at_ms() != g.expires_at_ms {
            Some("admission_expiry_join_failed"@)
        } else if !holds_text(g.allowed_commands@, self.spec_command()) {
            Some("admission_command_not_allowed"@)
        } else {
            None
        }
    }

    /// Checks the workcell the runtime is about to run against the capability.
    pub fn assert_matches_workcell(&self, workcell: &WorkcellRun) -> (r: Result<(), String>)
        ensures
            match self.workcell_refusal(*workcell) {
                None => r is Ok,
                Some(m) => r matches Err(e) && e@ == m,
            },
    {
        if !str_eq(workcell.parent_grant_id.as_str(), self.grant_id.as_str()) {
            return Err(String::from_str("admission_workcell_grant_mismatch"));
        }
        if !str_eq(workcell.dispatch_id.as_str(), self.dispatch_id.as_str()) {
            return Err(String::from_str("admission_workcell_dispatch_mismatch"));
        }
        if !str_eq(workcell.attempt_id.as_str(), self.attempt_id.as_str()) {
            return Err(String::from_str("admission_workcell_attempt_mismatch"));
        }
        if !str_eq(workcell.effect_id.as_str(), self.effect_id.as_str()) {
            return Err(String::from_str("admission_workcell_effect_mismatch"));
        }
        if !str_eq(workcell.actor_binding.as_str(), self.worker_role_session_id.as_str()) {
            return Err(String::from_str("admission_workcell_actor_mismatch"));
        }
        if !str_eq(workcell.command.as_str(), self.command.as_str()) {
            return Err(String::from_str("admission_workcell_command_mismatch"));
        }
        Ok(())
    }

    /// Re-checks the capability against the grant, dispatch and attempt as
    /// stored now: the grant must still be active, intact and unrevoked, and
    /// every identifier the capability carries must join exactly.
    pub fn assert_matches_stored(
        &self,
        grant: &ExecutionGrant,
        dispatch: &DispatchRecord,
        attempt: &PreparedAttempt,
        now_ms: i64,
    ) -> (r: Result<(), String>)
        ensures
            match self.stored_refusal(*grant, *dispatch, *attempt, now_ms) {
                None => r is Ok,
                Some(m) => r matches Err(e) && e@ == m,
            },
    {
        if grant.status != GrantStatus::Active {
            if grant.revoked_at_ms.is_some() || grant.status == GrantStatus::Revoked {
                return Err(String::from_str("grant revoked"));
            }
            if now_ms >= grant.expires_at_ms || grant.status == GrantStatus::Expired {
                return Err(String::from_str("grant expired"));
            }
            return Err(String::from_str("grant_not_active"));
        }
        if grant.revoked_at_ms.is_some() {
            return Err(String::from_str("grant revoked"));
        }
        if now_ms >= grant.expires_at_ms {
            return Err(String::from_str("grant expired"));
        }
        let recomputed = compute_grant_hash(grant);
        if !str_eq(recomputed.as_str(), grant.grant_hash.as_str()) {
            return Err(String::from_str("grant integrity failed"));
        }
        let bound_matches = match &attempt.grant_id {
            Some(b) => str_eq(b.as_str(), self.grant_id.as_str()),
            None => false,
        };
        if !str_eq(self.grant_id.as_str(), grant.grant_id.as_str()) || !str_eq(
            self.grant_id.as_str(),
            dispatch.grant_id.as_str(),
        ) || !bound_matches {
            return Err(String::from_str("admission_grant_join_failed"));
        }
        if !str_eq(self.grant_hash.as_str(), grant.grant_hash.as_str()) || !str_eq(
            recomputed.as_str(),
            self.grant_hash.as_str(),
        ) {
            return Err(String::from_str("admission_grant_hash_mismatch"));
        }
        if self.grant_revision != grant.revision || self.grant_revision != dispatch.grant_revision {
            return Err(String::from_str("admission_grant_revision_mismatch"));
        }
        if !str_eq(self.dispatch_id.as_str(), dispatch.dispatch_id.as_str()) {
            return Err(String::from_str("admission_dispatch_join_failed"));
        }
        if !str_eq(self.attempt_id.as_str(), attempt.attempt_id.as_str()) || !str_eq(
            self.attempt_id.as_str(),
            dispatch.attempt_id.as_str(),
        ) || !str_eq(self.attempt_id.as_str(), grant.attempt_id.as_str()) {
            return Err(String::from_str("admission_attempt_join_failed"));
        }
        if !str_eq(self.effect_id.as_str(), dispatch.effect_id.as_str()) || !str_eq(
            self.effect_id.as_str(),
            grant.effect_key.as_str(),
        ) || is_blank(self.effect_id.as_str()) {
            return Err(String::from_str("admission_effect_join_failed"));
        }
        if !str_eq(self.project_id.as_str(), grant.project_id.as_str()) || !str_eq(
            self.project_id.as_str(),
            dispatch.project_id.as_str(),
        ) || !str_eq(self.project_id.as_str(), attempt.project_id.as_str()) {
            return Err(String::from_str("admission_project_join_failed"));
        }
        if !str_eq(self.orchestration_id.as_str(), grant.orchestration_id.as_str()) || !str_eq(
            self.orchestration_id.as_str(),
            dispatch.orchestration_id.as_str(),
        ) || !str_eq(self.orchestration_id.as_str(), attempt.orchestration_id.as_str()) {
            return Err(String::from_str("admission_orchestration_join_failed"));
        }
        if !str_eq(self.workflow_run_id.as_str(), grant.workflow_run_id.as_str()) || !str_eq(
            self.workflow_run_id.as_str(),
            dispatch.workflow_run_id.as_str(),
        ) || !str_eq(self.workflow_run_id.as_str(), attempt.workflow_run_id.as_str()) {
            return Err(String::from_str("admission_run_join_failed"));
        }
        if !str_eq(self.work_item_id.as_str(), grant.work_item_id.as_str()) || !str_eq(
            self.work_item_id.as_str(),
            dispatch.work_item_id.as_str(),
        ) || !str_eq(self.work_item_id.as_str(), attempt.work_item_id.as_str()) {
            return Err(String::from_str("admission_item_join_failed"));
        }
        if !str_eq(self.node_id.as_str(), dispatch.node_id.as_str()) || !str_eq(
            self.node_id.as_str(),
            attempt.node_id.as_str(),
        ) {
            return Err(String::from_str("admission_node_join_failed"));
        }
        if !str_eq(self.worker_role_session_id.as_str(), grant.worker_role_session_id.as_str())
            || !str_eq(
            self.worker_role_session_id.as_str(),
            dispatch.worker_role_session_id.as_str(),
        ) || !str_eq(
            self.worker_role_session_id.as_str(),
            attempt.worker_role_session_id.as_str(),
        ) {
            return Err(String::from_str("admission_worker_session_join_failed"));
        }
        if !str_eq(self.principal_actor_id.as_str(), grant.principal_actor_id.as_str()) {
            return Err(String::from_str("admission_actor_join_failed"));
        }
        if self.expires_at_ms != grant.expires_at_ms {
            return Err(String::from_str("admission_expiry_join_failed"));
        }
        if !grant.allows_command(self.command.as_str()) {
            return Err(String::from_str("admission_command_not_allowed"));
        }
        Ok(())
    }

    /// Consumes the capability: the workcell is checked first, then the stored chain.
    pub fn consume_matching_stored(
        self,
        grant: &ExecutionGrant,
        dispatch: &DispatchRecord,
        attempt: &PreparedAttempt,
        workcell: &WorkcellRun,
        now_ms: i64,
    ) -> (r: Result<(), String>)
        ensures
            match self.workcell_refusal(*workcell) {
                Some(m) => r matches Err(e) && e@ == m,
                None => match self.stored_refusal(*grant, *dispatch, *attempt, now_ms) {
                    None => r is Ok,
                    Some(m) => r matches Err(e) && e@ == m,
                },
            },
    {
        self.assert_matches_workcell(workcell)?;
        self.assert_matches_stored(grant, dispatch, attempt, now_ms)
    }
}


/// The text of the grant id an attempt is bound to.
pub open spec fn bound_grant_text(a: PreparedAttempt) -> Seq<char> {
    match a.grant_id {
        Some(g) => g.0@,
        None => Seq::empty(),
    }
}

/// The message of the first check that fails when joining a stored plan
/// authorization, attempt, grant and dispatch at `now_ms`, or `None`.
pub open spec fn plan_join_refusal(
    plan: PlanAuthorizationRecord,
    a: PreparedAttempt,
    g: ExecutionGrant,
    d: DispatchRecord,
    expected_grant_id: Seq<char>,
    now_ms: i64,
) -> Option<Seq<char>> {
    if plan.revoked_at_ms is Some || plan.status@ == "REVOKED"@ {
        Some("plan_authorization_revoked"@)
    } else if now_ms >= plan.expires_at_ms || plan.status@ == "EXPIRED"@ {
        Some("plan_authorization_expired"@)
    } else if plan.status@ != "ACTIVE"@ {
        Some("plan_authorization_not_active"@)
    } else if g.revoked_at_ms is Some || g.status.m1_name() == "REVOKED"@ {
        Some("grant revoked"@)
    } else if now_ms >= g.expires_at_ms || g.status.m1_name() == "EXPIRED"@ {
        Some("grant expired"@)
    } else if grant_hash_of(g) != g.grant_hash@ || !g.active_at(now_ms) {
        Some("grant integrity failed"@)
    } else if plan.project_id@ != a.project_id@ || plan.project_id@ != g.project_id@
        || plan.project_id@ != d.project_id@ {
        Some("formal_runtime_project_join_failed"@)
    } else if plan.orchestration_id@ != a.orchestration_id.0@ || plan.orchestration_id@
        != g.orchestration_id.0@ || plan.orchestration_id@ != d.orchestration_id@ {
        Some("formal_runtime_orchestration_join_failed"@)
    } else if a.workflow_run_id.0@ != g.workflow_run_id.0@ || a.workflow_run_id.0@
        != d.workflow_run_id@ || a.work_item_id.0@ != g.work_item_id.0@ || a.work_item_id.0@
        != d.work_item_id@ {
        Some("formal_runtime_run_item_join_failed"@)
    } else if a.node_id.0@ != d.node_id@ {
        Some("formal_runtime_node_join_failed"@)
    } else if d.attempt_id@ != a.attempt_id.0@ || d.attempt_id@ != g.attempt_id.0@ {
        Some("dispatch_attempt_join_failed"@)
    } else if a.authorization_id.0@ != plan.authorization_id@ || g.authorization_id.0@
        != plan.authorization_id@ || g.authorization_id.0@ != a.authorization_id.0@ {
        Some("grant_plan_self_selection_rejected"@)
    } else if a.authorization_revision != plan.authorization_revision || g.authorization_revision
        != plan.authorization_revision {
        Some(
            "wrong revision: grant="@ + int_decimal(g.authorization_revision as int) + " request="@
                + int_decimal(plan.authorization_revision as int),
        )
    } else if a.grant_id is None {
        Some("attempt_missing_bound_grant"@)
    } else if expected_grant_id != d.grant_id@ || expected_grant_id != g.grant_id.0@
        || bound_grant_text(a) != g.grant_id.0@ || bound_grant_text(a) != d.grant_id@ {
        Some("dispatch_grant_join_failed"@)
    } else if d.grant_revision != g.revision {
        Some("dispatch_grant_revision_join_failed"@)
    } else if g.worker_role_session_id@ != a.worker_role_session_id@ || g.worker_role_session_id@
        != d.worker_role_session_id@ {
        Some("worker_session_join_failed"@)
    } else if is_blank_seq(d.effect_id@) || d.effect_id@ != g.effect_key@ {
        Some("dispatch_effect_join_failed"@)
    } else if plan.authorized_scope_ref@ != g.scope_fingerprint@ || texts(plan.allowed_commands@)
        != texts(g.allowed_commands@) || plan.cwd_ref@ != g.cwd_ref@ || texts(
        plan.write_root_refs@,
    ) != texts(g.write_root_refs@) || texts(plan.allowed_object_refs@) != texts(
        g.object_refs@,
    ) {
        Some("plan_grant_scope_not_exact"@)
    } else {
        None
    }
}

/// Joins a stored plan authorization, attempt, grant and dispatch exactly:
/// the plan and grant must be live, every identifier and revision must agree,
/// and the grant's scope must be exactly the plan's.
pub fn join_stored_plan_grant_dispatch(
    plan: &PlanAuthorizationRecord,
    attempt: &PreparedAttempt,
    grant: &ExecutionGrant,
    dispatch: &DispatchRecord,
    expected_grant_id: &str,
    now_ms: i64,
) -> (r: Result<(), String>)
    ensures
        match plan_join_refusal(*plan, *attempt, *grant, *dispatch, expected_grant_id@, now_ms) {
            None => r is Ok,
            Some(m) => r matches Err(e) && e@ == m,
        },
{
    if plan.revoked_at_ms.is_some() || str_eq(plan.status.as_str(), "REVOKED") {
        return Err(String::from_str("plan_authorization_revoked"));
    }
    if now_ms >= plan.expires_at_ms || str_eq(plan.status.as_str(), "EXPIRED") {
        return Err(String::from_str("plan_authorization_expired"));
    }
    if !str_eq(plan.status.as_str(), "ACTIVE") {
        return Err(String::from_str("plan_authorization_not_active"));
    }
    if grant.revoked_at_ms.is_some() || str_eq(grant.status.as_m1_str(), "REVOKED") {
        return Err(String::from_str("grant revoked"));
    }
    if now_ms >= grant.expires_at_ms || str_eq(grant.status.as_m1_str(), "EXPIRED") {
        return Err(String::from_str("grant expired"));
    }
    let recomputed = compute_grant_hash(grant);
    if !str_eq(recomputed.as_str(), grant.grant_hash.as_str()) || !grant.is_active(now_ms) {
        return Err(String::from_str("grant integrity failed"));
    }
    if !str_eq(plan.project_id.as_str(), attempt.project_id.as_str()) || !str_eq(
        plan.project_id.as_str(),
        grant.project_id.as_str(),
    ) || !str_eq(plan.project_id.as_str(), dispatch.project_id.as_str()) {
        return Err(String::from_str("formal_runtime_project_join_failed"));
    }
    if !str_eq(plan.orchestration_id.as_str(), attempt.orchestration_id.as_str()) || !str_eq(
        plan.orchestration_id.as_str(),
        grant.orchestration_id.as_str(),
    ) || !str_eq(plan.orchestration_id.as_str(), dispatch.orchestration_id.as_str()) {
        return Err(String::from_str("formal_runtime_orchestration_join_failed"));
    }
    if !str_eq(attempt.workflow_run_id.as_str(), grant.workflow_run_id.as_str()) || !str_eq(
        attempt.workflow_run_id.as_str(),
        dispatch.workflow_run_id.as_str(),
    ) || !str_eq(attempt.work_item_id.as_str(), grant.work_item_id.as_str()) || !str_eq(
        attempt.work_item_id.as_str(),
        dispatch.work_item_id.as_str(),
    ) {
        return Err(String::from_str("formal_runtime_run_item_join_failed"));
    }
    if !str_eq(attempt.node_id.as_str(), dispatch.node_id.as_str()) {
        return Err(String::from_str("formal_runtime_node_join_failed"));
    }
    if !str_eq(dispatch.attempt_id.as_str(), attempt.attempt_id.as_str()) || !str_eq(
        dispatch.attempt_id.as_str(),
        grant.attempt_id.as_str(),
    ) {
        return Err(String::from_str("dispatch_attempt_join_failed"));
    }
    if !str_eq(attempt.authorization_id.as_str(), plan.authorization_id.as_str()) || !str_eq(
        grant.authorization_id.as_str(),
        plan.authorization_id.as_str(),
    ) || !str_eq(grant.authorization_id.as_str(), attempt.authorization_id.as_str()) {
        return Err(String::from_str("grant_plan_self_selection_rejected"));
    }
    if attempt.authorization_revision != plan.authorization_revision
        || grant.authorization_revision != plan.authorization_revision {
        let a = i64_to_decimal(grant.authorization_revision);
        let b = i64_to_decimal(plan.authorization_revision);
        let mut m = cat("wrong revision: grant=", a.as_str());
        m.append(" request=");
        m.append(b.as_str());
        return Err(m);
    }
    let bound_grant = match &attempt.grant_id {
        Some(b) => b,
        None => {
            return Err(String::from_str("attempt_missing_bound_grant"));
        },
    };
    if !str_eq(expected_grant_id, dispatch.grant_id.as_str()) || !str_eq(
        expected_grant_id,
        grant.grant_id.as_str(),
    ) || !str_eq(bound_grant.as_str(), grant.grant_id.as_str()) || !str_eq(
        bound_grant.as_str(),
        dispatch.grant_id.as_str(),
    ) {
        return Err(String::from_str("dispatch_grant_join_failed"));
    }
    if dispatch.grant_revision != grant.revision {
        return Err(String::from_str("dispatch_grant_revision_join_failed"));
    }
    if !str_eq(grant.worker_role_session_id.as_str(), attempt.worker_role_session_id.as_str())
        || !str_eq(
        grant.worker_role_session_id.as_str(),
        dispatch.worker_role_session_id.as_str(),
    ) {
        return Err(String::from_str("worker_session_join_failed"));
    }
    if is_blank(dispatch.effect_id.as_str()) || !str_eq(
        dispatch.effect_id.as_str(),
        grant.effect_key.as_str(),
    ) {
        return Err(String::from_str("dispatch_effect_join_failed"));
    }
    if !str_eq(plan.authorized_scope_ref.as_str(), grant.scope_fingerprint.as_str())
        || !same_texts(&plan.allowed_commands, &grant.allowed_commands) || !str_eq(
        plan.cwd_ref.as_str(),
        grant.cwd_ref.as_str(),
    ) || !same_texts(&plan.write_root_refs, &grant.write_root_refs) || !same_texts(
        &plan.allowed_object_refs,
        &grant.object_refs,
    ) {
        return Err(String::from_str("plan_grant_scope_not_exact"));
    }
    Ok(())
}

/// The message of the first check that fails when joining the independent
/// authorization chain for a formal runtime step, or `None`.
pub open spec fn chain_join_refusal(
    binding: SupervisorBinding,
    worker: M3ProjectRoleSessionView,
    plan: PlanAuthorizationRecord,
    a: PreparedAttempt,
    g: ExecutionGrant,
    d: DispatchRecord,
    formal_grant_id: Seq<char>,
    now_ms: i64,
) -> Option<Seq<char>> {
    if d.state@ != "PENDING_DELIVERY"@ {
        Some("dispatch_not_pending_delivery"@)
    } else if a.state != AttemptState::GrantReadyNonRunnable {
        Some("attempt_not_grant_ready"@)
    } else if plan_join_refusal(plan, a, g, d, formal_grant_id, now_ms) is Some {
        plan_join_refusal(plan, a, g, d, formal_grant_id, now_ms)
    } else if binding.project_id@ != worker.project_id@ || binding.project_id@ != plan.project_id@
        || binding.project_id@ != a.project_id@ || binding.project_id@ != g.project_id@
        || binding.project_id@ != d.project_id@ {
        Some("formal_runtime_project_join_failed"@)
    } else if worker.role_session_id@ != a.worker_role_session_id@ || worker.role_session_id@
        != g.worker_role_session_id@ || worker.role_session_id@ != d.worker_role_session_id@ {
        Some("worker_session_join_failed"@)
    } else if g.principal_actor_id@ != binding.actor_id@ {
        Some("principal_actor_join_failed"@)
    } else {
        None
    }
}

/// Joins the supervisor binding and worker view to the stored chain: the
/// dispatch must still be pending delivery, the attempt GRANT_READY, the
/// stored chain must join exactly, and the binding, worker and grant must
/// name the same project, worker session and principal actor.
pub fn join_independent_authorization_chain(
    binding: &SupervisorBinding,
    worker: &M3ProjectRoleSessionView,
    plan: &PlanAuthorizationRecord,
    attempt: &PreparedAttempt,
    grant: &ExecutionGrant,
    dispatch: &DispatchRecord,
    formal_grant_id: &str,
    now_ms: i64,
) -> (r: Result<(), String>)
    ensures
        match chain_join_refusal(
            *binding,
            *worker,
            *plan,
            *attempt,
            *grant,
            *dispatch,
            formal_grant_id@,
            now_ms,
        ) {
            None => r is Ok,
            Some(m) => r matches Err(e) && e@ == m,
        },
{
    if !str_eq(dispatch.state.as_str(), "PENDING_DELIVERY") {
        return Err(String::from_str("dispatch_not_pending_delivery"));
    }
    if attempt.state != AttemptState::GrantReadyNonRunnable {
        return Err(String::from_str("attempt_not_grant_ready"));
    }
    join_stored_plan_grant_dispatch(plan, attempt, grant, dispatch, formal_grant_id, now_ms)?;
    if !str_eq(binding.project_id.as_str(), worker.project_id.as_str()) || !str_eq(
        binding.project_id.as_str(),
        plan.project_id.as_str(),
    ) || !str_eq(binding.project_id.as_str(), attempt.project_id.as_str()) || !str_eq(
        binding.project_id.as_str(),
        grant.project_id.as_str(),
    ) || !str_eq(binding.project_id.as_str(), dispatch.project_id.as_str()) {
        return Err(String::from_str("formal_runtime_project_join_failed"));
    }
    if !str_eq(worker.role_session_id.as_str(), attempt.worker_role_session_id.as_str())
        || !str_eq(worker.role_session_id.as_str(), grant.worker_role_session_id.as_str())
        || !str_eq(worker.role_session_id.as_str(), dispatch.worker_role_session_id.as_str()) {
        return Err(String::from_str("worker_session_join_failed"));
    }
    if !str_eq(grant.principal_actor_id.as_str(), binding.actor_id.as_str()) {
        return Err(String::from_str("principal_actor_join_failed"));
    }
    Ok(())
}

/// The grant-use request the current authority makes for a formal runtime
/// step: the binding's project and actor, the worker's session, the
/// dispatch's attempt, and the plan's authorization and scope, for the
/// whitelisted command.
pub fn grant_use_request_from_current_authority(
    binding: &SupervisorBinding,
    worker: &M3ProjectRoleSessionView,
    dispatch: &DispatchRecord,
    plan: &PlanAuthorizationRecord,
    now_ms: i64,
) -> (r: GrantUseRequest)
    ensures
        r.project_id@ == binding.project_id@,
        r.attempt_id@ == dispatch.attempt_id@,
        r.worker_role_session_id@ == worker.role_session_id@,
        r.principal_actor_id@ == binding.actor_id@,
        r.authorization_id@ == plan.authorization_id@,
        r.authorization_revision == plan.authorization_revision,
        r.command@ == WHITELISTED_COMMAND@,
        r.cwd_ref@ == plan.cwd_ref@,
        r.write_root_refs@ == plan.write_root_refs@,
        r.object_refs@ == plan.allowed_object_refs@,
        r.now_ms == now_ms,
{
    GrantUseRequest {
        project_id: String::from_str(binding.project_id.as_str()),
        attempt_id: String::from_str(dispatch.attempt_id.as_str()),
        worker_role_session_id: String::from_str(worker.role_session_id.as_str()),
        principal_actor_id: String::from_str(binding.actor_id.as_str()),
        authorization_id: String::from_str(plan.authorization_id.as_str()),
        authorization_revision: plan.authorization_revision,
        command: String::from_str(WHITELISTED_COMMAND),
        cwd_ref: String::from_str(plan.cwd_ref.as_str()),
        write_root_refs: clone_strings(&plan.write_root_refs),
        object_refs: clone_strings(&plan.allowed_object_refs),
        now_ms,
    }
}


/// A capability issued on a chain that joined exactly, for a command the grant
/// allows, still matches that stored chain at the time of the join.
pub proof fn lemma_issued_capability_matches_chain(
    cap: AdmittedRuntimeCapability,
    binding: SupervisorBinding,
    worker: M3ProjectRoleSessionView,
    plan: PlanAuthorizationRecord,
    a: PreparedAttempt,
    g: ExecutionGrant,
    d: DispatchRecord,
    formal_grant_id: Seq<char>,
    command: Seq<char>,
    now_ms: i64,
)
    requires
        chain_join_refusal(binding, worker, plan, a, g, d, formal_grant_id, now_ms) is None,
        holds_text(g.allowed_commands@, command),
        cap.issued_for(g, d, a, command),
    ensures
        cap.stored_refusal(g, d, a, now_ms) is None,
{
    assert(plan_join_refusal(plan, a, g, d, formal_grant_id, now_ms) is None);
    assert(a.grant_id is Some);
}


/// Why a worker view cannot take a formal runtime step for `binding`, or `None`.
pub open spec fn worker_refusal(binding: SupervisorBinding, worker: M3ProjectRoleSessionView) -> Option<
    Seq<char>,
> {
    if worker.role != M3ProjectRole::Worker {
        Some("worker_role_mismatch"@)
    } else if is_blank_seq(worker.actor_id@) || is_blank_seq(worker.role_session_id@) {
        Some("worker_view_unbound"@)
    } else if worker.project_id@ != binding.project_id@ {
        Some("worker_project_mismatch"@)
    } else {
        None
    }
}

/// Checks the worker view before anything is loaded.
pub fn check_worker_view(binding: &SupervisorBinding, worker: &M3ProjectRoleSessionView) -> (r: Result<
    (),
    String,
>)
    ensures
        match worker_refusal(*binding, *worker) {
            None => r is Ok,
            Some(m) => r matches Err(e) && e@ == m,
        },
{
    if worker.role != M3ProjectRole::Worker {
        return Err(String::from_str("worker_role_mismatch"));
    }
    if is_blank(worker.actor_id.as_str()) || is_blank(worker.role_session_id.as_str()) {
        return Err(String::from_str("worker_view_unbound"));
    }
    if !str_eq(worker.project_id.as_str(), binding.project_id.as_str()) {
        return Err(String::from_str("worker_project_mismatch"));
    }
    Ok(())
}

/// Admits the current granted runtime step. The worker view is checked first;
/// then the dispatch, attempt, plan authorization and grant are loaded from
/// the store by the ids the chain itself carries, joined exactly, the grant's
/// policy ref is checked against the stored proposal's action, and the side
/// effect is admitted on the stored grant. Only then is a capability issued,
/// for the whitelisted command.
pub fn admit_current_granted_runtime<P: OrchestrationReadPort>(
    store: &P,
    binding: &SupervisorBinding,
    worker: &M3ProjectRoleSessionView,
    formal_grant_id: &str,
    formal_dispatch_id: &str,
    now_ms: i64,
) -> (r: Result<AdmittedRuntimeCapability, String>)
    ensures
        worker_refusal(*binding, *worker) matches Some(m) ==> (r matches Err(e) && e@ == m),
        r matches Ok(cap) ==> {
            &&& worker_refusal(*binding, *worker) is None
            &&& cap.spec_command() == WHITELISTED_COMMAND@
            &&& cap.spec_grant_id() == formal_grant_id@
            &&& cap.spec_project_id() == binding.project_id@
            &&& cap.spec_worker_role_session_id() == worker.role_session_id@
            &&& cap.spec_principal_actor_id() == binding.actor_id@
            &&& exists|plan: PlanAuthorizationRecord, a: PreparedAttempt, g: ExecutionGrant, d: DispatchRecord|
                {
                    &&& #[trigger] chain_join_refusal(
                        *binding,
                        *worker,
                        plan,
                        a,
                        g,
                        d,
                        formal_grant_id@,
                        now_ms,
                    ) is None
                    &&& cap.issued_for(g, d, a, WHITELISTED_COMMAND@)
                }
        },
{
    check_worker_view(binding, worker)?;
    let dispatch = match store.load_dispatch(formal_dispatch_id)? {
        Some(d) => d,
        None => {
            return Err(String::from_str("formal_runtime_dispatch_not_found"));
        },
    };
    if !str_eq(formal_grant_id, dispatch.grant_id.as_str()) {
        return Err(String::from_str("formal_progress_grant_dispatch_join_failed"));
    }
    let attempt = match store.load_attempt(dispatch.attempt_id.as_str())? {
        Some(a) => a,
        None => {
            return Err(String::from_str("formal_runtime_attempt_not_found"));
        },
    };
    let plan = match store.load_authorization(attempt.authorization_id.as_str())? {
        Some(p) => p,
        None => {
            return Err(String::from_str("plan_authorization_missing"));
        },
    };
    let typed_grant_id = GrantId::new(String::from_str(dispatch.grant_id.as_str()));
    let grant = match load_grant_by_id(store, &typed_grant_id) {
        Ok(g) => g,
        Err(e) => {
            return Err(e.to_display_string());
        },
    };
    join_independent_authorization_chain(
        binding,
        worker,
        &plan,
        &attempt,
        &grant,
        &dispatch,
        formal_grant_id,
        now_ms,
    )?;
    let proposal = store.load_supervisor_proposal(
        plan.proposal_id.as_str(),
        binding.project_id.as_str(),
        binding.binding_id.as_str(),
    )?;
    let expected_policy = policy_decision_ref_for_action(proposal.authorized_action.as_str());
    if !str_eq(grant.policy_decision_ref.as_str(), expected_policy.as_str()) {
        return Err(String::from_str("policy_decision_ref_mismatch"));
    }
    let use_request = grant_use_request_from_current_authority(
        binding,
        worker,
        &dispatch,
        &plan,
        now_ms,
    );
    match admit_granted_side_effect(store, &typed_grant_id, use_request) {
        Ok(_) => {},
        Err(e) => {
            return Err(e.to_display_string());
        },
    }
    let cap = AdmittedRuntimeCapability::issue(&grant, &dispatch, &attempt, WHITELISTED_COMMAND);
    assert(chain_join_refusal(*binding, *worker, plan, attempt, grant, dispatch, formal_grant_id@, now_ms) is None);
    Ok(cap)
}

/// A stored plan, attempt, grant and dispatch that join are live and agree:
/// the plan is ACTIVE and unexpired, the grant is live with an intact hash,
/// the four records share project, orchestration, attempt and authorization
/// (at the plan's revision), and the grant's scope is exactly the plan's:
/// scope ref, commands, working directory, write roots and object refs.
pub proof fn lemma_plan_join_is_exact(
    plan: PlanAuthorizationRecord,
    a: PreparedAttempt,
    g: ExecutionGrant,
    d: DispatchRecord,
    expected_grant_id: Seq<char>,
    now_ms: i64,
)
    requires
        plan_join_refusal(plan, a, g, d, expected_grant_id, now_ms) is None,
    ensures
        plan.status@ == "ACTIVE"@,
        plan.revoked_at_ms is None,
        now_ms < plan.expires_at_ms,
        g.revoked_at_ms is None,
        now_ms < g.expires_at_ms,
        g.hash_intact(),
        g.active_at(now_ms),
        plan.project_id@ == g.project_id@ && plan.project_id@ == a.project_id@ && plan.project_id@
            == d.project_id@,
        plan.orchestration_id@ == g.orchestration_id.0@,
        d.attempt_id@ == a.attempt_id.0@ && d.attempt_id@ == g.attempt_id.0@,
        g.authorization_id.0@ == plan.authorization_id@,
        g.authorization_revision == plan.authorization_revision,
        g.grant_id.0@ == expected_grant_id && d.grant_id@ == expected_grant_id,
        d.grant_revision == g.revision,
        plan.authorized_scope_ref@ == g.scope_fingerprint@,
        texts(plan.allowed_commands@) == texts(g.allowed_commands@),
        plan.cwd_ref@ == g.cwd_ref@,
        texts(plan.write_root_refs@) == texts(g.write_root_refs@),
        texts(plan.allowed_object_refs@) == texts(g.object_refs@),
{
}

/// An independently authorized chain that joins also joins as a stored
/// plan, grant and dispatch, so the grant's scope is exactly the plan's.
pub proof fn lemma_chain_join_is_exact(
    binding: SupervisorBinding,
    worker: M3ProjectRoleSessionView,
    plan: PlanAuthorizationRecord,
    a: PreparedAttempt,
    g: ExecutionGrant,
    d: DispatchRecord,
    formal_grant_id: Seq<char>,
    now_ms: i64,
)
    requires
        chain_join_refusal(binding, worker, plan, a, g, d, formal_grant_id, now_ms) is None,
    ensures
        plan_join_refusal(plan, a, g, d, formal_grant_id, now_ms) is None,
        texts(plan.write_root_refs@) == texts(g.write_root_refs@),
        texts(plan.allowed_commands@) == texts(g.allowed_commands@),
        texts(plan.allowed_object_refs@) == texts(g.object_refs@),
        plan.cwd_ref@ == g.cwd_ref@,
        plan.authorized_scope_ref@ == g.scope_fingerprint@,
{
    lemma_plan_join_is_exact(plan, a, g, d, formal_grant_id, now_ms);
}

} // verus!
