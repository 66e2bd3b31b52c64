//! The ordinary control acceptance profile: its phases, its inactive status,
//! the completeness of an exact stored chain, and the independence of the
//! second-party assessor.

use vstd::prelude::*;
use crate::outside::{sha256_hex, sha256_hex_of};
use crate::grant::ExecutionGrant;
use crate::ports::OrchestrationReadPort;
use crate::receipt::RuntimeReceipt;
use crate::attempt::PreparedAttempt;
use crate::records::{DispatchRecord, PlanAuthorizationRecord};
use crate::text::{cat, is_hex, is_lower_hex, starts_with, str_eq};

verus! {

/// The launch phase of an ordinary control acceptance run.
#[derive(Debug, Clone, Copy, PartialEq, Eq, Structural)]
pub enum OrdinaryControlPhase {
    First,
    Reopen,
}

impl OrdinaryControlPhase {
    pub open spec fn name(self) -> Seq<char> {
        match self {
            OrdinaryControlPhase::First => "first"@,
            OrdinaryControlPhase::Reopen => "reopen"@,
        }
    }

    pub fn parse(value: &str) -> (r: Result<OrdinaryControlPhase, String>)
        ensures
            if value@ == "first"@ {
                r == Ok::<OrdinaryControlPhase, String>(OrdinaryControlPhase::First)
            } else if value@ == "reopen"@ {
                r == Ok::<OrdinaryControlPhase, String>(OrdinaryControlPhase::Reopen)
            } else {
                r matches Err(e) && e@ == "m5r07_ordinary_control_phase_invalid"@
            },
    {
        if str_eq(value, "first") {
            Ok(OrdinaryControlPhase::First)
        } else if str_eq(value, "reopen") {
            Ok(OrdinaryControlPhase::Reopen)
        } else {
            Err(String::from_str("m5r07_ordinary_control_phase_invalid"))
        }
    }

    pub fn as_str(self) -> (r: &'static str)
        ensures
            r@ == self.name(),
    {
        match self {
            OrdinaryControlPhase::First => "first",
            OrdinaryControlPhase::Reopen => "reopen",
        }
    }
}

/// What the ordinary control acceptance reports about itself.
#[derive(Debug, Clone)]
pub struct M5OrdinaryControlAcceptanceStatus {
    pub active: bool,
    pub composition: &'static str,
    pub not_legacy_composition: bool,
    pub not_stage_closeout: bool,
    pub ordinary_disposable_fixture_only: bool,
    pub project_locator: String,
    pub project_id: String,
    pub phase: String,
    pub m1_authority_installed: bool,
    pub m3_authority_installed: bool,
    pub open_available: bool,
}

/// The status when no ordinary control acceptance was requested.
pub fn inactive_status() -> (r: M5OrdinaryControlAcceptanceStatus)
    ensures
        !r.active,
        r.composition@ == "INACTIVE"@,
        r.not_legacy_composition,
        r.not_stage_closeout,
        r.ordinary_disposable_fixture_only,
        r.project_locator@.len() == 0,
        r.project_id@.len() == 0,
        r.phase@.len() == 0,
        !r.m1_authority_installed,
        !r.m3_authority_installed,
        !r.open_available,
{
    M5OrdinaryControlAcceptanceStatus {
        active: false,
        composition: "INACTIVE",
        not_legacy_composition: true,
        not_stage_closeout: true,
        ordinary_disposable_fixture_only: true,
        project_locator: String::new(),
        project_id: String::new(),
        phase: String::new(),
        m1_authority_installed: false,
        m3_authority_installed: false,
        open_available: false,
    }
}

/// The exact chain loaded from the stores for one project.
#[derive(Debug, Clone)]
pub struct LoadedExactChain {
    pub proposal_id: Option<String>,
    pub authorization_decision_id: Option<String>,
    pub authorization_id: Option<String>,
    pub workflow_run_id: Option<String>,
    pub work_item_id: Option<String>,
    pub attempt_id: Option<String>,
    pub grant_id: Option<String>,
    pub dispatch_id: Option<String>,
    pub runtime_receipt_id: Option<String>,
    pub execution_readback_id: Option<String>,
    pub claim_id: Option<String>,
    pub executed_claim_id: Option<String>,
    pub review_id: Option<String>,
    pub result_decision_id: Option<String>,
    pub fact_id: Option<String>,
    pub join_project_id: Option<String>,
    pub orchestration_id: Option<String>,
    pub node_id: Option<String>,
    pub worker_session_id: Option<String>,
    pub review_outcome: Option<String>,
    pub result_decision: Option<String>,
    pub review_reviewer_actor: Option<String>,
    pub review_reviewer_session: Option<String>,
    pub claim_worker_session: Option<String>,
    pub terminal_readback: bool,
    pub joins_hold: bool,
}

/// An optional text that is present and equal to `t`.
pub open spec fn is_text(o: Option<String>, t: Seq<char>) -> bool {
    o matches Some(s) && s@ == t
}

fn opt_is(o: &Option<String>, t: &str) -> (b: bool)
    ensures
        b == is_text(*o, t@),
{
    match o {
        Some(s) => str_eq(s.as_str(), t),
        None => false,
    }
}

impl LoadedExactChain {
    /// Every link of the chain is present, joins hold, the readback is
    /// terminal, the independent assessment verified, the result was
    /// accepted, the chain is for `project_id`, and the assessor is
    /// independent.
    pub open spec fn complete_for(self, project_id: Seq<char>, independent_reviewer: bool) -> bool {
        &&& independent_reviewer
        &&& self.joins_hold
        &&& self.terminal_readback
        &&& self.executed_claim_id is Some
        &&& is_text(self.review_outcome, "VERIFIED"@)
        &&& is_text(self.result_decision, "ACCEPTED_RESULT"@)
        &&& self.proposal_id is Some
        &&& self.authorization_decision_id is Some
        &&& self.authorization_id is Some
        &&& self.workflow_run_id is Some
        &&& self.work_item_id is Some
        &&& self.attempt_id is Some
        &&& self.grant_id is Some
        &&& self.dispatch_id is Some
        &&& self.runtime_receipt_id is Some
        &&& self.execution_readback_id is Some
        &&& self.claim_id is Some
        &&& self.review_id is Some
        &&& self.result_decision_id is Some
        &&& self.fact_id is Some
        &&& is_text(self.join_project_id, project_id)
        &&& self.orchestration_id is Some
        &&& self.node_id is Some
        &&& self.worker_session_id is Some
    }

    pub fn is_complete(&self, project_id: &str, independent_reviewer: &bool) -> (b: bool)
        ensures
            b == self.complete_for(project_id@, *independent_reviewer),
    {
        *independent_reviewer && self.joins_hold && self.terminal_readback
            && self.executed_claim_id.is_some() && opt_is(&self.review_outcome, "VERIFIED")
            && opt_is(&self.result_decision, "ACCEPTED_RESULT") && self.proposal_id.is_some()
            && self.authorization_decision_id.is_some() && self.authorization_id.is_some()
            && self.workflow_run_id.is_some() && self.work_item_id.is_some()
            && self.attempt_id.is_some() && self.grant_id.is_some() && self.dispatch_id.is_some()
            && self.runtime_receipt_id.is_some() && self.execution_readback_id.is_some()
            && self.claim_id.is_some() && self.review_id.is_some()
            && self.result_decision_id.is_some() && self.fact_id.is_some() && opt_is(
            &self.join_project_id,
            project_id,
        ) && self.orchestration_id.is_some() && self.node_id.is_some()
            && self.worker_session_id.is_some()
    }
}

/// The assessor is independent of the worker: both are known, they share
/// neither actor nor session, the stored assessment names this assessor, and
/// the stored claim was made by this worker, not the assessor.
pub open spec fn reviewer_independent(
    worker: Option<(String, String)>,
    reviewer: Option<(String, String)>,
    chain: LoadedExactChain,
) -> bool {
    match (worker, reviewer) {
        (Some((wa, ws)), Some((ra, rs))) => {
            &&& wa@ != ra@
            &&& ws@ != rs@
            &&& (chain.review_reviewer_actor matches Some(x) ==> x@ == ra@)
            &&& (chain.review_reviewer_session matches Some(x) ==> x@ == rs@)
            &&& (chain.claim_worker_session matches Some(x) ==> x@ != rs@ && x@ == ws@)
        },
        _ => false,
    }
}

pub fn independent_reviewer_from_authority(
    worker: &Option<(String, String)>,
    reviewer: &Option<(String, String)>,
    chain: &LoadedExactChain,
) -> (b: bool)
    ensures
        b == reviewer_independent(*worker, *reviewer, *chain),
{
    let (worker_actor, worker_session) = match worker {
        Some(w) => (&w.0, &w.1),
        None => {
            return false;
        },
    };
    let (reviewer_actor, reviewer_session) = match reviewer {
        Some(r) => (&r.0, &r.1),
        None => {
            return false;
        },
    };
    if str_eq(worker_actor.as_str(), reviewer_actor.as_str()) || str_eq(
        worker_session.as_str(),
        reviewer_session.as_str(),
    ) {
        return false;
    }
    match &chain.review_reviewer_actor {
        Some(a) => {
            if !str_eq(a.as_str(), reviewer_actor.as_str()) {
                return false;
            }
        },
        None => {},
    }
    match &chain.review_reviewer_session {
        Some(s) => {
            if !str_eq(s.as_str(), reviewer_session.as_str()) {
                return false;
            }
        },
        None => {},
    }
    match &chain.claim_worker_session {
        Some(c) => {
            if str_eq(c.as_str(), reviewer_session.as_str()) || !str_eq(
                c.as_str(),
                worker_session.as_str(),
            ) {
                return false;
            }
        },
        None => {},
    }
    true
}

/// A run id of the form `syn-m5r07-` followed by 16 lowercase hex digits.
pub open spec fn valid_run_id_text(s: Seq<char>) -> bool {
    &&& starts_with(s, "syn-m5r07-"@)
    &&& s.len() == 26
    &&& forall|i: int| 10 <= i < 26 ==> is_lower_hex(#[trigger] s[i])
}

pub fn valid_run_id(value: &str) -> (b: bool)
    ensures
        b == valid_run_id_text(value@),
{
    proof {
        reveal_strlit("syn-m5r07-");
    }
    if !crate::text::starts_with_str(value, "syn-m5r07-") {
        return false;
    }
    let cs = crate::text::chars_of(value);
    if cs.len() != 26 {
        return false;
    }
    let mut i: usize = 10;
    while i < 26
        invariant
            cs@ == value@,
            cs.len() == 26,
            10 <= i <= 26,
            forall|j: int| 10 <= j < i ==> is_lower_hex(#[trigger] value@[j]),
        decreases 26 - i,
    {
        let c = cs[i];
        if !(('0' <= c && c <= '9') || ('a' <= c && c <= 'f')) {
            return false;
        }
        i = i + 1;
    }
    true
}

/// What an ordinary control acceptance profile is for.
pub const ORDINARY_CONTROL_PURPOSE: &'static str = "syn-m5r07-ordinary-disposable-positive-tauri-v1";

/// The paths a profile names, relative to its root.
#[derive(Debug, Clone)]
pub struct OrdinaryControlManifestPaths {
    pub app_data_relative_path: String,
    pub index_relative_path: String,
    pub tasks_relative_path: String,
    pub logs_relative_path: String,
}

/// The manifest of an ordinary control acceptance profile.
#[derive(Debug, Clone)]
pub struct OrdinaryControlManifest {
    pub schema_version: u64,
    pub purpose: String,
    pub run_id: String,
    pub expires_at_ms: i64,
    pub capability_sha256: String,
    pub project_relative_path: String,
    pub paths: OrdinaryControlManifestPaths,
}

/// A capability token: 64 hexadecimal digits.
pub open spec fn valid_capability_text(s: Seq<char>) -> bool {
    &&& s.len() == 64
    &&& forall|i: int| 0 <= i < 64 ==> is_hex(#[trigger] s[i])
}

/// Checks the capability handed to a profile run before its profile is read.
pub fn check_profile_capability(capability: &str) -> (r: Result<(), String>)
    ensures
        r is Ok <==> valid_capability_text(capability@),
        r matches Err(e) ==> e@ == "m5r07_ordinary_control_capability_invalid"@,
{
    let cs = crate::text::chars_of(capability);
    if cs.len() != 64 {
        return Err(String::from_str("m5r07_ordinary_control_capability_invalid"));
    }
    let mut i: usize = 0;
    while i < 64
        invariant
            cs@ == capability@,
            cs.len() == 64,
            i <= 64,
            forall|j: int| 0 <= j < i ==> is_hex(#[trigger] capability@[j]),
        decreases 64 - i,
    {
        let c = cs[i];
        if !(('0' <= c && c <= '9') || ('a' <= c && c <= 'f') || ('A' <= c && c <= 'F')) {
            return Err(String::from_str("m5r07_ordinary_control_capability_invalid"));
        }
        i = i + 1;
    }
    Ok(())
}

/// Why a profile manifest is refused for a capability at a time, if it is.
pub open spec fn manifest_refusal(m: OrdinaryControlManifest, capability: Seq<char>, now_ms: i64) -> Option<
    Seq<char>,
> {
    if m.schema_version != 1 || m.purpose@ != ORDINARY_CONTROL_PURPOSE@ {
        Some("m5r07_ordinary_control_profile_schema_invalid"@)
    } else if now_ms >= m.expires_at_ms {
        Some("m5r07_ordinary_control_profile_expired"@)
    } else if sha256_hex_of(capability) != m.capability_sha256@ {
        Some("m5r07_ordinary_control_capability_mismatch"@)
    } else if !valid_run_id_text(m.run_id@) {
        Some("m5r07_ordinary_control_run_id_invalid"@)
    } else {
        None
    }
}

/// Checks a read profile manifest: its schema and purpose, that it has not
/// expired, that it was issued for this capability (by digest), and its run id.
pub fn check_profile_manifest(manifest: &OrdinaryControlManifest, capability: &str, now_ms: i64) -> (r: Result<
    (),
    String,
>)
    ensures
        match manifest_refusal(*manifest, capability@, now_ms) {
            Some(e) => r matches Err(m) && m@ == e,
            None => r is Ok,
        },
{
    if manifest.schema_version != 1 || !str_eq(manifest.purpose.as_str(), ORDINARY_CONTROL_PURPOSE) {
        return Err(String::from_str("m5r07_ordinary_control_profile_schema_invalid"));
    }
    if now_ms >= manifest.expires_at_ms {
        return Err(String::from_str("m5r07_ordinary_control_profile_expired"));
    }
    let digest = sha256_hex(capability);
    if !str_eq(digest.as_str(), manifest.capability_sha256.as_str()) {
        return Err(String::from_str("m5r07_ordinary_control_capability_mismatch"));
    }
    if !valid_run_id(manifest.run_id.as_str()) {
        return Err(String::from_str("m5r07_ordinary_control_run_id_invalid"));
    }
    Ok(())
}

// ---------------------------------------------------------------------------
// Loading the exact chain
// ---------------------------------------------------------------------------

/// A stored claim with the join fields it was recorded under.
#[derive(Debug, Clone)]
pub struct ClaimJoin {
    pub claim_id: String,
    pub report_kind: String,
    pub project_id: String,
    pub orchestration_id: String,
    pub workflow_run_id: Option<String>,
    pub work_item_id: Option<String>,
    pub node_id: Option<String>,
    pub dispatch_id: Option<String>,
    pub attempt_id: Option<String>,
    pub grant_id: Option<String>,
    pub worker_role_session_id: Option<String>,
    pub authoritative_receipt_ref: Option<String>,
}

/// A stored independent assessment of a claim.
#[derive(Debug, Clone)]
pub struct AssessmentJoin {
    pub assessment_id: String,
    pub claim_id: String,
    pub assessor_actor_id: String,
    pub assessor_role_session_id: String,
    pub outcome: String,
}

/// The persisted readback of an execution attempt, and whether it matches
/// the runtime receipt it was loaded for.
#[derive(Debug, Clone)]
pub struct ExecutionReadbackJoin {
    pub receipt_id: String,
    pub grant_id: String,
    pub attempt_id: String,
    pub dispatch_id: String,
    pub actor_binding: String,
    pub derived_attempt_state: String,
    pub matches_receipt: bool,
}

/// The stored records an exact chain joins beyond the orchestration store's
/// own: each load is scoped to the project (and further join keys), and
/// `Ok(None)` means no such record.
pub trait ExactChainReadPort {
    fn load_authorization_decision(
        &self,
        authorization_decision_id: &str,
        project_id: &str,
        orchestration_id: &str,
    ) -> Result<Option<(String, String)>, String>;

    fn load_proposal_id(&self, proposal_id: &str, project_id: &str) -> Result<Option<String>, String>;

    fn load_workflow_run_join(&self, workflow_run_id: &str, project_id: &str) -> Result<
        Option<(String, String, String)>,
        String,
    >;

    fn load_work_item_join(&self, work_item_id: &str, project_id: &str) -> Result<
        Option<(String, String, String, String)>,
        String,
    >;

    /// The runtime receipt recorded as formal progress, decoded.
    fn decode_runtime_receipt(&self, receipt_json: &str) -> Result<RuntimeReceipt, String>;

    fn load_execution_readback(&self, receipt: &RuntimeReceipt) -> Result<
        Option<ExecutionReadbackJoin>,
        String,
    >;

    fn load_claim_join(&self, claim_id: &str, project_id: &str) -> Result<Option<ClaimJoin>, String>;

    fn load_assessment(&self, assessment_id: &str, project_id: &str, claim_id: &str) -> Result<
        Option<AssessmentJoin>,
        String,
    >;

    fn load_result_decision(&self, assessment_id: &str, project_id: &str) -> Result<
        Option<(String, String)>,
        String,
    >;

    fn load_fact_id(&self, claim_id: &str, result_decision_id: &str, project_id: &str) -> Result<
        Option<String>,
        String,
    >;
}

/// The formal progress of a project: grant, dispatch, receipt JSON, claim
/// and assessment ids, each once recorded.
pub type FormalProgress = (Option<String>, Option<String>, Option<String>, Option<String>, Option<String>);

/// Every link of the core chain is present.
pub open spec fn core_linked(c: LoadedExactChain) -> bool {
    &&& c.proposal_id is Some
    &&& c.authorization_decision_id is Some
    &&& c.authorization_id is Some
    &&& c.workflow_run_id is Some
    &&& c.work_item_id is Some
    &&& c.attempt_id is Some
    &&& c.grant_id is Some
    &&& c.dispatch_id is Some
    &&& c.join_project_id is Some
    &&& c.orchestration_id is Some
    &&& c.node_id is Some
    &&& c.worker_session_id is Some
}

/// Nothing of the chain was found.
pub open spec fn chain_empty(c: LoadedExactChain) -> bool {
    &&& c.proposal_id is None
    &&& c.authorization_decision_id is None
    &&& c.authorization_id is None
    &&& c.workflow_run_id is None
    &&& c.work_item_id is None
    &&& c.attempt_id is None
    &&& c.grant_id is None
    &&& c.dispatch_id is None
    &&& c.runtime_receipt_id is None
    &&& c.execution_readback_id is None
    &&& c.claim_id is None
    &&& c.executed_claim_id is None
    &&& c.review_id is None
    &&& c.result_decision_id is None
    &&& c.fact_id is None
    &&& c.join_project_id is None
    &&& c.orchestration_id is None
    &&& c.node_id is None
    &&& c.worker_session_id is None
    &&& c.review_outcome is None
    &&& c.result_decision is None
    &&& c.review_reviewer_actor is None
    &&& c.review_reviewer_session is None
    &&& c.claim_worker_session is None
    &&& !c.terminal_readback
    &&& !c.joins_hold
}

/// An optional text equal to an optional text.
pub open spec fn same_opt(a: Option<String>, b: Option<String>) -> bool {
    match (a, b) {
        (Some(x), Some(y)) => x@ == y@,
        (None, None) => true,
        _ => false,
    }
}

/// The shape every loaded chain has: the core links are found together or
/// not at all, only with a recorded grant and dispatch and for the project
/// asked about; the receipt and its readback come together and only after
/// the core and a recorded receipt; the claim only after the core and a
/// recorded claim, made by the chain's worker; the assessment only after
/// the claim and a recorded assessment; the result decision after the
/// assessment, the fact after claim and decision; and the joins hold
/// exactly when the core is linked.
pub open spec fn chain_shape(c: LoadedExactChain, project_id: Seq<char>, progress: FormalProgress) -> bool {
    &&& core_linked(c) || chain_empty(c)
    &&& core_linked(c) ==> (progress.0 is Some && progress.1 is Some)
    &&& c.join_project_id matches Some(p) ==> p@ == project_id
    &&& (c.runtime_receipt_id is Some <==> c.execution_readback_id is Some)
    &&& c.runtime_receipt_id is Some ==> (core_linked(c) && progress.2 is Some)
    &&& c.terminal_readback ==> c.runtime_receipt_id is Some
    &&& c.claim_id is Some ==> (core_linked(c) && progress.3 is Some)
    &&& (c.claim_id is Some <==> c.claim_worker_session is Some)
    &&& c.claim_worker_session is Some ==> same_opt(c.claim_worker_session, c.worker_session_id)
    &&& c.executed_claim_id matches Some(e) ==> (c.terminal_readback && is_text(c.claim_id, e@))
    &&& c.review_id is Some ==> (c.claim_id is Some && progress.4 is Some)
    &&& (c.review_id is Some <==> c.review_outcome is Some)
    &&& (c.review_id is Some <==> c.review_reviewer_actor is Some)
    &&& (c.review_id is Some <==> c.review_reviewer_session is Some)
    &&& (c.result_decision_id is Some <==> c.result_decision is Some)
    &&& c.result_decision_id is Some ==> c.review_id is Some
    &&& c.fact_id is Some ==> (c.claim_id is Some && c.result_decision_id is Some)
    &&& c.joins_hold == core_linked(c)
}

impl Default for LoadedExactChain {
    fn default() -> (c: LoadedExactChain)
        ensures
            chain_empty(c),
    {
        LoadedExactChain {
            proposal_id: None,
            authorization_decision_id: None,
            authorization_id: None,
            workflow_run_id: None,
            work_item_id: None,
            attempt_id: None,
            grant_id: None,
            dispatch_id: None,
            runtime_receipt_id: None,
            execution_readback_id: None,
            claim_id: None,
            executed_claim_id: None,
            review_id: None,
            result_decision_id: None,
            fact_id: None,
            join_project_id: None,
            orchestration_id: None,
            node_id: None,
            worker_session_id: None,
            review_outcome: None,
            result_decision: None,
            review_reviewer_actor: None,
            review_reviewer_session: None,
            claim_worker_session: None,
            terminal_readback: false,
            joins_hold: false,
        }
    }
}

/// The core of an exact chain as loaded and joined: the decision, proposal,
/// authorization, run, work item and node ids, and the grant and dispatch
/// records.
pub struct CoreJoin {
    pub proposal_id: String,
    pub authorization_decision_id: String,
    pub authorization_id: String,
    pub workflow_run_id: String,
    pub work_item_id: String,
    pub node_id: String,
    pub attempt_id: String,
    pub grant: ExecutionGrant,
    pub dispatch: DispatchRecord,
}

fn opt_eq_str(o: &Option<String>, t: &str) -> (b: bool)
    ensures
        b == is_text(*o, t@),
{
    match o {
        Some(s) => str_eq(s.as_str(), t),
        None => false,
    }
}

/// The dispatch belongs to the project and carries the grant's ids, its
/// attempt, run, work item, orchestration and worker.
pub open spec fn dispatch_joins(project_id: Seq<char>, g: ExecutionGrant, d: DispatchRecord) -> bool {
    &&& d.project_id@ == project_id
    &&& d.grant_id@ == g.grant_id.0@
    &&& d.attempt_id@ == g.attempt_id.0@
    &&& d.workflow_run_id@ == g.workflow_run_id.0@
    &&& d.work_item_id@ == g.work_item_id.0@
    &&& d.orchestration_id@ == g.orchestration_id.0@
    &&& d.worker_role_session_id@ == g.worker_role_session_id@
}

/// Whether a dispatch joins a grant within a project.
pub fn dispatch_joins_grant(project_id: &str, grant: &ExecutionGrant, dispatch: &DispatchRecord) -> (b:
    bool)
    ensures
        b == dispatch_joins(project_id@, *grant, *dispatch),
{
    str_eq(dispatch.project_id.as_str(), project_id) && str_eq(
        dispatch.grant_id.as_str(),
        grant.grant_id.as_str(),
    ) && str_eq(dispatch.attempt_id.as_str(), grant.attempt_id.as_str()) && str_eq(
        dispatch.workflow_run_id.as_str(),
        grant.workflow_run_id.as_str(),
    ) && str_eq(dispatch.work_item_id.as_str(), grant.work_item_id.as_str()) && str_eq(
        dispatch.orchestration_id.as_str(),
        grant.orchestration_id.as_str(),
    ) && str_eq(dispatch.worker_role_session_id.as_str(), grant.worker_role_session_id.as_str())
}

/// The authorization belongs to the project and is the grant's, in the
/// grant's orchestration.
pub open spec fn authorization_joins(project_id: Seq<char>, g: ExecutionGrant, a: PlanAuthorizationRecord) -> bool {
    &&& a.project_id@ == project_id
    &&& a.orchestration_id@ == g.orchestration_id.0@
    &&& a.authorization_id@ == g.authorization_id.0@
}

/// Whether an authorization joins a grant within a project.
pub fn authorization_joins_grant(
    project_id: &str,
    grant: &ExecutionGrant,
    authorization: &PlanAuthorizationRecord,
) -> (b: bool)
    ensures
        b == authorization_joins(project_id@, *grant, *authorization),
{
    str_eq(authorization.project_id.as_str(), project_id) && str_eq(
        authorization.orchestration_id.as_str(),
        grant.orchestration_id.as_str(),
    ) && str_eq(authorization.authorization_id.as_str(), grant.authorization_id.as_str())
}

/// The attempt belongs to the project, sits on the grant's orchestration,
/// run, work item, node and worker, and is bound to the grant.
pub open spec fn attempt_joins(project_id: Seq<char>, g: ExecutionGrant, node_id: Seq<char>, a: PreparedAttempt) -> bool {
    &&& a.project_id@ == project_id
    &&& a.orchestration_id.0@ == g.orchestration_id.0@
    &&& a.workflow_run_id.0@ == g.workflow_run_id.0@
    &&& a.work_item_id.0@ == g.work_item_id.0@
    &&& a.node_id.0@ == node_id
    &&& a.worker_role_session_id@ == g.worker_role_session_id@
    &&& a.grant_id matches Some(id) && id.0@ == g.grant_id.0@
}

/// Whether an attempt joins a grant at a node within a project.
pub fn attempt_joins_grant(project_id: &str, grant: &ExecutionGrant, node_id: &str, attempt: &PreparedAttempt) -> (b: bool)
    ensures
        b == attempt_joins(project_id@, *grant, node_id@, *attempt),
{
    let bound = match &attempt.grant_id {
        Some(id) => str_eq(id.as_str(), grant.grant_id.as_str()),
        None => false,
    };
    str_eq(attempt.project_id.as_str(), project_id) && str_eq(
        attempt.orchestration_id.as_str(),
        grant.orchestration_id.as_str(),
    ) && str_eq(attempt.workflow_run_id.as_str(), grant.workflow_run_id.as_str()) && str_eq(
        attempt.work_item_id.as_str(),
        grant.work_item_id.as_str(),
    ) && str_eq(attempt.node_id.as_str(), node_id) && str_eq(
        attempt.worker_role_session_id.as_str(),
        grant.worker_role_session_id.as_str(),
    ) && bound
}

/// The receipt names the grant, its attempt, the dispatch and the worker.
pub open spec fn receipt_joins(g: ExecutionGrant, d: DispatchRecord, r: RuntimeReceipt) -> bool {
    &&& r.grant_id.0@ == g.grant_id.0@
    &&& r.attempt_id.0@ == g.attempt_id.0@
    &&& r.dispatch_id@ == d.dispatch_id@
    &&& r.actor_binding@ == g.worker_role_session_id@
}

/// Whether a runtime receipt joins a grant and dispatch.
pub fn receipt_joins_grant(grant: &ExecutionGrant, dispatch: &DispatchRecord, receipt: &RuntimeReceipt) -> (b: bool)
    ensures
        b == receipt_joins(*grant, *dispatch, *receipt),
{
    str_eq(receipt.grant_id.as_str(), grant.grant_id.as_str()) && str_eq(
        receipt.attempt_id.as_str(),
        grant.attempt_id.as_str(),
    ) && str_eq(receipt.dispatch_id.as_str(), dispatch.dispatch_id.as_str()) && str_eq(
        receipt.actor_binding.as_str(),
        grant.worker_role_session_id.as_str(),
    )
}

/// The readback names the grant, its attempt, the dispatch and the worker,
/// and matches its receipt.
pub open spec fn readback_joins(g: ExecutionGrant, d: DispatchRecord, b: ExecutionReadbackJoin) -> bool {
    &&& b.grant_id@ == g.grant_id.0@
    &&& b.attempt_id@ == g.attempt_id.0@
    &&& b.dispatch_id@ == d.dispatch_id@
    &&& b.actor_binding@ == g.worker_role_session_id@
    &&& b.matches_receipt
}

/// Whether an execution readback joins a grant and dispatch.
pub fn readback_joins_grant(grant: &ExecutionGrant, dispatch: &DispatchRecord, readback: &ExecutionReadbackJoin) -> (b: bool)
    ensures
        b == readback_joins(*grant, *dispatch, *readback),
{
    str_eq(readback.grant_id.as_str(), grant.grant_id.as_str()) && str_eq(
        readback.attempt_id.as_str(),
        grant.attempt_id.as_str(),
    ) && str_eq(readback.dispatch_id.as_str(), dispatch.dispatch_id.as_str()) && str_eq(
        readback.actor_binding.as_str(),
        grant.worker_role_session_id.as_str(),
    ) && readback.matches_receipt
}

/// Whether a readback state ends the attempt.
pub fn is_terminal_readback_state(state: &str) -> (b: bool)
    ensures
        b == terminal_readback_state(state@),
{
    proof {
        reveal_strlit("SUCCEEDED");
        reveal_strlit("FAILED");
        reveal_strlit("CANCELLED");
        reveal_strlit("TIMED_OUT");
        reveal_strlit("UNKNOWN_READBACK");
    }
    str_eq(state, "SUCCEEDED") || str_eq(state, "FAILED") || str_eq(state, "CANCELLED") || str_eq(
        state,
        "TIMED_OUT",
    ) || str_eq(state, "UNKNOWN_READBACK")
}

/// The claim belongs to the project and carries every join key of the
/// chain, and cites the chain's runtime receipt (none when there is none).
pub open spec fn claim_joins(
    project_id: Seq<char>,
    g: ExecutionGrant,
    d: DispatchRecord,
    c: ClaimJoin,
    runtime_receipt_id: Option<String>,
) -> bool {
    &&& c.project_id@ == project_id
    &&& c.orchestration_id@ == g.orchestration_id.0@
    &&& is_text(c.workflow_run_id, g.workflow_run_id.0@)
    &&& is_text(c.work_item_id, g.work_item_id.0@)
    &&& is_text(c.node_id, d.node_id@)
    &&& is_text(c.dispatch_id, d.dispatch_id@)
    &&& is_text(c.attempt_id, g.attempt_id.0@)
    &&& is_text(c.grant_id, g.grant_id.0@)
    &&& is_text(c.worker_role_session_id, g.worker_role_session_id@)
    &&& same_opt(c.authoritative_receipt_ref, runtime_receipt_id)
}

/// Whether a stored claim joins the chain.
pub fn claim_joins_chain(
    project_id: &str,
    grant: &ExecutionGrant,
    dispatch: &DispatchRecord,
    claim: &ClaimJoin,
    runtime_receipt_id: &Option<String>,
) -> (b: bool)
    ensures
        b == claim_joins(project_id@, *grant, *dispatch, *claim, *runtime_receipt_id),
{
    let receipt_matches = match (&claim.authoritative_receipt_ref, runtime_receipt_id) {
        (Some(a), Some(b)) => str_eq(a.as_str(), b.as_str()),
        (None, None) => true,
        _ => false,
    };
    str_eq(claim.project_id.as_str(), project_id) && str_eq(
        claim.orchestration_id.as_str(),
        grant.orchestration_id.as_str(),
    ) && opt_eq_str(&claim.workflow_run_id, grant.workflow_run_id.as_str()) && opt_eq_str(
        &claim.work_item_id,
        grant.work_item_id.as_str(),
    ) && opt_eq_str(&claim.node_id, dispatch.node_id.as_str()) && opt_eq_str(
        &claim.dispatch_id,
        dispatch.dispatch_id.as_str(),
    ) && opt_eq_str(&claim.attempt_id, grant.attempt_id.as_str()) && opt_eq_str(
        &claim.grant_id,
        grant.grant_id.as_str(),
    ) && opt_eq_str(&claim.worker_role_session_id, grant.worker_role_session_id.as_str())
        && receipt_matches
}

/// The loaded core records join: the grant is of the project; the dispatch,
/// authorization and attempt join it; the decision names the authorization's
/// proposal; the run sits on the grant's orchestration and authorization;
/// the work item on its orchestration and run, at the dispatch's node.
pub open spec fn core_joins(
    project_id: Seq<char>,
    g: ExecutionGrant,
    d: DispatchRecord,
    a: PlanAuthorizationRecord,
    decision: (String, String),
    workflow: (String, String, String),
    work_item: (String, String, String, String),
    attempt: PreparedAttempt,
) -> bool {
    &&& g.project_id@ == project_id
    &&& dispatch_joins(project_id, g, d)
    &&& authorization_joins(project_id, g, a)
    &&& decision.1@ == a.proposal_id@
    &&& workflow.1@ == g.orchestration_id.0@
    &&& workflow.2@ == g.authorization_id.0@
    &&& work_item.1@ == g.orchestration_id.0@
    &&& work_item.2@ == g.workflow_run_id.0@
    &&& work_item.3@ == d.node_id@
    &&& attempt_joins(project_id, g, work_item.3@, attempt)
}

/// The core link of a chain from its loaded records: kept exactly when they
/// join, carrying their ids and the grant and dispatch.
pub open spec fn core_link_of(
    project_id: Seq<char>,
    g: ExecutionGrant,
    d: DispatchRecord,
    a: PlanAuthorizationRecord,
    decision: (String, String),
    proposal_id: String,
    workflow: (String, String, String),
    work_item: (String, String, String, String),
    attempt: PreparedAttempt,
    r: Option<CoreJoin>,
) -> bool {
    if core_joins(project_id, g, d, a, decision, workflow, work_item, attempt) {
        r matches Some(k) && {
            &&& k.proposal_id@ == proposal_id@
            &&& k.authorization_decision_id@ == decision.0@
            &&& k.authorization_id@ == a.authorization_id@
            &&& k.workflow_run_id@ == workflow.0@
            &&& k.work_item_id@ == work_item.0@
            &&& k.node_id@ == work_item.3@
            &&& k.attempt_id@ == attempt.attempt_id.0@
            &&& k.grant == g
            &&& k.dispatch == d
        }
    } else {
        r is None
    }
}

/// Links the loaded core records into a chain core, or not.
pub fn link_core(
    project_id: &str,
    grant: ExecutionGrant,
    dispatch: DispatchRecord,
    authorization: PlanAuthorizationRecord,
    decision: (String, String),
    proposal_id: String,
    workflow: (String, String, String),
    work_item: (String, String, String, String),
    attempt: &PreparedAttempt,
) -> (r: Option<CoreJoin>)
    ensures
        core_link_of(project_id@, grant, dispatch, authorization, decision, proposal_id, workflow, work_item, *attempt, r),
{
    if !(str_eq(grant.project_id.as_str(), project_id) && dispatch_joins_grant(project_id, &grant, &dispatch)
        && authorization_joins_grant(project_id, &grant, &authorization) && str_eq(
        decision.1.as_str(),
        authorization.proposal_id.as_str(),
    ) && str_eq(workflow.1.as_str(), grant.orchestration_id.as_str()) && str_eq(
        workflow.2.as_str(),
        grant.authorization_id.as_str(),
    ) && str_eq(work_item.1.as_str(), grant.orchestration_id.as_str()) && str_eq(
        work_item.2.as_str(),
        grant.workflow_run_id.as_str(),
    ) && str_eq(work_item.3.as_str(), dispatch.node_id.as_str()) && attempt_joins_grant(
        project_id,
        &grant,
        work_item.3.as_str(),
        attempt,
    )) {
        return None;
    }
    Some(
        CoreJoin {
            proposal_id,
            authorization_decision_id: decision.0,
            authorization_id: authorization.authorization_id,
            workflow_run_id: workflow.0,
            work_item_id: work_item.0,
            node_id: work_item.3,
            attempt_id: String::from_str(attempt.attempt_id.as_str()),
            grant,
            dispatch,
        },
    )
}

/// One read of a chain's core, with its keys and the store's answer.
pub ghost enum CoreRead {
    Grant(Seq<char>, Result<Option<ExecutionGrant>, String>),
    Dispatch(Seq<char>, Result<Option<DispatchRecord>, String>),
    Authorization(Seq<char>, Result<Option<PlanAuthorizationRecord>, String>),
    Decision(Seq<char>, Seq<char>, Seq<char>, Result<Option<(String, String)>, String>),
    Proposal(Seq<char>, Seq<char>, Result<Option<String>, String>),
    Workflow(Seq<char>, Seq<char>, Result<Option<(String, String, String)>, String>),
    WorkItem(Seq<char>, Seq<char>, Result<Option<(String, String, String, String)>, String>),
    Attempt(Seq<char>, Result<Option<PreparedAttempt>, String>),
}

/// A read port whose core reads are journaled, with their answers.
pub struct CoreReads<'a, P> {
    store: &'a P,
    reads: Ghost<Seq<CoreRead>>,
}

impl<'a, P> CoreReads<'a, P> {
    /// The core reads made so far, with the store's answers.
    pub closed spec fn log(&self) -> Seq<CoreRead> {
        self.reads@
    }
}

impl<'a, P: OrchestrationReadPort> CoreReads<'a, P> {
    /// A journal over `store`, with no read in it yet.
    pub fn new(store: &'a P) -> (j: Self)
        ensures
            j.log() == Seq::<CoreRead>::empty(),
    {
        CoreReads { store, reads: Ghost(Seq::empty()) }
    }

    /// The store itself, for the reads beyond the core.
    pub fn port(&self) -> &'a P {
        self.store
    }

    pub fn load_grant(&mut self, grant_id: &str) -> (r: Result<Option<ExecutionGrant>, String>)
        ensures
            final(self).log() == old(self).log().push(CoreRead::Grant(grant_id@, r)),
    {
        let r = self.store.load_grant(grant_id);
        self.reads = Ghost(self.reads@.push(CoreRead::Grant(grant_id@, r)));
        r
    }

    pub fn load_dispatch(&mut self, dispatch_id: &str) -> (r: Result<Option<DispatchRecord>, String>)
        ensures
            final(self).log() == old(self).log().push(CoreRead::Dispatch(dispatch_id@, r)),
    {
        let r = self.store.load_dispatch(dispatch_id);
        self.reads = Ghost(self.reads@.push(CoreRead::Dispatch(dispatch_id@, r)));
        r
    }

    pub fn load_authorization(&mut self, authorization_id: &str) -> (r: Result<Option<PlanAuthorizationRecord>, String>)
        ensures
            final(self).log() == old(self).log().push(CoreRead::Authorization(authorization_id@, r)),
    {
        let r = self.store.load_authorization(authorization_id);
        self.reads = Ghost(self.reads@.push(CoreRead::Authorization(authorization_id@, r)));
        r
    }
}

impl<'a, P: OrchestrationReadPort + ExactChainReadPort> CoreReads<'a, P> {
    pub fn load_authorization_decision(&mut self, authorization_decision_id: &str, project_id: &str, orchestration_id: &str) -> (r: Result<Option<(String, String)>, String>)
        ensures
            final(self).log() == old(self).log().push(CoreRead::Decision(authorization_decision_id@, project_id@, orchestration_id@, r)),
    {
        let r = self.store.load_authorization_decision(authorization_decision_id, project_id, orchestration_id);
        self.reads = Ghost(self.reads@.push(CoreRead::Decision(authorization_decision_id@, project_id@, orchestration_id@, r)));
        r
    }

    pub fn load_proposal_id(&mut self, proposal_id: &str, project_id: &str) -> (r: Result<Option<String>, String>)
        ensures
            final(self).log() == old(self).log().push(CoreRead::Proposal(proposal_id@, project_id@, r)),
    {
        let r = self.store.load_proposal_id(proposal_id, project_id);
        self.reads = Ghost(self.reads@.push(CoreRead::Proposal(proposal_id@, project_id@, r)));
        r
    }

    pub fn load_workflow_run_join(&mut self, workflow_run_id: &str, project_id: &str) -> (r: Result<Option<(String, String, String)>, String>)
        ensures
            final(self).log() == old(self).log().push(CoreRead::Workflow(workflow_run_id@, project_id@, r)),
    {
        let r = self.store.load_workflow_run_join(workflow_run_id, project_id);
        self.reads = Ghost(self.reads@.push(CoreRead::Workflow(workflow_run_id@, project_id@, r)));
        r
    }

    pub fn load_work_item_join(&mut self, work_item_id: &str, project_id: &str) -> (r: Result<Option<(String, String, String, String)>, String>)
        ensures
            final(self).log() == old(self).log().push(CoreRead::WorkItem(work_item_id@, project_id@, r)),
    {
        let r = self.store.load_work_item_join(work_item_id, project_id);
        self.reads = Ghost(self.reads@.push(CoreRead::WorkItem(work_item_id@, project_id@, r)));
        r
    }

    pub fn load_attempt(&mut self, attempt_id: &str) -> (r: Result<Option<PreparedAttempt>, String>)
        ensures
            final(self).log() == old(self).log().push(CoreRead::Attempt(attempt_id@, r)),
    {
        let r = self.store.load_attempt(attempt_id);
        self.reads = Ghost(self.reads@.push(CoreRead::Attempt(attempt_id@, r)));
        r
    }
}

/// The eight core reads of `log` from `start` on: each answered with a
/// record, each asked by the keys the formal progress and the records before
/// it give, and the records joining.
pub open spec fn core_reads_join(
    log: Seq<CoreRead>,
    start: int,
    project_id: Seq<char>,
    progress: FormalProgress,
) -> bool {
    let g = log[start]->Grant_1->Ok_0->Some_0;
    let d = log[start + 1]->Dispatch_1->Ok_0->Some_0;
    let a = log[start + 2]->Authorization_1->Ok_0->Some_0;
    let dec = log[start + 3]->Decision_3->Ok_0->Some_0;
    let wf = log[start + 5]->Workflow_2->Ok_0->Some_0;
    let wi = log[start + 6]->WorkItem_2->Ok_0->Some_0;
    let att = log[start + 7]->Attempt_1->Ok_0->Some_0;
    &&& 0 <= start && log.len() == start + 8
    &&& progress.0 is Some && progress.1 is Some
    &&& log[start] is Grant && log[start]->Grant_0 == progress.0->Some_0@
    &&& log[start]->Grant_1 is Ok && log[start]->Grant_1->Ok_0 is Some
    &&& log[start + 1] is Dispatch && log[start + 1]->Dispatch_0 == progress.1->Some_0@
    &&& log[start + 1]->Dispatch_1 is Ok && log[start + 1]->Dispatch_1->Ok_0 is Some
    &&& log[start + 2] is Authorization && log[start + 2]->Authorization_0 == g.authorization_id.0@
    &&& log[start + 2]->Authorization_1 is Ok && log[start + 2]->Authorization_1->Ok_0 is Some
    &&& log[start + 3] is Decision && log[start + 3]->Decision_0 == a.authorization_decision_id@
    &&& log[start + 3]->Decision_1 == project_id && log[start + 3]->Decision_2 == g.orchestration_id.0@
    &&& log[start + 3]->Decision_3 is Ok && log[start + 3]->Decision_3->Ok_0 is Some
    &&& log[start + 4] is Proposal && log[start + 4]->Proposal_0 == a.proposal_id@
    &&& log[start + 4]->Proposal_1 == project_id
    &&& log[start + 4]->Proposal_2 is Ok && log[start + 4]->Proposal_2->Ok_0 is Some
    &&& log[start + 5] is Workflow && log[start + 5]->Workflow_0 == g.workflow_run_id.0@
    &&& log[start + 5]->Workflow_1 == project_id
    &&& log[start + 5]->Workflow_2 is Ok && log[start + 5]->Workflow_2->Ok_0 is Some
    &&& log[start + 6] is WorkItem && log[start + 6]->WorkItem_0 == g.work_item_id.0@
    &&& log[start + 6]->WorkItem_1 == project_id
    &&& log[start + 6]->WorkItem_2 is Ok && log[start + 6]->WorkItem_2->Ok_0 is Some
    &&& log[start + 7] is Attempt && log[start + 7]->Attempt_0 == g.attempt_id.0@
    &&& log[start + 7]->Attempt_1 is Ok && log[start + 7]->Attempt_1->Ok_0 is Some
    &&& core_joins(project_id, g, d, a, dec, wf, wi, att)
}

/// The first read from `start` on asks for the grant the progress records.
pub open spec fn first_read_is_grant(log: Seq<CoreRead>, start: int, progress: FormalProgress) -> bool {
    log.len() > start && log[start] is Grant && log[start]->Grant_0 == progress.0->Some_0@
}

/// The core linked from the reads `core_reads_join` speaks of.
pub open spec fn core_from_reads(log: Seq<CoreRead>, start: int, project_id: Seq<char>, k: CoreJoin) -> bool {
    core_link_of(
        project_id,
        log[start]->Grant_1->Ok_0->Some_0,
        log[start + 1]->Dispatch_1->Ok_0->Some_0,
        log[start + 2]->Authorization_1->Ok_0->Some_0,
        log[start + 3]->Decision_3->Ok_0->Some_0,
        log[start + 4]->Proposal_2->Ok_0->Some_0,
        log[start + 5]->Workflow_2->Ok_0->Some_0,
        log[start + 6]->WorkItem_2->Ok_0->Some_0,
        log[start + 7]->Attempt_1->Ok_0->Some_0,
        Some(k),
    )
}

/// The core ids of `c` are those of the records read from `start` on.
pub open spec fn chain_core_is(c: LoadedExactChain, log: Seq<CoreRead>, start: int) -> bool {
    let g = log[start]->Grant_1->Ok_0->Some_0;
    let d = log[start + 1]->Dispatch_1->Ok_0->Some_0;
    let a = log[start + 2]->Authorization_1->Ok_0->Some_0;
    let att = log[start + 7]->Attempt_1->Ok_0->Some_0;
    &&& c.grant_id->Some_0@ == g.grant_id.0@
    &&& c.dispatch_id->Some_0@ == d.dispatch_id@
    &&& c.authorization_id->Some_0@ == a.authorization_id@
    &&& c.attempt_id->Some_0@ == att.attempt_id.0@
    &&& c.proposal_id->Some_0@ == log[start + 4]->Proposal_2->Ok_0->Some_0@
    &&& c.orchestration_id->Some_0@ == g.orchestration_id.0@
}

/// Loads the core chain from the recorded grant and dispatch: every record
/// must be of the project and agree with the grant on every join key.
fn load_core<'a, P: OrchestrationReadPort + ExactChainReadPort>(
    store: &mut CoreReads<'a, P>,
    project_id: &str,
    progress: &FormalProgress,
) -> (r: Result<Option<CoreJoin>, String>)
    ensures
        final(store).log().len() >= old(store).log().len(),
        forall|i: int| 0 <= i < old(store).log().len() ==> #[trigger] final(store).log()[i] == old(store).log()[i],
        progress.0 is Some ==> first_read_is_grant(final(store).log(), old(store).log().len() as int, *progress),
        core_reads_join(final(store).log(), old(store).log().len() as int, project_id@, *progress) ==> (r matches Ok(
            Some(k),
        ) && core_from_reads(final(store).log(), old(store).log().len() as int, project_id@, k)),
        r matches Ok(Some(k)) ==> core_reads_join(
            final(store).log(),
            old(store).log().len() as int,
            project_id@,
            *progress,
        ) && core_from_reads(final(store).log(), old(store).log().len() as int, project_id@, k),
        r matches Ok(Some(k)) ==> (progress.0 is Some && progress.1 is Some),
        progress.0 is None ==> r matches Ok(None),
        r matches Ok(Some(k)) ==> {
            &&& k.grant.project_id@ == project_id@
            &&& dispatch_joins(project_id@, k.grant, k.dispatch)
            &&& k.node_id@ == k.dispatch.node_id@
        },
{
    let grant_id = match &progress.0 {
        Some(g) => g,
        None => {
            return Ok(None);
        },
    };
    let grant = match store.load_grant(grant_id.as_str()) {
        Err(e) => {
            return Err(e);
        },
        Ok(None) => {
            return Ok(None);
        },
        Ok(Some(g)) => g,
    };
    if !str_eq(grant.project_id.as_str(), project_id) {
        return Ok(None);
    }
    let dispatch_id = match &progress.1 {
        Some(d) => d,
        None => {
            return Ok(None);
        },
    };
    let dispatch = match store.load_dispatch(dispatch_id.as_str()) {
        Err(e) => {
            return Err(e);
        },
        Ok(None) => {
            return Ok(None);
        },
        Ok(Some(d)) => d,
    };
    if !dispatch_joins_grant(project_id, &grant, &dispatch) {
        return Ok(None);
    }
    let authorization = match store.load_authorization(grant.authorization_id.as_str()) {
        Err(e) => {
            return Err(e);
        },
        Ok(None) => {
            return Ok(None);
        },
        Ok(Some(a)) => a,
    };
    if !authorization_joins_grant(project_id, &grant, &authorization) {
        return Ok(None);
    }
    let (authorization_decision_id, decision_proposal_id) = match store.load_authorization_decision(
        authorization.authorization_decision_id.as_str(),
        project_id,
        grant.orchestration_id.as_str(),
    ) {
        Err(e) => {
            return Err(e);
        },
        Ok(None) => {
            return Ok(None);
        },
        Ok(Some(d)) => d,
    };
    if !str_eq(decision_proposal_id.as_str(), authorization.proposal_id.as_str()) {
        return Ok(None);
    }
    let proposal_id = match store.load_proposal_id(authorization.proposal_id.as_str(), project_id) {
        Err(e) => {
            return Err(e);
        },
        Ok(None) => {
            return Ok(None);
        },
        Ok(Some(p)) => p,
    };
    let (workflow_run_id, workflow_orchestration, workflow_authorization) = match store.load_workflow_run_join(
        grant.workflow_run_id.as_str(),
        project_id,
    ) {
        Err(e) => {
            return Err(e);
        },
        Ok(None) => {
            return Ok(None);
        },
        Ok(Some(w)) => w,
    };
    if !str_eq(workflow_orchestration.as_str(), grant.orchestration_id.as_str()) || !str_eq(
        workflow_authorization.as_str(),
        grant.authorization_id.as_str(),
    ) {
        return Ok(None);
    }
    let (work_item_id, work_item_orchestration, work_item_workflow, node_id) = match store.load_work_item_join(
        grant.work_item_id.as_str(),
        project_id,
    ) {
        Err(e) => {
            return Err(e);
        },
        Ok(None) => {
            return Ok(None);
        },
        Ok(Some(w)) => w,
    };
    if !str_eq(work_item_orchestration.as_str(), grant.orchestration_id.as_str()) || !str_eq(
        work_item_workflow.as_str(),
        grant.workflow_run_id.as_str(),
    ) || !str_eq(node_id.as_str(), dispatch.node_id.as_str()) {
        return Ok(None);
    }
    let attempt = match store.load_attempt(grant.attempt_id.as_str()) {
        Err(e) => {
            return Err(e);
        },
        Ok(None) => {
            return Ok(None);
        },
        Ok(Some(a)) => a,
    };
    Ok(
        link_core(
            project_id,
            grant,
            dispatch,
            authorization,
            (authorization_decision_id, decision_proposal_id),
            proposal_id,
            (workflow_run_id, workflow_orchestration, workflow_authorization),
            (work_item_id, work_item_orchestration, work_item_workflow, node_id),
            &attempt,
        ),
    )
}

/// A readback state that ends the attempt.
pub open spec fn terminal_readback_state(s: Seq<char>) -> bool {
    s == "SUCCEEDED"@ || s == "FAILED"@ || s == "CANCELLED"@ || s == "TIMED_OUT"@ || s
        == "UNKNOWN_READBACK"@
}

/// The receipt link of a chain, from a decoded receipt and the readback
/// loaded for it: kept exactly when the receipt and the readback both join
/// the grant and dispatch; then the receipt id, the readback id, and whether
/// the readback state ends the attempt.
pub open spec fn readback_link_of(
    g: ExecutionGrant,
    d: DispatchRecord,
    receipt: RuntimeReceipt,
    readback: Option<ExecutionReadbackJoin>,
    r: Option<(String, String, bool)>,
) -> bool {
    match readback {
        Some(b) => if receipt_joins(g, d, receipt) && readback_joins(g, d, b) {
            r matches Some(t) && t.0@ == receipt.receipt_id.0@ && t.1@ == b.receipt_id@ && t.2
                == terminal_readback_state(b.derived_attempt_state@)
        } else {
            r is None
        },
        None => r is None,
    }
}

/// Links a runtime receipt and its readback into the chain, or not.
pub fn link_readback(
    grant: &ExecutionGrant,
    dispatch: &DispatchRecord,
    receipt: &RuntimeReceipt,
    readback: Option<ExecutionReadbackJoin>,
) -> (r: Option<(String, String, bool)>)
    ensures
        readback_link_of(*grant, *dispatch, *receipt, readback, r),
{
    match readback {
        None => None,
        Some(b) => {
            if !receipt_joins_grant(grant, dispatch, receipt) || !readback_joins_grant(grant, dispatch, &b) {
                return None;
            }
            let terminal = is_terminal_readback_state(b.derived_attempt_state.as_str());
            Some((String::from_str(receipt.receipt_id.as_str()), b.receipt_id, terminal))
        },
    }
}

/// The claim link of a chain, from the claim loaded for it: kept exactly
/// when the claim joins the chain; then the claim id, the chain's worker,
/// and the claim id again when it reports an execution whose readback ended
/// the attempt.
pub open spec fn claim_link_of(
    project_id: Seq<char>,
    g: ExecutionGrant,
    d: DispatchRecord,
    claim: Option<ClaimJoin>,
    runtime_receipt_id: Option<String>,
    terminal: bool,
    r: Option<(String, String, Option<String>)>,
) -> bool {
    match claim {
        Some(c) => if claim_joins(project_id, g, d, c, runtime_receipt_id) {
            r matches Some(t) && t.0@ == c.claim_id@ && t.1@ == g.worker_role_session_id@ && (if c.report_kind@
                == "executed"@ && terminal {
                t.2 matches Some(e) && e@ == c.claim_id@
            } else {
                t.2 is None
            })
        } else {
            r is None
        },
        None => r is None,
    }
}

/// Links a loaded claim into the chain, or not.
pub fn link_claim(
    project_id: &str,
    grant: &ExecutionGrant,
    dispatch: &DispatchRecord,
    claim: Option<ClaimJoin>,
    runtime_receipt_id: &Option<String>,
    terminal: bool,
) -> (r: Option<(String, String, Option<String>)>)
    ensures
        claim_link_of(project_id@, *grant, *dispatch, claim, *runtime_receipt_id, terminal, r),
{
    match claim {
        None => None,
        Some(c) => {
            if !claim_joins_chain(project_id, grant, dispatch, &c, runtime_receipt_id) {
                return None;
            }
            let worker = String::from_str(grant.worker_role_session_id.as_str());
            proof {
                reveal_strlit("executed");
            }
            let executed = if str_eq(c.report_kind.as_str(), "executed") && terminal {
                Some(c.claim_id.clone())
            } else {
                None
            };
            Some((c.claim_id, worker, executed))
        },
    }
}

/// The recorded runtime receipt and its readback, when both join the grant
/// and dispatch and the readback matches the receipt: the receipt id, the
/// readback id, and whether the readback is terminal.
fn load_receipt_readback<P: ExactChainReadPort>(
    store: &P,
    grant: &ExecutionGrant,
    dispatch: &DispatchRecord,
    receipt_json: &Option<String>,
) -> (r: Result<Option<(String, String, bool)>, String>)
    ensures
        r matches Ok(Some(_)) ==> receipt_json is Some,
        receipt_json is None ==> r matches Ok(None),
{
    let json = match receipt_json {
        Some(j) => j,
        None => {
            return Ok(None);
        },
    };
    let receipt = match store.decode_runtime_receipt(json.as_str()) {
        Err(e) => {
            return Err(e);
        },
        Ok(r) => r,
    };
    if !receipt_joins_grant(grant, dispatch, &receipt) {
        return Ok(None);
    }
    let readback = match store.load_execution_readback(&receipt) {
        Err(e) => {
            return Err(e);
        },
        Ok(b) => b,
    };
    Ok(link_readback(grant, dispatch, &receipt, readback))
}

/// The recorded claim when it joins the chain on every key and cites the
/// chain's runtime receipt (or none when there is none): its id, its worker,
/// and its id again when it reports an execution that ended.
fn load_joined_claim<P: ExactChainReadPort>(
    store: &P,
    project_id: &str,
    grant: &ExecutionGrant,
    dispatch: &DispatchRecord,
    claim_id: &Option<String>,
    runtime_receipt_id: &Option<String>,
    terminal: bool,
) -> (r: Result<Option<(String, String, Option<String>)>, String>)
    ensures
        r matches Ok(Some(k)) ==> {
            &&& claim_id is Some
            &&& k.1@ == grant.worker_role_session_id@
            &&& k.2 matches Some(e) ==> (e@ == k.0@ && terminal)
        },
        claim_id is None ==> r matches Ok(None),
{
    let id = match claim_id {
        Some(c) => c,
        None => {
            return Ok(None);
        },
    };
    let claim = match store.load_claim_join(id.as_str(), project_id) {
        Err(e) => {
            return Err(e);
        },
        Ok(c) => c,
    };
    Ok(link_claim(project_id, grant, dispatch, claim, runtime_receipt_id, terminal))
}

/// Loads the exact chain recorded as a project's formal progress: the core
/// from the recorded grant and dispatch, joined across every store; then the
/// runtime receipt and its readback, the claim, its independent assessment,
/// the result decision and the fact, each only when it joins what came
/// before. A link that does not join is left out; only storage failures
/// are errors.
pub fn load_exact_chain<'a, P: OrchestrationReadPort + ExactChainReadPort>(
    store: &mut CoreReads<'a, P>,
    project_id: &str,
    progress: &FormalProgress,
) -> (r: Result<LoadedExactChain, String>)
    ensures
        r matches Ok(c) ==> chain_shape(c, project_id@, *progress),
        progress.0 is None ==> (r matches Ok(c) && chain_empty(c)),
        progress.0 is Some ==> first_read_is_grant(final(store).log(), old(store).log().len() as int, *progress),
        r matches Ok(c) ==> (core_linked(c) <==> core_reads_join(
            final(store).log(),
            old(store).log().len() as int,
            project_id@,
            *progress,
        )),
        r matches Ok(c) ==> (core_linked(c) ==> chain_core_is(c, final(store).log(), old(store).log().len() as int)),
{
    let mut chain = LoadedExactChain::default();
    let core = match load_core(store, project_id, progress) {
        Err(e) => {
            return Err(e);
        },
        Ok(None) => {
            return Ok(chain);
        },
        Ok(Some(k)) => k,
    };
    let grant = core.grant;
    let dispatch = core.dispatch;
    chain.proposal_id = Some(core.proposal_id);
    chain.authorization_decision_id = Some(core.authorization_decision_id);
    chain.authorization_id = Some(core.authorization_id);
    chain.workflow_run_id = Some(core.workflow_run_id);
    chain.work_item_id = Some(core.work_item_id);
    chain.attempt_id = Some(core.attempt_id);
    chain.grant_id = Some(String::from_str(grant.grant_id.as_str()));
    chain.dispatch_id = Some(String::from_str(dispatch.dispatch_id.as_str()));
    chain.join_project_id = Some(String::from_str(project_id));
    chain.orchestration_id = Some(String::from_str(grant.orchestration_id.as_str()));
    chain.node_id = Some(core.node_id);
    chain.worker_session_id = Some(String::from_str(grant.worker_role_session_id.as_str()));
    match load_receipt_readback(store.port(), &grant, &dispatch, &progress.2) {
        Err(e) => {
            return Err(e);
        },
        Ok(None) => {},
        Ok(Some((receipt_id, readback_id, terminal))) => {
            chain.runtime_receipt_id = Some(receipt_id);
            chain.execution_readback_id = Some(readback_id);
            chain.terminal_readback = terminal;
        },
    }
    match load_joined_claim(
        store.port(),
        project_id,
        &grant,
        &dispatch,
        &progress.3,
        &chain.runtime_receipt_id,
        chain.terminal_readback,
    ) {
        Err(e) => {
            return Err(e);
        },
        Ok(None) => {},
        Ok(Some((claim_id, worker, executed))) => {
            chain.claim_id = Some(claim_id);
            chain.claim_worker_session = Some(worker);
            chain.executed_claim_id = executed;
        },
    }
    let assessment = match (&progress.4, &chain.claim_id) {
        (Some(assessment_id), Some(claim_id)) => match store.port().load_assessment(
            assessment_id.as_str(),
            project_id,
            claim_id.as_str(),
        ) {
            Err(e) => {
                return Err(e);
            },
            Ok(a) => a,
        },
        _ => None,
    };
    if let Some(a) = assessment {
        chain.review_id = Some(a.assessment_id);
        chain.review_reviewer_actor = Some(a.assessor_actor_id);
        chain.review_reviewer_session = Some(a.assessor_role_session_id);
        chain.review_outcome = Some(a.outcome);
    }
    let result = match &chain.review_id {
        Some(assessment_id) => match store.port().load_result_decision(assessment_id.as_str(), project_id) {
            Err(e) => {
                return Err(e);
            },
            Ok(r) => r,
        },
        None => None,
    };
    if let Some((result_decision_id, decision)) = result {
        chain.result_decision_id = Some(result_decision_id);
        chain.result_decision = Some(decision);
    }
    let fact = match (&chain.claim_id, &chain.result_decision_id) {
        (Some(claim_id), Some(result_decision_id)) => match store.port().load_fact_id(
            claim_id.as_str(),
            result_decision_id.as_str(),
            project_id,
        ) {
            Err(e) => {
                return Err(e);
            },
            Ok(f) => f,
        },
        _ => None,
    };
    chain.fact_id = fact;
    chain.joins_hold = true;
    Ok(chain)
}

// ---------------------------------------------------------------------------
// The backend receipt
// ---------------------------------------------------------------------------

/// How the ordinary control acceptance composes the shell.
pub const ORDINARY_CONTROL_COMPOSITION: &'static str = "ORDINARY_TAURI_CONSTRUCTOR_SYNTHETIC_ISOLATED_INPUTS";

/// The schema of the backend receipt.
pub const BACKEND_RECEIPT_SCHEMA: &'static str = "syn.m5r07.ordinary-control-backend-receipt.v2";

/// The records of a project in the stores, by kind.
#[derive(Debug, Clone, Copy)]
pub struct StoreCounts {
    pub grants: i64,
    pub attempts: i64,
    pub dispatches: i64,
    pub durable_operations: i64,
    pub formal_receipts: i64,
    pub execution_readbacks: i64,
    pub claims: i64,
    pub reviews: i64,
    pub result_decisions: i64,
    pub project_facts: i64,
}

/// What the backend reports of an ordinary control run: the fixture's fixed
/// declarations, the project and its role sessions, the exact chain read
/// from the stores, the store counts, and the two verdicts.
#[derive(Debug, Clone)]
pub struct OrdinaryControlBackendReceipt {
    pub schema: String,
    pub phase: String,
    pub composition: String,
    pub not_legacy_composition: bool,
    pub not_stage_closeout: bool,
    pub ordinary_disposable_fixture_only: bool,
    pub real_ordinary_tauri_constructor: bool,
    pub synthetic_inputs: String,
    pub no_real_user_data: String,
    pub not_deployed: String,
    pub acceptance_only_m3_terminal_fixture: bool,
    pub project_locator: String,
    pub project_id: String,
    pub binding: Option<(String, String, String)>,
    pub supervisor: Option<(String, String)>,
    pub worker: Option<(String, String)>,
    pub reviewer: Option<(String, String)>,
    pub chain: LoadedExactChain,
    pub counts: StoreCounts,
    pub formal_grant_id_present: bool,
    pub formal_dispatch_id_present: bool,
    pub formal_receipt_present: bool,
    pub exact_chain_complete: bool,
    pub independent_reviewer: bool,
    pub derived_from: String,
    pub window_capture: String,
}

/// Composes the backend receipt from what was read: the chain is complete
/// only when every link joins for the project and the assessor is
/// independent of the worker by the role authority and the stored records.
pub fn compose_backend_receipt(
    phase: &str,
    locator: &str,
    project_id: &str,
    binding: Option<(String, String, String)>,
    supervisor: Option<(String, String)>,
    worker: Option<(String, String)>,
    reviewer: Option<(String, String)>,
    progress: &FormalProgress,
    counts: StoreCounts,
    chain: LoadedExactChain,
) -> (r: OrdinaryControlBackendReceipt)
    ensures
        r.independent_reviewer == reviewer_independent(worker, reviewer, chain),
        r.exact_chain_complete == chain.complete_for(project_id@, r.independent_reviewer),
        r.chain == chain,
        r.counts == counts,
        r.binding == binding,
        r.supervisor == supervisor,
        r.worker == worker,
        r.reviewer == reviewer,
        r.project_id@ == project_id@,
        r.project_locator@ == locator@,
        r.phase@ == phase@,
        r.formal_grant_id_present == progress.0 is Some,
        r.formal_dispatch_id_present == progress.1 is Some,
        r.formal_receipt_present == progress.2 is Some,
        r.schema@ == BACKEND_RECEIPT_SCHEMA@,
        r.composition@ == ORDINARY_CONTROL_COMPOSITION@,
        r.not_legacy_composition && r.not_stage_closeout && r.ordinary_disposable_fixture_only,
        r.real_ordinary_tauri_constructor && r.acceptance_only_m3_terminal_fixture,
        r.synthetic_inputs@ == "SYNTHETIC_INPUTS"@,
        r.no_real_user_data@ == "NO_REAL_USER_DATA"@,
        r.not_deployed@ == "NOT_DEPLOYED"@,
        r.derived_from@ == "backend_store"@,
        r.window_capture@ == "NO_WINDOW_CAPTURE"@,
{
    let independent_reviewer = independent_reviewer_from_authority(&worker, &reviewer, &chain);
    let exact_chain_complete = chain.is_complete(project_id, &independent_reviewer);
    OrdinaryControlBackendReceipt {
        schema: String::from_str(BACKEND_RECEIPT_SCHEMA),
        phase: String::from_str(phase),
        composition: String::from_str(ORDINARY_CONTROL_COMPOSITION),
        not_legacy_composition: true,
        not_stage_closeout: true,
        ordinary_disposable_fixture_only: true,
        real_ordinary_tauri_constructor: true,
        synthetic_inputs: String::from_str("SYNTHETIC_INPUTS"),
        no_real_user_data: String::from_str("NO_REAL_USER_DATA"),
        not_deployed: String::from_str("NOT_DEPLOYED"),
        acceptance_only_m3_terminal_fixture: true,
        project_locator: String::from_str(locator),
        project_id: String::from_str(project_id),
        binding,
        supervisor,
        worker,
        reviewer,
        chain,
        counts,
        formal_grant_id_present: progress.0.is_some(),
        formal_dispatch_id_present: progress.1.is_some(),
        formal_receipt_present: progress.2.is_some(),
        exact_chain_complete,
        independent_reviewer,
        derived_from: String::from_str("backend_store"),
        window_capture: String::from_str("NO_WINDOW_CAPTURE"),
    }
}

// ---------------------------------------------------------------------------
// The isolated acceptance receipt notes
// ---------------------------------------------------------------------------

/// `true` or `false`, as a bool prints.
pub open spec fn bool_text(b: bool) -> Seq<char> {
    if b {
        "true"@
    } else {
        "false"@
    }
}

fn bool_string(b: bool) -> (r: String)
    ensures
        r@ == bool_text(b),
{
    if b {
        String::from_str("true")
    } else {
        String::from_str("false")
    }
}

fn note(key: &str, b: bool) -> (r: String)
    ensures
        r@ == key@ + "="@ + bool_text(b),
{
    let mut r = String::from_str(key);
    r.append("=");
    let t = bool_string(b);
    r.append(t.as_str());
    r
}

/// The latest grant's join is exact: it reached a claim, an assessment of
/// it and a fact.
pub open spec fn exact_join_of(join: Option<(Option<String>, Option<String>, Option<String>)>) -> bool {
    join matches Some(j) && j.0 is Some && j.1 is Some && j.2 is Some
}

/// The notes an isolated acceptance receipt carries for its phase: for
/// scene A that no grant exists and a proposal was rejected; for scene B
/// that a proposal was approved, the exact join, whether the summary was
/// observed stale, and whether the deep link resolves; on resume whether
/// the binding was recovered; for any other phase the phase itself.
pub open spec fn receipt_notes_of(
    phase: Seq<char>,
    grants: i64,
    rejected: i64,
    approved: i64,
    join: Option<(Option<String>, Option<String>, Option<String>)>,
    stale: Option<bool>,
    deep_link_resolves: bool,
    binding_found: bool,
) -> Seq<Seq<char>> {
    if phase == "scene-a"@ {
        seq!["zero_grant"@ + "="@ + bool_text(grants == 0), "rejected_proposal"@ + "="@ + bool_text(rejected > 0)]
    } else if phase == "scene-b"@ {
        seq![
            "approved_proposal"@ + "="@ + bool_text(approved > 0),
            "exact_join"@ + "="@ + bool_text(exact_join_of(join)),
            "stale_observed"@ + "="@ + bool_text(stale == Some(true)),
            "deep_link_resolves"@ + "="@ + bool_text(deep_link_resolves),
        ]
    } else if phase == "resume"@ {
        seq!["binding_recovered"@ + "="@ + bool_text(binding_found)]
    } else {
        seq!["phase="@ + phase]
    }
}

/// The notes of an isolated acceptance receipt, from what the store showed.
pub fn derived_receipt_notes(
    phase: &str,
    grants: i64,
    rejected: i64,
    approved: i64,
    join: &Option<(Option<String>, Option<String>, Option<String>)>,
    stale: Option<bool>,
    deep_link_resolves: bool,
    binding_found: bool,
) -> (r: Vec<String>)
    ensures
        crate::order::views(r@) == receipt_notes_of(
            phase@,
            grants,
            rejected,
            approved,
            *join,
            stale,
            deep_link_resolves,
            binding_found,
        ),
{
    proof {
        reveal_strlit("scene-a");
        reveal_strlit("scene-b");
        reveal_strlit("resume");
    }
    let mut notes: Vec<String> = Vec::new();
    if str_eq(phase, "scene-a") {
        notes.push(note("zero_grant", grants == 0));
        notes.push(note("rejected_proposal", rejected > 0));
    } else if str_eq(phase, "scene-b") {
        let exact = match join {
            Some(j) => j.0.is_some() && j.1.is_some() && j.2.is_some(),
            None => false,
        };
        let stale_observed = match stale {
            Some(b) => b,
            None => false,
        };
        notes.push(note("approved_proposal", approved > 0));
        notes.push(note("exact_join", exact));
        notes.push(note("stale_observed", stale_observed));
        notes.push(note("deep_link_resolves", deep_link_resolves));
    } else if str_eq(phase, "resume") {
        notes.push(note("binding_recovered", binding_found));
    } else {
        notes.push(cat("phase=", phase));
    }
    proof {
        assert(crate::order::views(notes@) =~= receipt_notes_of(
            phase@,
            grants,
            rejected,
            approved,
            *join,
            stale,
            deep_link_resolves,
            binding_found,
        ));
    }
    notes
}

} // verus!
