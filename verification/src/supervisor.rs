//! The persistent project supervisor: a binding of one project-supervisor
//! role session to its project, the turns it takes (chat and read never
//! propose, grant or spawn), and the only road from a supervisor to dispatch,
//! through an approved proposal and the authorized dispatch chain.

use vstd::prelude::*;
use crate::dispatch::{prepare_and_dispatch, Journaled, OrchestrationWritePort};
use crate::orchestration::{AuthorizedExecutionRequest, AuthorizedExecutionResult, ChainFault};
use crate::outside::new_uuid_v4;
use crate::records::{SupervisorBinding, SupervisorProposal, SupervisorSessionRef};
use crate::text::{cat, str_eq};

verus! {

/// Where role sessions are loaded from; the supervisor never invents one.
pub trait ProjectSupervisorRoleSessionPort {
    fn load(&self, role_session_id: &str) -> Result<SupervisorSessionRef, String>;
}

/// The supervisor's own records.
pub trait SupervisorStorePort {
    fn load_binding(&self, project_id: &str, role_session_id: &str) -> Result<
        Option<SupervisorBinding>,
        String,
    >;

    fn insert_binding(&self, binding: &SupervisorBinding, now_ms: i64) -> Result<(), String>;

    /// Inserts a proposal as it is handed over.
    fn insert_proposal(&self, proposal: &SupervisorProposal, now_ms: i64) -> Result<(), String>;

    fn insert_turn(
        &self,
        turn_id: &str,
        binding: &SupervisorBinding,
        turn: &SupervisorTurn,
        now_ms: i64,
    ) -> Result<(), String>;

    /// The status of a proposal of this project, `None` when there is none.
    fn load_proposal_status(&self, proposal_id: &str, project_id: &str) -> Result<
        Option<String>,
        String,
    >;

    /// Marks a DRAFT proposal of this project and binding APPROVED; returns
    /// how many proposals changed.
    fn approve_draft_proposal(&self, proposal_id: &str, project_id: &str, binding_id: &str) -> Result<
        u64,
        String,
    >;
}

/// What a supervisor is asked to do in one turn.
#[derive(Debug, Clone)]
pub enum SupervisorAction {
    Chat { text: String },
    Read { query: String },
    SubmitProposal { goal: String },
}

/// What one turn did.
#[derive(Debug, Clone)]
pub struct SupervisorTurn {
    pub kind: String,
    pub created_proposal: bool,
    pub created_grant: bool,
    pub spawned: bool,
    pub text: String,
}

/// Why a loaded role session cannot supervise the expected project, if so.
pub open spec fn session_refusal(session: SupervisorSessionRef, expected_project_id: Seq<char>) -> Option<
    Seq<char>,
> {
    if session.role@ != "project_supervisor"@ {
        Some("role_is_not_project_supervisor"@)
    } else if session.project_id@ != expected_project_id {
        Some("role_session_project_mismatch"@)
    } else {
        None
    }
}

/// Checks a loaded role session against the project it should supervise.
pub fn check_supervisor_session(session: &SupervisorSessionRef, expected_project_id: &str) -> (r:
    Result<(), String>)
    ensures
        match session_refusal(*session, expected_project_id@) {
            Some(e) => r matches Err(m) && m@ == e,
            None => r is Ok,
        },
{
    if !str_eq(session.role.as_str(), "project_supervisor") {
        return Err(String::from_str("role_is_not_project_supervisor"));
    }
    if !str_eq(session.project_id.as_str(), expected_project_id) {
        return Err(String::from_str("role_session_project_mismatch"));
    }
    Ok(())
}

/// Opens the supervisor of a project for a role session, or resumes the
/// binding it already has: the session must be a project supervisor of that
/// project, and a resumed binding must be stored under that project and
/// role session and belong to the same actor.
pub fn open_or_resume_supervisor<P: ProjectSupervisorRoleSessionPort, S: SupervisorStorePort>(
    store: &S,
    sessions: &P,
    role_session_id: &str,
    expected_project_id: &str,
    now_ms: i64,
) -> (r: Result<SupervisorBinding, String>)
    ensures
        r matches Ok(b) ==> b.project_id@ == expected_project_id@ && b.role_session_id@
            == role_session_id@,
{
    let session = match sessions.load(role_session_id) {
        Ok(s) => s,
        Err(e) => {
            return Err(e);
        },
    };
    if let Err(e) = check_supervisor_session(&session, expected_project_id) {
        return Err(e);
    }
    match store.load_binding(expected_project_id, role_session_id) {
        Err(e) => {
            return Err(e);
        },
        Ok(Some(existing)) => {
            // Bindings are stored under their project and role session; one
            // under another key is not this supervisor's.
            if !str_eq(existing.project_id.as_str(), expected_project_id) || !str_eq(
                existing.role_session_id.as_str(),
                role_session_id,
            ) {
                return Err(String::from_str("supervisor_binding_mismatch"));
            }
            if !str_eq(existing.actor_id.as_str(), session.actor_id.as_str()) {
                return Err(String::from_str("role_session_actor_mismatch"));
            }
            return Ok(existing);
        },
        Ok(None) => {},
    }
    let id = new_uuid_v4();
    let binding = SupervisorBinding {
        binding_id: cat("sup-", id.as_str()),
        project_id: String::from_str(expected_project_id),
        role_session_id: String::from_str(role_session_id),
        actor_id: session.actor_id,
    };
    if let Err(e) = store.insert_binding(&binding, now_ms) {
        return Err(e);
    }
    Ok(binding)
}

/// The turn a chat or read produces: it echoes the text and creates nothing.
pub open spec fn read_or_chat_turn(t: SupervisorTurn, text: Seq<char>) -> bool {
    t.kind@ == "read_or_chat"@ && !t.created_proposal && !t.created_grant && !t.spawned && t.text@
        == text
}

/// One record handed to the supervisor store by a turn, with its answer.
pub ghost enum SupervisorWrite {
    Proposal(SupervisorProposal, Result<(), String>),
    Turn(Seq<char>, SupervisorTurn, Result<(), String>),
}

/// A supervisor store whose proposal and turn inserts are journaled.
pub struct SupervisorWrites<'a, S> {
    store: &'a S,
    writes: Ghost<Seq<SupervisorWrite>>,
}

impl<'a, S> SupervisorWrites<'a, S> {
    /// The inserts handed over so far, with the store's answers.
    pub closed spec fn log(&self) -> Seq<SupervisorWrite> {
        self.writes@
    }
}

impl<'a, S: SupervisorStorePort> SupervisorWrites<'a, S> {
    /// A journal over `store`, with no insert in it yet.
    pub fn new(store: &'a S) -> (j: Self)
        ensures
            j.log() == Seq::<SupervisorWrite>::empty(),
    {
        SupervisorWrites { store, writes: Ghost(Seq::empty()) }
    }

    pub fn insert_proposal(&mut self, proposal: &SupervisorProposal, now_ms: i64) -> (r: Result<(), String>)
        ensures
            final(self).log() == old(self).log().push(SupervisorWrite::Proposal(*proposal, r)),
    {
        let r = self.store.insert_proposal(proposal, now_ms);
        self.writes = Ghost(self.writes@.push(SupervisorWrite::Proposal(*proposal, r)));
        r
    }

    pub fn insert_turn(
        &mut self,
        turn_id: &str,
        binding: &SupervisorBinding,
        turn: &SupervisorTurn,
        now_ms: i64,
    ) -> (r: Result<(), String>)
        ensures
            final(self).log() == old(self).log().push(SupervisorWrite::Turn(turn_id@, *turn, r)),
    {
        let r = self.store.insert_turn(turn_id, binding, turn, now_ms);
        self.writes = Ghost(self.writes@.push(SupervisorWrite::Turn(turn_id@, *turn, r)));
        r
    }
}

/// The DRAFT proposal a supervisor submits: under its binding, for the
/// binding's project, with the goal as the action it asks to authorize.
pub fn draft_proposal(proposal_id: String, binding: &SupervisorBinding, goal: &str) -> (p:
    SupervisorProposal)
    ensures
        p.proposal_id == proposal_id,
        p.binding_id@ == binding.binding_id@,
        p.project_id@ == binding.project_id@,
        p.authorized_action@ == goal@,
        p.status@ == "DRAFT"@,
{
    SupervisorProposal {
        proposal_id,
        binding_id: binding.binding_id.clone(),
        project_id: binding.project_id.clone(),
        authorized_action: String::from_str(goal),
        status: String::from_str("DRAFT"),
    }
}

/// What a turn hands to the store from `start` on: a submitted proposal is
/// first inserted as a DRAFT of the binding's project, under the binding,
/// with the goal as its action (and a chat or a read inserts no proposal);
/// a taken turn is then inserted as the turn returned.
pub open spec fn turn_writes(
    log: Seq<SupervisorWrite>,
    start: int,
    binding: SupervisorBinding,
    action: SupervisorAction,
    r: Result<SupervisorTurn, String>,
) -> bool {
    &&& 0 <= start <= log.len()
    &&& match action {
        SupervisorAction::SubmitProposal { goal } => log.len() > start && log[start] is Proposal && {
            let p = log[start]->Proposal_0;
            &&& p.status@ == "DRAFT"@
            &&& p.project_id@ == binding.project_id@
            &&& p.binding_id@ == binding.binding_id@
            &&& p.authorized_action@ == goal@
            &&& r matches Ok(t) ==> log[start]->Proposal_1 is Ok && t.text == p.proposal_id
        },
        _ => forall|i: int| start <= i < log.len() ==> !(#[trigger] log[i] is Proposal),
    }
    &&& r matches Ok(t) ==> log.len() > start && log.last() is Turn && log.last()->Turn_1 == t
        && log.last()->Turn_2 is Ok
}

/// Takes one supervisor turn: a chat or a read is answered without creating
/// a proposal, a grant or a process; a submitted proposal is stored as a
/// DRAFT and named in the turn. Every turn is recorded.
pub fn handle_supervisor_action<'a, S: SupervisorStorePort>(
    store: &mut SupervisorWrites<'a, S>,
    binding: &SupervisorBinding,
    action: SupervisorAction,
    now_ms: i64,
) -> (r: Result<SupervisorTurn, String>)
    ensures
        r matches Ok(t) ==> !t.created_grant && !t.spawned,
        r matches Ok(t) ==> match action {
            SupervisorAction::Chat { text } => read_or_chat_turn(t, text@),
            SupervisorAction::Read { query } => read_or_chat_turn(t, query@),
            SupervisorAction::SubmitProposal { .. } => t.kind@ == "proposal"@ && t.created_proposal
                && t.text@.len() == 41 && t.text@.subrange(0, 5) == "prop-"@,
        },
        turn_writes(final(store).log(), old(store).log().len() as int, *binding, action, r),
{
    let turn = match action {
        SupervisorAction::Chat { text } => SupervisorTurn {
            kind: String::from_str("read_or_chat"),
            created_proposal: false,
            created_grant: false,
            spawned: false,
            text,
        },
        SupervisorAction::Read { query } => SupervisorTurn {
            kind: String::from_str("read_or_chat"),
            created_proposal: false,
            created_grant: false,
            spawned: false,
            text: query,
        },
        SupervisorAction::SubmitProposal { goal } => {
            let id = new_uuid_v4();
            let proposal_id = cat("prop-", id.as_str());
            proof {
                reveal_strlit("prop-");
                assert(proposal_id@.subrange(0, 5) =~= "prop-"@);
            }
            let proposal = draft_proposal(proposal_id, binding, goal.as_str());
            if let Err(e) = store.insert_proposal(&proposal, now_ms) {
                return Err(e);
            }
            SupervisorTurn {
                kind: String::from_str("proposal"),
                created_proposal: true,
                created_grant: false,
                spawned: false,
                text: proposal.proposal_id,
            }
        },
    };
    let turn_id = cat("turn-", new_uuid_v4().as_str());
    if let Err(e) = store.insert_turn(turn_id.as_str(), binding, &turn, now_ms) {
        return Err(e);
    }
    Ok(turn)
}

/// The only road from a supervisor to dispatch: the request must be for the
/// supervisor's own project and the proposal must be APPROVED; then the
/// authorized dispatch chain runs.
pub fn authorize_and_dispatch_from_supervisor<S: SupervisorStorePort + OrchestrationWritePort>(
    store: &S,
    binding: &SupervisorBinding,
    proposal_id: &str,
    request: AuthorizedExecutionRequest,
) -> (r: Result<AuthorizedExecutionResult, String>)
    requires
        i64::MIN <= request.now_ms + request.ttl_ms <= i64::MAX,
        request.now_ms <= i64::MAX - 4,
    ensures
        request.project_id@ != binding.project_id@ ==> (r matches Err(e) && e@
            == "supervisor_cannot_dispatch_other_project"@),
        r is Ok ==> request.project_id@ == binding.project_id@,
{
    if !str_eq(request.project_id.as_str(), binding.project_id.as_str()) {
        return Err(String::from_str("supervisor_cannot_dispatch_other_project"));
    }
    let status = match store.load_proposal_status(proposal_id, binding.project_id.as_str()) {
        Ok(Some(s)) => s,
        _ => {
            return Err(String::from_str("supervisor_proposal_missing"));
        },
    };
    if !str_eq(status.as_str(), "APPROVED") {
        return Err(String::from_str("supervisor_proposal_not_approved"));
    }
    prepare_and_dispatch(&mut Journaled::new(store), request, ChainFault::NoFault)
}

/// Approves a DRAFT proposal of this binding; anything else is refused.
pub fn approve_supervisor_proposal<S: SupervisorStorePort>(
    store: &S,
    binding: &SupervisorBinding,
    proposal_id: &str,
) -> (r: Result<(), String>) {
    let changed = match store.approve_draft_proposal(
        proposal_id,
        binding.project_id.as_str(),
        binding.binding_id.as_str(),
    ) {
        Ok(n) => n,
        Err(e) => {
            return Err(e);
        },
    };
    if changed != 1 {
        return Err(String::from_str("supervisor_proposal_not_draft"));
    }
    Ok(())
}

} // verus!
