//! Side-effect gateways. A side effect is admitted only on a grant loaded by
//! id; the caller's request may narrow what the grant allows but never widen it.

use vstd::prelude::*;
use crate::grant::{holds_text, root_within, ExecutionGrant, GrantStatus};
use crate::text::{cat, cat3, i64_to_decimal, int_decimal, starts_with, starts_with_str, str_eq};

verus! {

/// Why a gateway refused.
#[derive(Debug, Clone)]
pub enum GatewayError {
    GrantNotFound(String),
    GrantExpired,
    GrantRevoked(String),
    GrantIntegrityFailed(String),
    SessionNotFound(String),
    InsufficientCapability(String),
    PrivilegeExpansion(String),
    CrossProject(String),
    WrongRevision(String),
    StorageError(String),
}

impl GatewayError {
    /// The human-readable message of the error.
    pub fn to_display_string(&self) -> (r: String)
        ensures
            match self {
                GatewayError::GrantNotFound(id) => r@ == "grant not found: "@ + id@,
                GatewayError::GrantExpired => r@ == "grant expired"@,
                GatewayError::GrantRevoked(m) => r@ == "grant revoked: "@ + m@,
                GatewayError::GrantIntegrityFailed(m) => r@ == "grant integrity failed: "@ + m@,
                GatewayError::SessionNotFound(id) => r@ == "session not found: "@ + id@,
                GatewayError::InsufficientCapability(c) => r@ == "insufficient capability: "@
                    + c@,
                GatewayError::PrivilegeExpansion(m) => r@ == "privilege expansion: "@ + m@,
                GatewayError::CrossProject(m) => r@ == "cross project: "@ + m@,
                GatewayError::WrongRevision(m) => r@ == "wrong revision: "@ + m@,
                GatewayError::StorageError(m) => r@ == "storage error: "@ + m@,
            },
    {
        match self {
            GatewayError::GrantNotFound(id) => cat("grant not found: ", id.as_str()),
            GatewayError::GrantExpired => String::from_str("grant expired"),
            GatewayError::GrantRevoked(m) => cat("grant revoked: ", m.as_str()),
            GatewayError::GrantIntegrityFailed(m) => cat("grant integrity failed: ", m.as_str()),
            GatewayError::SessionNotFound(id) => cat("session not found: ", id.as_str()),
            GatewayError::InsufficientCapability(c) => cat("insufficient capability: ", c.as_str()),
            GatewayError::PrivilegeExpansion(m) => cat("privilege expansion: ", m.as_str()),
            GatewayError::CrossProject(m) => cat("cross project: ", m.as_str()),
            GatewayError::WrongRevision(m) => cat("wrong revision: ", m.as_str()),
            GatewayError::StorageError(m) => cat("storage error: ", m.as_str()),
        }
    }
}

/// A request to use a grant for one side effect.
#[derive(Debug, Clone)]
pub struct GrantUseRequest {
    pub project_id: String,
    pub attempt_id: String,
    pub worker_role_session_id: String,
    pub principal_actor_id: String,
    pub authorization_id: String,
    pub authorization_revision: i64,
    pub command: String,
    pub cwd_ref: String,
    pub write_root_refs: Vec<String>,
    pub object_refs: Vec<String>,
    pub now_ms: i64,
}

/// Every requested write root lies within a granted root.
pub open spec fn roots_within(g: ExecutionGrant, req: GrantUseRequest) -> bool {
    forall|i: int|
        0 <= i < req.write_root_refs@.len() ==> root_within(
            g.write_root_refs@,
            #[trigger] req.write_root_refs@[i]@,
        )
}

/// `i` is the first requested write root outside every granted root.
pub open spec fn first_root_outside(g: ExecutionGrant, req: GrantUseRequest, i: int) -> bool {
    &&& 0 <= i < req.write_root_refs@.len()
    &&& !root_within(g.write_root_refs@, req.write_root_refs@[i]@)
    &&& forall|j: int| 0 <= j < i ==> root_within(g.write_root_refs@, #[trigger] req.write_root_refs@[j]@)
}

/// Every requested object is granted.
pub open spec fn objects_within(g: ExecutionGrant, req: GrantUseRequest) -> bool {
    forall|i: int|
        0 <= i < req.object_refs@.len() ==> holds_text(g.object_refs@, #[trigger] req.object_refs@[i]@)
}

/// `i` is the first requested object the grant does not hold.
pub open spec fn first_object_outside(g: ExecutionGrant, req: GrantUseRequest, i: int) -> bool {
    &&& 0 <= i < req.object_refs@.len()
    &&& !holds_text(g.object_refs@, req.object_refs@[i]@)
    &&& forall|j: int| 0 <= j < i ==> holds_text(g.object_refs@, #[trigger] req.object_refs@[j]@)
}

/// The first check of a grant use that fails, numbered in the order they are
/// made, or 0 when every check passes.
pub open spec fn grant_use_failure(g: ExecutionGrant, req: GrantUseRequest) -> int {
    if g.project_id@ != req.project_id@ {
        1
    } else if g.revoked_at_ms is Some || g.status == GrantStatus::Revoked {
        2
    } else if req.now_ms >= g.expires_at_ms || g.status == GrantStatus::Expired {
        3
    } else if !g.active_at(req.now_ms) {
        4
    } else if g.attempt_id.0@ != req.attempt_id@ {
        5
    } else if g.worker_role_session_id@ != req.worker_role_session_id@ {
        6
    } else if g.principal_actor_id@ != req.principal_actor_id@ {
        7
    } else if g.authorization_id.0@ != req.authorization_id@ {
        8
    } else if g.authorization_revision != req.authorization_revision {
        9
    } else if !holds_text(g.allowed_commands@, req.command@) {
        10
    } else if req.cwd_ref@ != g.cwd_ref@ && !starts_with(req.cwd_ref@, g.cwd_ref@) {
        11
    } else if !roots_within(g, req) {
        12
    } else if !objects_within(g, req) {
        13
    } else {
        0
    }
}

fn first_root_outside_exec(grant: &ExecutionGrant, request: &GrantUseRequest) -> (r: Option<usize>)
    ensures
        r is None <==> roots_within(*grant, *request),
        r matches Some(i) ==> first_root_outside(*grant, *request, i as int),
{
    let mut i: usize = 0;
    while i < request.write_root_refs.len()
        invariant
            i <= request.write_root_refs.len(),
            forall|j: int|
                0 <= j < i ==> root_within(
                    grant.write_root_refs@,
                    #[trigger] request.write_root_refs@[j]@,
                ),
        decreases request.write_root_refs.len() - i,
    {
        if !grant.allows_write_root(request.write_root_refs[i].as_str()) {
            return Some(i);
        }
        i = i + 1;
    }
    None
}

fn first_object_outside_exec(grant: &ExecutionGrant, request: &GrantUseRequest) -> (r: Option<usize>)
    ensures
        r is None <==> objects_within(*grant, *request),
        r matches Some(i) ==> first_object_outside(*grant, *request, i as int),
{
    let mut i: usize = 0;
    while i < request.object_refs.len()
        invariant
            i <= request.object_refs.len(),
            forall|j: int|
                0 <= j < i ==> holds_text(grant.object_refs@, #[trigger] request.object_refs@[j]@),
        decreases request.object_refs.len() - i,
    {
        if !contains_text(&grant.object_refs, request.object_refs[i].as_str()) {
            return Some(i);
        }
        i = i + 1;
    }
    None
}

/// Whether `v` holds a string with the text of `t`.
pub fn contains_text(v: &Vec<String>, t: &str) -> (b: bool)
    ensures
        b == holds_text(v@, t@),
{
    let mut i: usize = 0;
    while i < v.len()
        invariant
            i <= v.len(),
            forall|j: int| 0 <= j < i ==> v@[j]@ != t@,
        decreases v.len() - i,
    {
        if str_eq(v[i].as_str(), t) {
            return true;
        }
        i = i + 1;
    }
    false
}

/// Checks a loaded grant against a use request: same project, not revoked or
/// expired, active and intact, the same attempt, session, actor and
/// authorization revision, and nothing requested beyond the grant.
pub fn verify_loaded_grant(grant: &ExecutionGrant, request: &GrantUseRequest) -> (r: Result<
    (),
    GatewayError,
>)
    ensures
        r is Ok <==> grant_use_failure(*grant, *request) == 0,
        grant_use_failure(*grant, *request) == 1 ==> (r matches Err(GatewayError::CrossProject(m))
            && m@ == "grant="@ + grant.project_id@ + " request="@ + request.project_id@),
        grant_use_failure(*grant, *request) == 2 ==> (r matches Err(GatewayError::GrantRevoked(m))
            && m@ == "grant_status_revoked"@),
        grant_use_failure(*grant, *request) == 3 ==> (r matches Err(GatewayError::GrantExpired)),
        grant_use_failure(*grant, *request) == 4 ==> (r matches Err(
            GatewayError::GrantIntegrityFailed(m),
        ) && m@ == "grant_not_active_or_hash_mismatch"@),
        grant_use_failure(*grant, *request) == 5 ==> (r matches Err(
            GatewayError::GrantIntegrityFailed(m),
        ) && m@ == "attempt_mismatch"@),
        grant_use_failure(*grant, *request) == 6 ==> (r matches Err(
            GatewayError::GrantIntegrityFailed(m),
        ) && m@ == "role_session_mismatch"@),
        grant_use_failure(*grant, *request) == 7 ==> (r matches Err(
            GatewayError::GrantIntegrityFailed(m),
        ) && m@ == "actor_mismatch"@),
        grant_use_failure(*grant, *request) == 8 ==> (r matches Err(
            GatewayError::GrantIntegrityFailed(m),
        ) && m@ == "authorization_mismatch"@),
        grant_use_failure(*grant, *request) == 9 ==> (r matches Err(GatewayError::WrongRevision(m))
            && m@ == "grant="@ + int_decimal(grant.authorization_revision as int) + " request="@
            + int_decimal(request.authorization_revision as int)),
        grant_use_failure(*grant, *request) == 10 ==> (r matches Err(
            GatewayError::PrivilegeExpansion(m),
        ) && m@ == "command_not_allowed:"@ + request.command@),
        grant_use_failure(*grant, *request) == 11 ==> (r matches Err(
            GatewayError::PrivilegeExpansion(m),
        ) && m@ == "cwd_outside_grant"@),
        grant_use_failure(*grant, *request) == 12 ==> (r matches Err(
            GatewayError::PrivilegeExpansion(m),
        ) && exists|i: int|
            first_root_outside(*grant, *request, i) && m@ == "write_root_expanded:"@
                + request.write_root_refs@[i]@),
        grant_use_failure(*grant, *request) == 13 ==> (r matches Err(
            GatewayError::PrivilegeExpansion(m),
        ) && exists|i: int|
            first_object_outside(*grant, *request, i) && m@ == "object_ref_expanded:"@
                + request.object_refs@[i]@),
{
    if !str_eq(grant.project_id.as_str(), request.project_id.as_str()) {
        let mut m = cat("grant=", grant.project_id.as_str());
        m.append(" request=");
        m.append(request.project_id.as_str());
        return Err(GatewayError::CrossProject(m));
    }
    if grant.revoked_at_ms.is_some() || grant.status == GrantStatus::Revoked {
        return Err(GatewayError::GrantRevoked(String::from_str("grant_status_revoked")));
    }
    if request.now_ms >= grant.expires_at_ms || grant.status == GrantStatus::Expired {
        return Err(GatewayError::GrantExpired);
    }
    if !grant.is_active(request.now_ms) {
        return Err(
            GatewayError::GrantIntegrityFailed(
                String::from_str("grant_not_active_or_hash_mismatch"),
            ),
        );
    }
    if !str_eq(grant.attempt_id.as_str(), request.attempt_id.as_str()) {
        return Err(GatewayError::GrantIntegrityFailed(String::from_str("attempt_mismatch")));
    }
    if !str_eq(grant.worker_role_session_id.as_str(), request.worker_role_session_id.as_str()) {
        return Err(GatewayError::GrantIntegrityFailed(String::from_str("role_session_mismatch")));
    }
    if !str_eq(grant.principal_actor_id.as_str(), request.principal_actor_id.as_str()) {
        return Err(GatewayError::GrantIntegrityFailed(String::from_str("actor_mismatch")));
    }
    if !str_eq(grant.authorization_id.as_str(), request.authorization_id.as_str()) {
        return Err(GatewayError::GrantIntegrityFailed(String::from_str("authorization_mismatch")));
    }
    if grant.authorization_revision != request.authorization_revision {
        let a = i64_to_decimal(grant.authorization_revision);
        let b = i64_to_decimal(request.authorization_revision);
        let mut m = cat("grant=", a.as_str());
        m.append(" request=");
        m.append(b.as_str());
        return Err(GatewayError::WrongRevision(m));
    }
    if !grant.allows_command(request.command.as_str()) {
        return Err(
            GatewayError::PrivilegeExpansion(cat("command_not_allowed:", request.command.as_str())),
        );
    }
    if !str_eq(request.cwd_ref.as_str(), grant.cwd_ref.as_str()) && !starts_with_str(
        request.cwd_ref.as_str(),
        grant.cwd_ref.as_str(),
    ) {
        return Err(GatewayError::PrivilegeExpansion(String::from_str("cwd_outside_grant")));
    }
    match first_root_outside_exec(grant, request) {
        Some(i) => {
            return Err(
                GatewayError::PrivilegeExpansion(
                    cat("write_root_expanded:", request.write_root_refs[i].as_str()),
                ),
            );
        },
        None => {},
    }
    match first_object_outside_exec(grant, request) {
        Some(i) => {
            return Err(
                GatewayError::PrivilegeExpansion(
                    cat("object_ref_expanded:", request.object_refs[i].as_str()),
                ),
            );
        },
        None => {},
    }
    Ok(())
}


/// The answer of a conversation-capability check.
#[derive(Debug, Clone)]
pub enum CapabilityResult {
    Allowed,
    Denied { reason: String },
}

impl PartialEq for CapabilityResult {
    fn eq(&self, other: &Self) -> (r: bool) {
        match (self, other) {
            (CapabilityResult::Allowed, CapabilityResult::Allowed) => true,
            (CapabilityResult::Denied { reason: a }, CapabilityResult::Denied { reason: b }) => str_eq(
                a.as_str(),
                b.as_str(),
            ),
            _ => false,
        }
    }
}

impl Eq for CapabilityResult {}

impl vstd::std_specs::cmp::PartialEqSpecImpl for CapabilityResult {
    open spec fn obeys_eq_spec() -> bool {
        true
    }

    open spec fn eq_spec(&self, other: &Self) -> bool {
        match (self, other) {
            (CapabilityResult::Allowed, CapabilityResult::Allowed) => true,
            (CapabilityResult::Denied { reason: a }, CapabilityResult::Denied { reason: b }) => a@
                == b@,
            _ => false,
        }
    }
}

/// The session registrations as a map from session id to whether the session
/// may propose; a later entry for the same id overrides an earlier one.
pub open spec fn session_map(s: Seq<(String, bool)>) -> Map<Seq<char>, bool>
    decreases s.len(),
{
    if s.len() == 0 {
        Map::empty()
    } else {
        session_map(s.drop_last()).insert(s.last().0@, s.last().1)
    }
}

/// The position of the last registration of `k`, or -1.
pub open spec fn last_session_index(s: Seq<(String, bool)>, k: Seq<char>) -> int
    decreases s.len(),
{
    if s.len() == 0 {
        -1
    } else if s.last().0@ == k {
        s.len() - 1
    } else {
        last_session_index(s.drop_last(), k)
    }
}

proof fn lemma_last_session_index(s: Seq<(String, bool)>, k: Seq<char>)
    ensures
        -1 <= last_session_index(s, k) < s.len(),
        last_session_index(s, k) == -1 <==> (forall|j: int| 0 <= j < s.len() ==> s[j].0@ != k),
        last_session_index(s, k) >= 0 ==> s[last_session_index(s, k)].0@ == k && (forall|j: int|
            last_session_index(s, k) < j < s.len() ==> s[j].0@ != k),
        session_map(s).contains_key(k) <==> last_session_index(s, k) >= 0,
        last_session_index(s, k) >= 0 ==> session_map(s)[k] == s[last_session_index(s, k)].1,
    decreases s.len(),
{
    if s.len() > 0 {
        lemma_last_session_index(s.drop_last(), k);
        if s.last().0@ != k {
            assert forall|j: int| 0 <= j < s.len() - 1 implies s[j] == s.drop_last()[j] by {}
        }
    }
}

proof fn lemma_session_update(s: Seq<(String, bool)>, i: int, e: (String, bool))
    requires
        0 <= i < s.len(),
        i == last_session_index(s, e.0@),
    ensures
        session_map(s.update(i, e)) =~= session_map(s).insert(e.0@, e.1),
    decreases s.len(),
{
    let t = s.update(i, e);
    if i == s.len() - 1 {
        lemma_last_session_index(s, e.0@);
        assert(t.drop_last() =~= s.drop_last());
        assert(s.last().0@ == e.0@);
        let m = session_map(s.drop_last());
        assert(session_map(t) == m.insert(e.0@, e.1));
        assert(session_map(s) == m.insert(s.last().0@, s.last().1));
        assert(m.insert(e.0@, e.1) =~= m.insert(s.last().0@, s.last().1).insert(e.0@, e.1));
    } else {
        lemma_last_session_index(s, e.0@);
        assert(s.last().0@ != e.0@);
        assert(t.drop_last() =~= s.drop_last().update(i, e));
        assert(t.last() == s.last());
        lemma_session_update(s.drop_last(), i, e);
        let m = session_map(s.drop_last());
        assert(session_map(t) == session_map(t.drop_last()).insert(t.last().0@, t.last().1));
        assert(session_map(s) == m.insert(s.last().0@, s.last().1));
        assert(m.insert(e.0@, e.1).insert(s.last().0@, s.last().1) =~= m.insert(
            s.last().0@,
            s.last().1,
        ).insert(e.0@, e.1));
    }
}

/// The in-process conversation capability gateway: sessions bound to this
/// gateway may read; only those registered as proposers may propose. A
/// conversation capability never stands in for an execution grant.
pub struct PersistentConversationCapabilityGateway {
    sessions: Vec<(String, bool)>,
}

impl PersistentConversationCapabilityGateway {
    /// The registered sessions and whether each may propose.
    pub closed spec fn view(&self) -> Map<Seq<char>, bool> {
        session_map(self.sessions@)
    }

    pub fn new() -> (r: Self)
        ensures
            r.view() == Map::<Seq<char>, bool>::empty(),
    {
        PersistentConversationCapabilityGateway { sessions: Vec::new() }
    }

    fn find(&self, session_id: &str) -> (r: Option<usize>)
        ensures
            r is None ==> last_session_index(self.sessions@, session_id@) == -1,
            r matches Some(i) ==> i < self.sessions@.len() && i == last_session_index(
                self.sessions@,
                session_id@,
            ),
    {
        proof {
            lemma_last_session_index(self.sessions@, session_id@);
        }
        let mut i: usize = self.sessions.len();
        while i > 0
            invariant
                i <= self.sessions.len(),
                forall|j: int| i <= j < self.sessions.len() ==> self.sessions@[j].0@ != session_id@,
            decreases i,
        {
            if str_eq(self.sessions[i - 1].0.as_str(), session_id) {
                proof {
                    lemma_last_session_index(self.sessions@, session_id@);
                    let idx = last_session_index(self.sessions@, session_id@);
                    assert(self.sessions@[i - 1].0@ == session_id@);
                    assert(idx >= 0);
                    if idx < i - 1 {
                        assert(self.sessions@[i - 1].0@ == session_id@);
                    }
                    if idx > i - 1 {
                        assert(self.sessions@[idx].0@ != session_id@);
                    }
                }
                return Some(i - 1);
            }
            i = i - 1;
        }
        None
    }

    pub fn register_session(&mut self, session_id: &str, may_propose: bool)
        ensures
            final(self).view() == old(self).view().insert(session_id@, may_propose),
    {
        let entry = (String::from_str(session_id), may_propose);
        match self.find(session_id) {
            Some(i) => {
                proof {
                    lemma_session_update(self.sessions@, i as int, entry);
                }
                self.sessions.set(i, entry);
            },
            None => {
                self.sessions.push(entry);
                assert(self.sessions@.drop_last() =~= old(self).sessions@);
            },
        }
    }

    pub fn check_read_capability(&self, session_id: &str, resource: &str) -> (r: CapabilityResult)
        ensures
            self.view().contains_key(session_id@) ==> r == CapabilityResult::Allowed,
            !self.view().contains_key(session_id@) ==> (r matches CapabilityResult::Denied { reason }
                && reason@ == "session_not_bound"@),
    {
        proof {
            lemma_last_session_index(self.sessions@, session_id@);
        }
        match self.find(session_id) {
            Some(_) => CapabilityResult::Allowed,
            None => CapabilityResult::Denied { reason: String::from_str("session_not_bound") },
        }
    }

    pub fn check_proposal_capability(&self, session_id: &str) -> (r: CapabilityResult)
        ensures
            self.view().contains_key(session_id@) && self.view()[session_id@] ==> r
                == CapabilityResult::Allowed,
            self.view().contains_key(session_id@) && !self.view()[session_id@] ==> (r matches CapabilityResult::Denied { reason }
                && reason@ == "proposal_not_permitted"@),
            !self.view().contains_key(session_id@) ==> (r matches CapabilityResult::Denied { reason }
                && reason@ == "session_not_bound"@),
    {
        proof {
            lemma_last_session_index(self.sessions@, session_id@);
        }
        match self.find(session_id) {
            Some(i) => if self.sessions[i].1 {
                CapabilityResult::Allowed
            } else {
                CapabilityResult::Denied { reason: String::from_str("proposal_not_permitted") }
            },
            None => CapabilityResult::Denied { reason: String::from_str("session_not_bound") },
        }
    }
}

} // verus!
