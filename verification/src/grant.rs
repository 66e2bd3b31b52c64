//! Attempt-scoped execution grants. A grant is minted MINT_PENDING with a
//! SHA-256 hash over its canonical JSON payload, becomes ACTIVE only after a
//! readback whose hash matches, and is usable only while ACTIVE, unrevoked,
//! unexpired and unaltered.

use vstd::prelude::*;
use crate::identity::{AttemptId, AuthorizationId, GrantId, OrchestrationId, WorkItemId, WorkflowRunId};
use crate::outside::{json_quote, json_string_literal, new_uuid_v4, sha256_hex, sha256_hex_of};
use crate::text::{cat, i64_to_decimal, int_decimal, is_blank, is_blank_seq, starts_with, starts_with_str, str_eq};

verus! {

/// The lifecycle status of a grant.
#[derive(Debug, Clone, Copy, PartialEq, Eq, Structural)]
pub enum GrantStatus {
    MintPending,
    Active,
    Revoked,
    Expired,
    Quarantined,
}

impl GrantStatus {
    pub open spec fn m1_name(self) -> Seq<char> {
        match self {
            GrantStatus::MintPending => "MINT_PENDING"@,
            GrantStatus::Active => "ACTIVE"@,
            GrantStatus::Revoked => "REVOKED"@,
            GrantStatus::Expired => "EXPIRED"@,
            GrantStatus::Quarantined => "QUARANTINED"@,
        }
    }

    pub open spec fn from_m1_name(s: Seq<char>) -> Option<GrantStatus> {
        if s == "MINT_PENDING"@ {
            Some(GrantStatus::MintPending)
        } else if s == "ACTIVE"@ {
            Some(GrantStatus::Active)
        } else if s == "REVOKED"@ {
            Some(GrantStatus::Revoked)
        } else if s == "EXPIRED"@ {
            Some(GrantStatus::Expired)
        } else if s == "QUARANTINED"@ {
            Some(GrantStatus::Quarantined)
        } else {
            None
        }
    }

    pub fn as_m1_str(&self) -> (r: &'static str)
        ensures
            r@ == self.m1_name(),
    {
        match self {
            GrantStatus::MintPending => "MINT_PENDING",
            GrantStatus::Active => "ACTIVE",
            GrantStatus::Revoked => "REVOKED",
            GrantStatus::Expired => "EXPIRED",
            GrantStatus::Quarantined => "QUARANTINED",
        }
    }

    /// The display form: the persisted name.
    pub fn to_display_string(&self) -> (r: String)
        ensures
            r@ == self.m1_name(),
    {
        String::from_str(self.as_m1_str())
    }

    pub fn parse(value: &str) -> (r: Result<GrantStatus, String>)
        ensures
            match GrantStatus::from_m1_name(value@) {
                Some(s) => r == Ok::<GrantStatus, String>(s),
                None => r matches Err(e) && e@ == "unknown_grant_status:"@ + value@,
            },
    {
        if str_eq(value, "MINT_PENDING") {
            Ok(GrantStatus::MintPending)
        } else if str_eq(value, "ACTIVE") {
            Ok(GrantStatus::Active)
        } else if str_eq(value, "REVOKED") {
            Ok(GrantStatus::Revoked)
        } else if str_eq(value, "EXPIRED") {
            Ok(GrantStatus::Expired)
        } else if str_eq(value, "QUARANTINED") {
            Ok(GrantStatus::Quarantined)
        } else {
            Err(cat("unknown_grant_status:", value))
        }
    }
}

/// An attempt-scoped execution grant.
#[derive(Debug, Clone)]
pub struct ExecutionGrant {
    pub grant_id: GrantId,
    pub project_id: String,
    pub orchestration_id: OrchestrationId,
    pub workflow_run_id: WorkflowRunId,
    pub work_item_id: WorkItemId,
    pub attempt_id: AttemptId,
    pub authorization_id: AuthorizationId,
    pub authorization_revision: i64,
    pub principal_actor_id: String,
    pub worker_role_session_id: String,
    pub scope_fingerprint: String,
    pub allowed_commands: Vec<String>,
    pub cwd_ref: String,
    pub write_root_refs: Vec<String>,
    pub object_refs: Vec<String>,
    pub policy_decision_ref: String,
    pub issued_at_ms: i64,
    pub expires_at_ms: i64,
    pub revoked_at_ms: Option<i64>,
    pub status: GrantStatus,
    pub revision: i64,
    pub idempotency_key: String,
    pub effect_key: String,
    pub grant_hash: String,
    pub created_by_command_receipt_ref: String,
}

/// What a grant is minted from.
#[derive(Debug, Clone)]
pub struct GrantMintInput {
    pub project_id: String,
    pub orchestration_id: OrchestrationId,
    pub workflow_run_id: WorkflowRunId,
    pub work_item_id: WorkItemId,
    pub attempt_id: AttemptId,
    pub authorization_id: AuthorizationId,
    pub authorization_revision: i64,
    pub principal_actor_id: String,
    pub worker_role_session_id: String,
    pub scope_fingerprint: String,
    pub allowed_commands: Vec<String>,
    pub cwd_ref: String,
    pub write_root_refs: Vec<String>,
    pub object_refs: Vec<String>,
    pub policy_decision_ref: String,
    pub issued_at_ms: i64,
    pub expires_at_ms: i64,
    pub idempotency_key: String,
    pub effect_key: String,
    pub created_by_command_receipt_ref: String,
}


impl ExecutionGrant {
    /// This grant was minted from `input`: every scope field is the input's,
    /// and it starts MINT_PENDING, unrevoked, at revision 1.
    pub open spec fn minted_from(self, input: GrantMintInput) -> bool {
        &&& self.project_id == input.project_id
        &&& self.orchestration_id == input.orchestration_id
        &&& self.workflow_run_id == input.workflow_run_id
        &&& self.work_item_id == input.work_item_id
        &&& self.attempt_id == input.attempt_id
        &&& self.authorization_id == input.authorization_id
        &&& self.authorization_revision == input.authorization_revision
        &&& self.principal_actor_id == input.principal_actor_id
        &&& self.worker_role_session_id == input.worker_role_session_id
        &&& self.scope_fingerprint == input.scope_fingerprint
        &&& self.allowed_commands == input.allowed_commands
        &&& self.cwd_ref == input.cwd_ref
        &&& self.write_root_refs == input.write_root_refs
        &&& self.object_refs == input.object_refs
        &&& self.policy_decision_ref == input.policy_decision_ref
        &&& self.issued_at_ms == input.issued_at_ms
        &&& self.expires_at_ms == input.expires_at_ms
        &&& self.idempotency_key == input.idempotency_key
        &&& self.effect_key == input.effect_key
        &&& self.created_by_command_receipt_ref == input.created_by_command_receipt_ref
        &&& self.revoked_at_ms is None
        &&& self.status == GrantStatus::MintPending
        &&& self.revision == 1
    }

    /// The stored hash is the hash of the grant's current scope fields.
    pub open spec fn hash_intact(self) -> bool {
        self.grant_hash@ == grant_hash_of(self)
    }

    /// The grant may be used at `now_ms`.
    pub open spec fn active_at(self, now_ms: i64) -> bool {
        &&& self.status == GrantStatus::Active
        &&& self.revoked_at_ms is None
        &&& now_ms < self.expires_at_ms
        &&& self.hash_intact()
    }

    /// The grant with a new status, one revision later.
    pub open spec fn with_status(self, status: GrantStatus) -> Self {
        ExecutionGrant { status, revision: (self.revision + 1) as i64, ..self }
    }

    /// Mints a MINT_PENDING grant with a fresh random id and its payload hash.
    pub fn mint(input: GrantMintInput) -> (r: Result<Self, String>)
        ensures
            r is Ok <==> mint_input_complete(input),
            !mint_input_complete(input) ==> (r matches Err(e) && e@
                == "grant_mint_input_incomplete"@),
            r matches Ok(g) ==> !is_blank_seq(g.grant_id.0@),
            r matches Ok(g) ==> g.minted_from(input) && g.hash_intact() && g.grant_id.0@.len()
                == 36 && g.grant_hash@.len() == 64,
    {
        if is_blank(input.project_id.as_str()) || is_blank(input.principal_actor_id.as_str())
            || is_blank(input.worker_role_session_id.as_str()) || input.allowed_commands.len() == 0
            || is_blank(input.cwd_ref.as_str()) || input.expires_at_ms <= input.issued_at_ms {
            return Err(String::from_str("grant_mint_input_incomplete"));
        }
        let fresh_id = new_uuid_v4();
        proof {
            assert(crate::text::is_lower_hex(fresh_id@[0]));
            assert(!crate::text::is_ws(fresh_id@[0]));
        }
        let mut grant = ExecutionGrant {
            grant_id: GrantId::new(fresh_id),
            project_id: input.project_id,
            orchestration_id: input.orchestration_id,
            workflow_run_id: input.workflow_run_id,
            work_item_id: input.work_item_id,
            attempt_id: input.attempt_id,
            authorization_id: input.authorization_id,
            authorization_revision: input.authorization_revision,
            principal_actor_id: input.principal_actor_id,
            worker_role_session_id: input.worker_role_session_id,
            scope_fingerprint: input.scope_fingerprint,
            allowed_commands: input.allowed_commands,
            cwd_ref: input.cwd_ref,
            write_root_refs: input.write_root_refs,
            object_refs: input.object_refs,
            policy_decision_ref: input.policy_decision_ref,
            issued_at_ms: input.issued_at_ms,
            expires_at_ms: input.expires_at_ms,
            revoked_at_ms: None,
            status: GrantStatus::MintPending,
            revision: 1,
            idempotency_key: input.idempotency_key,
            effect_key: input.effect_key,
            grant_hash: String::new(),
            created_by_command_receipt_ref: input.created_by_command_receipt_ref,
        };
        let hash = compute_grant_hash(&grant);
        let ghost unhashed = grant;
        grant.grant_hash = hash;
        proof {
            reveal(grant_payload);
            assert(grant_payload(grant) == grant_payload(unhashed));
        }
        Ok(grant)
    }

    /// Readback of a persisted MINT_PENDING grant: ACTIVE when the stored hash
    /// is intact, equals `expected_hash`, and the grant has not expired.
    pub fn confirm_readback(&mut self, expected_hash: &str, now_ms: i64) -> (r: Result<(), String>)
        requires
            old(self).revision < i64::MAX,
        ensures
            r is Ok <==> old(self).status == GrantStatus::MintPending && old(self).hash_intact()
                && old(self).grant_hash@ == expected_hash@ && now_ms < old(self).expires_at_ms,
            r is Ok ==> *final(self) == old(self).with_status(GrantStatus::Active),
            old(self).status != GrantStatus::MintPending ==> *final(self) == *old(self) && (r matches Err(
                e,
            ) && e@ == "grant_not_mint_pending:"@ + old(self).status.m1_name()),
            old(self).status == GrantStatus::MintPending && !(old(self).hash_intact() && old(
                self,
            ).grant_hash@ == expected_hash@) ==> *final(self) == *old(self) && (r matches Err(e)
                && e@ == "grant_readback_hash_mismatch"@),
            old(self).status == GrantStatus::MintPending && old(self).hash_intact() && old(
                self,
            ).grant_hash@ == expected_hash@ && now_ms >= old(self).expires_at_ms ==> *final(self)
                == old(self).with_status(GrantStatus::Expired) && (r matches Err(e) && e@
                == "grant_expired_on_readback"@),
    {
        if self.status != GrantStatus::MintPending {
            return Err(cat("grant_not_mint_pending:", self.status.as_m1_str()));
        }
        let actual = compute_grant_hash(self);
        if !str_eq(self.grant_hash.as_str(), actual.as_str()) || !str_eq(
            self.grant_hash.as_str(),
            expected_hash,
        ) {
            return Err(String::from_str("grant_readback_hash_mismatch"));
        }
        if now_ms >= self.expires_at_ms {
            self.status = GrantStatus::Expired;
            self.revision = self.revision + 1;
            return Err(String::from_str("grant_expired_on_readback"));
        }
        self.status = GrantStatus::Active;
        self.revision = self.revision + 1;
        Ok(())
    }

    /// Revokes the grant at `now_ms`. The hash stays the minted snapshot:
    /// revocation is a status change.
    pub fn revoke(&mut self, now_ms: i64)
        requires
            old(self).revision < i64::MAX,
        ensures
            *final(self) == (ExecutionGrant {
                status: GrantStatus::Revoked,
                revoked_at_ms: Some(now_ms),
                revision: (old(self).revision + 1) as i64,
                ..*old(self)
            }),
    {
        self.status = GrantStatus::Revoked;
        self.revoked_at_ms = Some(now_ms);
        self.revision = self.revision + 1;
    }

    pub fn is_active(&self, now_ms: i64) -> (b: bool)
        ensures
            b == self.active_at(now_ms),
    {
        if self.status != GrantStatus::Active || self.revoked_at_ms.is_some() || now_ms
            >= self.expires_at_ms {
            return false;
        }
        let actual = compute_grant_hash(self);
        str_eq(actual.as_str(), self.grant_hash.as_str())
    }

    pub fn allows_command(&self, command: &str) -> (b: bool)
        ensures
            b == holds_text(self.allowed_commands@, command@),
    {
        let mut i: usize = 0;
        while i < self.allowed_commands.len()
            invariant
                i <= self.allowed_commands.len(),
                forall|j: int| 0 <= j < i ==> self.allowed_commands@[j]@ != command@,
            decreases self.allowed_commands.len() - i,
        {
            if str_eq(self.allowed_commands[i].as_str(), command) {
                return true;
            }
            i = i + 1;
        }
        false
    }

    pub fn allows_write_root(&self, root: &str) -> (b: bool)
        ensures
            b == root_within(self.write_root_refs@, root@),
    {
        let mut i: usize = 0;
        while i < self.write_root_refs.len()
            invariant
                i <= self.write_root_refs.len(),
                forall|j: int|
                    0 <= j < i ==> !(self.write_root_refs@[j]@ == root@ || starts_with(
                        root@,
                        self.write_root_refs@[j]@,
                    )),
            decreases self.write_root_refs.len() - i,
        {
            let granted = self.write_root_refs[i].as_str();
            if str_eq(granted, root) || starts_with_str(root, granted) {
                return true;
            }
            i = i + 1;
        }
        false
    }
}

/// The texts of a vector of strings.
pub open spec fn texts(v: Seq<String>) -> Seq<Seq<char>> {
    v.map_values(|s: String| s@)
}

/// The comma-separated JSON string literals of `items`.
pub open spec fn json_items(items: Seq<Seq<char>>) -> Seq<char>
    decreases items.len(),
{
    if items.len() == 0 {
        Seq::empty()
    } else if items.len() == 1 {
        json_string_literal(items[0])
    } else {
        json_items(items.drop_last()) + ","@ + json_string_literal(items.last())
    }
}

/// A JSON array of strings, as serde_json writes it.
pub open spec fn json_string_array(items: Seq<Seq<char>>) -> Seq<char> {
    "["@ + json_items(items) + "]"@
}

/// The canonical JSON text a grant's hash covers: an object of the grant's
/// scope fields with its keys in sorted order, as serde_json writes it.
/// Status, revision, revocation and the hash itself are not covered.
#[verifier::opaque]
pub open spec fn grant_payload(g: ExecutionGrant) -> Seq<char> {
    "{\"allowed_commands\":"@ + json_string_array(texts(g.allowed_commands@))
        + ",\"attempt_id\":"@ + json_string_literal(g.attempt_id.0@)
        + ",\"authorization_id\":"@ + json_string_literal(g.authorization_id.0@)
        + ",\"authorization_revision\":"@ + int_decimal(g.authorization_revision as int)
        + ",\"created_by_command_receipt_ref\":"@ + json_string_literal(g.created_by_command_receipt_ref@)
        + ",\"cwd_ref\":"@ + json_string_literal(g.cwd_ref@)
        + ",\"effect_key\":"@ + json_string_literal(g.effect_key@)
        + ",\"expires_at_ms\":"@ + int_decimal(g.expires_at_ms as int)
        + ",\"grant_id\":"@ + json_string_literal(g.grant_id.0@)
        + ",\"idempotency_key\":"@ + json_string_literal(g.idempotency_key@)
        + ",\"issued_at_ms\":"@ + int_decimal(g.issued_at_ms as int)
        + ",\"object_refs\":"@ + json_string_array(texts(g.object_refs@))
        + ",\"orchestration_id\":"@ + json_string_literal(g.orchestration_id.0@)
        + ",\"policy_decision_ref\":"@ + json_string_literal(g.policy_decision_ref@)
        + ",\"principal_actor_id\":"@ + json_string_literal(g.principal_actor_id@)
        + ",\"project_id\":"@ + json_string_literal(g.project_id@)
        + ",\"scope_fingerprint\":"@ + json_string_literal(g.scope_fingerprint@)
        + ",\"work_item_id\":"@ + json_string_literal(g.work_item_id.0@)
        + ",\"worker_role_session_id\":"@ + json_string_literal(g.worker_role_session_id@)
        + ",\"workflow_run_id\":"@ + json_string_literal(g.workflow_run_id.0@)
        + ",\"write_root_refs\":"@ + json_string_array(texts(g.write_root_refs@))
        + "}"@
}

/// The hash a grant's scope fields determine.
pub open spec fn grant_hash_of(g: ExecutionGrant) -> Seq<char> {
    sha256_hex_of(grant_payload(g))
}

/// `v` holds a string whose text is `t`.
pub open spec fn holds_text(v: Seq<String>, t: Seq<char>) -> bool {
    exists|i: int| 0 <= i < v.len() && v[i]@ == t
}

/// A write root `root` lies inside one of the granted roots.
pub open spec fn root_within(granted: Seq<String>, root: Seq<char>) -> bool {
    exists|i: int| 0 <= i < granted.len() && (granted[i]@ == root || starts_with(root, granted[i]@))
}

/// Whether the mint input is complete enough to mint from.
pub open spec fn mint_input_complete(input: GrantMintInput) -> bool {
    &&& !is_blank_seq(input.project_id@)
    &&& !is_blank_seq(input.principal_actor_id@)
    &&& !is_blank_seq(input.worker_role_session_id@)
    &&& input.allowed_commands@.len() > 0
    &&& !is_blank_seq(input.cwd_ref@)
    &&& input.expires_at_ms > input.issued_at_ms
}

/// Appends the JSON array of `items` to `out`.
fn append_json_array(out: &mut String, items: &Vec<String>)
    ensures
        final(out)@ == old(out)@ + json_string_array(texts(items@)),
{
    out.append("[");
    let ghost start = out@;
    let mut i: usize = 0;
    while i < items.len()
        invariant
            i <= items.len(),
            out@ == start + json_items(texts(items@).subrange(0, i as int)),
        decreases items.len() - i,
    {
        let ghost before = texts(items@).subrange(0, i as int);
        if i > 0 {
            out.append(",");
        }
        let q = json_quote(items[i].as_str());
        out.append(q.as_str());
        proof {
            let after = texts(items@).subrange(0, i + 1);
            assert(after.drop_last() =~= before);
            assert(after.last() == items@[i as int]@);
            if i == 0 {
                assert(before =~= Seq::<Seq<char>>::empty());
                assert(json_items(before) =~= Seq::<char>::empty());
            }
        }
        i = i + 1;
    }
    assert(texts(items@).subrange(0, items.len() as int) =~= texts(items@));
    out.append("]");
}

/// Appends the JSON string literal of `s` to `out`.
fn append_json_str(out: &mut String, s: &str)
    ensures
        final(out)@ == old(out)@ + json_string_literal(s@),
{
    let q = json_quote(s);
    out.append(q.as_str());
}

/// Appends the decimal text of `n` to `out`.
fn append_decimal(out: &mut String, n: i64)
    ensures
        final(out)@ == old(out)@ + int_decimal(n as int),
{
    let d = i64_to_decimal(n);
    out.append(d.as_str());
}

/// The canonical payload text of a grant.
pub fn grant_payload_text(g: &ExecutionGrant) -> (r: String)
    ensures
        r@ == grant_payload(*g),
{
    reveal(grant_payload);
    let mut s = String::from_str("{\"allowed_commands\":");
    append_json_array(&mut s, &g.allowed_commands);
    s.append(",\"attempt_id\":");
    append_json_str(&mut s, g.attempt_id.as_str());
    s.append(",\"authorization_id\":");
    append_json_str(&mut s, g.authorization_id.as_str());
    s.append(",\"authorization_revision\":");
    append_decimal(&mut s, g.authorization_revision);
    s.append(",\"created_by_command_receipt_ref\":");
    append_json_str(&mut s, g.created_by_command_receipt_ref.as_str());
    s.append(",\"cwd_ref\":");
    append_json_str(&mut s, g.cwd_ref.as_str());
    s.append(",\"effect_key\":");
    append_json_str(&mut s, g.effect_key.as_str());
    s.append(",\"expires_at_ms\":");
    append_decimal(&mut s, g.expires_at_ms);
    s.append(",\"grant_id\":");
    append_json_str(&mut s, g.grant_id.as_str());
    s.append(",\"idempotency_key\":");
    append_json_str(&mut s, g.idempotency_key.as_str());
    s.append(",\"issued_at_ms\":");
    append_decimal(&mut s, g.issued_at_ms);
    s.append(",\"object_refs\":");
    append_json_array(&mut s, &g.object_refs);
    s.append(",\"orchestration_id\":");
    append_json_str(&mut s, g.orchestration_id.as_str());
    s.append(",\"policy_decision_ref\":");
    append_json_str(&mut s, g.policy_decision_ref.as_str());
    s.append(",\"principal_actor_id\":");
    append_json_str(&mut s, g.principal_actor_id.as_str());
    s.append(",\"project_id\":");
    append_json_str(&mut s, g.project_id.as_str());
    s.append(",\"scope_fingerprint\":");
    append_json_str(&mut s, g.scope_fingerprint.as_str());
    s.append(",\"work_item_id\":");
    append_json_str(&mut s, g.work_item_id.as_str());
    s.append(",\"worker_role_session_id\":");
    append_json_str(&mut s, g.worker_role_session_id.as_str());
    s.append(",\"workflow_run_id\":");
    append_json_str(&mut s, g.workflow_run_id.as_str());
    s.append(",\"write_root_refs\":");
    append_json_array(&mut s, &g.write_root_refs);
    s.append("}");
    s
}

/// The hash over a grant's canonical payload.
pub fn compute_grant_hash(grant: &ExecutionGrant) -> (r: String)
    ensures
        r@ == grant_hash_of(*grant),
        r@.len() == 64,
{
    let payload = grant_payload_text(grant);
    sha256_hex(payload.as_str())
}


/// A status change leaves the hash the grant's scope fields determine unchanged.
pub proof fn lemma_status_change_keeps_hash(g: ExecutionGrant, status: GrantStatus)
    ensures
        grant_hash_of(g.with_status(status)) == grant_hash_of(g),
        g.hash_intact() ==> g.with_status(status).hash_intact(),
{
    reveal(grant_payload);
    assert(grant_payload(g.with_status(status)) == grant_payload(g));
}

/// A freshly minted grant is not yet usable, at any time.
pub proof fn lemma_minted_grant_not_active(g: ExecutionGrant, input: GrantMintInput, now_ms: i64)
    requires
        g.minted_from(input),
    ensures
        !g.active_at(now_ms),
{
}

/// Reading back an intact MINT_PENDING grant with its own hash before expiry
/// activates it: the result is usable at every time before its expiry.
pub proof fn lemma_readback_activates(g: ExecutionGrant, now_ms: i64, later_ms: i64)
    requires
        g.status == GrantStatus::MintPending,
        g.hash_intact(),
        g.revoked_at_ms is None,
        g.revision < i64::MAX,
        later_ms < g.expires_at_ms,
    ensures
        g.with_status(GrantStatus::Active).active_at(later_ms),
{
    lemma_status_change_keeps_hash(g, GrantStatus::Active);
}

/// A revoked grant is never usable again.
pub proof fn lemma_revoked_grant_never_active(g: ExecutionGrant, revoked_at: i64, now_ms: i64)
    ensures
        !(ExecutionGrant {
            status: GrantStatus::Revoked,
            revoked_at_ms: Some(revoked_at),
            revision: (g.revision + 1) as i64,
            ..g
        }).active_at(now_ms),
{
}

/// The persisted name of every grant status parses back to that status.
pub proof fn lemma_grant_status_name_round_trip(s: GrantStatus)
    ensures
        GrantStatus::from_m1_name(s.m1_name()) == Some(s),
{
    reveal_strlit("MINT_PENDING");
    reveal_strlit("ACTIVE");
    reveal_strlit("REVOKED");
    reveal_strlit("EXPIRED");
    reveal_strlit("QUARANTINED");
    assert("ACTIVE"@.len() == 6);
    assert("MINT_PENDING"@.len() == 12);
    assert("REVOKED"@.len() == 7);
    assert("EXPIRED"@.len() == 7);
    assert("QUARANTINED"@.len() == 11);
    assert("REVOKED"@[0] != "EXPIRED"@[0]);
}

/// `seg` occurs in `t`.
#[verifier::opaque]
pub open spec fn has_segment(t: Seq<char>, seg: Seq<char>) -> bool {
    exists|p: Seq<char>, q: Seq<char>| t == p + seg + q
}

proof fn lemma_segment_extended(t: Seq<char>, seg: Seq<char>, x: Seq<char>)
    requires
        has_segment(t, seg),
    ensures
        has_segment(t + x, seg),
{
    reveal(has_segment);
    let (p, q) = choose|p: Seq<char>, q: Seq<char>| t == p + seg + q;
    assert(t + x =~= p + seg + (q + x));
}

proof fn lemma_pair_at_end(p: Seq<char>, a: Seq<char>, b: Seq<char>)
    ensures
        has_segment(p + a + b, a + b),
{
    reveal(has_segment);
    assert(p + a + b =~= p + (a + b) + Seq::<char>::empty());
}

/// Each key-value pair of a concatenation of alternating keys and values
/// occurs in it.
proof fn lemma_pairs_occur(x0: Seq<char>, x1: Seq<char>, x2: Seq<char>, x3: Seq<char>, x4: Seq<char>, x5: Seq<char>, x6: Seq<char>, x7: Seq<char>, x8: Seq<char>, x9: Seq<char>, x10: Seq<char>, x11: Seq<char>, x12: Seq<char>, x13: Seq<char>, x14: Seq<char>, x15: Seq<char>, x16: Seq<char>, x17: Seq<char>, x18: Seq<char>, x19: Seq<char>, x20: Seq<char>, x21: Seq<char>, x22: Seq<char>, x23: Seq<char>, x24: Seq<char>, x25: Seq<char>, x26: Seq<char>, x27: Seq<char>, x28: Seq<char>, x29: Seq<char>, x30: Seq<char>, x31: Seq<char>, x32: Seq<char>, x33: Seq<char>, x34: Seq<char>, x35: Seq<char>, x36: Seq<char>, x37: Seq<char>, x38: Seq<char>, x39: Seq<char>, x40: Seq<char>, x41: Seq<char>, x42: Seq<char>)
    ensures
        has_segment(x0 + x1 + x2 + x3 + x4 + x5 + x6 + x7 + x8 + x9 + x10 + x11 + x12 + x13 + x14 + x15 + x16 + x17 + x18 + x19 + x20 + x21 + x22 + x23 + x24 + x25 + x26 + x27 + x28 + x29 + x30 + x31 + x32 + x33 + x34 + x35 + x36 + x37 + x38 + x39 + x40 + x41 + x42, x2 + x3),
        has_segment(x0 + x1 + x2 + x3 + x4 + x5 + x6 + x7 + x8 + x9 + x10 + x11 + x12 + x13 + x14 + x15 + x16 + x17 + x18 + x19 + x20 + x21 + x22 + x23 + x24 + x25 + x26 + x27 + x28 + x29 + x30 + x31 + x32 + x33 + x34 + x35 + x36 + x37 + x38 + x39 + x40 + x41 + x42, x4 + x5),
        has_segment(x0 + x1 + x2 + x3 + x4 + x5 + x6 + x7 + x8 + x9 + x10 + x11 + x12 + x13 + x14 + x15 + x16 + x17 + x18 + x19 + x20 + x21 + x22 + x23 + x24 + x25 + x26 + x27 + x28 + x29 + x30 + x31 + x32 + x33 + x34 + x35 + x36 + x37 + x38 + x39 + x40 + x41 + x42, x6 + x7),
        has_segment(x0 + x1 + x2 + x3 + x4 + x5 + x6 + x7 + x8 + x9 + x10 + x11 + x12 + x13 + x14 + x15 + x16 + x17 + x18 + x19 + x20 + x21 + x22 + x23 + x24 + x25 + x26 + x27 + x28 + x29 + x30 + x31 + x32 + x33 + x34 + x35 + x36 + x37 + x38 + x39 + x40 + x41 + x42, x8 + x9),
        has_segment(x0 + x1 + x2 + x3 + x4 + x5 + x6 + x7 + x8 + x9 + x10 + x11 + x12 + x13 + x14 + x15 + x16 + x17 + x18 + x19 + x20 + x21 + x22 + x23 + x24 + x25 + x26 + x27 + x28 + x29 + x30 + x31 + x32 + x33 + x34 + x35 + x36 + x37 + x38 + x39 + x40 + x41 + x42, x10 + x11),
        has_segment(x0 + x1 + x2 + x3 + x4 + x5 + x6 + x7 + x8 + x9 + x10 + x11 + x12 + x13 + x14 + x15 + x16 + x17 + x18 + x19 + x20 + x21 + x22 + x23 + x24 + x25 + x26 + x27 + x28 + x29 + x30 + x31 + x32 + x33 + x34 + x35 + x36 + x37 + x38 + x39 + x40 + x41 + x42, x12 + x13),
        has_segment(x0 + x1 + x2 + x3 + x4 + x5 + x6 + x7 + x8 + x9 + x10 + x11 + x12 + x13 + x14 + x15 + x16 + x17 + x18 + x19 + x20 + x21 + x22 + x23 + x24 + x25 + x26 + x27 + x28 + x29 + x30 + x31 + x32 + x33 + x34 + x35 + x36 + x37 + x38 + x39 + x40 + x41 + x42, x14 + x15),
        has_segment(x0 + x1 + x2 + x3 + x4 + x5 + x6 + x7 + x8 + x9 + x10 + x11 + x12 + x13 + x14 + x15 + x16 + x17 + x18 + x19 + x20 + x21 + x22 + x23 + x24 + x25 + x26 + x27 + x28 + x29 + x30 + x31 + x32 + x33 + x34 + x35 + x36 + x37 + x38 + x39 + x40 + x41 + x42, x16 + x17),
        has_segment(x0 + x1 + x2 + x3 + x4 + x5 + x6 + x7 + x8 + x9 + x10 + x11 + x12 + x13 + x14 + x15 + x16 + x17 + x18 + x19 + x20 + x21 + x22 + x23 + x24 + x25 + x26 + x27 + x28 + x29 + x30 + x31 + x32 + x33 + x34 + x35 + x36 + x37 + x38 + x39 + x40 + x41 + x42, x18 + x19),
        has_segment(x0 + x1 + x2 + x3 + x4 + x5 + x6 + x7 + x8 + x9 + x10 + x11 + x12 + x13 + x14 + x15 + x16 + x17 + x18 + x19 + x20 + x21 + x22 + x23 + x24 + x25 + x26 + x27 + x28 + x29 + x30 + x31 + x32 + x33 + x34 + x35 + x36 + x37 + x38 + x39 + x40 + x41 + x42, x20 + x21),
        has_segment(x0 + x1 + x2 + x3 + x4 + x5 + x6 + x7 + x8 + x9 + x10 + x11 + x12 + x13 + x14 + x15 + x16 + x17 + x18 + x19 + x20 + x21 + x22 + x23 + x24 + x25 + x26 + x27 + x28 + x29 + x30 + x31 + x32 + x33 + x34 + x35 + x36 + x37 + x38 + x39 + x40 + x41 + x42, x22 + x23),
        has_segment(x0 + x1 + x2 + x3 + x4 + x5 + x6 + x7 + x8 + x9 + x10 + x11 + x12 + x13 + x14 + x15 + x16 + x17 + x18 + x19 + x20 + x21 + x22 + x23 + x24 + x25 + x26 + x27 + x28 + x29 + x30 + x31 + x32 + x33 + x34 + x35 + x36 + x37 + x38 + x39 + x40 + x41 + x42, x24 + x25),
        has_segment(x0 + x1 + x2 + x3 + x4 + x5 + x6 + x7 + x8 + x9 + x10 + x11 + x12 + x13 + x14 + x15 + x16 + x17 + x18 + x19 + x20 + x21 + x22 + x23 + x24 + x25 + x26 + x27 + x28 + x29 + x30 + x31 + x32 + x33 + x34 + x35 + x36 + x37 + x38 + x39 + x40 + x41 + x42, x26 + x27),
        has_segment(x0 + x1 + x2 + x3 + x4 + x5 + x6 + x7 + x8 + x9 + x10 + x11 + x12 + x13 + x14 + x15 + x16 + x17 + x18 + x19 + x20 + x21 + x22 + x23 + x24 + x25 + x26 + x27 + x28 + x29 + x30 + x31 + x32 + x33 + x34 + x35 + x36 + x37 + x38 + x39 + x40 + x41 + x42, x28 + x29),
        has_segment(x0 + x1 + x2 + x3 + x4 + x5 + x6 + x7 + x8 + x9 + x10 + x11 + x12 + x13 + x14 + x15 + x16 + x17 + x18 + x19 + x20 + x21 + x22 + x23 + x24 + x25 + x26 + x27 + x28 + x29 + x30 + x31 + x32 + x33 + x34 + x35 + x36 + x37 + x38 + x39 + x40 + x41 + x42, x30 + x31),
        has_segment(x0 + x1 + x2 + x3 + x4 + x5 + x6 + x7 + x8 + x9 + x10 + x11 + x12 + x13 + x14 + x15 + x16 + x17 + x18 + x19 + x20 + x21 + x22 + x23 + x24 + x25 + x26 + x27 + x28 + x29 + x30 + x31 + x32 + x33 + x34 + x35 + x36 + x37 + x38 + x39 + x40 + x41 + x42, x32 + x33),
        has_segment(x0 + x1 + x2 + x3 + x4 + x5 + x6 + x7 + x8 + x9 + x10 + x11 + x12 + x13 + x14 + x15 + x16 + x17 + x18 + x19 + x20 + x21 + x22 + x23 + x24 + x25 + x26 + x27 + x28 + x29 + x30 + x31 + x32 + x33 + x34 + x35 + x36 + x37 + x38 + x39 + x40 + x41 + x42, x34 + x35),
        has_segment(x0 + x1 + x2 + x3 + x4 + x5 + x6 + x7 + x8 + x9 + x10 + x11 + x12 + x13 + x14 + x15 + x16 + x17 + x18 + x19 + x20 + x21 + x22 + x23 + x24 + x25 + x26 + x27 + x28 + x29 + x30 + x31 + x32 + x33 + x34 + x35 + x36 + x37 + x38 + x39 + x40 + x41 + x42, x36 + x37),
        has_segment(x0 + x1 + x2 + x3 + x4 + x5 + x6 + x7 + x8 + x9 + x10 + x11 + x12 + x13 + x14 + x15 + x16 + x17 + x18 + x19 + x20 + x21 + x22 + x23 + x24 + x25 + x26 + x27 + x28 + x29 + x30 + x31 + x32 + x33 + x34 + x35 + x36 + x37 + x38 + x39 + x40 + x41 + x42, x38 + x39),
        has_segment(x0 + x1 + x2 + x3 + x4 + x5 + x6 + x7 + x8 + x9 + x10 + x11 + x12 + x13 + x14 + x15 + x16 + x17 + x18 + x19 + x20 + x21 + x22 + x23 + x24 + x25 + x26 + x27 + x28 + x29 + x30 + x31 + x32 + x33 + x34 + x35 + x36 + x37 + x38 + x39 + x40 + x41 + x42, x40 + x41),
{
    let l0 = x0;
    let l1 = l0 + x1;
    let l2 = l1 + x2;
    let l3 = l2 + x3;
    let l4 = l3 + x4;
    let l5 = l4 + x5;
    let l6 = l5 + x6;
    let l7 = l6 + x7;
    let l8 = l7 + x8;
    let l9 = l8 + x9;
    let l10 = l9 + x10;
    let l11 = l10 + x11;
    let l12 = l11 + x12;
    let l13 = l12 + x13;
    let l14 = l13 + x14;
    let l15 = l14 + x15;
    let l16 = l15 + x16;
    let l17 = l16 + x17;
    let l18 = l17 + x18;
    let l19 = l18 + x19;
    let l20 = l19 + x20;
    let l21 = l20 + x21;
    let l22 = l21 + x22;
    let l23 = l22 + x23;
    let l24 = l23 + x24;
    let l25 = l24 + x25;
    let l26 = l25 + x26;
    let l27 = l26 + x27;
    let l28 = l27 + x28;
    let l29 = l28 + x29;
    let l30 = l29 + x30;
    let l31 = l30 + x31;
    let l32 = l31 + x32;
    let l33 = l32 + x33;
    let l34 = l33 + x34;
    let l35 = l34 + x35;
    let l36 = l35 + x36;
    let l37 = l36 + x37;
    let l38 = l37 + x38;
    let l39 = l38 + x39;
    let l40 = l39 + x40;
    let l41 = l40 + x41;
    let l42 = l41 + x42;
    lemma_pair_at_end(l1, x2, x3);
    lemma_segment_extended(l3, x2 + x3, x4);
    lemma_segment_extended(l4, x2 + x3, x5);
    lemma_segment_extended(l5, x2 + x3, x6);
    lemma_segment_extended(l6, x2 + x3, x7);
    lemma_segment_extended(l7, x2 + x3, x8);
    lemma_segment_extended(l8, x2 + x3, x9);
    lemma_segment_extended(l9, x2 + x3, x10);
    lemma_segment_extended(l10, x2 + x3, x11);
    lemma_segment_extended(l11, x2 + x3, x12);
    lemma_segment_extended(l12, x2 + x3, x13);
    lemma_segment_extended(l13, x2 + x3, x14);
    lemma_segment_extended(l14, x2 + x3, x15);
    lemma_segment_extended(l15, x2 + x3, x16);
    lemma_segment_extended(l16, x2 + x3, x17);
    lemma_segment_extended(l17, x2 + x3, x18);
    lemma_segment_extended(l18, x2 + x3, x19);
    lemma_segment_extended(l19, x2 + x3, x20);
    lemma_segment_extended(l20, x2 + x3, x21);
    lemma_segment_extended(l21, x2 + x3, x22);
    lemma_segment_extended(l22, x2 + x3, x23);
    lemma_segment_extended(l23, x2 + x3, x24);
    lemma_segment_extended(l24, x2 + x3, x25);
    lemma_segment_extended(l25, x2 + x3, x26);
    lemma_segment_extended(l26, x2 + x3, x27);
    lemma_segment_extended(l27, x2 + x3, x28);
    lemma_segment_extended(l28, x2 + x3, x29);
    lemma_segment_extended(l29, x2 + x3, x30);
    lemma_segment_extended(l30, x2 + x3, x31);
    lemma_segment_extended(l31, x2 + x3, x32);
    lemma_segment_extended(l32, x2 + x3, x33);
    lemma_segment_extended(l33, x2 + x3, x34);
    lemma_segment_extended(l34, x2 + x3, x35);
    lemma_segment_extended(l35, x2 + x3, x36);
    lemma_segment_extended(l36, x2 + x3, x37);
    lemma_segment_extended(l37, x2 + x3, x38);
    lemma_segment_extended(l38, x2 + x3, x39);
    lemma_segment_extended(l39, x2 + x3, x40);
    lemma_segment_extended(l40, x2 + x3, x41);
    lemma_segment_extended(l41, x2 + x3, x42);
    lemma_pair_at_end(l3, x4, x5);
    lemma_segment_extended(l5, x4 + x5, x6);
    lemma_segment_extended(l6, x4 + x5, x7);
    lemma_segment_extended(l7, x4 + x5, x8);
    lemma_segment_extended(l8, x4 + x5, x9);
    lemma_segment_extended(l9, x4 + x5, x10);
    lemma_segment_extended(l10, x4 + x5, x11);
    lemma_segment_extended(l11, x4 + x5, x12);
    lemma_segment_extended(l12, x4 + x5, x13);
    lemma_segment_extended(l13, x4 + x5, x14);
    lemma_segment_extended(l14, x4 + x5, x15);
    lemma_segment_extended(l15, x4 + x5, x16);
    lemma_segment_extended(l16, x4 + x5, x17);
    lemma_segment_extended(l17, x4 + x5, x18);
    lemma_segment_extended(l18, x4 + x5, x19);
    lemma_segment_extended(l19, x4 + x5, x20);
    lemma_segment_extended(l20, x4 + x5, x21);
    lemma_segment_extended(l21, x4 + x5, x22);
    lemma_segment_extended(l22, x4 + x5, x23);
    lemma_segment_extended(l23, x4 + x5, x24);
    lemma_segment_extended(l24, x4 + x5, x25);
    lemma_segment_extended(l25, x4 + x5, x26);
    lemma_segment_extended(l26, x4 + x5, x27);
    lemma_segment_extended(l27, x4 + x5, x28);
    lemma_segment_extended(l28, x4 + x5, x29);
    lemma_segment_extended(l29, x4 + x5, x30);
    lemma_segment_extended(l30, x4 + x5, x31);
    lemma_segment_extended(l31, x4 + x5, x32);
    lemma_segment_extended(l32, x4 + x5, x33);
    lemma_segment_extended(l33, x4 + x5, x34);
    lemma_segment_extended(l34, x4 + x5, x35);
    lemma_segment_extended(l35, x4 + x5, x36);
    lemma_segment_extended(l36, x4 + x5, x37);
    lemma_segment_extended(l37, x4 + x5, x38);
    lemma_segment_extended(l38, x4 + x5, x39);
    lemma_segment_extended(l39, x4 + x5, x40);
    lemma_segment_extended(l40, x4 + x5, x41);
    lemma_segment_extended(l41, x4 + x5, x42);
    lemma_pair_at_end(l5, x6, x7);
    lemma_segment_extended(l7, x6 + x7, x8);
    lemma_segment_extended(l8, x6 + x7, x9);
    lemma_segment_extended(l9, x6 + x7, x10);
    lemma_segment_extended(l10, x6 + x7, x11);
    lemma_segment_extended(l11, x6 + x7, x12);
    lemma_segment_extended(l12, x6 + x7, x13);
    lemma_segment_extended(l13, x6 + x7, x14);
    lemma_segment_extended(l14, x6 + x7, x15);
    lemma_segment_extended(l15, x6 + x7, x16);
    lemma_segment_extended(l16, x6 + x7, x17);
    lemma_segment_extended(l17, x6 + x7, x18);
    lemma_segment_extended(l18, x6 + x7, x19);
    lemma_segment_extended(l19, x6 + x7, x20);
    lemma_segment_extended(l20, x6 + x7, x21);
    lemma_segment_extended(l21, x6 + x7, x22);
    lemma_segment_extended(l22, x6 + x7, x23);
    lemma_segment_extended(l23, x6 + x7, x24);
    lemma_segment_extended(l24, x6 + x7, x25);
    lemma_segment_extended(l25, x6 + x7, x26);
    lemma_segment_extended(l26, x6 + x7, x27);
    lemma_segment_extended(l27, x6 + x7, x28);
    lemma_segment_extended(l28, x6 + x7, x29);
    lemma_segment_extended(l29, x6 + x7, x30);
    lemma_segment_extended(l30, x6 + x7, x31);
    lemma_segment_extended(l31, x6 + x7, x32);
    lemma_segment_extended(l32, x6 + x7, x33);
    lemma_segment_extended(l33, x6 + x7, x34);
    lemma_segment_extended(l34, x6 + x7, x35);
    lemma_segment_extended(l35, x6 + x7, x36);
    lemma_segment_extended(l36, x6 + x7, x37);
    lemma_segment_extended(l37, x6 + x7, x38);
    lemma_segment_extended(l38, x6 + x7, x39);
    lemma_segment_extended(l39, x6 + x7, x40);
    lemma_segment_extended(l40, x6 + x7, x41);
    lemma_segment_extended(l41, x6 + x7, x42);
    lemma_pair_at_end(l7, x8, x9);
    lemma_segment_extended(l9, x8 + x9, x10);
    lemma_segment_extended(l10, x8 + x9, x11);
    lemma_segment_extended(l11, x8 + x9, x12);
    lemma_segment_extended(l12, x8 + x9, x13);
    lemma_segment_extended(l13, x8 + x9, x14);
    lemma_segment_extended(l14, x8 + x9, x15);
    lemma_segment_extended(l15, x8 + x9, x16);
    lemma_segment_extended(l16, x8 + x9, x17);
    lemma_segment_extended(l17, x8 + x9, x18);
    lemma_segment_extended(l18, x8 + x9, x19);
    lemma_segment_extended(l19, x8 + x9, x20);
    lemma_segment_extended(l20, x8 + x9, x21);
    lemma_segment_extended(l21, x8 + x9, x22);
    lemma_segment_extended(l22, x8 + x9, x23);
    lemma_segment_extended(l23, x8 + x9, x24);
    lemma_segment_extended(l24, x8 + x9, x25);
    lemma_segment_extended(l25, x8 + x9, x26);
    lemma_segment_extended(l26, x8 + x9, x27);
    lemma_segment_extended(l27, x8 + x9, x28);
    lemma_segment_extended(l28, x8 + x9, x29);
    lemma_segment_extended(l29, x8 + x9, x30);
    lemma_segment_extended(l30, x8 + x9, x31);
    lemma_segment_extended(l31, x8 + x9, x32);
    lemma_segment_extended(l32, x8 + x9, x33);
    lemma_segment_extended(l33, x8 + x9, x34);
    lemma_segment_extended(l34, x8 + x9, x35);
    lemma_segment_extended(l35, x8 + x9, x36);
    lemma_segment_extended(l36, x8 + x9, x37);
    lemma_segment_extended(l37, x8 + x9, x38);
    lemma_segment_extended(l38, x8 + x9, x39);
    lemma_segment_extended(l39, x8 + x9, x40);
    lemma_segment_extended(l40, x8 + x9, x41);
    lemma_segment_extended(l41, x8 + x9, x42);
    lemma_pair_at_end(l9, x10, x11);
    lemma_segment_extended(l11, x10 + x11, x12);
    lemma_segment_extended(l12, x10 + x11, x13);
    lemma_segment_extended(l13, x10 + x11, x14);
    lemma_segment_extended(l14, x10 + x11, x15);
    lemma_segment_extended(l15, x10 + x11, x16);
    lemma_segment_extended(l16, x10 + x11, x17);
    lemma_segment_extended(l17, x10 + x11, x18);
    lemma_segment_extended(l18, x10 + x11, x19);
    lemma_segment_extended(l19, x10 + x11, x20);
    lemma_segment_extended(l20, x10 + x11, x21);
    lemma_segment_extended(l21, x10 + x11, x22);
    lemma_segment_extended(l22, x10 + x11, x23);
    lemma_segment_extended(l23, x10 + x11, x24);
    lemma_segment_extended(l24, x10 + x11, x25);
    lemma_segment_extended(l25, x10 + x11, x26);
    lemma_segment_extended(l26, x10 + x11, x27);
    lemma_segment_extended(l27, x10 + x11, x28);
    lemma_segment_extended(l28, x10 + x11, x29);
    lemma_segment_extended(l29, x10 + x11, x30);
    lemma_segment_extended(l30, x10 + x11, x31);
    lemma_segment_extended(l31, x10 + x11, x32);
    lemma_segment_extended(l32, x10 + x11, x33);
    lemma_segment_extended(l33, x10 + x11, x34);
    lemma_segment_extended(l34, x10 + x11, x35);
    lemma_segment_extended(l35, x10 + x11, x36);
    lemma_segment_extended(l36, x10 + x11, x37);
    lemma_segment_extended(l37, x10 + x11, x38);
    lemma_segment_extended(l38, x10 + x11, x39);
    lemma_segment_extended(l39, x10 + x11, x40);
    lemma_segment_extended(l40, x10 + x11, x41);
    lemma_segment_extended(l41, x10 + x11, x42);
    lemma_pair_at_end(l11, x12, x13);
    lemma_segment_extended(l13, x12 + x13, x14);
    lemma_segment_extended(l14, x12 + x13, x15);
    lemma_segment_extended(l15, x12 + x13, x16);
    lemma_segment_extended(l16, x12 + x13, x17);
    lemma_segment_extended(l17, x12 + x13, x18);
    lemma_segment_extended(l18, x12 + x13, x19);
    lemma_segment_extended(l19, x12 + x13, x20);
    lemma_segment_extended(l20, x12 + x13, x21);
    lemma_segment_extended(l21, x12 + x13, x22);
    lemma_segment_extended(l22, x12 + x13, x23);
    lemma_segment_extended(l23, x12 + x13, x24);
    lemma_segment_extended(l24, x12 + x13, x25);
    lemma_segment_extended(l25, x12 + x13, x26);
    lemma_segment_extended(l26, x12 + x13, x27);
    lemma_segment_extended(l27, x12 + x13, x28);
    lemma_segment_extended(l28, x12 + x13, x29);
    lemma_segment_extended(l29, x12 + x13, x30);
    lemma_segment_extended(l30, x12 + x13, x31);
    lemma_segment_extended(l31, x12 + x13, x32);
    lemma_segment_extended(l32, x12 + x13, x33);
    lemma_segment_extended(l33, x12 + x13, x34);
    lemma_segment_extended(l34, x12 + x13, x35);
    lemma_segment_extended(l35, x12 + x13, x36);
    lemma_segment_extended(l36, x12 + x13, x37);
    lemma_segment_extended(l37, x12 + x13, x38);
    lemma_segment_extended(l38, x12 + x13, x39);
    lemma_segment_extended(l39, x12 + x13, x40);
    lemma_segment_extended(l40, x12 + x13, x41);
    lemma_segment_extended(l41, x12 + x13, x42);
    lemma_pair_at_end(l13, x14, x15);
    lemma_segment_extended(l15, x14 + x15, x16);
    lemma_segment_extended(l16, x14 + x15, x17);
    lemma_segment_extended(l17, x14 + x15, x18);
    lemma_segment_extended(l18, x14 + x15, x19);
    lemma_segment_extended(l19, x14 + x15, x20);
    lemma_segment_extended(l20, x14 + x15, x21);
    lemma_segment_extended(l21, x14 + x15, x22);
    lemma_segment_extended(l22, x14 + x15, x23);
    lemma_segment_extended(l23, x14 + x15, x24);
    lemma_segment_extended(l24, x14 + x15, x25);
    lemma_segment_extended(l25, x14 + x15, x26);
    lemma_segment_extended(l26, x14 + x15, x27);
    lemma_segment_extended(l27, x14 + x15, x28);
    lemma_segment_extended(l28, x14 + x15, x29);
    lemma_segment_extended(l29, x14 + x15, x30);
    lemma_segment_extended(l30, x14 + x15, x31);
    lemma_segment_extended(l31, x14 + x15, x32);
    lemma_segment_extended(l32, x14 + x15, x33);
    lemma_segment_extended(l33, x14 + x15, x34);
    lemma_segment_extended(l34, x14 + x15, x35);
    lemma_segment_extended(l35, x14 + x15, x36);
    lemma_segment_extended(l36, x14 + x15, x37);
    lemma_segment_extended(l37, x14 + x15, x38);
    lemma_segment_extended(l38, x14 + x15, x39);
    lemma_segment_extended(l39, x14 + x15, x40);
    lemma_segment_extended(l40, x14 + x15, x41);
    lemma_segment_extended(l41, x14 + x15, x42);
    lemma_pair_at_end(l15, x16, x17);
    lemma_segment_extended(l17, x16 + x17, x18);
    lemma_segment_extended(l18, x16 + x17, x19);
    lemma_segment_extended(l19, x16 + x17, x20);
    lemma_segment_extended(l20, x16 + x17, x21);
    lemma_segment_extended(l21, x16 + x17, x22);
    lemma_segment_extended(l22, x16 + x17, x23);
    lemma_segment_extended(l23, x16 + x17, x24);
    lemma_segment_extended(l24, x16 + x17, x25);
    lemma_segment_extended(l25, x16 + x17, x26);
    lemma_segment_extended(l26, x16 + x17, x27);
    lemma_segment_extended(l27, x16 + x17, x28);
    lemma_segment_extended(l28, x16 + x17, x29);
    lemma_segment_extended(l29, x16 + x17, x30);
    lemma_segment_extended(l30, x16 + x17, x31);
    lemma_segment_extended(l31, x16 + x17, x32);
    lemma_segment_extended(l32, x16 + x17, x33);
    lemma_segment_extended(l33, x16 + x17, x34);
    lemma_segment_extended(l34, x16 + x17, x35);
    lemma_segment_extended(l35, x16 + x17, x36);
    lemma_segment_extended(l36, x16 + x17, x37);
    lemma_segment_extended(l37, x16 + x17, x38);
    lemma_segment_extended(l38, x16 + x17, x39);
    lemma_segment_extended(l39, x16 + x17, x40);
    lemma_segment_extended(l40, x16 + x17, x41);
    lemma_segment_extended(l41, x16 + x17, x42);
    lemma_pair_at_end(l17, x18, x19);
    lemma_segment_extended(l19, x18 + x19, x20);
    lemma_segment_extended(l20, x18 + x19, x21);
    lemma_segment_extended(l21, x18 + x19, x22);
    lemma_segment_extended(l22, x18 + x19, x23);
    lemma_segment_extended(l23, x18 + x19, x24);
    lemma_segment_extended(l24, x18 + x19, x25);
    lemma_segment_extended(l25, x18 + x19, x26);
    lemma_segment_extended(l26, x18 + x19, x27);
    lemma_segment_extended(l27, x18 + x19, x28);
    lemma_segment_extended(l28, x18 + x19, x29);
    lemma_segment_extended(l29, x18 + x19, x30);
    lemma_segment_extended(l30, x18 + x19, x31);
    lemma_segment_extended(l31, x18 + x19, x32);
    lemma_segment_extended(l32, x18 + x19, x33);
    lemma_segment_extended(l33, x18 + x19, x34);
    lemma_segment_extended(l34, x18 + x19, x35);
    lemma_segment_extended(l35, x18 + x19, x36);
    lemma_segment_extended(l36, x18 + x19, x37);
    lemma_segment_extended(l37, x18 + x19, x38);
    lemma_segment_extended(l38, x18 + x19, x39);
    lemma_segment_extended(l39, x18 + x19, x40);
    lemma_segment_extended(l40, x18 + x19, x41);
    lemma_segment_extended(l41, x18 + x19, x42);
    lemma_pair_at_end(l19, x20, x21);
    lemma_segment_extended(l21, x20 + x21, x22);
    lemma_segment_extended(l22, x20 + x21, x23);
    lemma_segment_extended(l23, x20 + x21, x24);
    lemma_segment_extended(l24, x20 + x21, x25);
    lemma_segment_extended(l25, x20 + x21, x26);
    lemma_segment_extended(l26, x20 + x21, x27);
    lemma_segment_extended(l27, x20 + x21, x28);
    lemma_segment_extended(l28, x20 + x21, x29);
    lemma_segment_extended(l29, x20 + x21, x30);
    lemma_segment_extended(l30, x20 + x21, x31);
    lemma_segment_extended(l31, x20 + x21, x32);
    lemma_segment_extended(l32, x20 + x21, x33);
    lemma_segment_extended(l33, x20 + x21, x34);
    lemma_segment_extended(l34, x20 + x21, x35);
    lemma_segment_extended(l35, x20 + x21, x36);
    lemma_segment_extended(l36, x20 + x21, x37);
    lemma_segment_extended(l37, x20 + x21, x38);
    lemma_segment_extended(l38, x20 + x21, x39);
    lemma_segment_extended(l39, x20 + x21, x40);
    lemma_segment_extended(l40, x20 + x21, x41);
    lemma_segment_extended(l41, x20 + x21, x42);
    lemma_pair_at_end(l21, x22, x23);
    lemma_segment_extended(l23, x22 + x23, x24);
    lemma_segment_extended(l24, x22 + x23, x25);
    lemma_segment_extended(l25, x22 + x23, x26);
    lemma_segment_extended(l26, x22 + x23, x27);
    lemma_segment_extended(l27, x22 + x23, x28);
    lemma_segment_extended(l28, x22 + x23, x29);
    lemma_segment_extended(l29, x22 + x23, x30);
    lemma_segment_extended(l30, x22 + x23, x31);
    lemma_segment_extended(l31, x22 + x23, x32);
    lemma_segment_extended(l32, x22 + x23, x33);
    lemma_segment_extended(l33, x22 + x23, x34);
    lemma_segment_extended(l34, x22 + x23, x35);
    lemma_segment_extended(l35, x22 + x23, x36);
    lemma_segment_extended(l36, x22 + x23, x37);
    lemma_segment_extended(l37, x22 + x23, x38);
    lemma_segment_extended(l38, x22 + x23, x39);
    lemma_segment_extended(l39, x22 + x23, x40);
    lemma_segment_extended(l40, x22 + x23, x41);
    lemma_segment_extended(l41, x22 + x23, x42);
    lemma_pair_at_end(l23, x24, x25);
    lemma_segment_extended(l25, x24 + x25, x26);
    lemma_segment_extended(l26, x24 + x25, x27);
    lemma_segment_extended(l27, x24 + x25, x28);
    lemma_segment_extended(l28, x24 + x25, x29);
    lemma_segment_extended(l29, x24 + x25, x30);
    lemma_segment_extended(l30, x24 + x25, x31);
    lemma_segment_extended(l31, x24 + x25, x32);
    lemma_segment_extended(l32, x24 + x25, x33);
    lemma_segment_extended(l33, x24 + x25, x34);
    lemma_segment_extended(l34, x24 + x25, x35);
    lemma_segment_extended(l35, x24 + x25, x36);
    lemma_segment_extended(l36, x24 + x25, x37);
    lemma_segment_extended(l37, x24 + x25, x38);
    lemma_segment_extended(l38, x24 + x25, x39);
    lemma_segment_extended(l39, x24 + x25, x40);
    lemma_segment_extended(l40, x24 + x25, x41);
    lemma_segment_extended(l41, x24 + x25, x42);
    lemma_pair_at_end(l25, x26, x27);
    lemma_segment_extended(l27, x26 + x27, x28);
    lemma_segment_extended(l28, x26 + x27, x29);
    lemma_segment_extended(l29, x26 + x27, x30);
    lemma_segment_extended(l30, x26 + x27, x31);
    lemma_segment_extended(l31, x26 + x27, x32);
    lemma_segment_extended(l32, x26 + x27, x33);
    lemma_segment_extended(l33, x26 + x27, x34);
    lemma_segment_extended(l34, x26 + x27, x35);
    lemma_segment_extended(l35, x26 + x27, x36);
    lemma_segment_extended(l36, x26 + x27, x37);
    lemma_segment_extended(l37, x26 + x27, x38);
    lemma_segment_extended(l38, x26 + x27, x39);
    lemma_segment_extended(l39, x26 + x27, x40);
    lemma_segment_extended(l40, x26 + x27, x41);
    lemma_segment_extended(l41, x26 + x27, x42);
    lemma_pair_at_end(l27, x28, x29);
    lemma_segment_extended(l29, x28 + x29, x30);
    lemma_segment_extended(l30, x28 + x29, x31);
    lemma_segment_extended(l31, x28 + x29, x32);
    lemma_segment_extended(l32, x28 + x29, x33);
    lemma_segment_extended(l33, x28 + x29, x34);
    lemma_segment_extended(l34, x28 + x29, x35);
    lemma_segment_extended(l35, x28 + x29, x36);
    lemma_segment_extended(l36, x28 + x29, x37);
    lemma_segment_extended(l37, x28 + x29, x38);
    lemma_segment_extended(l38, x28 + x29, x39);
    lemma_segment_extended(l39, x28 + x29, x40);
    lemma_segment_extended(l40, x28 + x29, x41);
    lemma_segment_extended(l41, x28 + x29, x42);
    lemma_pair_at_end(l29, x30, x31);
    lemma_segment_extended(l31, x30 + x31, x32);
    lemma_segment_extended(l32, x30 + x31, x33);
    lemma_segment_extended(l33, x30 + x31, x34);
    lemma_segment_extended(l34, x30 + x31, x35);
    lemma_segment_extended(l35, x30 + x31, x36);
    lemma_segment_extended(l36, x30 + x31, x37);
    lemma_segment_extended(l37, x30 + x31, x38);
    lemma_segment_extended(l38, x30 + x31, x39);
    lemma_segment_extended(l39, x30 + x31, x40);
    lemma_segment_extended(l40, x30 + x31, x41);
    lemma_segment_extended(l41, x30 + x31, x42);
    lemma_pair_at_end(l31, x32, x33);
    lemma_segment_extended(l33, x32 + x33, x34);
    lemma_segment_extended(l34, x32 + x33, x35);
    lemma_segment_extended(l35, x32 + x33, x36);
    lemma_segment_extended(l36, x32 + x33, x37);
    lemma_segment_extended(l37, x32 + x33, x38);
    lemma_segment_extended(l38, x32 + x33, x39);
    lemma_segment_extended(l39, x32 + x33, x40);
    lemma_segment_extended(l40, x32 + x33, x41);
    lemma_segment_extended(l41, x32 + x33, x42);
    lemma_pair_at_end(l33, x34, x35);
    lemma_segment_extended(l35, x34 + x35, x36);
    lemma_segment_extended(l36, x34 + x35, x37);
    lemma_segment_extended(l37, x34 + x35, x38);
    lemma_segment_extended(l38, x34 + x35, x39);
    lemma_segment_extended(l39, x34 + x35, x40);
    lemma_segment_extended(l40, x34 + x35, x41);
    lemma_segment_extended(l41, x34 + x35, x42);
    lemma_pair_at_end(l35, x36, x37);
    lemma_segment_extended(l37, x36 + x37, x38);
    lemma_segment_extended(l38, x36 + x37, x39);
    lemma_segment_extended(l39, x36 + x37, x40);
    lemma_segment_extended(l40, x36 + x37, x41);
    lemma_segment_extended(l41, x36 + x37, x42);
    lemma_pair_at_end(l37, x38, x39);
    lemma_segment_extended(l39, x38 + x39, x40);
    lemma_segment_extended(l40, x38 + x39, x41);
    lemma_segment_extended(l41, x38 + x39, x42);
    lemma_pair_at_end(l39, x40, x41);
    lemma_segment_extended(l41, x40 + x41, x42);
}

proof fn lemma_payload_parts(g: ExecutionGrant)
    ensures
        grant_payload(g) === "{\"allowed_commands\":"@ + json_string_array(texts(g.allowed_commands@)) + ",\"attempt_id\":"@ + json_string_literal(g.attempt_id.0@) + ",\"authorization_id\":"@ + json_string_literal(g.authorization_id.0@) + ",\"authorization_revision\":"@ + int_decimal(g.authorization_revision as int) + ",\"created_by_command_receipt_ref\":"@ + json_string_literal(g.created_by_command_receipt_ref@) + ",\"cwd_ref\":"@ + json_string_literal(g.cwd_ref@) + ",\"effect_key\":"@ + json_string_literal(g.effect_key@) + ",\"expires_at_ms\":"@ + int_decimal(g.expires_at_ms as int) + ",\"grant_id\":"@ + json_string_literal(g.grant_id.0@) + ",\"idempotency_key\":"@ + json_string_literal(g.idempotency_key@) + ",\"issued_at_ms\":"@ + int_decimal(g.issued_at_ms as int) + ",\"object_refs\":"@ + json_string_array(texts(g.object_refs@)) + ",\"orchestration_id\":"@ + json_string_literal(g.orchestration_id.0@) + ",\"policy_decision_ref\":"@ + json_string_literal(g.policy_decision_ref@) + ",\"principal_actor_id\":"@ + json_string_literal(g.principal_actor_id@) + ",\"project_id\":"@ + json_string_literal(g.project_id@) + ",\"scope_fingerprint\":"@ + json_string_literal(g.scope_fingerprint@) + ",\"work_item_id\":"@ + json_string_literal(g.work_item_id.0@) + ",\"worker_role_session_id\":"@ + json_string_literal(g.worker_role_session_id@) + ",\"workflow_run_id\":"@ + json_string_literal(g.workflow_run_id.0@) + ",\"write_root_refs\":"@ + json_string_array(texts(g.write_root_refs@)) + "}"@,
{
    reveal(grant_payload);
}

/// The hash of a grant covers every scope field: its payload holds the key
/// and JSON value of each scope field after the first, write roots and
/// object refs included.
pub proof fn lemma_grant_payload_covers_scope(g: ExecutionGrant)
    ensures
        has_segment(grant_payload(g), ",\"attempt_id\":"@ + json_string_literal(g.attempt_id.0@)),
        has_segment(grant_payload(g), ",\"authorization_id\":"@ + json_string_literal(g.authorization_id.0@)),
        has_segment(grant_payload(g), ",\"authorization_revision\":"@ + int_decimal(g.authorization_revision as int)),
        has_segment(grant_payload(g), ",\"created_by_command_receipt_ref\":"@ + json_string_literal(g.created_by_command_receipt_ref@)),
        has_segment(grant_payload(g), ",\"cwd_ref\":"@ + json_string_literal(g.cwd_ref@)),
        has_segment(grant_payload(g), ",\"effect_key\":"@ + json_string_literal(g.effect_key@)),
        has_segment(grant_payload(g), ",\"expires_at_ms\":"@ + int_decimal(g.expires_at_ms as int)),
        has_segment(grant_payload(g), ",\"grant_id\":"@ + json_string_literal(g.grant_id.0@)),
        has_segment(grant_payload(g), ",\"idempotency_key\":"@ + json_string_literal(g.idempotency_key@)),
        has_segment(grant_payload(g), ",\"issued_at_ms\":"@ + int_decimal(g.issued_at_ms as int)),
        has_segment(grant_payload(g), ",\"object_refs\":"@ + json_string_array(texts(g.object_refs@))),
        has_segment(grant_payload(g), ",\"orchestration_id\":"@ + json_string_literal(g.orchestration_id.0@)),
        has_segment(grant_payload(g), ",\"policy_decision_ref\":"@ + json_string_literal(g.policy_decision_ref@)),
        has_segment(grant_payload(g), ",\"principal_actor_id\":"@ + json_string_literal(g.principal_actor_id@)),
        has_segment(grant_payload(g), ",\"project_id\":"@ + json_string_literal(g.project_id@)),
        has_segment(grant_payload(g), ",\"scope_fingerprint\":"@ + json_string_literal(g.scope_fingerprint@)),
        has_segment(grant_payload(g), ",\"work_item_id\":"@ + json_string_literal(g.work_item_id.0@)),
        has_segment(grant_payload(g), ",\"worker_role_session_id\":"@ + json_string_literal(g.worker_role_session_id@)),
        has_segment(grant_payload(g), ",\"workflow_run_id\":"@ + json_string_literal(g.workflow_run_id.0@)),
        has_segment(grant_payload(g), ",\"write_root_refs\":"@ + json_string_array(texts(g.write_root_refs@))),
{
    lemma_payload_parts(g);
    lemma_pairs_occur(
        "{\"allowed_commands\":"@,
        json_string_array(texts(g.allowed_commands@)),
        ",\"attempt_id\":"@,
        json_string_literal(g.attempt_id.0@),
        ",\"authorization_id\":"@,
        json_string_literal(g.authorization_id.0@),
        ",\"authorization_revision\":"@,
        int_decimal(g.authorization_revision as int),
        ",\"created_by_command_receipt_ref\":"@,
        json_string_literal(g.created_by_command_receipt_ref@),
        ",\"cwd_ref\":"@,
        json_string_literal(g.cwd_ref@),
        ",\"effect_key\":"@,
        json_string_literal(g.effect_key@),
        ",\"expires_at_ms\":"@,
        int_decimal(g.expires_at_ms as int),
        ",\"grant_id\":"@,
        json_string_literal(g.grant_id.0@),
        ",\"idempotency_key\":"@,
        json_string_literal(g.idempotency_key@),
        ",\"issued_at_ms\":"@,
        int_decimal(g.issued_at_ms as int),
        ",\"object_refs\":"@,
        json_string_array(texts(g.object_refs@)),
        ",\"orchestration_id\":"@,
        json_string_literal(g.orchestration_id.0@),
        ",\"policy_decision_ref\":"@,
        json_string_literal(g.policy_decision_ref@),
        ",\"principal_actor_id\":"@,
        json_string_literal(g.principal_actor_id@),
        ",\"project_id\":"@,
        json_string_literal(g.project_id@),
        ",\"scope_fingerprint\":"@,
        json_string_literal(g.scope_fingerprint@),
        ",\"work_item_id\":"@,
        json_string_literal(g.work_item_id.0@),
        ",\"worker_role_session_id\":"@,
        json_string_literal(g.worker_role_session_id@),
        ",\"workflow_run_id\":"@,
        json_string_literal(g.workflow_run_id.0@),
        ",\"write_root_refs\":"@,
        json_string_array(texts(g.write_root_refs@)),
        "}"@,
    );
}

} // verus!
