//! The Secretary to Global Supervisor consult: the validation of consult
//! requests and decisions, the sealed references that name a consult and its
//! parts, and the scrubbing of service errors. The handoff lifecycle itself
//! belongs to the role-session store; this module only decides what to ask it.

use vstd::prelude::*;
use vstd::utf8::encode_utf8;
use crate::advisory::{
    consult_handoff_ref_for, consult_handoff_ref_text, M6OrgCrossProjectAdvisory,
    M6OrgProjectSummaryQueryInput,
};
use crate::calendar::{parse_utc_millis, utc_millis_of};
use crate::order::{Ordered, sort_dedup_strings, sort_stable, sorted_unique, stable_sort, str_lt, text_le, views};
use crate::outside::{sha256_hex, sha256_hex_of};
use crate::text::{
    cat, chars_of, contains_seq, contains_str, has_char, has_char_str, has_edge_whitespace,
    has_edge_ws, is_control, is_control_char, lower_seq, starts_with, starts_with_str, str_eq,
    to_ascii_lowercase, utf8_len_exceeds,
};

verus! {

/// The kind of handoff a consult is.
pub const CONSULT_KIND: &'static str = "SECRETARY_TO_GLOBAL_SUPERVISOR";

/// The capability a consult handoff asks for.
pub const CREATE_CAPABILITY: &'static str = "create_m3_handoff";

// ---------------------------------------------------------------------------
// Sealed references
// ---------------------------------------------------------------------------

/// `{namespace}:sha256:{digest of material}`.
pub open spec fn sealed_ref_text(namespace: Seq<char>, material: Seq<char>) -> Seq<char> {
    namespace + ":sha256:"@ + sha256_hex_of(material)
}

/// Seals material under a namespace: the material itself never appears.
pub fn sealed_ref(namespace: &str, material: &str) -> (r: String)
    ensures
        r@ == sealed_ref_text(namespace@, material@),
{
    let digest = sha256_hex(material);
    let mut r = cat(namespace, ":sha256:");
    r.append(digest.as_str());
    r
}

/// The hex digest of a material text.
pub fn request_fingerprint(material: &str) -> (r: String)
    ensures
        r@ == sha256_hex_of(material@),
{
    sha256_hex(material)
}

/// An opaque reference: a sealed reference under a namespace.
pub fn opaque(namespace: &str, material: &str) -> (r: String)
    ensures
        r@ == sealed_ref_text(namespace@, material@),
{
    sealed_ref(namespace, material)
}

/// The correlation id of a material.
pub fn correlation_id(material: &str) -> (r: String)
    ensures
        r@ == sealed_ref_text("correlation"@, material@),
{
    sealed_ref("correlation", material)
}

/// The handoff id of a consult: sealed from the source role session and the
/// request's idempotency key, so a replay names the same handoff.
pub open spec fn handoff_id_text(source_role_session_id: Seq<char>, idempotency_key: Seq<char>) -> Seq<
    char,
> {
    sealed_ref_text(
        "handoff"@,
        "syn.m6.org.consult-handoff/v1/"@ + source_role_session_id + "/"@ + idempotency_key,
    )
}

/// The handoff id of a consult request from a source role session.
pub fn handoff_id_for(source_role_session_id: &str, request: &M6OrgSecretaryConsultStartRequest) -> (r:
    String)
    ensures
        r@ == handoff_id_text(source_role_session_id@, request.idempotency_key@),
{
    let mut material = cat("syn.m6.org.consult-handoff/v1/", source_role_session_id);
    material.append("/");
    material.append(request.idempotency_key.as_str());
    sealed_ref("handoff", material.as_str())
}

/// The result reference of a returned advisory.
pub fn advisory_result_ref(advisory: &M6OrgCrossProjectAdvisory) -> (r: String)
    ensures
        r@ == sealed_ref_text("advisory-result"@, advisory.advisory_id@),
{
    opaque("advisory-result", advisory.advisory_id.as_str())
}

// ---------------------------------------------------------------------------
// External references
// ---------------------------------------------------------------------------

/// Words that mark a reference as carrying a secret.
pub open spec fn secret_word(lower: Seq<char>) -> bool {
    ||| contains_seq(lower, "password"@)
    ||| contains_seq(lower, "credential"@)
    ||| contains_seq(lower, "api_key"@)
    ||| contains_seq(lower, "apikey"@)
    ||| contains_seq(lower, "access_token"@)
    ||| contains_seq(lower, "refresh_token"@)
    ||| contains_seq(lower, "private_key"@)
}

/// A caller-supplied reference that is not an opaque reference: empty, over
/// 512 bytes, padded, with control characters, a path, a URL, an address,
/// or a secret word.
pub open spec fn bad_external_ref(value: Seq<char>) -> bool {
    let lower = lower_seq(value);
    ||| value.len() == 0
    ||| encode_utf8(value).len() > 512
    ||| has_edge_ws(value)
    ||| exists|i: int| 0 <= i < value.len() && is_control(#[trigger] value[i])
    ||| has_char(value, '\\')
    ||| starts_with(value, "/"@)
    ||| starts_with(value, "./"@)
    ||| starts_with(value, "../"@)
    ||| contains_seq(value, "/./"@)
    ||| contains_seq(value, "/../"@)
    ||| contains_seq(lower, "://"@)
    ||| has_char(value, '@')
    ||| secret_word(lower)
}

fn has_control(value: &str) -> (b: bool)
    ensures
        b == exists|i: int| 0 <= i < value@.len() && is_control(#[trigger] value@[i]),
{
    let cs = chars_of(value);
    let mut i: usize = 0;
    while i < cs.len()
        invariant
            cs@ == value@,
            i <= cs.len(),
            forall|j: int| 0 <= j < i ==> !is_control(#[trigger] value@[j]),
        decreases cs.len() - i,
    {
        if is_control_char(cs[i]) {
            assert(is_control(value@[i as int]));
            return true;
        }
        i = i + 1;
    }
    false
}

/// Refuses a caller-supplied reference that could carry a path, a URL, an
/// address or a secret rather than an opaque reference.
pub fn validate_external_ref(field: &str, value: &str) -> (r: Result<(), String>)
    ensures
        bad_external_ref(value@) ==> (r matches Err(e) && e@ == "m6_org_consult_invalid_ref:"@
            + field@),
        !bad_external_ref(value@) ==> r is Ok,
{
    let lower = to_ascii_lowercase(value);
    let l = lower.as_str();
    let bad = value.unicode_len() == 0 || utf8_len_exceeds(value, 512) || has_edge_whitespace(value)
        || has_control(value) || has_char_str(value, '\\') || starts_with_str(value, "/")
        || starts_with_str(value, "./") || starts_with_str(value, "../") || contains_str(
        value,
        "/./",
    ) || contains_str(value, "/../") || contains_str(l, "://") || has_char_str(value, '@')
        || contains_str(l, "password") || contains_str(l, "credential") || contains_str(
        l,
        "api_key",
    ) || contains_str(l, "apikey") || contains_str(l, "access_token") || contains_str(
        l,
        "refresh_token",
    ) || contains_str(l, "private_key");
    if bad {
        return Err(cat("m6_org_consult_invalid_ref:", field));
    }
    Ok(())
}

// ---------------------------------------------------------------------------
// Service errors
// ---------------------------------------------------------------------------

/// The scrubbed code a consult failure is reported under.
pub open spec fn scrubbed_code(error: Seq<char>) -> Seq<char> {
    if contains_seq(error, "unavailable"@) || contains_seq(error, "missing"@) {
        "M6_CONSULT_UNAVAILABLE"@
    } else if contains_seq(error, "deadline"@) {
        "M6_CONSULT_DEADLINE_INVALID"@
    } else if contains_seq(error, "idempotency"@) || contains_seq(error, "collision"@) {
        "M6_CONSULT_IDEMPOTENCY_CONFLICT"@
    } else {
        "M6_CONSULT_FAILED"@
    }
}

/// Reduces an internal consult error to a scrubbed service error code, so no
/// internal detail reaches the secretary service.
pub fn scrubbed_service_error(error: String) -> (code: String)
    ensures
        code@ == scrubbed_code(error@),
{
    let e = error.as_str();
    if contains_str(e, "unavailable") || contains_str(e, "missing") {
        String::from_str("M6_CONSULT_UNAVAILABLE")
    } else if contains_str(e, "deadline") {
        String::from_str("M6_CONSULT_DEADLINE_INVALID")
    } else if contains_str(e, "idempotency") || contains_str(e, "collision") {
        String::from_str("M6_CONSULT_IDEMPOTENCY_CONFLICT")
    } else {
        String::from_str("M6_CONSULT_FAILED")
    }
}

// ---------------------------------------------------------------------------
// Decisions
// ---------------------------------------------------------------------------

/// The global supervisor's answer to a consult.
#[derive(Debug, Clone, Copy, PartialEq, Eq, Structural)]
pub enum M6OrgConsultDecision {
    Accept,
    Reject,
}

/// A decision on a consult handoff; a rejection carries its reason code.
#[derive(Debug, Clone)]
pub struct M6OrgGlobalSupervisorConsultDecisionRequest {
    pub handoff_id: String,
    pub decision: M6OrgConsultDecision,
    pub rejection_reason: Option<String>,
}

/// The refusal of a decision request, given whether its handoff id is a
/// canonical handoff id, if any.
pub open spec fn decision_refusal(
    r: M6OrgGlobalSupervisorConsultDecisionRequest,
    handoff_id_canonical: bool,
) -> Option<Seq<char>> {
    if !handoff_id_canonical {
        Some("m6_org_consult_handoff_id_invalid"@)
    } else if r.decision == M6OrgConsultDecision::Accept && r.rejection_reason is Some {
        Some("m6_org_consult_accept_reason_forbidden"@)
    } else if r.decision == M6OrgConsultDecision::Reject && r.rejection_reason is None {
        Some("m6_org_consult_rejection_reason_required"@)
    } else {
        None
    }
}

/// Checks a decision: its handoff id must be canonical (as judged by the
/// handoff id kernel), an acceptance carries no reason and a rejection one.
pub fn validate_decision_request(
    request: &M6OrgGlobalSupervisorConsultDecisionRequest,
    handoff_id_canonical: bool,
) -> (r: Result<(), String>)
    ensures
        match decision_refusal(*request, handoff_id_canonical) {
            Some(e) => r matches Err(m) && m@ == e,
            None => r is Ok,
        },
{
    if !handoff_id_canonical {
        return Err(String::from_str("m6_org_consult_handoff_id_invalid"));
    }
    match (request.decision, &request.rejection_reason) {
        (M6OrgConsultDecision::Accept, None) | (M6OrgConsultDecision::Reject, Some(_)) => Ok(()),
        (M6OrgConsultDecision::Accept, Some(_)) => Err(
            String::from_str("m6_org_consult_accept_reason_forbidden"),
        ),
        (M6OrgConsultDecision::Reject, None) => Err(
            String::from_str("m6_org_consult_rejection_reason_required"),
        ),
    }
}

// ---------------------------------------------------------------------------
// Start requests
// ---------------------------------------------------------------------------

/// A secretary's request to consult the global supervisor.
#[derive(Debug, Clone)]
pub struct M6OrgSecretaryConsultStartRequest {
    pub question_ref: String,
    pub source_refs: Vec<String>,
    pub project_queries: Vec<M6OrgProjectSummaryQueryInput>,
    pub accept_by_utc: String,
    pub return_by_utc: String,
    pub idempotency_key: String,
}

impl Ordered for M6OrgProjectSummaryQueryInput {
    open spec fn le_spec(a: Self, b: Self) -> bool {
        text_le(a.project_id@, b.project_id@)
    }

    fn le(&self, other: &Self) -> (r: bool) {
        !str_lt(other.project_id.as_str(), self.project_id.as_str())
    }
}

/// Two neighbours of a sequence are equal.
pub open spec fn has_adjacent_equal(s: Seq<Seq<char>>) -> bool {
    exists|i: int| 0 <= i < s.len() - 1 && #[trigger] s[i] == s[i + 1]
}

/// The refusal of a consult start request, given the verdict of the
/// project-query check, if any.
pub open spec fn start_refusal(
    r: M6OrgSecretaryConsultStartRequest,
    project_queries_check: Result<(), String>,
    now_ms: i64,
) -> Option<Seq<char>> {
    let n = r.source_refs@.len();
    let accept = utc_millis_of(encode_utf8(r.accept_by_utc@));
    let ret = utc_millis_of(encode_utf8(r.return_by_utc@));
    if bad_external_ref(r.question_ref@) {
        Some("m6_org_consult_invalid_ref:"@ + "question_ref"@)
    } else if bad_external_ref(r.idempotency_key@) {
        Some("m6_org_consult_invalid_ref:"@ + "idempotency_key"@)
    } else if n == 0 || n > 64 {
        Some("m6_org_consult_source_refs_required"@)
    } else if exists|i: int| 0 <= i < n && bad_external_ref(#[trigger] r.source_refs@[i]@) {
        Some("m6_org_consult_invalid_ref:"@ + "source_ref"@)
    } else if has_adjacent_equal(views(stable_sort(r.source_refs@))) {
        Some("m6_org_consult_duplicate_source_ref"@)
    } else if project_queries_check is Err {
        Some(project_queries_check->Err_0@)
    } else if accept is None || ret is None {
        Some("m6_org_consult_utc_millis_required"@)
    } else if accept->0 <= now_ms || ret->0 <= accept->0 {
        Some("m6_org_consult_deadline_invalid"@)
    } else {
        None
    }
}

/// An accepted consult start request has valid refs, between one and 64
/// distinct-neighbour sources, and deadlines that both parse, with the
/// acceptance deadline after now and the return deadline after acceptance.
pub proof fn lemma_accepted_start_deadlines_ordered(
    r: M6OrgSecretaryConsultStartRequest,
    project_queries_check: Result<(), String>,
    now_ms: i64,
)
    requires
        start_refusal(r, project_queries_check, now_ms) is None,
    ensures
        !bad_external_ref(r.question_ref@),
        !bad_external_ref(r.idempotency_key@),
        1 <= r.source_refs@.len() <= 64,
        forall|i: int| 0 <= i < r.source_refs@.len() ==> !bad_external_ref(#[trigger] r.source_refs@[i]@),
        project_queries_check is Ok,
        utc_millis_of(encode_utf8(r.accept_by_utc@)) is Some,
        utc_millis_of(encode_utf8(r.return_by_utc@)) is Some,
        now_ms < utc_millis_of(encode_utf8(r.accept_by_utc@))->0,
        utc_millis_of(encode_utf8(r.accept_by_utc@))->0 < utc_millis_of(encode_utf8(r.return_by_utc@))->0,
{
}

/// The normalized form of an accepted start request: its source references
/// sorted and its project queries ordered by project.
pub open spec fn normalized_start(
    n: M6OrgSecretaryConsultStartRequest,
    r: M6OrgSecretaryConsultStartRequest,
) -> bool {
    &&& n.question_ref@ == r.question_ref@
    &&& n.source_refs@ == stable_sort(r.source_refs@)
    &&& n.project_queries@ == stable_sort(r.project_queries@)
    &&& n.accept_by_utc@ == r.accept_by_utc@
    &&& n.return_by_utc@ == r.return_by_utc@
    &&& n.idempotency_key@ == r.idempotency_key@
}

/// Validates a consult start request against the clock: opaque question,
/// key and source references (one to sixty-four, no repeats), the project
/// queries, and deadlines with acceptance after now and return after
/// acceptance. Returns the request with its sources sorted and its queries
/// ordered by project.
pub fn validate_start_request(
    request: &M6OrgSecretaryConsultStartRequest,
    project_queries: Vec<M6OrgProjectSummaryQueryInput>,
    project_queries_check: Result<(), String>,
    now_ms: i64,
) -> (r: Result<M6OrgSecretaryConsultStartRequest, String>)
    requires
        project_queries@ == request.project_queries@,
    ensures
        match start_refusal(*request, project_queries_check, now_ms) {
            Some(e) => r matches Err(m) && m@ == e,
            None => r matches Ok(n) && normalized_start(n, *request),
        },
{
    if let Err(e) = validate_external_ref("question_ref", request.question_ref.as_str()) {
        return Err(e);
    }
    if let Err(e) = validate_external_ref("idempotency_key", request.idempotency_key.as_str()) {
        return Err(e);
    }
    let n = request.source_refs.len();
    if n == 0 || n > 64 {
        return Err(String::from_str("m6_org_consult_source_refs_required"));
    }
    let mut i: usize = 0;
    while i < n
        invariant
            n == request.source_refs@.len(),
            1 <= n <= 64,
            !bad_external_ref(request.question_ref@),
            !bad_external_ref(request.idempotency_key@),
            i <= n,
            forall|j: int| 0 <= j < i ==> !bad_external_ref(#[trigger] request.source_refs@[j]@),
        decreases n - i,
    {
        if let Err(e) = validate_external_ref("source_ref", request.source_refs[i].as_str()) {
            return Err(e);
        }
        i = i + 1;
    }
    let copies = crate::text::clone_strings(&request.source_refs);
    let source_refs = sort_stable(copies);
    let ghost sv = views(source_refs@);
    let mut k: usize = 0;
    proof {
        crate::order::lemma_stable_sort_len(request.source_refs@);
    }
    while k + 1 < source_refs.len()
        invariant
            sv == views(source_refs@),
            source_refs@ == stable_sort(request.source_refs@),
            n == request.source_refs@.len(),
            1 <= n <= 64,
            !bad_external_ref(request.question_ref@),
            !bad_external_ref(request.idempotency_key@),
            forall|j: int| 0 <= j < n ==> !bad_external_ref(#[trigger] request.source_refs@[j]@),
            source_refs@.len() == n,
            k + 1 <= n,
            forall|j: int| 0 <= j < k ==> #[trigger] sv[j] != sv[j + 1],
        decreases n - k,
    {
        if str_eq(source_refs[k].as_str(), source_refs[k + 1].as_str()) {
            proof {
                assert(sv[k as int] == sv[k + 1]);
            }
            return Err(String::from_str("m6_org_consult_duplicate_source_ref"));
        }
        k = k + 1;
    }
    proof {
        assert(!has_adjacent_equal(sv));
    }
    if let Err(e) = project_queries_check {
        return Err(e);
    }
    let accept_by_ms = match parse_utc_millis(request.accept_by_utc.as_str()) {
        Ok(v) => v,
        Err(e) => {
            return Err(e);
        },
    };
    let return_by_ms = match parse_utc_millis(request.return_by_utc.as_str()) {
        Ok(v) => v,
        Err(e) => {
            return Err(e);
        },
    };
    if accept_by_ms <= now_ms || return_by_ms <= accept_by_ms {
        return Err(String::from_str("m6_org_consult_deadline_invalid"));
    }
    let queries = sort_stable(project_queries);
    Ok(
        M6OrgSecretaryConsultStartRequest {
            question_ref: request.question_ref.clone(),
            source_refs,
            project_queries: queries,
            accept_by_utc: request.accept_by_utc.clone(),
            return_by_utc: request.return_by_utc.clone(),
            idempotency_key: request.idempotency_key.clone(),
        },
    )
}

// ---------------------------------------------------------------------------
// Handoff object references
// ---------------------------------------------------------------------------

/// The opaque references of a consult's sources and projects.
pub open spec fn consult_object_refs(
    current_object_ref: Seq<char>,
    r: M6OrgSecretaryConsultStartRequest,
) -> Seq<Seq<char>> {
    seq![current_object_ref, sealed_ref_text("question"@, r.question_ref@)] + r.source_refs@.map_values(
        |s: String| sealed_ref_text("source"@, s@),
    ) + r.project_queries@.map_values(
        |q: M6OrgProjectSummaryQueryInput| sealed_ref_text("project-summary"@, q.project_id@),
    )
}

/// The opaque references of a consult's sources, then of its projects.
pub open spec fn consult_source_refs(r: M6OrgSecretaryConsultStartRequest) -> Seq<Seq<char>> {
    sealed_all("source"@, r.source_refs@) + r.project_queries@.map_values(
        |q: M6OrgProjectSummaryQueryInput| sealed_ref_text("project-summary"@, q.project_id@),
    )
}

fn append_consult_source_refs(refs: &mut Vec<String>, request: &M6OrgSecretaryConsultStartRequest)
    ensures
        views(final(refs)@) == views(old(refs)@) + consult_source_refs(*request),
{
    let ghost base = views(refs@);
    append_sealed(refs, "source", &request.source_refs);
    let ghost mid = views(refs@);
    let mut j: usize = 0;
    while j < request.project_queries.len()
        invariant
            j <= request.project_queries@.len(),
            views(refs@) == mid + request.project_queries@.take(j as int).map_values(
                |q: M6OrgProjectSummaryQueryInput| sealed_ref_text("project-summary"@, q.project_id@),
            ),
        decreases request.project_queries.len() - j,
    {
        let ghost r0 = refs@;
        let o = opaque("project-summary", request.project_queries[j].project_id.as_str());
        refs.push(o);
        proof {
            assert(views(refs@) =~= views(r0).push(o@));
            assert(request.project_queries@.take(j + 1).map_values(
                |q: M6OrgProjectSummaryQueryInput| sealed_ref_text("project-summary"@, q.project_id@),
            ) =~= request.project_queries@.take(j as int).map_values(
                |q: M6OrgProjectSummaryQueryInput| sealed_ref_text("project-summary"@, q.project_id@),
            ).push(sealed_ref_text("project-summary"@, request.project_queries@[j as int].project_id@)));
        }
        j = j + 1;
    }
    proof {
        assert(request.project_queries@.take(j as int) =~= request.project_queries@);
        assert(views(refs@) =~= base + consult_source_refs(*request));
    }
}

/// The objects a consult handoff covers, each once and in order: the
/// secretary's current object, the question, every source and every project
/// summary.
pub fn handoff_object_refs(current_object_ref: &str, request: &M6OrgSecretaryConsultStartRequest) -> (r:
    Vec<String>)
    ensures
        views(r@) == sorted_unique(consult_object_refs(current_object_ref@, *request)),
{
    let mut refs: Vec<String> = Vec::new();
    refs.push(String::from_str(current_object_ref));
    refs.push(opaque("question", request.question_ref.as_str()));
    let ghost base = views(refs@);
    proof {
        assert(base =~= seq![current_object_ref@, sealed_ref_text("question"@, request.question_ref@)]);
    }
    append_consult_source_refs(&mut refs, request);
    proof {
        assert(views(refs@) =~= consult_object_refs(current_object_ref@, *request));
    }
    sort_dedup_strings(refs)
}

/// The sources a validation context of a consult names, each once and in
/// order: every source reference and every project summary, sealed.
pub fn validation_source_refs(request: &M6OrgSecretaryConsultStartRequest) -> (r: Vec<String>)
    ensures
        views(r@) == sorted_unique(consult_source_refs(*request)),
{
    let mut refs: Vec<String> = Vec::new();
    proof {
        assert(views(refs@) =~= Seq::<Seq<char>>::empty());
    }
    append_consult_source_refs(&mut refs, request);
    proof {
        assert(views(refs@) =~= consult_source_refs(*request));
    }
    sort_dedup_strings(refs)
}

/// The permission snapshot of the consult recipient: nothing allowed, every
/// project write and external reach denied, and handoff-only, read-only,
/// no-project-command constraints.
pub struct ConsultRecipientPermission {
    pub snapshot_ref: String,
    pub allowed_capability_refs: Vec<String>,
    pub denied_capability_refs: Vec<String>,
    pub constraint_refs: Vec<String>,
}

/// The capabilities the consult recipient is denied.
pub open spec fn denied_capabilities() -> Seq<Seq<char>> {
    seq![
        sealed_ref_text("capability"@, "write_project_fact"@),
        sealed_ref_text("capability"@, "write_project_task"@),
        sealed_ref_text("capability"@, "write_workflow_state"@),
        sealed_ref_text("capability"@, "send_external_message"@),
        sealed_ref_text("capability"@, "use_external_connector"@),
    ]
}

/// The constraints the consult recipient works under.
pub open spec fn recipient_constraints() -> Seq<Seq<char>> {
    seq![
        sealed_ref_text("constraint"@, "handoff_only"@),
        sealed_ref_text("constraint"@, "read_only"@),
        sealed_ref_text("constraint"@, "no_project_command"@),
    ]
}

/// The read-only permission of the consult recipient under a snapshot.
pub fn consult_recipient_permission(permission_snapshot_ref: &str) -> (p: ConsultRecipientPermission)
    ensures
        p.snapshot_ref@ == permission_snapshot_ref@,
        p.allowed_capability_refs@.len() == 0,
        views(p.denied_capability_refs@) == sorted_unique(denied_capabilities()),
        views(p.constraint_refs@) == sorted_unique(recipient_constraints()),
{
    let mut denied: Vec<String> = Vec::new();
    denied.push(opaque("capability", "write_project_fact"));
    denied.push(opaque("capability", "write_project_task"));
    denied.push(opaque("capability", "write_workflow_state"));
    denied.push(opaque("capability", "send_external_message"));
    denied.push(opaque("capability", "use_external_connector"));
    proof {
        assert(views(denied@) =~= denied_capabilities());
    }
    let mut constraints: Vec<String> = Vec::new();
    constraints.push(opaque("constraint", "handoff_only"));
    constraints.push(opaque("constraint", "read_only"));
    constraints.push(opaque("constraint", "no_project_command"));
    proof {
        assert(views(constraints@) =~= recipient_constraints());
    }
    ConsultRecipientPermission {
        snapshot_ref: String::from_str(permission_snapshot_ref),
        allowed_capability_refs: Vec::new(),
        denied_capability_refs: sort_dedup_strings(denied),
        constraint_refs: sort_dedup_strings(constraints),
    }
}

// ---------------------------------------------------------------------------
// Decisions against the handoff
// ---------------------------------------------------------------------------

/// Why a decision cannot be applied to a handoff in its current status,
/// given the reason it carries and the reason already recorded, if any.
pub open spec fn decision_conflict(
    decision: M6OrgConsultDecision,
    current_status: Seq<char>,
    requested_reason: Option<String>,
    recorded_reason: Option<String>,
) -> Option<Seq<char>> {
    match decision {
        M6OrgConsultDecision::Accept => {
            if current_status == "REJECTED"@ {
                Some("m6_org_consult_decision_conflict"@)
            } else {
                None
            }
        },
        M6OrgConsultDecision::Reject => {
            if !(current_status == "CREATED"@ || current_status == "REJECTED"@) {
                Some("m6_org_consult_decision_conflict"@)
            } else if requested_reason is None {
                Some("m6_org_consult_rejection_reason_required"@)
            } else if recorded_reason is Some && recorded_reason->0@ != requested_reason->0@ {
                Some("m6_org_consult_rejection_reason_conflict"@)
            } else {
                None
            }
        },
    }
}

/// Checks a decision against the handoff it answers: a rejected handoff
/// cannot be accepted; only a created (or already rejected) handoff can be
/// rejected, with a reason, and never with a reason other than the one
/// already recorded.
pub fn check_consult_decision(
    decision: M6OrgConsultDecision,
    current_status: &str,
    requested_reason: &Option<String>,
    recorded_reason: &Option<String>,
) -> (r: Result<(), String>)
    ensures
        match decision_conflict(decision, current_status@, *requested_reason, *recorded_reason) {
            Some(e) => r matches Err(m) && m@ == e,
            None => r is Ok,
        },
{
    let rejected = str_eq(current_status, "REJECTED");
    proof {
        reveal_strlit("REJECTED");
        reveal_strlit("CREATED");
    }
    match decision {
        M6OrgConsultDecision::Accept => {
            if rejected {
                return Err(String::from_str("m6_org_consult_decision_conflict"));
            }
            Ok(())
        },
        M6OrgConsultDecision::Reject => {
            if !(str_eq(current_status, "CREATED") || rejected) {
                return Err(String::from_str("m6_org_consult_decision_conflict"));
            }
            let reason = match requested_reason {
                Some(x) => x,
                None => {
                    return Err(String::from_str("m6_org_consult_rejection_reason_required"));
                },
            };
            if let Some(existing) = recorded_reason {
                if !str_eq(existing.as_str(), reason.as_str()) {
                    return Err(String::from_str("m6_org_consult_rejection_reason_conflict"));
                }
            }
            Ok(())
        },
    }
}

// ---------------------------------------------------------------------------
// Consult outcomes
// ---------------------------------------------------------------------------

/// The parts of a role-session handoff a consult reports: its id, revision,
/// status, current receipt, parties, scope and covered objects.
#[derive(Debug, Clone)]
pub struct ConsultHandoffRecord {
    pub handoff_id: String,
    pub revision: u64,
    pub status_ref: String,
    pub current_receipt_id: String,
    pub from_role_session_id: String,
    pub to_role_ref: String,
    pub to_recipient_ref: String,
    pub scope_ref: String,
    pub object_refs: Vec<String>,
}

/// A consult's handoff as the secretary sees it, with its exact-join
/// reference and no project write capability.
#[derive(Debug, Clone)]
pub struct M6OrgConsultHandoffBinding {
    pub consult_handoff_ref: String,
    pub handoff_id: String,
    pub handoff_revision: u64,
    pub status_ref: String,
    pub consult_kind: String,
    pub from_role_session_id: String,
    pub to_role_ref: String,
    pub to_recipient_ref: String,
    pub scope_ref: String,
    pub question_ref: String,
    pub object_refs: Vec<String>,
    pub receipt_ref: String,
    pub project_write_capability: bool,
}

/// The replay projection of a consult: its request and the references of
/// what was decided and returned.
#[derive(Debug, Clone)]
pub struct M6OrgConsultHandoffProjection {
    pub handoff_id: String,
    pub idempotency_key: String,
    pub request_hash: String,
    pub request: M6OrgSecretaryConsultStartRequest,
    pub source_session_revision: u64,
    pub source_validation_receipt_ref: String,
    pub advisory: Option<M6OrgCrossProjectAdvisory>,
    pub advisory_blocked_reasons: Vec<String>,
    pub accepted_receipt_ref: Option<String>,
    pub accepted_revision: Option<u64>,
    pub returned_receipt_ref: Option<String>,
    pub rejection_reason: Option<String>,
    pub created_at_ms: i64,
    pub updated_at_ms: i64,
}

/// What a consult reports: its handoff, the advisory when one was returned,
/// the rejection reason or blocked reasons, and that it touched no project.
#[derive(Debug, Clone)]
pub struct M6OrgSecretaryConsultOutcome {
    pub handoff: M6OrgConsultHandoffBinding,
    pub advisory: Option<M6OrgCrossProjectAdvisory>,
    pub rejection_reason: Option<String>,
    pub blocked_reasons: Vec<String>,
    pub replayed: bool,
    pub project_command_attempts: u64,
    pub provider_invocations: u64,
}

/// The binding reports the handoff under a question.
pub open spec fn binding_reports(
    b: M6OrgConsultHandoffBinding,
    h: ConsultHandoffRecord,
    question_ref: Seq<char>,
) -> bool {
    &&& b.consult_handoff_ref@ == consult_handoff_ref_text(
        h.handoff_id@,
        h.revision as nat,
        h.status_ref@,
        h.current_receipt_id@,
    )
    &&& b.handoff_id@ == h.handoff_id@
    &&& b.handoff_revision == h.revision
    &&& b.status_ref@ == h.status_ref@
    &&& b.consult_kind@ == CONSULT_KIND@
    &&& b.from_role_session_id@ == h.from_role_session_id@
    &&& b.to_role_ref@ == h.to_role_ref@
    &&& b.to_recipient_ref@ == h.to_recipient_ref@
    &&& b.scope_ref@ == h.scope_ref@
    &&& b.question_ref@ == question_ref
    &&& views(b.object_refs@) == sorted_unique(views(h.object_refs@))
    &&& b.receipt_ref@ == h.current_receipt_id@
    &&& !b.project_write_capability
}

/// The outcome of a consult from its handoff and its projection: the
/// handoff binding, and the projection's advisory, rejection reason and
/// blocked reasons; no project command and no provider were ever invoked.
pub fn outcome_from_handoff(
    handoff: &ConsultHandoffRecord,
    projection: M6OrgConsultHandoffProjection,
    replayed: bool,
) -> (r: Result<M6OrgSecretaryConsultOutcome, String>)
    ensures
        r matches Ok(o) && {
            &&& binding_reports(o.handoff, *handoff, projection.request.question_ref@)
            &&& o.advisory == projection.advisory
            &&& o.rejection_reason == projection.rejection_reason
            &&& o.blocked_reasons == projection.advisory_blocked_reasons
            &&& o.replayed == replayed
            &&& o.project_command_attempts == 0
            &&& o.provider_invocations == 0
        },
{
    let object_refs = sort_dedup_strings(crate::text::clone_strings(&handoff.object_refs));
    let consult_handoff_ref = consult_handoff_ref_for(
        handoff.handoff_id.as_str(),
        handoff.revision,
        handoff.status_ref.as_str(),
        handoff.current_receipt_id.as_str(),
    );
    let binding = M6OrgConsultHandoffBinding {
        consult_handoff_ref,
        handoff_id: handoff.handoff_id.clone(),
        handoff_revision: handoff.revision,
        status_ref: handoff.status_ref.clone(),
        consult_kind: String::from_str(CONSULT_KIND),
        from_role_session_id: handoff.from_role_session_id.clone(),
        to_role_ref: handoff.to_role_ref.clone(),
        to_recipient_ref: handoff.to_recipient_ref.clone(),
        scope_ref: handoff.scope_ref.clone(),
        question_ref: projection.request.question_ref.clone(),
        object_refs,
        receipt_ref: handoff.current_receipt_id.clone(),
        project_write_capability: false,
    };
    Ok(
        M6OrgSecretaryConsultOutcome {
            handoff: binding,
            advisory: projection.advisory,
            rejection_reason: projection.rejection_reason,
            blocked_reasons: projection.advisory_blocked_reasons,
            replayed,
            project_command_attempts: 0,
            provider_invocations: 0,
        },
    )
}

// ---------------------------------------------------------------------------
// The secretary service's view of a consult
// ---------------------------------------------------------------------------

/// A handoff receipt as the secretary service records it.
#[derive(Debug, Clone)]
pub struct M4SecretaryHandoffReceipt {
    pub receipt_ref: String,
    pub handoff_ref: String,
    pub receipt_kind_code: String,
    pub status_code: String,
    pub result_ref: Option<String>,
    pub result_hash: Option<String>,
}

/// Where a consult handoff stands for the secretary service.
#[derive(Debug, Clone)]
pub enum M4SecretaryHandoffPortRecord {
    Pending { handoff_ref: String, request_receipt_ref: String },
    Returned { handoff_ref: String, receipt: M4SecretaryHandoffReceipt },
    Failed {
        handoff_ref: String,
        receipt: Option<M4SecretaryHandoffReceipt>,
        recovery_code: String,
    },
}

/// The handoff statuses in which a consult is still under way.
pub open spec fn consult_pending_status(s: Seq<char>) -> bool {
    s == "CREATED"@ || s == "ACCEPTED"@ || s == "RETURN_PENDING"@
}

/// A receipt of a handoff under a kind, which is also its status.
pub open spec fn receipt_of_kind(
    rt: M4SecretaryHandoffReceipt,
    receipt_ref: Seq<char>,
    handoff_ref: Seq<char>,
    kind: Seq<char>,
) -> bool {
    &&& rt.receipt_ref@ == receipt_ref
    &&& rt.handoff_ref@ == handoff_ref
    &&& rt.receipt_kind_code@ == kind
    &&& rt.status_code@ == kind
}

/// The recovery code of a rejected consult.
pub open spec fn rejected_recovery_code(reason: Option<String>) -> Seq<char> {
    "M6_CONSULT_REJECTED_"@ + match reason {
        Some(x) => x@,
        None => "REASON_UNAVAILABLE"@,
    }
}

/// The record of a consult outcome, given the JSON of its advisory: pending
/// while created, accepted or awaiting return; returned with the advisory's
/// result reference and the digest of its JSON; failed with the rejection
/// reason when rejected, and as a terminal failure in any other status.
pub open spec fn port_record_of(
    o: M6OrgSecretaryConsultOutcome,
    advisory_json: Seq<char>,
    r: Result<M4SecretaryHandoffPortRecord, String>,
) -> bool {
    let h = o.handoff.handoff_id@;
    let rc = o.handoff.receipt_ref@;
    let s = o.handoff.status_ref@;
    if consult_pending_status(s) {
        r matches Ok(M4SecretaryHandoffPortRecord::Pending { handoff_ref, request_receipt_ref })
            && handoff_ref@ == h && request_receipt_ref@ == rc
    } else if s == "RETURNED"@ {
        match o.advisory {
            None => r matches Err(e) && e@ == "m6_org_consult_returned_advisory_missing"@,
            Some(a) => r matches Ok(M4SecretaryHandoffPortRecord::Returned { handoff_ref, receipt })
                && handoff_ref@ == h && receipt_of_kind(receipt, rc, h, "RETURNED"@) && match receipt.result_ref {
                Some(x) => x@ == sealed_ref_text("advisory-result"@, a.advisory_id@),
                None => false,
            } && match receipt.result_hash {
                Some(d) => d@ == sha256_hex_of(advisory_json),
                None => false,
            },
        }
    } else if s == "REJECTED"@ {
        r matches Ok(M4SecretaryHandoffPortRecord::Failed { handoff_ref, receipt, recovery_code })
            && handoff_ref@ == h && recovery_code@ == rejected_recovery_code(o.rejection_reason)
            && match receipt {
            Some(rt) => receipt_of_kind(rt, rc, h, "REJECTED"@) && rt.result_ref is None
                && rt.result_hash is None,
            None => false,
        }
    } else {
        r matches Ok(M4SecretaryHandoffPortRecord::Failed { handoff_ref, receipt, recovery_code })
            && handoff_ref@ == h && receipt is None && recovery_code@ == "M6_CONSULT_TERMINAL_FAILURE"@
    }
}

fn receipt_for(receipt_ref: &str, handoff_ref: &str, kind: &str) -> (rt: M4SecretaryHandoffReceipt)
    ensures
        receipt_of_kind(rt, receipt_ref@, handoff_ref@, kind@),
        rt.result_ref is None,
        rt.result_hash is None,
{
    M4SecretaryHandoffReceipt {
        receipt_ref: String::from_str(receipt_ref),
        handoff_ref: String::from_str(handoff_ref),
        receipt_kind_code: String::from_str(kind),
        status_code: String::from_str(kind),
        result_ref: None,
        result_hash: None,
    }
}

/// The secretary service's record of a consult outcome. `advisory_json` is
/// the JSON of the outcome's advisory, whose digest a returned record
/// carries as its result hash.
pub fn m4_record_for_outcome(outcome: &M6OrgSecretaryConsultOutcome, advisory_json: &str) -> (r: Result<
    M4SecretaryHandoffPortRecord,
    String,
>)
    ensures
        port_record_of(*outcome, advisory_json@, r),
{
    let h = outcome.handoff.handoff_id.as_str();
    let rc = outcome.handoff.receipt_ref.as_str();
    let s = outcome.handoff.status_ref.as_str();
    proof {
        reveal_strlit("CREATED");
        reveal_strlit("ACCEPTED");
        reveal_strlit("RETURN_PENDING");
        reveal_strlit("RETURNED");
        reveal_strlit("REJECTED");
    }
    if str_eq(s, "CREATED") || str_eq(s, "ACCEPTED") || str_eq(s, "RETURN_PENDING") {
        Ok(
            M4SecretaryHandoffPortRecord::Pending {
                handoff_ref: String::from_str(h),
                request_receipt_ref: String::from_str(rc),
            },
        )
    } else if str_eq(s, "RETURNED") {
        match &outcome.advisory {
            None => Err(String::from_str("m6_org_consult_returned_advisory_missing")),
            Some(advisory) => {
                let mut receipt = receipt_for(rc, h, "RETURNED");
                receipt.result_ref = Some(advisory_result_ref(advisory));
                receipt.result_hash = Some(sha256_hex(advisory_json));
                Ok(M4SecretaryHandoffPortRecord::Returned { handoff_ref: String::from_str(h), receipt })
            },
        }
    } else if str_eq(s, "REJECTED") {
        let mut recovery_code = String::from_str("M6_CONSULT_REJECTED_");
        match &outcome.rejection_reason {
            Some(reason) => recovery_code.append(reason.as_str()),
            None => recovery_code.append("REASON_UNAVAILABLE"),
        }
        Ok(
            M4SecretaryHandoffPortRecord::Failed {
                handoff_ref: String::from_str(h),
                receipt: Some(receipt_for(rc, h, "REJECTED")),
                recovery_code,
            },
        )
    } else {
        Ok(
            M4SecretaryHandoffPortRecord::Failed {
                handoff_ref: String::from_str(h),
                receipt: None,
                recovery_code: String::from_str("M6_CONSULT_TERMINAL_FAILURE"),
            },
        )
    }
}

// ---------------------------------------------------------------------------
// Member contact handoffs
// ---------------------------------------------------------------------------

/// Every value sealed under one namespace, in order.
pub open spec fn sealed_all(namespace: Seq<char>, values: Seq<String>) -> Seq<Seq<char>> {
    values.map_values(|v: String| sealed_ref_text(namespace, v@))
}

fn append_sealed(refs: &mut Vec<String>, namespace: &str, values: &Vec<String>)
    ensures
        views(final(refs)@) == views(old(refs)@) + sealed_all(namespace@, values@),
{
    let ghost base = views(refs@);
    let mut i: usize = 0;
    while i < values.len()
        invariant
            i <= values@.len(),
            views(refs@) == base + sealed_all(namespace@, values@.take(i as int)),
        decreases values.len() - i,
    {
        let ghost r0 = refs@;
        let o = opaque(namespace, values[i].as_str());
        refs.push(o);
        proof {
            assert(views(refs@) =~= views(r0).push(o@));
            assert(sealed_all(namespace@, values@.take(i + 1)) =~= sealed_all(
                namespace@,
                values@.take(i as int),
            ).push(sealed_ref_text(namespace@, values@[i as int]@)));
        }
        i = i + 1;
    }
    proof {
        assert(values@.take(i as int) =~= values@);
    }
}

/// The material that names a member contact handoff.
pub open spec fn member_contact_material(member_id: Seq<char>, idempotency_key: Seq<char>) -> Seq<char> {
    "syn.m6.org.member-contact/v1/"@ + member_id + "/"@ + idempotency_key
}

/// The handoff id of a contact with a stable member under an idempotency key.
pub fn member_contact_handoff_id(member_id: &str, idempotency_key: &str) -> (r: String)
    ensures
        r@ == sealed_ref_text("handoff"@, member_contact_material(member_id@, idempotency_key@)),
{
    let mut material = cat("syn.m6.org.member-contact/v1/", member_id);
    material.append("/");
    material.append(idempotency_key);
    sealed_ref("handoff", material.as_str())
}

/// The sources of a member contact's validation context: every source, the
/// stable member and the contact binding, sealed.
pub open spec fn member_contact_sources(
    source_refs: Seq<String>,
    member_id: Seq<char>,
    binding_ref: Seq<char>,
) -> Seq<Seq<char>> {
    sealed_all("source"@, source_refs).push(sealed_ref_text("stable-member"@, member_id)).push(
        sealed_ref_text("contact-binding"@, binding_ref),
    )
}

/// The validation sources of a member contact, each once and in order.
pub fn member_contact_source_refs(source_refs: &Vec<String>, member_id: &str, binding_ref: &str) -> (r: Vec<
    String,
>)
    ensures
        views(r@) == sorted_unique(member_contact_sources(source_refs@, member_id@, binding_ref@)),
{
    let mut refs: Vec<String> = Vec::new();
    proof {
        assert(views(refs@) =~= Seq::<Seq<char>>::empty());
    }
    append_sealed(&mut refs, "source", source_refs);
    let ghost r0 = refs@;
    let m = opaque("stable-member", member_id);
    refs.push(m);
    let b = opaque("contact-binding", binding_ref);
    refs.push(b);
    proof {
        assert(views(refs@) =~= member_contact_sources(source_refs@, member_id@, binding_ref@));
    }
    sort_dedup_strings(refs)
}

/// The objects a member contact handoff covers: the secretary's current
/// object, the stable member, the contact binding, the reason and every
/// source, sealed.
pub open spec fn member_contact_objects(
    current_object_ref: Seq<char>,
    member_id: Seq<char>,
    binding_ref: Seq<char>,
    reason_ref: Seq<char>,
    source_refs: Seq<String>,
) -> Seq<Seq<char>> {
    seq![
        current_object_ref,
        sealed_ref_text("stable-member"@, member_id),
        sealed_ref_text("contact-binding"@, binding_ref),
        sealed_ref_text("reason"@, reason_ref),
    ] + sealed_all("source"@, source_refs)
}

/// The objects of a member contact handoff, each once and in order.
pub fn member_contact_object_refs(
    current_object_ref: &str,
    member_id: &str,
    binding_ref: &str,
    reason_ref: &str,
    source_refs: &Vec<String>,
) -> (r: Vec<String>)
    ensures
        views(r@) == sorted_unique(
            member_contact_objects(current_object_ref@, member_id@, binding_ref@, reason_ref@, source_refs@),
        ),
{
    let mut refs: Vec<String> = Vec::new();
    refs.push(String::from_str(current_object_ref));
    refs.push(opaque("stable-member", member_id));
    refs.push(opaque("contact-binding", binding_ref));
    refs.push(opaque("reason", reason_ref));
    proof {
        assert(views(refs@) =~= seq![
            current_object_ref@,
            sealed_ref_text("stable-member"@, member_id@),
            sealed_ref_text("contact-binding"@, binding_ref@),
            sealed_ref_text("reason"@, reason_ref@),
        ]);
    }
    append_sealed(&mut refs, "source", source_refs);
    sort_dedup_strings(refs)
}

// ---------------------------------------------------------------------------
// Authorities: the decisions between role-session store calls
// ---------------------------------------------------------------------------

/// Checks the secretary's loaded role session: its binding verified and its
/// permission current.
pub fn secretary_snapshot_refusal(binding_verified: bool, permission_current: bool) -> (r: Result<(), String>)
    ensures
        r is Ok <==> binding_verified && permission_current,
        r matches Err(e) ==> e@ == "m6_org_consult_secretary_binding_unavailable"@,
{
    if !permission_current || !binding_verified {
        return Err(String::from_str("m6_org_consult_secretary_binding_unavailable"));
    }
    Ok(())
}

/// Checks the consult recipient's role session after it was ensured: its
/// binding verified, its permission current, and still at its first
/// revision.
pub fn recipient_snapshot_refusal(binding_verified: bool, permission_current: bool, revision: u64) -> (r: Result<
    (),
    String,
>)
    ensures
        r is Ok <==> binding_verified && permission_current && revision == 1,
        r matches Err(e) ==> e@ == "m6_org_consult_recipient_binding_unavailable"@,
{
    if !binding_verified || !permission_current || revision != 1 {
        return Err(String::from_str("m6_org_consult_recipient_binding_unavailable"));
    }
    Ok(())
}

/// Where the provider effect of creating the recipient's role session stands.
#[derive(Debug, Clone, Copy, PartialEq, Eq, Structural)]
pub enum ProviderEffectState {
    Registered,
    DispatchClaimed,
    ProviderReceiptRecorded,
    Other,
}

/// What ensuring the recipient does next with its provider effect.
#[derive(Debug, Clone, Copy, PartialEq, Eq, Structural)]
pub enum RecipientStep {
    ClaimDispatch,
    RecordProviderReceipt,
    BindProviderHandle,
    CheckSnapshot,
}

/// The next step for an effect state: a registered effect is claimed for
/// local dispatch, a claimed one gets its provider receipt, a receipted one
/// has its provider handle bound, and any other is only read back.
pub open spec fn recipient_step_of(s: ProviderEffectState) -> RecipientStep {
    match s {
        ProviderEffectState::Registered => RecipientStep::ClaimDispatch,
        ProviderEffectState::DispatchClaimed => RecipientStep::RecordProviderReceipt,
        ProviderEffectState::ProviderReceiptRecorded => RecipientStep::BindProviderHandle,
        ProviderEffectState::Other => RecipientStep::CheckSnapshot,
    }
}

/// The next step of ensuring the consult recipient.
pub fn recipient_effect_step(state: ProviderEffectState) -> (s: RecipientStep)
    ensures
        s == recipient_step_of(state),
{
    match state {
        ProviderEffectState::Registered => RecipientStep::ClaimDispatch,
        ProviderEffectState::DispatchClaimed => RecipientStep::RecordProviderReceipt,
        ProviderEffectState::ProviderReceiptRecorded => RecipientStep::BindProviderHandle,
        ProviderEffectState::Other => RecipientStep::CheckSnapshot,
    }
}

/// A local dispatch claim must be granted.
pub fn recipient_claim_refusal(dispatch_granted: bool) -> (r: Result<(), String>)
    ensures
        r is Ok <==> dispatch_granted,
        r matches Err(e) ==> e@ == "m6_org_consult_recipient_local_claim_not_granted"@,
{
    if !dispatch_granted {
        return Err(String::from_str("m6_org_consult_recipient_local_claim_not_granted"));
    }
    Ok(())
}

// ---------------------------------------------------------------------------
// Accepting and returning a consult
// ---------------------------------------------------------------------------

/// Where accepting and returning a consult stands.
#[derive(Debug, Clone, Copy, PartialEq, Eq, Structural)]
pub enum AcceptReturnState {
    Start,
    AwaitAccept,
    AwaitAdvisory { accepted_revision: u64 },
    AwaitReturnRequest { accepted_revision: u64 },
    AwaitReturnRecord,
    Finished,
}

/// What the role-session store or the advisory answered.
#[derive(Debug, Clone)]
pub enum AcceptReturnEvent {
    Begin,
    Accepted { receipt: Option<(String, u64)> },
    AdvisoryDone { issued: bool },
    ReturnRequested { receipt: Option<(String, u64)> },
    ReturnRecorded { status: String },
}

/// What to do next.
#[derive(Debug, Clone)]
pub enum AcceptReturnAction {
    Accept,
    RunAdvisory { accepted_revision: u64 },
    RequestReturn { expected_revision: u64 },
    RecordReturn { expected_revision: u64 },
    ReportAccepted,
    ReportReturned,
    Fail { code: String },
}

/// The step is a failure with this code.
pub open spec fn fails_with(a: AcceptReturnAction, code: Seq<char>) -> bool {
    a matches AcceptReturnAction::Fail { code: c } && c@ == code
}

/// One step of accepting and returning a consult: accept; on an ACCEPTED
/// receipt run the advisory at the accepted revision; without an advisory
/// report the accepted handoff; with one request the return at the accepted
/// revision, then, on a RETURN_PENDING receipt, record the returned result
/// at its revision, and report once RETURNED. Any receipt missing or in
/// another status fails with its own code.
pub open spec fn accept_return_step_is(
    s: AcceptReturnState,
    e: AcceptReturnEvent,
    next: AcceptReturnState,
    a: AcceptReturnAction,
) -> bool {
    match (s, e) {
        (AcceptReturnState::Start, AcceptReturnEvent::Begin) => next == AcceptReturnState::AwaitAccept
            && a is Accept,
        (AcceptReturnState::AwaitAccept, AcceptReturnEvent::Accepted { receipt }) => match receipt {
            None => next == AcceptReturnState::Finished && fails_with(
                a,
                "m6_org_consult_accepted_receipt_missing"@,
            ),
            Some((status, rev)) => if status@ == "ACCEPTED"@ {
                next == AcceptReturnState::AwaitAdvisory { accepted_revision: rev }
                    && a == AcceptReturnAction::RunAdvisory { accepted_revision: rev }
            } else {
                next == AcceptReturnState::Finished && fails_with(
                    a,
                    "m6_org_consult_accept_not_committed"@,
                )
            },
        },
        (AcceptReturnState::AwaitAdvisory { accepted_revision }, AcceptReturnEvent::AdvisoryDone {
            issued,
        }) => if issued {
            next == AcceptReturnState::AwaitReturnRequest { accepted_revision }
                && a == AcceptReturnAction::RequestReturn { expected_revision: accepted_revision }
        } else {
            next == AcceptReturnState::Finished && a is ReportAccepted
        },
        (AcceptReturnState::AwaitReturnRequest { .. }, AcceptReturnEvent::ReturnRequested {
            receipt,
        }) => match receipt {
            Some((status, rev)) => if status@ == "RETURN_PENDING"@ {
                next == AcceptReturnState::AwaitReturnRecord
                    && a == AcceptReturnAction::RecordReturn { expected_revision: rev }
            } else {
                next == AcceptReturnState::Finished && fails_with(
                    a,
                    "m6_org_consult_return_request_not_committed"@,
                )
            },
            None => next == AcceptReturnState::Finished && fails_with(
                a,
                "m6_org_consult_return_request_not_committed"@,
            ),
        },
        (AcceptReturnState::AwaitReturnRecord, AcceptReturnEvent::ReturnRecorded { status }) => if status@
            == "RETURNED"@ {
            next == AcceptReturnState::Finished && a is ReportReturned
        } else {
            next == AcceptReturnState::Finished && fails_with(
                a,
                "m6_org_consult_return_not_committed"@,
            )
        },
        _ => next == AcceptReturnState::Finished && fails_with(a, "m6_org_consult_step_out_of_order"@),
    }
}

/// Takes one step of accepting and returning a consult.
pub fn accept_return_step(state: AcceptReturnState, event: AcceptReturnEvent) -> (r: (
    AcceptReturnState,
    AcceptReturnAction,
))
    ensures
        accept_return_step_is(state, event, r.0, r.1),
{
    proof {
        reveal_strlit("ACCEPTED");
        reveal_strlit("RETURN_PENDING");
        reveal_strlit("RETURNED");
    }
    let fail = |code: &str| -> (r: (AcceptReturnState, AcceptReturnAction))
        ensures
            r.0 == AcceptReturnState::Finished,
            fails_with(r.1, code@),
        { (AcceptReturnState::Finished, AcceptReturnAction::Fail { code: String::from_str(code) }) };
    match (state, event) {
        (AcceptReturnState::Start, AcceptReturnEvent::Begin) => (
            AcceptReturnState::AwaitAccept,
            AcceptReturnAction::Accept,
        ),
        (AcceptReturnState::AwaitAccept, AcceptReturnEvent::Accepted { receipt }) => match receipt {
            None => fail("m6_org_consult_accepted_receipt_missing"),
            Some((status, rev)) => if str_eq(status.as_str(), "ACCEPTED") {
                (
                    AcceptReturnState::AwaitAdvisory { accepted_revision: rev },
                    AcceptReturnAction::RunAdvisory { accepted_revision: rev },
                )
            } else {
                fail("m6_org_consult_accept_not_committed")
            },
        },
        (AcceptReturnState::AwaitAdvisory { accepted_revision }, AcceptReturnEvent::AdvisoryDone {
            issued,
        }) => if issued {
            (
                AcceptReturnState::AwaitReturnRequest { accepted_revision },
                AcceptReturnAction::RequestReturn { expected_revision: accepted_revision },
            )
        } else {
            (AcceptReturnState::Finished, AcceptReturnAction::ReportAccepted)
        },
        (AcceptReturnState::AwaitReturnRequest { .. }, AcceptReturnEvent::ReturnRequested {
            receipt,
        }) => match receipt {
            Some((status, rev)) => if str_eq(status.as_str(), "RETURN_PENDING") {
                (AcceptReturnState::AwaitReturnRecord, AcceptReturnAction::RecordReturn {
                    expected_revision: rev,
                })
            } else {
                fail("m6_org_consult_return_request_not_committed")
            },
            None => fail("m6_org_consult_return_request_not_committed"),
        },
        (AcceptReturnState::AwaitReturnRecord, AcceptReturnEvent::ReturnRecorded { status }) => if str_eq(
            status.as_str(),
            "RETURNED",
        ) {
            (AcceptReturnState::Finished, AcceptReturnAction::ReportReturned)
        } else {
            fail("m6_org_consult_return_not_committed")
        },
        _ => fail("m6_org_consult_step_out_of_order"),
    }
}

/// The store answered with an ACCEPTED receipt at this revision.
pub open spec fn accepted_receipt_at(e: AcceptReturnEvent, rev: u64) -> bool {
    match e {
        AcceptReturnEvent::Accepted { receipt: Some(t) } => t.0@ == "ACCEPTED"@ && t.1 == rev,
        _ => false,
    }
}

/// The step asks for advice at this accepted revision.
pub open spec fn runs_advisory_at(a: AcceptReturnAction, rev: u64) -> bool {
    match a {
        AcceptReturnAction::RunAdvisory { accepted_revision } => accepted_revision == rev,
        _ => false,
    }
}

/// The advisory answered with an issued advisory.
pub open spec fn advisory_issued(e: AcceptReturnEvent) -> bool {
    match e {
        AcceptReturnEvent::AdvisoryDone { issued } => issued,
        _ => false,
    }
}

/// Advice is asked for only right after the role-session store committed an
/// ACCEPTED receipt, and at that receipt's revision; a return is requested
/// only after the advisory was issued.
pub proof fn lemma_advisory_only_after_accepted(
    s: AcceptReturnState,
    e: AcceptReturnEvent,
    next: AcceptReturnState,
    a: AcceptReturnAction,
    rev: u64,
)
    requires
        accept_return_step_is(s, e, next, a),
    ensures
        runs_advisory_at(a, rev) ==> (s == AcceptReturnState::AwaitAccept && accepted_receipt_at(e, rev)),
        (a is RequestReturn) ==> advisory_issued(e),
{
}

} // verus!
