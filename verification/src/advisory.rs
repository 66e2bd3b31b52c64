//! Read-only cross-project advisory over official project summaries: the
//! exact-join checks on the request, the admission of each summary, the
//! sourced findings, and the adoption and application records. The advisory
//! reads only through a summary query port and writes only its own records.

use vstd::prelude::*;
use crate::outside::{json_quote, json_string_literal, sha256_hex, sha256_hex_of};
use crate::summary::{ProjectSummary, ProjectSummaryQueryPort, QueryError, SourceRef, SummaryConsumer};
use crate::order::{
    Ordered, dedup_seq, join_strings, join_texts, lemma_sorted_unique_nonempty, lemma_stable_sort_len, sort_texts,
    lemma_stable_sort_sorted, lemma_text_le_total_preorder, sorted_seq, total_preorder,
    sort_dedup_strings, sort_stable, sorted_unique, stable_sort, str_lt, text_le, text_lt, views,
};
use crate::text::{
    cat, i64_to_decimal, int_decimal, is_blank, is_blank_seq, is_lower_hex, nat_decimal, str_eq,
    u64_to_decimal, chars_of,
};

verus! {

/// How current a consumed summary is.
#[derive(Debug, Clone, Copy, PartialEq, Eq, Structural)]
pub enum M6OrgFreshnessState {
    Fresh,
    Stale,
    Missing,
    Denied,
    Degraded,
}

/// The fewest projects an advisory compares.
pub const M6_ORG_ADVISORY_MINIMUM_PROJECTS: usize = 2;

/// The owner of advisory records.
pub const M6_ORG_ADVISORY_SOURCE_OWNER_REF: &'static str = "global_supervisor_domain";

/// One project the caller asks about, with the exact summary it expects.
#[derive(Debug, Clone)]
pub struct M6OrgProjectSummaryQueryInput {
    pub project_id: String,
    pub summary_id: Option<String>,
    pub project_owner_ref: Option<String>,
    pub policy_decision_ref: Option<String>,
    pub expected_schema_version: Option<String>,
    pub expected_version: Option<u64>,
    pub expected_source_watermark: Option<i64>,
    pub expected_summary_hash: Option<String>,
}

/// The accepted consult handoff an advisory answers.
#[derive(Debug, Clone)]
pub struct M6OrgConsultHandoffRefInput {
    pub consult_handoff_ref: String,
    pub handoff_id: String,
    pub handoff_revision: u64,
    pub status_ref: String,
    pub receipt_ref: String,
}

/// A request for one cross-project advisory.
#[derive(Debug, Clone)]
pub struct M6OrgCrossProjectAdvisoryRequest {
    pub project_queries: Vec<M6OrgProjectSummaryQueryInput>,
    pub consult_handoff: M6OrgConsultHandoffRefInput,
    pub idempotency_key: String,
}

/// A project query whose exact-join fields were all present and matched.
#[derive(Debug, Clone)]
pub struct ValidatedProjectQuery {
    pub summary_id: String,
    pub project_id: String,
    pub project_owner_ref: String,
    pub policy_decision_ref: String,
    pub expected_schema_version: String,
    pub expected_version: u64,
    pub expected_source_watermark: i64,
    pub expected_summary_hash: String,
}

/// The role-session lease under which summaries are consumed.
#[derive(Debug, Clone)]
pub struct M6OrgGlobalSummaryConsumerLease {
    pub role_session_id: String,
    pub role_session_revision: u64,
    pub scope_kind: String,
    pub consumer_expires_at_ms: i64,
}

/// The judgement on one queried summary.
#[derive(Debug, Clone)]
pub struct M6OrgFreshnessJudgement {
    pub freshness_state: M6OrgFreshnessState,
    pub subject_ref: String,
    pub reason_code: String,
    pub judged_at_ms: i64,
    pub consumer_gate_ref: String,
    pub cache_reuse: bool,
}

/// What an advisory records of one summary it consumed.
#[derive(Debug, Clone)]
pub struct M6OrgConsumedProjectSummaryRef {
    pub summary_id: String,
    pub project_id: String,
    pub project_owner_ref: String,
    pub schema_version: String,
    pub version: u64,
    pub source_watermark: i64,
    pub summary_hash: String,
    pub policy_decision_ref: String,
    pub freshness_state: M6OrgFreshnessState,
    pub source_refs: Vec<String>,
    pub orchestration_id: String,
    pub fact_count: u32,
    pub unverified_claim_count: u32,
    pub open_run_count: u32,
}

/// A link from an advisory to one source of a consumed summary.
#[derive(Debug, Clone)]
pub struct M6OrgAdvisorySourceLink {
    pub source_link_id: String,
    pub object_ref: String,
    pub project_id: String,
    pub summary_id: String,
    pub title_ref: String,
    pub scrubbed_summary_ref: String,
    pub deep_link_metadata_ref: String,
}

/// One finding of an advisory, with the summaries and sources behind it.
#[derive(Debug, Clone)]
pub struct M6OrgAdvisoryFinding {
    pub finding_id: String,
    pub finding_kind: String,
    pub reason_code: String,
    pub priority: u32,
    pub summary_refs: Vec<String>,
    pub source_link_refs: Vec<String>,
    pub explanation_ref: String,
}

// ---------------------------------------------------------------------------
// Reference texts
// ---------------------------------------------------------------------------

/// The owner reference of a project.
pub open spec fn project_owner_ref_text(project_id: Seq<char>) -> Seq<char> {
    "project-owner:"@ + project_id
}

/// The official summary id of a project.
pub open spec fn summary_id_text(project_id: Seq<char>) -> Seq<char> {
    "project-summary:"@ + project_id
}

/// The policy decision that allows consuming a project's summary.
pub open spec fn policy_allow_ref_text(project_id: Seq<char>, owner_ref: Seq<char>) -> Seq<char> {
    "m6-policy-allow:"@ + sha256_hex_of(project_id + ":"@ + owner_ref)
}

/// The exact-join reference of a consult handoff at one revision and status.
pub open spec fn consult_handoff_ref_text(
    handoff_id: Seq<char>,
    revision: nat,
    status_ref: Seq<char>,
    receipt_ref: Seq<char>,
) -> Seq<char> {
    "m6-consult-handoff:"@ + sha256_hex_of(
        handoff_id + ":"@ + nat_decimal(revision) + ":"@ + status_ref + ":"@ + receipt_ref,
    )
}

/// The context reference of one summary source.
pub open spec fn source_context_ref_text(project_id: Seq<char>, source: SourceRef) -> Seq<char> {
    "source-ref:"@ + project_id + ":"@ + source.source_type@ + ":"@ + source.source_id@ + ":at"@
        + int_decimal(source.last_updated_ms as int)
}

/// `project-owner:{project_id}`.
pub fn project_owner_ref_for(project_id: &str) -> (r: String)
    ensures
        r@ == project_owner_ref_text(project_id@),
{
    cat("project-owner:", project_id)
}

/// `project-summary:{project_id}`.
pub fn summary_id_for(project_id: &str) -> (r: String)
    ensures
        r@ == summary_id_text(project_id@),
{
    cat("project-summary:", project_id)
}

/// The policy-allow reference of a project and its owner.
pub fn policy_allow_ref_for(project_id: &str, owner_ref: &str) -> (r: String)
    ensures
        r@ == policy_allow_ref_text(project_id@, owner_ref@),
{
    let mut material = cat(project_id, ":");
    material.append(owner_ref);
    let digest = sha256_hex(material.as_str());
    cat("m6-policy-allow:", digest.as_str())
}

/// The exact-join reference of a consult handoff.
pub fn consult_handoff_ref_for(
    handoff_id: &str,
    revision: u64,
    status_ref: &str,
    receipt_ref: &str,
) -> (r: String)
    ensures
        r@ == consult_handoff_ref_text(handoff_id@, revision as nat, status_ref@, receipt_ref@),
{
    let rev = u64_to_decimal(revision);
    let mut material = cat(handoff_id, ":");
    material.append(rev.as_str());
    material.append(":");
    material.append(status_ref);
    material.append(":");
    material.append(receipt_ref);
    let digest = sha256_hex(material.as_str());
    cat("m6-consult-handoff:", digest.as_str())
}

/// The context reference of one summary source.
pub fn source_context_ref(project_id: &str, source: &SourceRef) -> (r: String)
    ensures
        r@ == source_context_ref_text(project_id@, *source),
{
    let at = i64_to_decimal(source.last_updated_ms);
    let mut r = cat("source-ref:", project_id);
    r.append(":");
    r.append(source.source_type.as_str());
    r.append(":");
    r.append(source.source_id.as_str());
    r.append(":at");
    r.append(at.as_str());
    r
}

/// Refuses a blank required field, naming it.
pub fn require_nonempty(field: &str, value: &str) -> (r: Result<(), String>)
    ensures
        is_blank_seq(value@) ==> (r matches Err(e) && e@ == "m6_org_required_field_missing:"@
            + field@),
        !is_blank_seq(value@) ==> r is Ok,
{
    if is_blank(value) {
        return Err(cat("m6_org_required_field_missing:", field));
    }
    Ok(())
}

/// Sixty-four lowercase hexadecimal digits.
pub open spec fn is_sha256_text(s: Seq<char>) -> bool {
    s.len() == 64 && forall|i: int| 0 <= i < 64 ==> is_lower_hex(#[trigger] s[i])
}

/// Whether a text is a lowercase hex SHA-256 digest.
pub fn is_sha256(value: &str) -> (b: bool)
    ensures
        b == is_sha256_text(value@),
{
    let cs = chars_of(value);
    if cs.len() != 64 {
        return false;
    }
    let mut i: usize = 0;
    while i < 64
        invariant
            cs@ == value@,
            cs.len() == 64,
            i <= 64,
            forall|j: int| 0 <= j < i ==> is_lower_hex(#[trigger] cs@[j]),
        decreases 64 - i,
    {
        let c = cs[i];
        if !(('0' <= c && c <= '9') || ('a' <= c && c <= 'f')) {
            return false;
        }
        i = i + 1;
    }
    true
}

// ---------------------------------------------------------------------------
// Scores and error mapping
// ---------------------------------------------------------------------------

/// The score by which the priority finding picks a project.
pub open spec fn priority_score(s: M6OrgConsumedProjectSummaryRef) -> int {
    s.unverified_claim_count * 100 + s.open_run_count * 10 + s.fact_count
}

/// Unverified claims weigh most, then open runs, then facts.
pub fn advisory_priority_score(summary: &M6OrgConsumedProjectSummaryRef) -> (r: u64)
    ensures
        r == priority_score(*summary),
{
    summary.unverified_claim_count as u64 * 100 + summary.open_run_count as u64 * 10
        + summary.fact_count as u64
}

/// The freshness state and reason a summary query error stands for.
pub open spec fn query_error_judgement(error: QueryError) -> (M6OrgFreshnessState, Seq<char>) {
    match error {
        QueryError::ProjectNotFound(_) => (M6OrgFreshnessState::Missing, "summary_missing"@),
        QueryError::InsufficientPermission(_) => (
            M6OrgFreshnessState::Denied,
            "summary_consumer_denied"@,
        ),
        QueryError::ConsumerExpired(_) => (M6OrgFreshnessState::Denied, "summary_consumer_denied"@),
        QueryError::SummaryStale(_) => (M6OrgFreshnessState::Stale, "summary_projector_stale"@),
        QueryError::StorageError(_) => (M6OrgFreshnessState::Degraded, "summary_projector_degraded"@),
    }
}

/// Maps a summary query error to its freshness judgement.
pub fn map_query_error(error: QueryError) -> (r: (M6OrgFreshnessState, String))
    ensures
        r.0 == query_error_judgement(error).0,
        r.1@ == query_error_judgement(error).1,
{
    match error {
        QueryError::ProjectNotFound(_) => (
            M6OrgFreshnessState::Missing,
            String::from_str("summary_missing"),
        ),
        QueryError::InsufficientPermission(_) | QueryError::ConsumerExpired(_) => (
            M6OrgFreshnessState::Denied,
            String::from_str("summary_consumer_denied"),
        ),
        QueryError::SummaryStale(_) => (
            M6OrgFreshnessState::Stale,
            String::from_str("summary_projector_stale"),
        ),
        QueryError::StorageError(_) => (
            M6OrgFreshnessState::Degraded,
            String::from_str("summary_projector_degraded"),
        ),
    }
}

/// The consumer-gate reference of a lease for one project.
pub open spec fn consumer_gate_ref_text(lease: M6OrgGlobalSummaryConsumerLease, project_id: Seq<
    char,
>) -> Seq<char> {
    "m6-summary-consumer-gate:"@ + lease.role_session_id@ + ":r"@ + nat_decimal(
        lease.role_session_revision as nat,
    ) + ":"@ + lease.scope_kind@ + ":"@ + sha256_hex_of(project_id)
}

/// `m6-summary-consumer-gate:{session}:r{revision}:{scope}:{sha(project)}`.
pub fn consumer_gate_ref(lease: &M6OrgGlobalSummaryConsumerLease, project_id: &str) -> (r: String)
    ensures
        r@ == consumer_gate_ref_text(*lease, project_id@),
{
    let rev = u64_to_decimal(lease.role_session_revision);
    let digest = sha256_hex(project_id);
    let mut r = cat("m6-summary-consumer-gate:", lease.role_session_id.as_str());
    r.append(":r");
    r.append(rev.as_str());
    r.append(":");
    r.append(lease.scope_kind.as_str());
    r.append(":");
    r.append(digest.as_str());
    r
}

/// The judgement recorded for one query.
pub open spec fn judgement_of(
    query: ValidatedProjectQuery,
    lease: M6OrgGlobalSummaryConsumerLease,
    now_ms: i64,
    state: M6OrgFreshnessState,
    reason: Seq<char>,
    j: M6OrgFreshnessJudgement,
) -> bool {
    &&& j.freshness_state == state
    &&& j.subject_ref@ == query.summary_id@
    &&& j.reason_code@ == reason
    &&& j.judged_at_ms == now_ms
    &&& j.consumer_gate_ref@ == consumer_gate_ref_text(lease, query.project_id@)
    &&& !j.cache_reuse
}

/// Records a judgement on one query; a judgement is never a cache reuse.
pub fn freshness_judgement(
    query: &ValidatedProjectQuery,
    lease: &M6OrgGlobalSummaryConsumerLease,
    now_ms: i64,
    state: M6OrgFreshnessState,
    reason: &str,
) -> (r: M6OrgFreshnessJudgement)
    ensures
        judgement_of(*query, *lease, now_ms, state, reason@, r),
{
    M6OrgFreshnessJudgement {
        freshness_state: state,
        subject_ref: String::from_str(query.summary_id.as_str()),
        reason_code: String::from_str(reason),
        judged_at_ms: now_ms,
        consumer_gate_ref: consumer_gate_ref(lease, query.project_id.as_str()),
        cache_reuse: false,
    }
}


// ---------------------------------------------------------------------------
// Request validation
// ---------------------------------------------------------------------------

/// The refusal of a consult handoff join, checked in order, if any.
pub open spec fn consult_handoff_refusal(h: M6OrgConsultHandoffRefInput) -> Option<Seq<char>> {
    if is_blank_seq(h.handoff_id@) {
        Some("m6_org_required_field_missing:"@ + "handoff_id"@)
    } else if is_blank_seq(h.status_ref@) {
        Some("m6_org_required_field_missing:"@ + "status_ref"@)
    } else if is_blank_seq(h.receipt_ref@) {
        Some("m6_org_required_field_missing:"@ + "receipt_ref"@)
    } else if h.handoff_revision == 0 {
        Some("m6_org_handoff_revision_required"@)
    } else if h.status_ref@ != "ACCEPTED"@ {
        Some("m6_org_handoff_not_accepted"@)
    } else if h.consult_handoff_ref@ != consult_handoff_ref_text(
        h.handoff_id@,
        h.handoff_revision as nat,
        h.status_ref@,
        h.receipt_ref@,
    ) {
        Some("m6_org_handoff_exact_join_mismatch"@)
    } else {
        None
    }
}

/// Checks that the handoff is an accepted one and that its join reference is
/// exactly the one derived from its id, revision, status and receipt.
pub fn validate_consult_handoff(handoff: &M6OrgConsultHandoffRefInput) -> (r: Result<(), String>)
    ensures
        match consult_handoff_refusal(*handoff) {
            Some(e) => r matches Err(m) && m@ == e,
            None => r is Ok,
        },
{
    match require_nonempty("handoff_id", handoff.handoff_id.as_str()) {
        Ok(_) => {},
        Err(e) => {
            return Err(e);
        },
    };
    match require_nonempty("status_ref", handoff.status_ref.as_str()) {
        Ok(_) => {},
        Err(e) => {
            return Err(e);
        },
    };
    match require_nonempty("receipt_ref", handoff.receipt_ref.as_str()) {
        Ok(_) => {},
        Err(e) => {
            return Err(e);
        },
    };
    if handoff.handoff_revision == 0 {
        return Err(String::from_str("m6_org_handoff_revision_required"));
    }
    if !str_eq(handoff.status_ref.as_str(), "ACCEPTED") {
        return Err(String::from_str("m6_org_handoff_not_accepted"));
    }
    let expected = consult_handoff_ref_for(
        handoff.handoff_id.as_str(),
        handoff.handoff_revision,
        handoff.status_ref.as_str(),
        handoff.receipt_ref.as_str(),
    );
    if !str_eq(handoff.consult_handoff_ref.as_str(), expected.as_str()) {
        return Err(String::from_str("m6_org_handoff_exact_join_mismatch"));
    }
    Ok(())
}

/// An optional text that is present and not blank.
pub open spec fn given(o: Option<String>) -> bool {
    o is Some && !is_blank_seq(o->0@)
}

/// The refusal of one project query on its own, checked in field order.
pub open spec fn query_refusal(q: M6OrgProjectSummaryQueryInput) -> Option<Seq<char>> {
    if !given(q.project_owner_ref) {
        Some("m6_org_summary_owner_required"@)
    } else if q.project_owner_ref->0@ != project_owner_ref_text(q.project_id@) {
        Some("m6_org_summary_owner_mismatch"@)
    } else if !given(q.summary_id) {
        Some("m6_org_summary_id_required"@)
    } else if q.summary_id->0@ != summary_id_text(q.project_id@) {
        Some("m6_org_summary_id_mismatch"@)
    } else if !given(q.policy_decision_ref) {
        Some("m6_org_policy_decision_required"@)
    } else if q.policy_decision_ref->0@ != policy_allow_ref_text(
        q.project_id@,
        q.project_owner_ref->0@,
    ) {
        Some("m6_org_policy_decision_denied"@)
    } else if !given(q.expected_schema_version) {
        Some("m6_org_summary_schema_version_required"@)
    } else if !(q.expected_version matches Some(v) && v > 0) {
        Some("m6_org_summary_version_required"@)
    } else if !(q.expected_source_watermark matches Some(w) && w > 0) {
        Some("m6_org_summary_watermark_required"@)
    } else if !(q.expected_summary_hash matches Some(h) && is_sha256_text(h@)) {
        Some("m6_org_summary_hash_required"@)
    } else {
        None
    }
}

/// The refusal of the query at index `k`, given that every earlier query
/// passed: a blank project id, a repeated project, or its own refusal.
pub open spec fn query_refusal_at(qs: Seq<M6OrgProjectSummaryQueryInput>, k: int) -> Option<
    Seq<char>,
> {
    if is_blank_seq(qs[k].project_id@) {
        Some("m6_org_required_field_missing:"@ + "project_id"@)
    } else if exists|j: int| 0 <= j < k && #[trigger] qs[j].project_id@ == qs[k].project_id@ {
        Some("m6_org_duplicate_project_query"@)
    } else {
        query_refusal(qs[k])
    }
}

/// The first refusal among the first `n` queries.
pub open spec fn queries_refusal(qs: Seq<M6OrgProjectSummaryQueryInput>, n: int) -> Option<
    Seq<char>,
>
    decreases n,
{
    if n <= 0 {
        None
    } else {
        match queries_refusal(qs, n - 1) {
            Some(e) => Some(e),
            None => query_refusal_at(qs, n - 1),
        }
    }
}

proof fn lemma_queries_refusal_sticks(qs: Seq<M6OrgProjectSummaryQueryInput>, m: int, n: int)
    requires
        0 <= m <= n,
        queries_refusal(qs, m) is Some,
    ensures
        queries_refusal(qs, n) == queries_refusal(qs, m),
    decreases n - m,
{
    if m < n {
        lemma_queries_refusal_sticks(qs, m, n - 1);
    }
}

/// The refusal of a whole advisory request, if any.
pub open spec fn request_shape_refusal(r: M6OrgCrossProjectAdvisoryRequest) -> Option<Seq<char>> {
    if r.project_queries@.len() < 2 {
        Some("m6_org_advisory_requires_two_projects"@)
    } else if is_blank_seq(r.idempotency_key@) {
        Some("m6_org_required_field_missing:"@ + "idempotency_key"@)
    } else if consult_handoff_refusal(r.consult_handoff) is Some {
        consult_handoff_refusal(r.consult_handoff)
    } else {
        queries_refusal(r.project_queries@, r.project_queries@.len() as int)
    }
}

/// The validated form of a query that passed its checks.
pub open spec fn validated_from(v: ValidatedProjectQuery, q: M6OrgProjectSummaryQueryInput) -> bool {
    &&& v.summary_id@ == q.summary_id->0@
    &&& v.project_id@ == q.project_id@
    &&& v.project_owner_ref@ == q.project_owner_ref->0@
    &&& v.policy_decision_ref@ == q.policy_decision_ref->0@
    &&& v.expected_schema_version@ == q.expected_schema_version->0@
    &&& q.expected_version == Some(v.expected_version)
    &&& q.expected_source_watermark == Some(v.expected_source_watermark)
    &&& v.expected_summary_hash@ == q.expected_summary_hash->0@
}

fn given_text(o: &Option<String>) -> (r: Option<String>)
    ensures
        given(*o) ==> (r matches Some(t) && t@ == o->0@),
        !given(*o) ==> r is None,
{
    match o {
        Some(t) => {
            if is_blank(t.as_str()) {
                None
            } else {
                Some(String::from_str(t.as_str()))
            }
        },
        None => None,
    }
}

/// Validates one query on its own (without the duplicate check).
fn validate_query(q: &M6OrgProjectSummaryQueryInput) -> (r: Result<ValidatedProjectQuery, String>)
    requires
        !is_blank_seq(q.project_id@),
    ensures
        match query_refusal(*q) {
            Some(e) => r matches Err(m) && m@ == e,
            None => r matches Ok(v) && validated_from(v, *q),
        },
{
    let project_owner_ref = match given_text(&q.project_owner_ref) {
        Some(t) => t,
        None => {
            return Err(String::from_str("m6_org_summary_owner_required"));
        },
    };
    let expected_owner = project_owner_ref_for(q.project_id.as_str());
    if !str_eq(project_owner_ref.as_str(), expected_owner.as_str()) {
        return Err(String::from_str("m6_org_summary_owner_mismatch"));
    }
    let summary_id = match given_text(&q.summary_id) {
        Some(t) => t,
        None => {
            return Err(String::from_str("m6_org_summary_id_required"));
        },
    };
    let expected_summary = summary_id_for(q.project_id.as_str());
    if !str_eq(summary_id.as_str(), expected_summary.as_str()) {
        return Err(String::from_str("m6_org_summary_id_mismatch"));
    }
    let policy_decision_ref = match given_text(&q.policy_decision_ref) {
        Some(t) => t,
        None => {
            return Err(String::from_str("m6_org_policy_decision_required"));
        },
    };
    let expected_policy = policy_allow_ref_for(
        q.project_id.as_str(),
        project_owner_ref.as_str(),
    );
    if !str_eq(policy_decision_ref.as_str(), expected_policy.as_str()) {
        return Err(String::from_str("m6_org_policy_decision_denied"));
    }
    let expected_schema_version = match given_text(&q.expected_schema_version) {
        Some(t) => t,
        None => {
            return Err(String::from_str("m6_org_summary_schema_version_required"));
        },
    };
    let expected_version = match q.expected_version {
        Some(v) if v > 0 => v,
        _ => {
            return Err(String::from_str("m6_org_summary_version_required"));
        },
    };
    let expected_source_watermark = match q.expected_source_watermark {
        Some(w) if w > 0 => w,
        _ => {
            return Err(String::from_str("m6_org_summary_watermark_required"));
        },
    };
    let expected_summary_hash = match &q.expected_summary_hash {
        Some(h) => {
            if is_sha256(h.as_str()) {
                String::from_str(h.as_str())
            } else {
                return Err(String::from_str("m6_org_summary_hash_required"));
            }
        },
        None => {
            return Err(String::from_str("m6_org_summary_hash_required"));
        },
    };
    Ok(
        ValidatedProjectQuery {
            summary_id,
            project_id: String::from_str(q.project_id.as_str()),
            project_owner_ref,
            policy_decision_ref,
            expected_schema_version,
            expected_version,
            expected_source_watermark,
            expected_summary_hash,
        },
    )
}

/// Validates every caller-carried exact-join field of an advisory request
/// before anything is read: at least two projects, an idempotency key, an
/// accepted consult handoff, and for each project (no project twice) its
/// owner, summary id, policy decision, schema version, version, watermark
/// and summary hash.
pub fn validate_request_shape(request: &M6OrgCrossProjectAdvisoryRequest) -> (r: Result<
    Vec<ValidatedProjectQuery>,
    String,
>)
    ensures
        match request_shape_refusal(*request) {
            Some(e) => r matches Err(m) && m@ == e,
            None => r matches Ok(v) && v@.len() == request.project_queries@.len() && forall|i: int|
                0 <= i < v@.len() ==> validated_from(#[trigger] v@[i], request.project_queries@[i]),
        },
{
    if request.project_queries.len() < M6_ORG_ADVISORY_MINIMUM_PROJECTS {
        return Err(String::from_str("m6_org_advisory_requires_two_projects"));
    }
    match require_nonempty("idempotency_key", request.idempotency_key.as_str()) {
        Ok(_) => {},
        Err(e) => {
            return Err(e);
        },
    };
    match validate_consult_handoff(&request.consult_handoff) {
        Ok(_) => {},
        Err(e) => {
            return Err(e);
        },
    };
    let qs = &request.project_queries;
    let mut validated: Vec<ValidatedProjectQuery> = Vec::new();
    let mut k: usize = 0;
    while k < qs.len()
        invariant
            qs@ == request.project_queries@,
            request_shape_refusal(*request) == queries_refusal(qs@, qs@.len() as int),
            k <= qs@.len(),
            queries_refusal(qs@, k as int) is None,
            validated@.len() == k,
            forall|i: int| 0 <= i < k ==> validated_from(#[trigger] validated@[i], qs@[i]),
        decreases qs.len() - k,
    {
        let q = &qs[k];
        proof {
            if query_refusal_at(qs@, k as int) is Some {
                lemma_queries_refusal_sticks(qs@, k + 1, qs@.len() as int);
            }
        }
        match require_nonempty("project_id", q.project_id.as_str()) {
        Ok(_) => {},
        Err(e) => {
            return Err(e);
        },
    };
        let mut j: usize = 0;
        while j < k
            invariant
                j <= k,
                k < qs@.len(),
                *q == qs@[k as int],
                !is_blank_seq(qs@[k as int].project_id@),
                query_refusal_at(qs@, k as int) is Some ==> request_shape_refusal(*request)
                    == query_refusal_at(qs@, k as int),
                validated@.len() == k,
                forall|i: int| 0 <= i < k ==> validated_from(#[trigger] validated@[i], qs@[i]),
                forall|i: int| 0 <= i < j ==> #[trigger] qs@[i].project_id@ != qs@[k as int].project_id@,
            decreases k - j,
        {
            proof {
                assert(validated_from(validated@[j as int], qs@[j as int]));
            }
            if str_eq(validated[j].project_id.as_str(), q.project_id.as_str()) {
                proof {
                    assert(qs@[j as int].project_id@ == qs@[k as int].project_id@);
                }
                return Err(String::from_str("m6_org_duplicate_project_query"));
            }
            j = j + 1;
        }
        let v = match validate_query(q) {
            Ok(v) => v,
            Err(e) => {
                return Err(e);
            },
        };
        validated.push(v);
        k = k + 1;
    }
    Ok(validated)
}


// ---------------------------------------------------------------------------
// Summary admission
// ---------------------------------------------------------------------------

/// A summary admitted as exact and current, with the sources it lists.
#[derive(Debug, Clone)]
pub struct FreshSummary {
    pub consumed: M6OrgConsumedProjectSummaryRef,
    pub source_metadata: Vec<SourceRef>,
}

/// A source entry missing its type, id or update time.
pub open spec fn source_incomplete(r: SourceRef) -> bool {
    is_blank_seq(r.source_type@) || is_blank_seq(r.source_id@) || r.last_updated_ms <= 0
}

/// A summary missing required metadata.
pub open spec fn summary_incomplete(s: ProjectSummary) -> bool {
    ||| is_blank_seq(s.schema_version@)
    ||| s.version == 0
    ||| s.watermark_ms <= 0
    ||| !is_sha256_text(s.summary_hash@)
    ||| s.source_refs@.len() == 0
    ||| exists|i: int| 0 <= i < s.source_refs@.len() && source_incomplete(#[trigger] s.source_refs@[i])
}

/// The summary is exactly the version, watermark and hash the query expects.
pub open spec fn summary_as_expected(q: ValidatedProjectQuery, s: ProjectSummary) -> bool {
    &&& s.schema_version@ == q.expected_schema_version@
    &&& s.version == q.expected_version
    &&& s.watermark_ms == q.expected_source_watermark
    &&& s.summary_hash@ == q.expected_summary_hash@
}

/// What an advisory records of a summary consumed for a query.
pub open spec fn consumed_from(
    c: M6OrgConsumedProjectSummaryRef,
    q: ValidatedProjectQuery,
    s: ProjectSummary,
) -> bool {
    &&& c.summary_id@ == q.summary_id@
    &&& c.project_id@ == s.project_id@
    &&& c.project_owner_ref@ == q.project_owner_ref@
    &&& c.schema_version@ == s.schema_version@
    &&& c.version == s.version
    &&& c.source_watermark == s.watermark_ms
    &&& c.summary_hash@ == s.summary_hash@
    &&& c.policy_decision_ref@ == q.policy_decision_ref@
    &&& c.freshness_state == M6OrgFreshnessState::Fresh
    &&& c.source_refs@.len() == s.source_refs@.len()
    &&& forall|i: int|
        0 <= i < c.source_refs@.len() ==> #[trigger] c.source_refs@[i]@ == source_context_ref_text(
            s.project_id@,
            s.source_refs@[i],
        )
    &&& c.orchestration_id@ == s.orchestration_id@
    &&& c.fact_count == s.fact_count
    &&& c.unverified_claim_count == s.unverified_claim_count
    &&& c.open_run_count == s.open_run_count
}

fn summary_is_incomplete(s: &ProjectSummary) -> (b: bool)
    ensures
        b == summary_incomplete(*s),
{
    if is_blank(s.schema_version.as_str()) || s.version == 0 || s.watermark_ms <= 0 || !is_sha256(
        s.summary_hash.as_str(),
    ) || s.source_refs.len() == 0 {
        return true;
    }
    let mut i: usize = 0;
    while i < s.source_refs.len()
        invariant
            i <= s.source_refs@.len(),
            forall|j: int| 0 <= j < i ==> !source_incomplete(#[trigger] s.source_refs@[j]),
        decreases s.source_refs.len() - i,
    {
        let r = &s.source_refs[i];
        if is_blank(r.source_type.as_str()) || is_blank(r.source_id.as_str()) || r.last_updated_ms
            <= 0 {
            return true;
        }
        i = i + 1;
    }
    false
}

/// Admits one summary for a validated query: a summary of another project is
/// denied, one missing metadata is degraded, one that differs from the
/// expected version, watermark or hash is stale (its current form is still
/// reported), and only an exact one is fresh.
pub fn admit_summary(query: &ValidatedProjectQuery, summary: ProjectSummary) -> (r: Result<
    FreshSummary,
    (M6OrgFreshnessState, String, Option<M6OrgConsumedProjectSummaryRef>),
>)
    ensures
        summary.project_id@ != query.project_id@ ==> (r matches Err((st, m, c)) && st
            == M6OrgFreshnessState::Denied && m@ == "summary_foreign_project"@ && c is None),
        summary.project_id@ == query.project_id@ && summary_incomplete(summary) ==> (r matches Err(
            (st, m, c),
        ) && st == M6OrgFreshnessState::Degraded && m@ == "summary_required_metadata_incomplete"@
            && c is None),
        summary.project_id@ == query.project_id@ && !summary_incomplete(summary)
            && !summary_as_expected(*query, summary) ==> (r matches Err((st, m, c)) && st
            == M6OrgFreshnessState::Stale && m@ == "summary_version_watermark_or_hash_stale"@ && (c matches Some(
            cc,
        ) && consumed_from(cc, *query, summary))),
        summary.project_id@ == query.project_id@ && !summary_incomplete(summary)
            && summary_as_expected(*query, summary) ==> (r matches Ok(f) && consumed_from(
            f.consumed,
            *query,
            summary,
        ) && f.source_metadata == summary.source_refs),
{
    if !str_eq(summary.project_id.as_str(), query.project_id.as_str()) {
        return Err(
            (M6OrgFreshnessState::Denied, String::from_str("summary_foreign_project"), None),
        );
    }
    if summary_is_incomplete(&summary) {
        return Err(
            (
                M6OrgFreshnessState::Degraded,
                String::from_str("summary_required_metadata_incomplete"),
                None,
            ),
        );
    }
    let mut source_refs: Vec<String> = Vec::new();
    let mut i: usize = 0;
    while i < summary.source_refs.len()
        invariant
            i <= summary.source_refs@.len(),
            source_refs@.len() == i,
            forall|j: int|
                0 <= j < i ==> #[trigger] source_refs@[j]@ == source_context_ref_text(
                    summary.project_id@,
                    summary.source_refs@[j],
                ),
        decreases summary.source_refs.len() - i,
    {
        let r = source_context_ref(summary.project_id.as_str(), &summary.source_refs[i]);
        source_refs.push(r);
        i = i + 1;
    }
    let consumed = M6OrgConsumedProjectSummaryRef {
        summary_id: String::from_str(query.summary_id.as_str()),
        project_id: String::from_str(summary.project_id.as_str()),
        project_owner_ref: String::from_str(query.project_owner_ref.as_str()),
        schema_version: String::from_str(summary.schema_version.as_str()),
        version: summary.version,
        source_watermark: summary.watermark_ms,
        summary_hash: String::from_str(summary.summary_hash.as_str()),
        policy_decision_ref: String::from_str(query.policy_decision_ref.as_str()),
        freshness_state: M6OrgFreshnessState::Fresh,
        source_refs,
        orchestration_id: String::from_str(summary.orchestration_id.as_str()),
        fact_count: summary.fact_count,
        unverified_claim_count: summary.unverified_claim_count,
        open_run_count: summary.open_run_count,
    };
    if !str_eq(summary.schema_version.as_str(), query.expected_schema_version.as_str())
        || summary.version != query.expected_version || summary.watermark_ms
        != query.expected_source_watermark || !str_eq(
        summary.summary_hash.as_str(),
        query.expected_summary_hash.as_str(),
    ) {
        return Err(
            (
                M6OrgFreshnessState::Stale,
                String::from_str("summary_version_watermark_or_hash_stale"),
                Some(consumed),
            ),
        );
    }
    Ok(FreshSummary { consumed, source_metadata: summary.source_refs })
}

/// The context reference of one consumed summary.
pub open spec fn summary_context_ref_text(s: M6OrgConsumedProjectSummaryRef) -> Seq<char> {
    s.summary_id@ + ":v"@ + nat_decimal(s.version as nat) + ":w"@ + int_decimal(
        s.source_watermark as int,
    ) + ":h"@ + s.summary_hash@
}

/// The source references of all consumed summaries, in order.
pub open spec fn all_source_refs(s: Seq<M6OrgConsumedProjectSummaryRef>) -> Seq<Seq<char>>
    decreases s.len(),
{
    if s.len() == 0 {
        Seq::empty()
    } else {
        all_source_refs(s.drop_last()) + s.last().source_refs@.map_values(|r: String| r@)
    }
}

/// The minimal context an advisory hands its role session: one versioned
/// reference per consumed summary and every source reference behind them.
pub fn context_refs(summaries: &Vec<M6OrgConsumedProjectSummaryRef>) -> (r: (
    Vec<String>,
    Vec<String>,
))
    ensures
        r.0@.len() == summaries@.len(),
        forall|i: int|
            0 <= i < summaries@.len() ==> #[trigger] r.0@[i]@ == summary_context_ref_text(
                summaries@[i],
            ),
        r.1@.map_values(|t: String| t@) == all_source_refs(summaries@),
{
    let mut summary_refs: Vec<String> = Vec::new();
    let mut source_refs: Vec<String> = Vec::new();
    let mut i: usize = 0;
    proof {
        assert(summaries@.take(0) =~= Seq::<M6OrgConsumedProjectSummaryRef>::empty());
        assert(source_refs@.map_values(|t: String| t@) =~= Seq::<Seq<char>>::empty());
    }
    while i < summaries.len()
        invariant
            i <= summaries@.len(),
            summary_refs@.len() == i,
            forall|j: int|
                0 <= j < i ==> #[trigger] summary_refs@[j]@ == summary_context_ref_text(
                    summaries@[j],
                ),
            source_refs@.map_values(|t: String| t@) == all_source_refs(summaries@.take(i as int)),
        decreases summaries.len() - i,
    {
        let s = &summaries[i];
        let v = u64_to_decimal(s.version);
        let w = i64_to_decimal(s.source_watermark);
        let mut t = cat(s.summary_id.as_str(), ":v");
        t.append(v.as_str());
        t.append(":w");
        t.append(w.as_str());
        t.append(":h");
        t.append(s.summary_hash.as_str());
        summary_refs.push(t);
        let ghost before = source_refs@.map_values(|t: String| t@);
        let mut j: usize = 0;
        while j < s.source_refs.len()
            invariant
                j <= s.source_refs@.len(),
                source_refs@.map_values(|t: String| t@) == before + s.source_refs@.take(
                    j as int,
                ).map_values(|r: String| r@),
            decreases s.source_refs.len() - j,
        {
            let ghost old_refs = source_refs@;
            let copy = String::from_str(s.source_refs[j].as_str());
            source_refs.push(copy);
            proof {
                assert(source_refs@.map_values(|t: String| t@) =~= old_refs.map_values(
                    |t: String| t@,
                ).push(copy@));
                assert(s.source_refs@.take(j + 1).map_values(|r: String| r@) =~= s.source_refs@.take(
                    j as int,
                ).map_values(|r: String| r@).push(s.source_refs@[j as int]@));
                assert(source_refs@.map_values(|t: String| t@) =~= before + s.source_refs@.take(
                    j + 1,
                ).map_values(|r: String| r@));
            }
            j = j + 1;
        }
        proof {
            assert(s.source_refs@.take(j as int) =~= s.source_refs@);
            assert(summaries@.take(i + 1).drop_last() =~= summaries@.take(i as int));
            assert(summaries@.take(i + 1).last() == summaries@[i as int]);
        }
        i = i + 1;
    }
    proof {
        assert(summaries@.take(i as int) =~= summaries@);
    }
    (summary_refs, source_refs)
}

// ---------------------------------------------------------------------------
// Application receipts
// ---------------------------------------------------------------------------

/// How a project applied an adopted advisory.
#[derive(Debug, Clone, Copy, PartialEq, Eq, Structural)]
pub enum M6OrgApplicationOutcome {
    Applied,
    Failed,
    RolledBack,
}

/// An observation of a project's own command receipt for an adopted advisory.
#[derive(Debug, Clone)]
pub struct M6OrgApplicationReceiptObservationRequest {
    pub advisory_id: String,
    pub decision_request_id: String,
    pub project_id: String,
    pub project_owner_ref: String,
    pub authoritative_command_receipt_ref: String,
    pub grant_ref: String,
    pub outcome: M6OrgApplicationOutcome,
    pub observed_at_ms: i64,
    pub source_receipt_hash: String,
}

/// The refusal of an application receipt observation, if any.
pub open spec fn application_receipt_refusal(r: M6OrgApplicationReceiptObservationRequest) -> Option<
    Seq<char>,
> {
    if is_blank_seq(r.advisory_id@) {
        Some("m6_org_required_field_missing:"@ + "advisory_id"@)
    } else if is_blank_seq(r.decision_request_id@) {
        Some("m6_org_required_field_missing:"@ + "decision_request_id"@)
    } else if is_blank_seq(r.project_id@) {
        Some("m6_org_required_field_missing:"@ + "project_id"@)
    } else if is_blank_seq(r.project_owner_ref@) {
        Some("m6_org_required_field_missing:"@ + "project_owner_ref"@)
    } else if is_blank_seq(r.authoritative_command_receipt_ref@) {
        Some("m6_org_required_field_missing:"@ + "authoritative_command_receipt_ref"@)
    } else if is_blank_seq(r.grant_ref@) {
        Some("m6_org_required_field_missing:"@ + "grant_ref"@)
    } else if r.project_owner_ref@ != project_owner_ref_text(r.project_id@) {
        Some("m6_org_application_owner_mismatch"@)
    } else if !is_sha256_text(r.source_receipt_hash@) || r.observed_at_ms <= 0 {
        Some("m6_org_application_receipt_incomplete"@)
    } else {
        None
    }
}

/// Checks an application receipt observation: every reference present, the
/// owner the project's own, a digest-shaped receipt hash and a positive time.
pub fn validate_application_receipt(request: &M6OrgApplicationReceiptObservationRequest) -> (r:
    Result<(), String>)
    ensures
        match application_receipt_refusal(*request) {
            Some(e) => r matches Err(m) && m@ == e,
            None => r is Ok,
        },
{
    if let Err(e) = require_nonempty("advisory_id", request.advisory_id.as_str()) {
        return Err(e);
    }
    if let Err(e) = require_nonempty("decision_request_id", request.decision_request_id.as_str()) {
        return Err(e);
    }
    if let Err(e) = require_nonempty("project_id", request.project_id.as_str()) {
        return Err(e);
    }
    if let Err(e) = require_nonempty("project_owner_ref", request.project_owner_ref.as_str()) {
        return Err(e);
    }
    if let Err(e) = require_nonempty(
        "authoritative_command_receipt_ref",
        request.authoritative_command_receipt_ref.as_str(),
    ) {
        return Err(e);
    }
    if let Err(e) = require_nonempty("grant_ref", request.grant_ref.as_str()) {
        return Err(e);
    }
    let owner = project_owner_ref_for(request.project_id.as_str());
    if !str_eq(request.project_owner_ref.as_str(), owner.as_str()) {
        return Err(String::from_str("m6_org_application_owner_mismatch"));
    }
    if !is_sha256(request.source_receipt_hash.as_str()) || request.observed_at_ms <= 0 {
        return Err(String::from_str("m6_org_application_receipt_incomplete"));
    }
    Ok(())
}


// ---------------------------------------------------------------------------
// Source links and findings
// ---------------------------------------------------------------------------

impl Ordered for M6OrgAdvisorySourceLink {
    open spec fn le_spec(a: Self, b: Self) -> bool {
        text_le(a.source_link_id@, b.source_link_id@)
    }

    fn le(&self, other: &Self) -> (r: bool) {
        !str_lt(other.source_link_id.as_str(), self.source_link_id.as_str())
    }
}

/// Findings come highest priority first, then by id.
impl Ordered for M6OrgAdvisoryFinding {
    open spec fn le_spec(a: Self, b: Self) -> bool {
        a.priority > b.priority || (a.priority == b.priority && text_le(
            a.finding_id@,
            b.finding_id@,
        ))
    }

    fn le(&self, other: &Self) -> (r: bool) {
        self.priority > other.priority || (self.priority == other.priority && !str_lt(
            other.finding_id.as_str(),
            self.finding_id.as_str(),
        ))
    }
}

/// The link from an advisory to one source of a consumed summary.
pub open spec fn link_from(l: M6OrgAdvisorySourceLink, c: M6OrgConsumedProjectSummaryRef, s: SourceRef) -> bool {
    &&& l.source_link_id@ == "m6-source-link:"@ + sha256_hex_of(
        c.project_id@ + ":"@ + c.summary_id@ + ":"@ + s.source_type@ + ":"@ + s.source_id@,
    )
    &&& l.object_ref@ == s.source_type@ + ":"@ + s.source_id@
    &&& l.project_id@ == c.project_id@
    &&& l.summary_id@ == c.summary_id@
    &&& l.title_ref@ == "title-ref:"@ + s.source_type@
    &&& l.scrubbed_summary_ref@ == "summary-ref:"@ + c.summary_id@ + ":v"@ + nat_decimal(
        c.version as nat,
    )
    &&& l.deep_link_metadata_ref@ == "deep-link:"@ + sha256_hex_of(
        c.project_id@ + ":"@ + s.source_type@ + ":"@ + s.source_id@,
    )
}

/// `u` holds, in order, one link per source of each fresh summary.
pub open spec fn links_for(u: Seq<M6OrgAdvisorySourceLink>, fresh: Seq<FreshSummary>) -> bool
    decreases fresh.len(),
{
    if fresh.len() == 0 {
        u.len() == 0
    } else {
        let e = fresh.last();
        let n = e.source_metadata@.len();
        &&& u.len() >= n
        &&& links_for(u.take(u.len() - n), fresh.drop_last())
        &&& forall|k: int|
            0 <= k < n ==> link_from(
                #[trigger] u[u.len() - n + k],
                e.consumed,
                e.source_metadata@[k],
            )
    }
}

fn source_link(c: &M6OrgConsumedProjectSummaryRef, s: &SourceRef) -> (l: M6OrgAdvisorySourceLink)
    ensures
        link_from(l, *c, *s),
{
    let mut material = cat(c.project_id.as_str(), ":");
    material.append(c.summary_id.as_str());
    material.append(":");
    material.append(s.source_type.as_str());
    material.append(":");
    material.append(s.source_id.as_str());
    let id_digest = sha256_hex(material.as_str());
    let mut deep = cat(c.project_id.as_str(), ":");
    deep.append(s.source_type.as_str());
    deep.append(":");
    deep.append(s.source_id.as_str());
    let deep_digest = sha256_hex(deep.as_str());
    let mut object_ref = cat(s.source_type.as_str(), ":");
    object_ref.append(s.source_id.as_str());
    let v = u64_to_decimal(c.version);
    let mut scrubbed = cat("summary-ref:", c.summary_id.as_str());
    scrubbed.append(":v");
    scrubbed.append(v.as_str());
    M6OrgAdvisorySourceLink {
        source_link_id: cat("m6-source-link:", id_digest.as_str()),
        object_ref,
        project_id: String::from_str(c.project_id.as_str()),
        summary_id: String::from_str(c.summary_id.as_str()),
        title_ref: cat("title-ref:", s.source_type.as_str()),
        scrubbed_summary_ref: scrubbed,
        deep_link_metadata_ref: cat("deep-link:", deep_digest.as_str()),
    }
}

/// One link per source of every fresh summary, ordered by link id.
pub fn build_source_links(fresh: &Vec<FreshSummary>) -> (r: Vec<M6OrgAdvisorySourceLink>)
    ensures
        exists|u: Seq<M6OrgAdvisorySourceLink>| links_for(u, fresh@) && r@ == stable_sort(u),
{
    let mut links: Vec<M6OrgAdvisorySourceLink> = Vec::new();
    let mut i: usize = 0;
    proof {
        assert(fresh@.take(0) =~= Seq::<FreshSummary>::empty());
    }
    while i < fresh.len()
        invariant
            i <= fresh@.len(),
            links_for(links@, fresh@.take(i as int)),
        decreases fresh.len() - i,
    {
        let entry = &fresh[i];
        let ghost base = links@;
        let mut j: usize = 0;
        while j < entry.source_metadata.len()
            invariant
                j <= entry.source_metadata@.len(),
                links@.len() == base.len() + j,
                links@.take(base.len() as int) == base,
                forall|k: int|
                    0 <= k < j ==> link_from(
                        #[trigger] links@[base.len() + k],
                        entry.consumed,
                        entry.source_metadata@[k],
                    ),
            decreases entry.source_metadata.len() - j,
        {
            let l = source_link(&entry.consumed, &entry.source_metadata[j]);
            links.push(l);
            proof {
                assert(links@.take(base.len() as int) =~= base);
            }
            j = j + 1;
        }
        proof {
            let f2 = fresh@.take(i + 1);
            assert(f2.drop_last() =~= fresh@.take(i as int));
            assert(f2.last() == fresh@[i as int]);
            let n = entry.source_metadata@.len();
            assert(links@.take(links@.len() - n) =~= base);
            assert forall|k: int| 0 <= k < n implies link_from(
                #[trigger] links@[links@.len() - n + k],
                f2.last().consumed,
                f2.last().source_metadata@[k],
            ) by {
                assert(links@.len() - n + k == base.len() + k);
            }
        }
        i = i + 1;
    }
    proof {
        assert(fresh@.take(i as int) =~= fresh@);
    }
    let ghost u = links@;
    let r = sort_stable(links);
    assert(links_for(u, fresh@) && r@ == stable_sort(u));
    r
}

/// A finding's identity and content, given its inputs.
pub open spec fn finding_from(
    f: M6OrgAdvisoryFinding,
    kind: Seq<char>,
    reason: Seq<char>,
    priority: u32,
    summary_refs: Seq<Seq<char>>,
    source_link_refs: Seq<Seq<char>>,
) -> bool {
    let srefs = sorted_unique(summary_refs);
    let lrefs = sorted_unique(source_link_refs);
    let identity = sha256_hex_of(
        kind + ":"@ + reason + ":"@ + join_texts(srefs, "|"@) + ":"@ + join_texts(lrefs, "|"@),
    );
    &&& f.finding_id@ == "m6-finding:"@ + identity
    &&& f.finding_kind@ == kind
    &&& f.reason_code@ == reason
    &&& f.priority == priority
    &&& views(f.summary_refs@) == srefs
    &&& views(f.source_link_refs@) == lrefs
    &&& f.explanation_ref@ == "m6-explanation:"@ + identity
}

/// A finding whose references are sorted and deduplicated and whose id and
/// explanation are derived from its content.
pub fn finding(
    kind: &str,
    reason: &str,
    priority: u32,
    summary_refs: Vec<String>,
    source_link_refs: Vec<String>,
) -> (f: M6OrgAdvisoryFinding)
    ensures
        finding_from(f, kind@, reason@, priority, views(summary_refs@), views(source_link_refs@)),
{
    let srefs = sort_dedup_strings(summary_refs);
    let lrefs = sort_dedup_strings(source_link_refs);
    let sj = join_strings(&srefs, "|");
    let lj = join_strings(&lrefs, "|");
    let mut material = cat(kind, ":");
    material.append(reason);
    material.append(":");
    material.append(sj.as_str());
    material.append(":");
    material.append(lj.as_str());
    let identity = sha256_hex(material.as_str());
    M6OrgAdvisoryFinding {
        finding_id: cat("m6-finding:", identity.as_str()),
        finding_kind: String::from_str(kind),
        reason_code: String::from_str(reason),
        priority,
        summary_refs: srefs,
        source_link_refs: lrefs,
        explanation_ref: cat("m6-explanation:", identity.as_str()),
    }
}


/// The ids of one project's links, in link order.
pub open spec fn project_link_ids(links: Seq<M6OrgAdvisorySourceLink>, p: Seq<char>) -> Seq<
    Seq<char>,
>
    decreases links.len(),
{
    if links.len() == 0 {
        Seq::empty()
    } else {
        let r = project_link_ids(links.drop_last(), p);
        if links.last().project_id@ == p {
            r.push(links.last().source_link_id@)
        } else {
            r
        }
    }
}

/// The summaries of one orchestration, in order.
pub open spec fn orchestration_group(s: Seq<M6OrgConsumedProjectSummaryRef>, k: Seq<char>) -> Seq<
    M6OrgConsumedProjectSummaryRef,
>
    decreases s.len(),
{
    if s.len() == 0 {
        Seq::empty()
    } else {
        let r = orchestration_group(s.drop_last(), k);
        if s.last().orchestration_id@ == k {
            r.push(s.last())
        } else {
            r
        }
    }
}

/// The summaries with open runs, in order.
pub open spec fn active_summaries(s: Seq<M6OrgConsumedProjectSummaryRef>) -> Seq<
    M6OrgConsumedProjectSummaryRef,
>
    decreases s.len(),
{
    if s.len() == 0 {
        Seq::empty()
    } else {
        let r = active_summaries(s.drop_last());
        if s.last().open_run_count > 0 {
            r.push(s.last())
        } else {
            r
        }
    }
}

/// The summary ids of a group.
pub open spec fn summary_ids(g: Seq<M6OrgConsumedProjectSummaryRef>) -> Seq<Seq<char>> {
    g.map_values(|c: M6OrgConsumedProjectSummaryRef| c.summary_id@)
}

/// The link ids of every member's project, member by member.
pub open spec fn group_link_ids(
    g: Seq<M6OrgConsumedProjectSummaryRef>,
    links: Seq<M6OrgAdvisorySourceLink>,
) -> Seq<Seq<char>>
    decreases g.len(),
{
    if g.len() == 0 {
        Seq::empty()
    } else {
        group_link_ids(g.drop_last(), links) + project_link_ids(links, g.last().project_id@)
    }
}

/// The inputs of one finding: kind, reason, priority, summary and link refs.
pub type FindingInput = (Seq<char>, Seq<char>, u32, Seq<Seq<char>>, Seq<Seq<char>>);

/// A risk finding for each summary with unverified claims.
pub open spec fn risk_inputs(
    s: Seq<M6OrgConsumedProjectSummaryRef>,
    links: Seq<M6OrgAdvisorySourceLink>,
) -> Seq<FindingInput>
    decreases s.len(),
{
    if s.len() == 0 {
        Seq::empty()
    } else {
        let r = risk_inputs(s.drop_last(), links);
        if s.last().unverified_claim_count > 0 {
            r.push(
                (
                    "risk"@,
                    "unverified_claims_present"@,
                    90u32,
                    seq![s.last().summary_id@],
                    project_link_ids(links, s.last().project_id@),
                ),
            )
        } else {
            r
        }
    }
}

/// The orchestrations of the summaries, ascending and each once.
pub open spec fn orchestration_keys(s: Seq<M6OrgConsumedProjectSummaryRef>) -> Seq<Seq<char>> {
    sorted_unique(s.map_values(|c: M6OrgConsumedProjectSummaryRef| c.orchestration_id@))
}

/// A dependency finding for each orchestration shared by two or more
/// summaries, in orchestration order.
pub open spec fn dependency_inputs(
    keys: Seq<Seq<char>>,
    s: Seq<M6OrgConsumedProjectSummaryRef>,
    links: Seq<M6OrgAdvisorySourceLink>,
) -> Seq<FindingInput>
    decreases keys.len(),
{
    if keys.len() == 0 {
        Seq::empty()
    } else {
        let r = dependency_inputs(keys.drop_last(), s, links);
        let g = orchestration_group(s, keys.last());
        if g.len() >= 2 {
            r.push(
                (
                    "dependency"@,
                    "shared_orchestration_dependency"@,
                    70u32,
                    summary_ids(g),
                    group_link_ids(g, links),
                ),
            )
        } else {
            r
        }
    }
}

/// A conflict finding when two or more summaries have open runs.
pub open spec fn conflict_inputs(
    s: Seq<M6OrgConsumedProjectSummaryRef>,
    links: Seq<M6OrgAdvisorySourceLink>,
) -> Seq<FindingInput> {
    let a = active_summaries(s);
    if a.len() >= 2 {
        seq![
            (
                "conflict"@,
                "concurrent_open_runs_priority_conflict"@,
                80u32,
                summary_ids(a),
                group_link_ids(a, links),
            ),
        ]
    } else {
        Seq::empty()
    }
}

/// `a` outranks `b` for the priority finding: a higher score, or an equal
/// score and a smaller project id.
pub open spec fn ranks_above(a: M6OrgConsumedProjectSummaryRef, b: M6OrgConsumedProjectSummaryRef) -> bool {
    priority_score(a) > priority_score(b) || (priority_score(a) == priority_score(b) && text_lt(
        a.project_id@,
        b.project_id@,
    ))
}

/// The index `max_by` picks: the running best is replaced by every later
/// summary it does not outrank.
pub open spec fn priority_pick(s: Seq<M6OrgConsumedProjectSummaryRef>) -> int
    decreases s.len(),
{
    if s.len() <= 1 {
        0
    } else {
        let a = priority_pick(s.drop_last());
        if ranks_above(s[a], s.last()) {
            a
        } else {
            s.len() - 1
        }
    }
}

proof fn lemma_priority_pick_range(s: Seq<M6OrgConsumedProjectSummaryRef>)
    requires
        s.len() > 0,
    ensures
        0 <= priority_pick(s) < s.len(),
    decreases s.len(),
{
    if s.len() > 1 {
        lemma_priority_pick_range(s.drop_last());
    }
}

/// The pick is a summary of highest priority score, and among those of
/// highest score the one with the smallest project id.
pub proof fn lemma_priority_pick_is_top(s: Seq<M6OrgConsumedProjectSummaryRef>)
    requires
        s.len() > 0,
    ensures
        0 <= priority_pick(s) < s.len(),
        forall|i: int| 0 <= i < s.len() ==> priority_score(#[trigger] s[i]) <= priority_score(
            s[priority_pick(s)],
        ),
        forall|i: int|
            0 <= i < s.len() && priority_score(#[trigger] s[i]) == priority_score(s[priority_pick(s)])
                ==> text_le(s[priority_pick(s)].project_id@, s[i].project_id@),
    decreases s.len(),
{
    lemma_priority_pick_range(s);
    lemma_text_le_total_preorder();
    if s.len() > 1 {
        let t = s.drop_last();
        lemma_priority_pick_is_top(t);
        let a = priority_pick(t);
        let l = s.last();
        assert forall|i: int| 0 <= i < t.len() implies s[i] == t[i] by {}
        if ranks_above(t[a], l) {
            assert(priority_pick(s) == a);
        } else {
            assert(priority_pick(s) == s.len() - 1);
            assert forall|i: int| 0 <= i < s.len() implies priority_score(#[trigger] s[i]) <= priority_score(
                l,
            ) && (priority_score(s[i]) == priority_score(l) ==> text_le(l.project_id@, s[i].project_id@)) by {
                if i < t.len() {
                    assert(s[i] == t[i]);
                }
            }
        }
    }
}

/// The priority finding for the top-ranked summary, if there is any.
pub open spec fn priority_inputs(
    s: Seq<M6OrgConsumedProjectSummaryRef>,
    links: Seq<M6OrgAdvisorySourceLink>,
) -> Seq<FindingInput> {
    if s.len() == 0 {
        Seq::empty()
    } else {
        let p = s[priority_pick(s)];
        seq![
            (
                "priority"@,
                "deterministic_project_priority"@,
                60u32,
                seq![p.summary_id@],
                project_link_ids(links, p.project_id@),
            ),
        ]
    }
}

/// Over summaries, the priority finding is exactly one finding, of kind
/// "priority", citing the summary id of a summary of highest priority score
/// (the smallest project id among those).
pub proof fn lemma_priority_finding_cites_top(
    s: Seq<M6OrgConsumedProjectSummaryRef>,
    links: Seq<M6OrgAdvisorySourceLink>,
)
    requires
        s.len() > 0,
    ensures
        priority_inputs(s, links).len() == 1,
        priority_inputs(s, links)[0].0 == "priority"@,
        priority_inputs(s, links)[0].1 == "deterministic_project_priority"@,
        exists|k: int|
            0 <= k < s.len() && priority_inputs(s, links)[0].3 == seq![(#[trigger] s[k]).summary_id@]
                && (forall|i: int| 0 <= i < s.len() ==> priority_score(#[trigger] s[i]) <= priority_score(s[k]))
                && (forall|i: int|
                0 <= i < s.len() && priority_score(#[trigger] s[i]) == priority_score(s[k]) ==> text_le(
                    s[k].project_id@,
                    s[i].project_id@,
                )),
{
    lemma_priority_pick_is_top(s);
    let k = priority_pick(s);
    assert(priority_inputs(s, links)[0].3 == seq![s[k].summary_id@]);
}

/// Every finding's inputs, in the order they are produced.
pub open spec fn finding_inputs(
    s: Seq<M6OrgConsumedProjectSummaryRef>,
    links: Seq<M6OrgAdvisorySourceLink>,
) -> Seq<FindingInput> {
    risk_inputs(s, links) + dependency_inputs(orchestration_keys(s), s, links) + conflict_inputs(
        s,
        links,
    ) + priority_inputs(s, links)
}

/// `u` holds exactly the findings for the given inputs, in order.
pub open spec fn findings_for(u: Seq<M6OrgAdvisoryFinding>, ins: Seq<FindingInput>) -> bool {
    &&& u.len() == ins.len()
    &&& forall|i: int|
        0 <= i < u.len() ==> finding_from(
            #[trigger] u[i],
            ins[i].0,
            ins[i].1,
            ins[i].2,
            ins[i].3,
            ins[i].4,
        )
}

proof fn lemma_findings_push(
    u: Seq<M6OrgAdvisoryFinding>,
    ins: Seq<FindingInput>,
    f: M6OrgAdvisoryFinding,
    x: FindingInput,
)
    requires
        findings_for(u, ins),
        finding_from(f, x.0, x.1, x.2, x.3, x.4),
    ensures
        findings_for(u.push(f), ins.push(x)),
{
    assert forall|i: int| 0 <= i < u.len() + 1 implies finding_from(
        #[trigger] u.push(f)[i],
        ins.push(x)[i].0,
        ins.push(x)[i].1,
        ins.push(x)[i].2,
        ins.push(x)[i].3,
        ins.push(x)[i].4,
    ) by {
        if i < u.len() {
            assert(u.push(f)[i] == u[i]);
        }
    }
}

fn link_ids_of_project(links: &Vec<M6OrgAdvisorySourceLink>, p: &str) -> (r: Vec<String>)
    ensures
        views(r@) == project_link_ids(links@, p@),
{
    let mut r: Vec<String> = Vec::new();
    let mut i: usize = 0;
    proof {
        assert(links@.take(0) =~= Seq::<M6OrgAdvisorySourceLink>::empty());
        assert(views(r@) =~= Seq::<Seq<char>>::empty());
    }
    while i < links.len()
        invariant
            i <= links@.len(),
            views(r@) == project_link_ids(links@.take(i as int), p@),
        decreases links.len() - i,
    {
        proof {
            assert(links@.take(i + 1).drop_last() =~= links@.take(i as int));
            assert(links@.take(i + 1).last() == links@[i as int]);
        }
        if str_eq(links[i].project_id.as_str(), p) {
            let ghost old_r = r@;
            let id = String::from_str(links[i].source_link_id.as_str());
            r.push(id);
            proof {
                assert(views(r@) =~= views(old_r).push(id@));
            }
        }
        i = i + 1;
    }
    proof {
        assert(links@.take(i as int) =~= links@);
    }
    r
}

fn append_strings(dst: &mut Vec<String>, src: Vec<String>)
    ensures
        views(final(dst)@) == views(old(dst)@) + views(src@),
{
    let ghost d0 = dst@;
    let ghost s0 = src@;
    let mut src = src;
    dst.append(&mut src);
    proof {
        assert(dst@ =~= d0 + s0);
        assert(views(dst@) =~= views(d0) + views(s0));
    }
}

/// The summary ids and link ids of the summaries selected by `key` (an
/// orchestration id), or of the active summaries when `key` is `None`.
fn collect_group(
    summaries: &Vec<M6OrgConsumedProjectSummaryRef>,
    links: &Vec<M6OrgAdvisorySourceLink>,
    key: Option<&str>,
) -> (r: (Vec<String>, Vec<String>))
    ensures
        ({
            let g = match key {
                Some(k) => orchestration_group(summaries@, k@),
                None => active_summaries(summaries@),
            };
            views(r.0@) == summary_ids(g) && views(r.1@) == group_link_ids(g, links@)
        }),
{
    let ghost gf = |t: Seq<M6OrgConsumedProjectSummaryRef>|
        match key {
            Some(k) => orchestration_group(t, k@),
            None => active_summaries(t),
        };
    let mut ids: Vec<String> = Vec::new();
    let mut lids: Vec<String> = Vec::new();
    let mut i: usize = 0;
    proof {
        assert(summaries@.take(0) =~= Seq::<M6OrgConsumedProjectSummaryRef>::empty());
        assert(views(ids@) =~= Seq::<Seq<char>>::empty());
        assert(views(lids@) =~= Seq::<Seq<char>>::empty());
        assert(summary_ids(Seq::<M6OrgConsumedProjectSummaryRef>::empty()) =~= Seq::<
            Seq<char>,
        >::empty());
    }
    while i < summaries.len()
        invariant
            i <= summaries@.len(),
            views(ids@) == summary_ids(gf(summaries@.take(i as int))),
            views(lids@) == group_link_ids(gf(summaries@.take(i as int)), links@),
            gf == (|t: Seq<M6OrgConsumedProjectSummaryRef>|
                match key {
                    Some(k) => orchestration_group(t, k@),
                    None => active_summaries(t),
                }),
        decreases summaries.len() - i,
    {
        let s = &summaries[i];
        let ghost t = summaries@.take(i + 1);
        proof {
            assert(t.drop_last() =~= summaries@.take(i as int));
            assert(t.last() == summaries@[i as int]);
        }
        let selected = match key {
            Some(k) => str_eq(s.orchestration_id.as_str(), k),
            None => s.open_run_count > 0,
        };
        if selected {
            let ghost g0 = gf(summaries@.take(i as int));
            let ghost old_ids = ids@;
            let id = String::from_str(s.summary_id.as_str());
            ids.push(id);
            let more = link_ids_of_project(links, s.project_id.as_str());
            append_strings(&mut lids, more);
            proof {
                assert(gf(t) == g0.push(*s));
                assert(views(ids@) =~= views(old_ids).push(id@));
                assert(summary_ids(g0.push(*s)) =~= summary_ids(g0).push(s.summary_id@));
                assert(g0.push(*s).drop_last() =~= g0);
            }
        } else {
            proof {
                assert(gf(t) == gf(summaries@.take(i as int)));
            }
        }
        i = i + 1;
    }
    proof {
        assert(summaries@.take(i as int) =~= summaries@);
    }
    (ids, lids)
}

fn outranks(a: &M6OrgConsumedProjectSummaryRef, b: &M6OrgConsumedProjectSummaryRef) -> (r: bool)
    ensures
        r == ranks_above(*a, *b),
{
    let sa = advisory_priority_score(a);
    let sb = advisory_priority_score(b);
    sa > sb || (sa == sb && str_lt(a.project_id.as_str(), b.project_id.as_str()))
}

fn pick_priority(summaries: &Vec<M6OrgConsumedProjectSummaryRef>) -> (r: usize)
    requires
        summaries@.len() > 0,
    ensures
        r == priority_pick(summaries@),
        r < summaries@.len(),
{
    let mut best: usize = 0;
    let mut i: usize = 1;
    proof {
        assert(summaries@.take(1).len() == 1);
    }
    while i < summaries.len()
        invariant
            1 <= i <= summaries@.len(),
            best < i,
            best == priority_pick(summaries@.take(i as int)),
        decreases summaries.len() - i,
    {
        proof {
            let t = summaries@.take(i + 1);
            assert(t.drop_last() =~= summaries@.take(i as int));
            assert(t.last() == summaries@[i as int]);
            assert(t[best as int] == summaries@[best as int]);
        }
        if !outranks(&summaries[best], &summaries[i]) {
            best = i;
        }
        i = i + 1;
    }
    proof {
        assert(summaries@.take(i as int) =~= summaries@);
    }
    best
}

/// The findings of an advisory, highest priority first: a risk finding per
/// summary with unverified claims, a dependency finding per orchestration
/// shared by several summaries, a conflict finding when several summaries
/// have open runs, and one priority finding for the top-ranked summary.
/// Every finding cites its summaries and the source links of their projects.
pub fn build_findings(
    summaries: &Vec<M6OrgConsumedProjectSummaryRef>,
    source_links: &Vec<M6OrgAdvisorySourceLink>,
) -> (r: Vec<M6OrgAdvisoryFinding>)
    ensures
        exists|u: Seq<M6OrgAdvisoryFinding>|
            findings_for(u, finding_inputs(summaries@, source_links@)) && r@ == stable_sort(u),
{
    let ghost s = summaries@;
    let ghost links = source_links@;
    let mut findings: Vec<M6OrgAdvisoryFinding> = Vec::new();
    // risk findings
    let mut i: usize = 0;
    proof {
        assert(s.take(0) =~= Seq::<M6OrgConsumedProjectSummaryRef>::empty());
    }
    while i < summaries.len()
        invariant
            s == summaries@,
            links == source_links@,
            i <= s.len(),
            findings_for(findings@, risk_inputs(s.take(i as int), links)),
        decreases summaries.len() - i,
    {
        let c = &summaries[i];
        proof {
            let t = s.take(i + 1);
            assert(t.drop_last() =~= s.take(i as int));
            assert(t.last() == s[i as int]);
        }
        if c.unverified_claim_count > 0 {
            let mut ids: Vec<String> = Vec::new();
            let id = String::from_str(c.summary_id.as_str());
            ids.push(id);
            proof {
                assert(views(ids@) =~= seq![c.summary_id@]);
            }
            let lids = link_ids_of_project(source_links, c.project_id.as_str());
            let f = finding("risk", "unverified_claims_present", 90, ids, lids);
            findings.push(f);
        }
        i = i + 1;
    }
    proof {
        assert(s.take(i as int) =~= s);
    }
    let ghost risk = risk_inputs(s, links);
    // dependency findings, by orchestration
    let mut orch: Vec<String> = Vec::new();
    let mut j: usize = 0;
    while j < summaries.len()
        invariant
            s == summaries@,
            j <= s.len(),
            views(orch@) == s.take(j as int).map_values(
                |c: M6OrgConsumedProjectSummaryRef| c.orchestration_id@,
            ),
        decreases summaries.len() - j,
    {
        let ghost o0 = orch@;
        let o = String::from_str(summaries[j].orchestration_id.as_str());
        orch.push(o);
        proof {
            assert(views(orch@) =~= views(o0).push(o@));
            assert(s.take(j + 1).map_values(|c: M6OrgConsumedProjectSummaryRef| c.orchestration_id@)
                =~= s.take(j as int).map_values(
                |c: M6OrgConsumedProjectSummaryRef| c.orchestration_id@,
            ).push(s[j as int].orchestration_id@));
        }
        j = j + 1;
    }
    proof {
        assert(s.take(j as int) =~= s);
    }
    let keys = sort_dedup_strings(orch);
    let ghost kv = views(keys@);
    assert(kv == orchestration_keys(s));
    let mut k: usize = 0;
    proof {
        assert(kv.take(0) =~= Seq::<Seq<char>>::empty());
        assert(risk + dependency_inputs(kv.take(0), s, links) =~= risk);
    }
    while k < keys.len()
        invariant
            s == summaries@,
            links == source_links@,
            kv == views(keys@),
            k <= keys@.len(),
            findings_for(findings@, risk + dependency_inputs(kv.take(k as int), s, links)),
        decreases keys.len() - k,
    {
        proof {
            let t = kv.take(k + 1);
            assert(t.drop_last() =~= kv.take(k as int));
            assert(t.last() == keys@[k as int]@);
        }
        let (ids, lids) = collect_group(summaries, source_links, Some(keys[k].as_str()));
        let ghost g = orchestration_group(s, keys@[k as int]@);
        proof {
            assert(views(ids@).len() == ids@.len());
            assert(summary_ids(g).len() == g.len());
        }
        if ids.len() >= 2 {
            let f = finding("dependency", "shared_orchestration_dependency", 70, ids, lids);
            proof {
                let x: FindingInput = (
                    "dependency"@,
                    "shared_orchestration_dependency"@,
                    70u32,
                    summary_ids(g),
                    group_link_ids(g, links),
                );
                let ins = risk + dependency_inputs(kv.take(k as int), s, links);
                assert(risk + dependency_inputs(kv.take(k + 1), s, links) =~= ins.push(x));
                lemma_findings_push(findings@, ins, f, x);
            }
            findings.push(f);
        } else {
            proof {
                assert(risk + dependency_inputs(kv.take(k + 1), s, links) =~= risk
                    + dependency_inputs(kv.take(k as int), s, links));
            }
        }
        k = k + 1;
    }
    proof {
        assert(kv.take(k as int) =~= kv);
    }
    let ghost dep = risk + dependency_inputs(orchestration_keys(s), s, links);
    // conflict finding
    let (aids, alids) = collect_group(summaries, source_links, None);
    proof {
        assert(summary_ids(active_summaries(s)).len() == active_summaries(s).len());
    }
    if aids.len() >= 2 {
        let f = finding("conflict", "concurrent_open_runs_priority_conflict", 80, aids, alids);
        findings.push(f);
        proof {
            assert(dep + conflict_inputs(s, links) =~= dep.push(conflict_inputs(s, links)[0]));
        }
    } else {
        proof {
            assert(dep + conflict_inputs(s, links) =~= dep);
        }
    }
    let ghost dc = dep + conflict_inputs(s, links);
    // priority finding
    if summaries.len() > 0 {
        let b = pick_priority(summaries);
        let p = &summaries[b];
        let mut ids: Vec<String> = Vec::new();
        let id = String::from_str(p.summary_id.as_str());
        ids.push(id);
        proof {
            assert(views(ids@) =~= seq![p.summary_id@]);
        }
        let lids = link_ids_of_project(source_links, p.project_id.as_str());
        let f = finding("priority", "deterministic_project_priority", 60, ids, lids);
        findings.push(f);
        proof {
            assert(dc + priority_inputs(s, links) =~= dc.push(priority_inputs(s, links)[0]));
        }
    } else {
        proof {
            assert(dc + priority_inputs(s, links) =~= dc);
        }
    }
    proof {
        assert(dc + priority_inputs(s, links) =~= finding_inputs(s, links));
    }
    let ghost u = findings@;
    let r = sort_stable(findings);
    assert(findings_for(u, finding_inputs(s, links)) && r@ == stable_sort(u));
    r
}


// ---------------------------------------------------------------------------
// The advisory run
// ---------------------------------------------------------------------------

impl Ordered for ValidatedProjectQuery {
    open spec fn le_spec(a: Self, b: Self) -> bool {
        text_le(a.project_id@, b.project_id@)
    }

    fn le(&self, other: &Self) -> (r: bool) {
        !str_lt(other.project_id.as_str(), self.project_id.as_str())
    }
}

impl Ordered for FreshSummary {
    open spec fn le_spec(a: Self, b: Self) -> bool {
        text_le(a.consumed.project_id@, b.consumed.project_id@)
    }

    fn le(&self, other: &Self) -> (r: bool) {
        !str_lt(other.consumed.project_id.as_str(), self.consumed.project_id.as_str())
    }
}

/// A cross-project advisory as issued.
#[derive(Debug, Clone)]
pub struct M6OrgCrossProjectAdvisory {
    pub advisory_id: String,
    pub global_role_session_id: String,
    pub consult_handoff_ref: String,
    pub consumed_summaries: Vec<M6OrgConsumedProjectSummaryRef>,
    pub policy_decision_ref: String,
    pub generated_at_ms: i64,
    pub source_links: Vec<M6OrgAdvisorySourceLink>,
    pub findings: Vec<M6OrgAdvisoryFinding>,
    pub lifecycle_status: String,
    pub freshness_state: M6OrgFreshnessState,
    pub revision: u64,
    pub idempotency_key: String,
    pub request_hash: String,
    pub created_at_ms: i64,
}

/// The answer to an advisory request: the judgement on every summary, the
/// advisory when every summary was fresh, and why not otherwise.
#[derive(Debug, Clone)]
pub struct M6OrgCrossProjectAdvisoryResponse<R> {
    pub global_role_session: R,
    pub freshness_judgements: Vec<M6OrgFreshnessJudgement>,
    pub advisory: Option<M6OrgCrossProjectAdvisory>,
    pub stale_advisory_refs: Vec<String>,
    pub blocked_reasons: Vec<String>,
}

/// The global supervisor role session as the advisory sees it: its scope
/// kind, and its status without or with the advisory's minimal context.
pub trait M6OrgGlobalRoleSession {
    type Status;

    fn global_scope_kind(&self) -> String;

    fn status(&self) -> Self::Status;

    fn status_with_minimal_context(
        &self,
        summary_refs: Vec<String>,
        source_refs: Vec<String>,
    ) -> Result<Self::Status, String>;
}

/// The advisory's own records.
pub trait M6OrgAdvisoryStore {
    fn load_advisory_by_idempotency(&self, idempotency_key: &str) -> Result<
        Option<M6OrgCrossProjectAdvisory>,
        String,
    >;

    fn mark_issued_advisories_stale_for_source_changes(
        &mut self,
        observed_current: &Vec<M6OrgConsumedProjectSummaryRef>,
        now_ms: i64,
    ) -> Result<Vec<String>, String>;

    fn record_advisory(&mut self, advisory: &M6OrgCrossProjectAdvisory) -> Result<
        M6OrgCrossProjectAdvisory,
        String,
    >;

    fn load_advisory(&self, advisory_id: &str) -> Result<Option<M6OrgCrossProjectAdvisory>, String>;

    fn record_decision_request(&mut self, decision: &M6OrgDecisionRequest) -> Result<
        M6OrgDecisionRequest,
        String,
    >;

    /// The projection the store keeps of an advisory's application receipts.
    type ApplicationProjection;

    fn record_application_observation(
        &mut self,
        observation: &M6OrgPerProjectApplicationObservation,
    ) -> Result<Self::ApplicationProjection, String>;
}

/// One call handed to the advisory store, with the store's answer.
pub ghost enum AdvisoryCall {
    LoadByKey(Seq<char>, Result<Option<M6OrgCrossProjectAdvisory>, String>),
    MarkStale(Seq<M6OrgConsumedProjectSummaryRef>, i64, Result<Vec<String>, String>),
    Record(M6OrgCrossProjectAdvisory, Result<M6OrgCrossProjectAdvisory, String>),
    LoadAdvisory(Seq<char>, Result<Option<M6OrgCrossProjectAdvisory>, String>),
    RecordDecision(M6OrgDecisionRequest, Result<M6OrgDecisionRequest, String>),
    RecordObservation(M6OrgPerProjectApplicationObservation, bool),
}

/// An advisory store, owned, whose every call is journaled with its answer.
pub struct AdvisoryJournal<S> {
    store: S,
    calls: Ghost<Seq<AdvisoryCall>>,
}

impl<S> AdvisoryJournal<S> {
    /// The calls handed to the store so far, with its answers.
    pub closed spec fn log(&self) -> Seq<AdvisoryCall> {
        self.calls@
    }

    /// A journal over `store`, with no call in it yet.
    pub fn new(store: S) -> (j: Self)
        ensures
            j.log() == Seq::<AdvisoryCall>::empty(),
    {
        AdvisoryJournal { store, calls: Ghost(Seq::empty()) }
    }

    /// The store itself, to read.
    pub fn store(&self) -> &S {
        &self.store
    }
}

impl<S: M6OrgAdvisoryStore> AdvisoryJournal<S> {
    pub fn load_advisory_by_idempotency(&mut self, idempotency_key: &str) -> (r: Result<
        Option<M6OrgCrossProjectAdvisory>,
        String,
    >)
        ensures
            final(self).log() == old(self).log().push(AdvisoryCall::LoadByKey(idempotency_key@, r)),
    {
        let r = self.store.load_advisory_by_idempotency(idempotency_key);
        self.calls = Ghost(self.calls@.push(AdvisoryCall::LoadByKey(idempotency_key@, r)));
        r
    }

    pub fn mark_issued_advisories_stale_for_source_changes(
        &mut self,
        observed_current: &Vec<M6OrgConsumedProjectSummaryRef>,
        now_ms: i64,
    ) -> (r: Result<Vec<String>, String>)
        ensures
            final(self).log() == old(self).log().push(
                AdvisoryCall::MarkStale(observed_current@, now_ms, r),
            ),
    {
        let r = self.store.mark_issued_advisories_stale_for_source_changes(observed_current, now_ms);
        self.calls = Ghost(self.calls@.push(AdvisoryCall::MarkStale(observed_current@, now_ms, r)));
        r
    }

    pub fn record_advisory(&mut self, advisory: &M6OrgCrossProjectAdvisory) -> (r: Result<
        M6OrgCrossProjectAdvisory,
        String,
    >)
        ensures
            final(self).log() == old(self).log().push(AdvisoryCall::Record(*advisory, r)),
    {
        let r = self.store.record_advisory(advisory);
        self.calls = Ghost(self.calls@.push(AdvisoryCall::Record(*advisory, r)));
        r
    }

    pub fn load_advisory(&mut self, advisory_id: &str) -> (r: Result<Option<M6OrgCrossProjectAdvisory>, String>)
        ensures
            final(self).log() == old(self).log().push(AdvisoryCall::LoadAdvisory(advisory_id@, r)),
    {
        let r = self.store.load_advisory(advisory_id);
        self.calls = Ghost(self.calls@.push(AdvisoryCall::LoadAdvisory(advisory_id@, r)));
        r
    }

    pub fn record_decision_request(&mut self, decision: &M6OrgDecisionRequest) -> (r: Result<
        M6OrgDecisionRequest,
        String,
    >)
        ensures
            final(self).log() == old(self).log().push(AdvisoryCall::RecordDecision(*decision, r)),
    {
        let r = self.store.record_decision_request(decision);
        self.calls = Ghost(self.calls@.push(AdvisoryCall::RecordDecision(*decision, r)));
        r
    }

    pub fn record_application_observation(
        &mut self,
        observation: &M6OrgPerProjectApplicationObservation,
    ) -> (r: Result<S::ApplicationProjection, String>)
        ensures
            final(self).log() == old(self).log().push(
                AdvisoryCall::RecordObservation(*observation, r is Ok),
            ),
    {
        let r = self.store.record_application_observation(observation);
        self.calls = Ghost(self.calls@.push(AdvisoryCall::RecordObservation(*observation, r is Ok)));
        r
    }
}

/// The JSON of the consult handoff join, fields in declaration order.
pub open spec fn handoff_json(h: M6OrgConsultHandoffRefInput) -> Seq<char> {
    "{\"consult_handoff_ref\":"@ + json_string_literal(h.consult_handoff_ref@)
        + ",\"handoff_id\":"@ + json_string_literal(h.handoff_id@)
        + ",\"handoff_revision\":"@ + nat_decimal(h.handoff_revision as nat)
        + ",\"status_ref\":"@ + json_string_literal(h.status_ref@)
        + ",\"receipt_ref\":"@ + json_string_literal(h.receipt_ref@) + "}"@
}

/// The JSON array of one validated query's join fields.
pub open spec fn query_json(q: ValidatedProjectQuery) -> Seq<char> {
    "["@ + json_string_literal(q.summary_id@) + ","@ + json_string_literal(q.project_id@) + ","@
        + json_string_literal(q.project_owner_ref@) + ","@ + json_string_literal(
        q.policy_decision_ref@,
    ) + ","@ + json_string_literal(q.expected_schema_version@) + ","@ + nat_decimal(
        q.expected_version as nat,
    ) + ","@ + int_decimal(q.expected_source_watermark as int) + ","@ + json_string_literal(
        q.expected_summary_hash@,
    ) + "]"@
}

/// The comma-separated JSON of the queries.
pub open spec fn query_items_json(qs: Seq<ValidatedProjectQuery>) -> Seq<char>
    decreases qs.len(),
{
    if qs.len() == 0 {
        Seq::empty()
    } else if qs.len() == 1 {
        query_json(qs[0])
    } else {
        query_items_json(qs.drop_last()) + ","@ + query_json(qs.last())
    }
}

/// The JSON the request hash covers: the handoff join, the idempotency key,
/// and the join fields of every query.
pub open spec fn request_hash_material(
    r: M6OrgCrossProjectAdvisoryRequest,
    qs: Seq<ValidatedProjectQuery>,
) -> Seq<char> {
    "["@ + handoff_json(r.consult_handoff) + ","@ + json_string_literal(r.idempotency_key@) + ",["@
        + query_items_json(qs) + "]]"@
}

fn append_quoted(out: &mut String, s: &str)
    ensures
        final(out)@ == old(out)@ + json_string_literal(s@),
{
    let q = json_quote(s);
    out.append(q.as_str());
}

fn append_handoff_json(out: &mut String, h: &M6OrgConsultHandoffRefInput)
    ensures
        final(out)@ == old(out)@ + handoff_json(*h),
{
    let ghost o = out@;
    out.append("{\"consult_handoff_ref\":");
    append_quoted(out, h.consult_handoff_ref.as_str());
    out.append(",\"handoff_id\":");
    append_quoted(out, h.handoff_id.as_str());
    out.append(",\"handoff_revision\":");
    let rev = u64_to_decimal(h.handoff_revision);
    out.append(rev.as_str());
    out.append(",\"status_ref\":");
    append_quoted(out, h.status_ref.as_str());
    out.append(",\"receipt_ref\":");
    append_quoted(out, h.receipt_ref.as_str());
    out.append("}");
    proof {
        assert(out@ =~= o + handoff_json(*h));
    }
}

#[verifier::rlimit(50)]
#[verifier::spinoff_prover]
fn append_query_json(out: &mut String, q: &ValidatedProjectQuery)
    ensures
        final(out)@ == old(out)@ + query_json(*q),
{
    let ghost o = out@;
    out.append("[");
    append_quoted(out, q.summary_id.as_str());
    out.append(",");
    append_quoted(out, q.project_id.as_str());
    out.append(",");
    append_quoted(out, q.project_owner_ref.as_str());
    out.append(",");
    append_quoted(out, q.policy_decision_ref.as_str());
    out.append(",");
    append_quoted(out, q.expected_schema_version.as_str());
    out.append(",");
    let v = u64_to_decimal(q.expected_version);
    out.append(v.as_str());
    out.append(",");
    let w = i64_to_decimal(q.expected_source_watermark);
    out.append(w.as_str());
    out.append(",");
    append_quoted(out, q.expected_summary_hash.as_str());
    out.append("]");
    proof {
        assert(out@ =~= o + query_json(*q));
    }
}

/// The hash identifying an advisory request with its validated queries.
pub fn request_hash(request: &M6OrgCrossProjectAdvisoryRequest, queries: &Vec<ValidatedProjectQuery>) -> (r: String)
    ensures
        r@ == sha256_hex_of(request_hash_material(*request, queries@)),
{
    let mut m = String::from_str("[");
    append_handoff_json(&mut m, &request.consult_handoff);
    m.append(",");
    append_quoted(&mut m, request.idempotency_key.as_str());
    m.append(",[");
    let ghost start = m@;
    proof {
        assert(start =~= "["@ + handoff_json(request.consult_handoff) + ","@ + json_string_literal(
            request.idempotency_key@,
        ) + ",["@);
    }
    let mut i: usize = 0;
    proof {
        assert(queries@.take(0) =~= Seq::<ValidatedProjectQuery>::empty());
        assert(m@ =~= start + query_items_json(queries@.take(0)));
    }
    while i < queries.len()
        invariant
            i <= queries@.len(),
            m@ == start + query_items_json(queries@.take(i as int)),
        decreases queries.len() - i,
    {
        proof {
            assert(queries@.take(i + 1).drop_last() =~= queries@.take(i as int));
            assert(queries@.take(i + 1).last() == queries@[i as int]);
        }
        let ghost before = m@;
        if i > 0 {
            m.append(",");
            append_query_json(&mut m, &queries[i]);
            proof {
                assert(m@ =~= start + (query_items_json(queries@.take(i as int)) + ","@
                    + query_json(queries@[i as int])));
            }
        } else {
            append_query_json(&mut m, &queries[i]);
            proof {
                assert(queries@.take(1).len() == 1);
                assert(queries@.take(1)[0] == queries@[0]);
                assert(query_items_json(queries@.take(0)) =~= Seq::<char>::empty());
                assert(m@ =~= start + query_json(queries@[0]));
            }
        }
        i = i + 1;
    }
    proof {
        assert(queries@.take(i as int) =~= queries@);
    }
    let ghost mid = m@;
    m.append("]]");
    proof {
        assert(m@ =~= mid + "]]"@);
        assert(m@ =~= request_hash_material(*request, queries@));
    }
    sha256_hex(m.as_str())
}

/// The freshness state and reason of one query's outcome.
pub open spec fn outcome_judgement(
    q: ValidatedProjectQuery,
    res: Result<ProjectSummary, QueryError>,
) -> (M6OrgFreshnessState, Seq<char>) {
    match res {
        Err(e) => query_error_judgement(e),
        Ok(s) => if s.project_id@ != q.project_id@ {
            (M6OrgFreshnessState::Denied, "summary_foreign_project"@)
        } else if summary_incomplete(s) {
            (M6OrgFreshnessState::Degraded, "summary_required_metadata_incomplete"@)
        } else if !summary_as_expected(q, s) {
            (M6OrgFreshnessState::Stale, "summary_version_watermark_or_hash_stale"@)
        } else {
            (M6OrgFreshnessState::Fresh, "summary_exact_and_current"@)
        },
    }
}

/// What one query's outcome contributes to a run.
pub struct QueryOutcome {
    pub judgement: M6OrgFreshnessJudgement,
    pub fresh: Option<FreshSummary>,
    pub observed_current: Option<M6OrgConsumedProjectSummaryRef>,
    pub blocked_reason: Option<String>,
}

/// Judges one query's summary outcome: a fresh summary is admitted and
/// observed; a stale one is observed and blocks; every other outcome blocks.
pub fn judge_outcome(
    query: &ValidatedProjectQuery,
    outcome: Result<ProjectSummary, QueryError>,
    lease: &M6OrgGlobalSummaryConsumerLease,
    now_ms: i64,
) -> (r: QueryOutcome)
    ensures
        judgement_of(
            *query,
            *lease,
            now_ms,
            outcome_judgement(*query, outcome).0,
            outcome_judgement(*query, outcome).1,
            r.judgement,
        ),
        outcome_judgement(*query, outcome).0 == M6OrgFreshnessState::Fresh <==> r.fresh is Some,
        r.fresh is Some <==> r.blocked_reason is None,
        r.blocked_reason matches Some(b) ==> b@ == outcome_judgement(*query, outcome).1,
        outcome matches Ok(s) ==> (r.fresh matches Some(f) ==> consumed_from(f.consumed, *query, s)
            && f.source_metadata == s.source_refs),
        outcome matches Ok(s) ==> (r.observed_current matches Some(c) ==> consumed_from(
            c,
            *query,
            s,
        )),
        r.observed_current is Some <==> (outcome_judgement(*query, outcome).0
            == M6OrgFreshnessState::Fresh || (outcome is Ok && outcome_judgement(*query, outcome).0
            == M6OrgFreshnessState::Stale)),
{
    match outcome {
        Ok(summary) => {
            let ghost s = summary;
            match admit_summary(query, summary) {
                Ok(admitted) => {
                    let j = freshness_judgement(
                        query,
                        lease,
                        now_ms,
                        M6OrgFreshnessState::Fresh,
                        "summary_exact_and_current",
                    );
                    let observed = copy_consumed(&admitted.consumed);
                    proof {
                        assert(consumed_from(observed, *query, s));
                    }
                    QueryOutcome {
                        judgement: j,
                        fresh: Some(admitted),
                        observed_current: Some(observed),
                        blocked_reason: None,
                    }
                },
                Err((state, reason, current)) => {
                    let j = freshness_judgement(query, lease, now_ms, state, reason.as_str());
                    QueryOutcome {
                        judgement: j,
                        fresh: None,
                        observed_current: current,
                        blocked_reason: Some(reason),
                    }
                },
            }
        },
        Err(error) => {
            let (state, reason) = map_query_error(error);
            let j = freshness_judgement(query, lease, now_ms, state, reason.as_str());
            QueryOutcome { judgement: j, fresh: None, observed_current: None, blocked_reason: Some(reason) }
        },
    }
}

/// Two consumed-summary records with the same content.
pub open spec fn same_consumed(a: M6OrgConsumedProjectSummaryRef, b: M6OrgConsumedProjectSummaryRef) -> bool {
    &&& a.summary_id@ == b.summary_id@
    &&& a.project_id@ == b.project_id@
    &&& a.project_owner_ref@ == b.project_owner_ref@
    &&& a.schema_version@ == b.schema_version@
    &&& a.version == b.version
    &&& a.source_watermark == b.source_watermark
    &&& a.summary_hash@ == b.summary_hash@
    &&& a.policy_decision_ref@ == b.policy_decision_ref@
    &&& a.freshness_state == b.freshness_state
    &&& a.source_refs@ == b.source_refs@
    &&& a.orchestration_id@ == b.orchestration_id@
    &&& a.fact_count == b.fact_count
    &&& a.unverified_claim_count == b.unverified_claim_count
    &&& a.open_run_count == b.open_run_count
}

/// A copy of a consumed-summary record.
pub fn copy_consumed(c: &M6OrgConsumedProjectSummaryRef) -> (r: M6OrgConsumedProjectSummaryRef)
    ensures
        same_consumed(r, *c),
{
    M6OrgConsumedProjectSummaryRef {
        summary_id: c.summary_id.clone(),
        project_id: c.project_id.clone(),
        project_owner_ref: c.project_owner_ref.clone(),
        schema_version: c.schema_version.clone(),
        version: c.version,
        source_watermark: c.source_watermark,
        summary_hash: c.summary_hash.clone(),
        policy_decision_ref: c.policy_decision_ref.clone(),
        freshness_state: c.freshness_state,
        source_refs: crate::text::clone_strings(&c.source_refs),
        orchestration_id: c.orchestration_id.clone(),
        fact_count: c.fact_count,
        unverified_claim_count: c.unverified_claim_count,
        open_run_count: c.open_run_count,
    }
}


/// The latest source watermark among the consumed summaries.
pub open spec fn max_watermark(s: Seq<M6OrgConsumedProjectSummaryRef>) -> int
    decreases s.len(),
{
    if s.len() <= 1 {
        s[0].source_watermark as int
    } else {
        let m = max_watermark(s.drop_last());
        if s.last().source_watermark > m {
            s.last().source_watermark as int
        } else {
            m
        }
    }
}

/// The policy bundle reference of the consumed summaries.
pub open spec fn policy_bundle_text(s: Seq<M6OrgConsumedProjectSummaryRef>) -> Seq<char> {
    "m6-policy-bundle:"@ + sha256_hex_of(
        join_texts(s.map_values(|c: M6OrgConsumedProjectSummaryRef| c.policy_decision_ref@), "|"@),
    )
}

/// A newly issued advisory over the given sorted summaries, links and
/// findings: generated at the latest source watermark, identified by the
/// request hash and the policy bundle.
pub open spec fn issued_advisory(
    a: M6OrgCrossProjectAdvisory,
    role_session_id: Seq<char>,
    consult_handoff_ref: Seq<char>,
    consumed: Seq<M6OrgConsumedProjectSummaryRef>,
    idempotency_key: Seq<char>,
    request_hash: Seq<char>,
) -> bool {
    let policy = policy_bundle_text(consumed);
    &&& a.advisory_id@ == "m6-advisory:"@ + sha256_hex_of(request_hash + ":"@ + policy)
    &&& a.global_role_session_id@ == role_session_id
    &&& a.consult_handoff_ref@ == consult_handoff_ref
    &&& a.consumed_summaries@ == consumed
    &&& a.policy_decision_ref@ == policy
    &&& a.generated_at_ms == max_watermark(consumed)
    &&& a.lifecycle_status@ == "ISSUED"@
    &&& a.freshness_state == M6OrgFreshnessState::Fresh
    &&& a.revision == 1
    &&& a.idempotency_key@ == idempotency_key
    &&& a.request_hash@ == request_hash
    &&& a.created_at_ms == a.generated_at_ms
}

/// Issues an advisory over fresh summaries (at least one).
pub fn new_advisory(
    role_session_id: &str,
    consult_handoff_ref: &str,
    consumed: Vec<M6OrgConsumedProjectSummaryRef>,
    source_links: Vec<M6OrgAdvisorySourceLink>,
    findings: Vec<M6OrgAdvisoryFinding>,
    idempotency_key: &str,
    request_hash: &str,
) -> (r: Result<M6OrgCrossProjectAdvisory, String>)
    ensures
        consumed@.len() == 0 ==> (r matches Err(e) && e@ == "m6_org_advisory_sources_missing"@),
        consumed@.len() > 0 ==> (r matches Ok(a) && issued_advisory(
            a,
            role_session_id@,
            consult_handoff_ref@,
            consumed@,
            idempotency_key@,
            request_hash@,
        ) && a.source_links@ == source_links@ && a.findings@ == findings@),
{
    if consumed.len() == 0 {
        return Err(String::from_str("m6_org_advisory_sources_missing"));
    }
    let mut generated: i64 = consumed[0].source_watermark;
    let mut policies: Vec<String> = Vec::new();
    let mut i: usize = 0;
    proof {
        assert(consumed@.take(0).map_values(|c: M6OrgConsumedProjectSummaryRef| c.policy_decision_ref@)
            =~= Seq::<Seq<char>>::empty());
        assert(views(policies@) =~= Seq::<Seq<char>>::empty());
    }
    while i < consumed.len()
        invariant
            0 < consumed@.len(),
            i <= consumed@.len(),
            i > 0 ==> generated == max_watermark(consumed@.take(i as int)),
            i == 0 ==> generated == consumed@[0].source_watermark,
            views(policies@) == consumed@.take(i as int).map_values(
                |c: M6OrgConsumedProjectSummaryRef| c.policy_decision_ref@,
            ),
        decreases consumed.len() - i,
    {
        let c = &consumed[i];
        proof {
            let t = consumed@.take(i + 1);
            assert(t.drop_last() =~= consumed@.take(i as int));
            assert(t.last() == consumed@[i as int]);
            if i == 0 {
                assert(t.len() == 1);
            }
        }
        if i > 0 && c.source_watermark > generated {
            generated = c.source_watermark;
        }
        let ghost p0 = policies@;
        let p = c.policy_decision_ref.clone();
        policies.push(p);
        proof {
            assert(views(policies@) =~= views(p0).push(p@));
            assert(consumed@.take(i + 1).map_values(
                |c: M6OrgConsumedProjectSummaryRef| c.policy_decision_ref@,
            ) =~= consumed@.take(i as int).map_values(
                |c: M6OrgConsumedProjectSummaryRef| c.policy_decision_ref@,
            ).push(c.policy_decision_ref@));
        }
        i = i + 1;
    }
    proof {
        assert(consumed@.take(i as int) =~= consumed@);
    }
    let joined = join_strings(&policies, "|");
    let digest = sha256_hex(joined.as_str());
    let policy_decision_ref = cat("m6-policy-bundle:", digest.as_str());
    let mut id_material = cat(request_hash, ":");
    id_material.append(policy_decision_ref.as_str());
    let id_digest = sha256_hex(id_material.as_str());
    Ok(
        M6OrgCrossProjectAdvisory {
            advisory_id: cat("m6-advisory:", id_digest.as_str()),
            global_role_session_id: String::from_str(role_session_id),
            consult_handoff_ref: String::from_str(consult_handoff_ref),
            consumed_summaries: consumed,
            policy_decision_ref,
            generated_at_ms: generated,
            source_links,
            findings,
            lifecycle_status: String::from_str("ISSUED"),
            freshness_state: M6OrgFreshnessState::Fresh,
            revision: 1,
            idempotency_key: String::from_str(idempotency_key),
            request_hash: String::from_str(request_hash),
            created_at_ms: generated,
        },
    )
}

/// Every judgement of a response is a fresh one.
pub open spec fn all_fresh(js: Seq<M6OrgFreshnessJudgement>) -> bool {
    forall|i: int| 0 <= i < js.len() ==> (#[trigger] js[i]).freshness_state == M6OrgFreshnessState::Fresh
}

/// The consumer a global advisory reads one project's summary as: the
/// lease's role session and expiry, the global supervisor role, scoped to
/// that project alone.
pub open spec fn summary_consumer_is(c: SummaryConsumer, lease: M6OrgGlobalSummaryConsumerLease, project_id: Seq<char>) -> bool {
    &&& c.role_session_id@ == lease.role_session_id@
    &&& c.role@ == "global_supervisor"@
    &&& c.scope_project_id@ == project_id
    &&& c.expires_at_ms == lease.consumer_expires_at_ms
}

/// The consumer handed to the summary port for one queried project.
pub fn summary_consumer_for(lease: &M6OrgGlobalSummaryConsumerLease, project_id: &str) -> (c: SummaryConsumer)
    ensures
        summary_consumer_is(c, *lease, project_id@),
{
    SummaryConsumer {
        role_session_id: lease.role_session_id.clone(),
        role: String::from_str("global_supervisor"),
        scope_project_id: String::from_str(project_id),
        expires_at_ms: lease.consumer_expires_at_ms,
    }
}

/// One summary query handed to the port: the project, the consumer, the
/// time, and the port's answer.
pub type SummaryAsk = (Seq<char>, SummaryConsumer, i64, Result<ProjectSummary, QueryError>);

/// A summary port whose every query is journaled with its answer.
pub struct SummaryQueries<'a, P> {
    port: &'a P,
    asked: Ghost<Seq<SummaryAsk>>,
}

impl<'a, P> SummaryQueries<'a, P> {
    /// The queries made so far, with the port's answers.
    pub closed spec fn log(&self) -> Seq<SummaryAsk> {
        self.asked@
    }
}

impl<'a, P: ProjectSummaryQueryPort> SummaryQueries<'a, P> {
    /// A journal over `port`, with no query in it yet.
    pub fn new(port: &'a P) -> (j: Self)
        ensures
            j.log() == Seq::<SummaryAsk>::empty(),
    {
        SummaryQueries { port, asked: Ghost(Seq::empty()) }
    }

    pub fn get_summary(&mut self, project_id: &str, consumer: &SummaryConsumer, now_ms: i64) -> (r:
        Result<ProjectSummary, QueryError>)
        ensures
            final(self).log() == old(self).log().push((project_id@, *consumer, now_ms, r)),
    {
        let r = self.port.get_summary(project_id, consumer, now_ms);
        self.asked = Ghost(self.asked@.push((project_id@, *consumer, now_ms, r)));
        r
    }
}

/// Query `q` was asked of the port for its own project, as the lease's
/// global consumer, at `now_ms`; and `j` judges the port's answer.
pub open spec fn asked_and_judged(
    q: ValidatedProjectQuery,
    lease: M6OrgGlobalSummaryConsumerLease,
    now_ms: i64,
    ask: SummaryAsk,
    j: M6OrgFreshnessJudgement,
) -> bool {
    &&& ask.0 == q.project_id@
    &&& summary_consumer_is(ask.1, lease, q.project_id@)
    &&& ask.2 == now_ms
    &&& judgement_of(q, lease, now_ms, outcome_judgement(q, ask.3).0, outcome_judgement(q, ask.3).1, j)
}

/// One query per project of the request was asked from `start` on in `log`,
/// in the order the validated queries sort to, and each judgement judges
/// the port's answer to its own query.
pub open spec fn judged_each_query(
    request: M6OrgCrossProjectAdvisoryRequest,
    lease: M6OrgGlobalSummaryConsumerLease,
    now_ms: i64,
    js: Seq<M6OrgFreshnessJudgement>,
    log: Seq<SummaryAsk>,
    start: int,
) -> bool {
    exists|vq: Seq<ValidatedProjectQuery>|
        #![trigger stable_sort(vq)]
        {
            &&& vq.len() == request.project_queries@.len()
            &&& (forall|i: int| 0 <= i < vq.len() ==> validated_from(#[trigger] vq[i], request.project_queries@[i]))
            &&& stable_sort(vq).len() == js.len()
            &&& log.len() == start + js.len()
            &&& forall|k: int|
                0 <= k < js.len() ==> asked_and_judged(stable_sort(vq)[k], lease, now_ms, log[start + k], #[trigger] js[k])
        }
}

/// The blocked reasons of a response: each once, in text order.
pub open spec fn blocked_reasons_ordered(b: Seq<String>) -> bool {
    exists|u: Seq<Seq<char>>| #[trigger] sorted_unique(u) == views(b)
}

proof fn lemma_no_blocked_reasons_ordered()
    ensures
        blocked_reasons_ordered(Seq::<String>::empty()),
{
    let u = Seq::<Seq<char>>::empty();
    assert(sort_texts(u) =~= u);
    assert(dedup_seq(u) =~= u);
    assert(sorted_unique(u) =~= views(Seq::<String>::empty()));
}

/// What a run hands to the advisory store from `start` on: first the lookup
/// of the request's idempotency key; then, for a response without an
/// advisory, no advisory recorded; for a replay, the advisory the lookup
/// found, with none recorded; for a new advisory, one recorded last, issued
/// for the lease's global session, the request's consult handoff and
/// idempotency key, and answered with the advisory returned.
pub open spec fn advisory_handed(
    log: Seq<AdvisoryCall>,
    start: int,
    request: M6OrgCrossProjectAdvisoryRequest,
    lease: M6OrgGlobalSummaryConsumerLease,
    advisory: Option<M6OrgCrossProjectAdvisory>,
) -> bool {
    &&& 0 <= start < log.len()
    &&& log[start] is LoadByKey && log[start]->LoadByKey_0 == request.idempotency_key@
    &&& match advisory {
        None => forall|i: int| start <= i < log.len() ==> !(#[trigger] log[i] is Record),
        Some(a) => {
            ||| log[start]->LoadByKey_1 == Ok::<Option<M6OrgCrossProjectAdvisory>, String>(Some(a))
                && forall|i: int| start <= i < log.len() ==> !(#[trigger] log[i] is Record)
            ||| log[start]->LoadByKey_1 == Ok::<Option<M6OrgCrossProjectAdvisory>, String>(None)
                && log.last() is Record && log.last()->Record_1 == Ok::<
                M6OrgCrossProjectAdvisory,
                String,
            >(a) && exists|cs: Seq<M6OrgConsumedProjectSummaryRef>, h: Seq<char>|
                #[trigger] issued_advisory(
                    log.last()->Record_0,
                    lease.role_session_id@,
                    request.consult_handoff.consult_handoff_ref@,
                    cs,
                    request.idempotency_key@,
                    h,
                )
        },
    }
}

/// Runs one cross-project advisory through the summary port: validates the
/// request, gates the global consumer lease, judges every project's summary,
/// marks earlier advisories stale where a current summary was observed, and
/// issues (or replays) an advisory only when every summary is fresh.
#[verifier::rlimit(100)]
#[verifier::spinoff_prover]
pub fn run_with_port<'a, G: M6OrgGlobalRoleSession, P: ProjectSummaryQueryPort, S: M6OrgAdvisoryStore>(
    role_session: &G,
    lease: &M6OrgGlobalSummaryConsumerLease,
    port: &mut SummaryQueries<'a, P>,
    m6_store: &mut AdvisoryJournal<S>,
    request: &M6OrgCrossProjectAdvisoryRequest,
    now_ms: i64,
) -> (r: Result<M6OrgCrossProjectAdvisoryResponse<G::Status>, String>)
    ensures
        request_shape_refusal(*request) matches Some(e) ==> (r matches Err(m) && m@ == e),
        request_shape_refusal(*request) is None && now_ms >= lease.consumer_expires_at_ms ==> (r matches Err(
            m,
        ) && m@ == "m6_org_summary_consumer_gate_denied"@),
        r matches Ok(resp) ==> {
            &&& request_shape_refusal(*request) is None
            &&& now_ms < lease.consumer_expires_at_ms
            &&& resp.freshness_judgements@.len() == request.project_queries@.len()
            &&& forall|i: int|
                0 <= i < resp.freshness_judgements@.len()
                    ==> !(#[trigger] resp.freshness_judgements@[i]).cache_reuse
                    && resp.freshness_judgements@[i].judged_at_ms == now_ms
            &&& resp.advisory is Some ==> all_fresh(resp.freshness_judgements@)
                && resp.blocked_reasons@.len() == 0
            &&& resp.advisory is None ==> resp.blocked_reasons@.len() > 0
            &&& blocked_reasons_ordered(resp.blocked_reasons@)
            &&& judged_each_query(
                *request,
                *lease,
                now_ms,
                resp.freshness_judgements@,
                final(port).log(),
                old(port).log().len() as int,
            )
            &&& advisory_handed(
                final(m6_store).log(),
                old(m6_store).log().len() as int,
                *request,
                *lease,
                resp.advisory,
            )
            &&& all_fresh(resp.freshness_judgements@) && final(m6_store).log()[old(m6_store).log().len() as int]->LoadByKey_1
                == Ok::<Option<M6OrgCrossProjectAdvisory>, String>(None) ==> resp.advisory is Some
            &&& all_fresh(resp.freshness_judgements@) ==> resp.advisory is Some || (
            resp.blocked_reasons@.len() == 1 && resp.blocked_reasons@[0]@
                == "m6_org_idempotent_advisory_not_current"@)
        },
        request_shape_refusal(*request) is Some ==> final(port).log() == old(port).log(),
        now_ms >= lease.consumer_expires_at_ms ==> final(port).log() == old(port).log(),
        request_shape_refusal(*request) is Some ==> *final(m6_store) == *old(m6_store),
        request_shape_refusal(*request) is None && now_ms >= lease.consumer_expires_at_ms
            ==> *final(m6_store) == *old(m6_store),
{
    let queries = match validate_request_shape(request) {
        Ok(q) => q,
        Err(e) => {
            return Err(e);
        },
    };
    let scope = role_session.global_scope_kind();
    if !str_eq(lease.scope_kind.as_str(), scope.as_str()) || now_ms >= lease.consumer_expires_at_ms {
        return Err(String::from_str("m6_org_summary_consumer_gate_denied"));
    }
    let ghost unsorted = queries@;
    let ghost start = port.log().len() as int;
    let queries = sort_stable(queries);
    proof {
        lemma_stable_sort_len(unsorted);
    }
    let hash = request_hash(request, &queries);
    let existing = match m6_store.load_advisory_by_idempotency(request.idempotency_key.as_str()) {
        Ok(e) => e,
        Err(e) => {
            return Err(e);
        },
    };
    if let Some(e) = &existing {
        if !str_eq(e.request_hash.as_str(), hash.as_str()) {
            return Err(String::from_str("m6_org_advisory_idempotency_collision"));
        }
    }
    let mut judgements: Vec<M6OrgFreshnessJudgement> = Vec::new();
    let mut fresh: Vec<FreshSummary> = Vec::new();
    let mut observed: Vec<M6OrgConsumedProjectSummaryRef> = Vec::new();
    let mut blocked: Vec<String> = Vec::new();
    let mut i: usize = 0;
    while i < queries.len()
        invariant
            i <= queries@.len(),
            judgements@.len() == i,
            fresh@.len() <= i,
            fresh@.len() == i ==> all_fresh(judgements@),
            fresh@.len() < i ==> blocked@.len() > 0,
            forall|k: int|
                0 <= k < i ==> !(#[trigger] judgements@[k]).cache_reuse
                    && judgements@[k].judged_at_ms == now_ms,
            port.log().len() == start + i,
            0 <= start,
            forall|k: int|
                0 <= k < i ==> asked_and_judged(
                    queries@[k],
                    *lease,
                    now_ms,
                    port.log()[start + k],
                    #[trigger] judgements@[k],
                ),
            all_fresh(judgements@) ==> fresh@.len() == i,
        decreases queries.len() - i,
    {
        let query = &queries[i];
        let consumer = summary_consumer_for(lease, query.project_id.as_str());
        let ghost asked = port.log();
        let outcome = port.get_summary(query.project_id.as_str(), &consumer, now_ms);
        let judged = judge_outcome(query, outcome, lease, now_ms);
        let ghost j0 = judgements@;
        judgements.push(judged.judgement);
        proof {
            assert(judgements@[i as int] == judged.judgement);
            assert(asked_and_judged(queries@[i as int], *lease, now_ms, port.log()[start + i], judgements@[i as int]));
            assert forall|k: int| 0 <= k < i implies asked_and_judged(
                queries@[k],
                *lease,
                now_ms,
                port.log()[start + k],
                #[trigger] judgements@[k],
            ) by {
                assert(judgements@[k] == j0[k]);
                assert(port.log()[start + k] == asked[start + k]);
            }
            if all_fresh(judgements@) {
                assert(all_fresh(j0)) by {
                    assert forall|k: int| 0 <= k < j0.len() implies (#[trigger] j0[k]).freshness_state == M6OrgFreshnessState::Fresh by {
                        assert(judgements@[k] == j0[k]);
                    }
                }
                assert(judgements@[i as int].freshness_state == M6OrgFreshnessState::Fresh);
            }
        }
        match judged.fresh {
            Some(f) => {
                fresh.push(f);
            },
            None => {},
        }
        match judged.observed_current {
            Some(c) => {
                observed.push(c);
            },
            None => {},
        }
        match judged.blocked_reason {
            Some(b) => {
                blocked.push(b);
            },
            None => {},
        }
        i = i + 1;
    }
    let stale_advisory_refs = if observed.len() == 0 {
        Vec::new()
    } else {
        match m6_store.mark_issued_advisories_stale_for_source_changes(&observed, now_ms) {
            Ok(v) => v,
            Err(e) => {
                return Err(e);
            },
        }
    };
    if fresh.len() != queries.len() || fresh.len() < M6_ORG_ADVISORY_MINIMUM_PROJECTS {
        let ghost unsorted_blocked = views(blocked@);
        let blocked = sort_dedup_strings(blocked);
        proof {
            lemma_sorted_unique_nonempty(unsorted_blocked);
            assert(sorted_unique(unsorted_blocked) == views(blocked@));
        }
        return Ok(
            M6OrgCrossProjectAdvisoryResponse {
                global_role_session: role_session.status(),
                freshness_judgements: judgements,
                advisory: None,
                stale_advisory_refs,
                blocked_reasons: blocked,
            },
        );
    }
    let fresh = sort_stable(fresh);
    let mut consumed: Vec<M6OrgConsumedProjectSummaryRef> = Vec::new();
    let mut k: usize = 0;
    while k < fresh.len()
        invariant
            k <= fresh@.len(),
            consumed@.len() == k,
            forall|x: int| 0 <= x < k ==> same_consumed(#[trigger] consumed@[x], fresh@[x].consumed),
        decreases fresh.len() - k,
    {
        let c = copy_consumed(&fresh[k].consumed);
        consumed.push(c);
        k = k + 1;
    }
    let source_links = build_source_links(&fresh);
    let findings = build_findings(&consumed, &source_links);
    if let Some(existing) = existing {
        if !str_eq(existing.lifecycle_status.as_str(), "ISSUED") || existing.freshness_state
            != M6OrgFreshnessState::Fresh {
            let mut blocked: Vec<String> = Vec::new();
            blocked.push(String::from_str("m6_org_idempotent_advisory_not_current"));
            proof {
                let u = views(blocked@);
                assert(u =~= seq![blocked@[0]@]);
                assert(u.drop_last() =~= Seq::<Seq<char>>::empty());
                assert(sort_texts(u) =~= u) by {
                    assert(sort_texts(u.drop_last()) =~= Seq::<Seq<char>>::empty());
                }
                assert(dedup_seq(u) =~= u) by {
                    assert(dedup_seq(u.drop_last()) =~= Seq::<Seq<char>>::empty());
                }
                assert(sorted_unique(u) == views(blocked@));
            }
            return Ok(
                M6OrgCrossProjectAdvisoryResponse {
                    global_role_session: role_session.status(),
                    freshness_judgements: judgements,
                    advisory: None,
                    stale_advisory_refs,
                    blocked_reasons: blocked,
                },
            );
        }
        let (summary_refs, source_refs) = context_refs(&consumed);
        let status = match role_session.status_with_minimal_context(summary_refs, source_refs) {
            Ok(s) => s,
            Err(e) => {
                return Err(e);
            },
        };
        proof {
            lemma_no_blocked_reasons_ordered();
        }
        return Ok(
            M6OrgCrossProjectAdvisoryResponse {
                global_role_session: status,
                freshness_judgements: judgements,
                advisory: Some(existing),
                stale_advisory_refs,
                blocked_reasons: Vec::new(),
            },
        );
    }
    let advisory = match new_advisory(
        lease.role_session_id.as_str(),
        request.consult_handoff.consult_handoff_ref.as_str(),
        consumed,
        source_links,
        findings,
        request.idempotency_key.as_str(),
        hash.as_str(),
    ) {
        Ok(a) => a,
        Err(e) => {
            return Err(e);
        },
    };
    let recorded = match m6_store.record_advisory(&advisory) {
        Ok(a) => a,
        Err(e) => {
            return Err(e);
        },
    };
    let (summary_refs, source_refs) = context_refs(&recorded.consumed_summaries);
    let status = match role_session.status_with_minimal_context(summary_refs, source_refs) {
        Ok(s) => s,
        Err(e) => {
            return Err(e);
        },
    };
    proof {
        lemma_no_blocked_reasons_ordered();
    }
    Ok(
        M6OrgCrossProjectAdvisoryResponse {
            global_role_session: status,
            freshness_judgements: judgements,
            advisory: Some(recorded),
            stale_advisory_refs,
            blocked_reasons: Vec::new(),
        },
    )
}


// ---------------------------------------------------------------------------
// Adoption and application
// ---------------------------------------------------------------------------

/// A user's request to adopt an issued advisory.
#[derive(Debug, Clone)]
pub struct M6OrgAdvisoryAdoptionRequest {
    pub advisory_id: String,
    pub actor_ref: String,
    pub idempotency_key: String,
    pub user_confirmed: bool,
}

/// A pending decision request; adopting an advisory records only this.
#[derive(Debug, Clone)]
pub struct M6OrgDecisionRequest {
    pub decision_request_id: String,
    pub source_owner_ref: String,
    pub source_object_ref: String,
    pub source_revision: u64,
    pub requesting_actor_id: String,
    pub required_actor_ref: String,
    pub required_scope_ref: String,
    pub question_schema_ref: String,
    pub allowed_answer_schema_ref: String,
    pub decision_command_type: String,
    pub status: String,
    pub idempotency_key: String,
    pub created_at_ms: i64,
    pub expires_at_ms: i64,
}

/// One project's observed application of an adopted advisory.
#[derive(Debug, Clone)]
pub struct M6OrgPerProjectApplicationObservation {
    pub observation_id: String,
    pub advisory_id: String,
    pub decision_request_id: String,
    pub project_id: String,
    pub project_owner_ref: String,
    pub authoritative_command_receipt_ref: String,
    pub grant_ref: String,
    pub outcome: M6OrgApplicationOutcome,
    pub observed_at_ms: i64,
    pub source_receipt_hash: String,
}

/// The refusal of an adoption request before anything is read, if any.
pub open spec fn adoption_refusal(r: M6OrgAdvisoryAdoptionRequest) -> Option<Seq<char>> {
    if !r.user_confirmed {
        Some("m6_org_advisory_adoption_user_confirmation_required"@)
    } else if is_blank_seq(r.advisory_id@) {
        Some("m6_org_required_field_missing:"@ + "advisory_id"@)
    } else if is_blank_seq(r.actor_ref@) {
        Some("m6_org_required_field_missing:"@ + "actor_ref"@)
    } else if is_blank_seq(r.idempotency_key@) {
        Some("m6_org_required_field_missing:"@ + "idempotency_key"@)
    } else {
        None
    }
}

/// The pending decision request that adopting an advisory records.
pub open spec fn adoption_decision_from(
    d: M6OrgDecisionRequest,
    r: M6OrgAdvisoryAdoptionRequest,
    advisory: M6OrgCrossProjectAdvisory,
    scope_kind: Seq<char>,
    now_ms: i64,
) -> bool {
    &&& d.decision_request_id@ == "m6-decision-request:"@ + sha256_hex_of(
        r.advisory_id@ + ":"@ + r.actor_ref@ + ":"@ + r.idempotency_key@,
    )
    &&& d.source_owner_ref@ == "global_supervisor_domain"@
    &&& d.source_object_ref@ == r.advisory_id@
    &&& d.source_revision == advisory.revision
    &&& d.requesting_actor_id@ == r.actor_ref@
    &&& d.required_actor_ref@ == r.actor_ref@
    &&& d.required_scope_ref@ == scope_kind
    &&& d.question_schema_ref@ == "m6.advisory-adoption.question.v1"@
    &&& d.allowed_answer_schema_ref@ == "m6.advisory-adoption.answer.v1"@
    &&& d.decision_command_type@ == "AdoptCrossProjectAdvisoryDecision"@
    &&& d.status@ == "PENDING"@
    &&& d.idempotency_key@ == r.idempotency_key@
    &&& d.created_at_ms == now_ms
    &&& d.expires_at_ms == now_ms + 86_400_000
}

/// Builds the decision request for adopting a loaded advisory: only an
/// issued advisory can be adopted, and the request expires a day later.
pub fn adoption_decision(
    request: &M6OrgAdvisoryAdoptionRequest,
    advisory: &M6OrgCrossProjectAdvisory,
    scope_kind: &str,
    now_ms: i64,
) -> (r: Result<M6OrgDecisionRequest, String>)
    ensures
        advisory.lifecycle_status@ != "ISSUED"@ ==> (r matches Err(e) && e@
            == "m6_org_advisory_not_issuable_for_adoption"@),
        advisory.lifecycle_status@ == "ISSUED"@ && now_ms + 86_400_000 > i64::MAX ==> (r matches Err(
            e,
        ) && e@ == "m6_org_decision_expiry_overflow"@),
        advisory.lifecycle_status@ == "ISSUED"@ && now_ms + 86_400_000 <= i64::MAX ==> (r matches Ok(
            d,
        ) && adoption_decision_from(d, *request, *advisory, scope_kind@, now_ms)),
{
    if !str_eq(advisory.lifecycle_status.as_str(), "ISSUED") {
        return Err(String::from_str("m6_org_advisory_not_issuable_for_adoption"));
    }
    let expires_at_ms = match now_ms.checked_add(86_400_000) {
        Some(v) => v,
        None => {
            return Err(String::from_str("m6_org_decision_expiry_overflow"));
        },
    };
    let mut material = cat(request.advisory_id.as_str(), ":");
    material.append(request.actor_ref.as_str());
    material.append(":");
    material.append(request.idempotency_key.as_str());
    let digest = sha256_hex(material.as_str());
    Ok(
        M6OrgDecisionRequest {
            decision_request_id: cat("m6-decision-request:", digest.as_str()),
            source_owner_ref: String::from_str(M6_ORG_ADVISORY_SOURCE_OWNER_REF),
            source_object_ref: request.advisory_id.clone(),
            source_revision: advisory.revision,
            requesting_actor_id: request.actor_ref.clone(),
            required_actor_ref: request.actor_ref.clone(),
            required_scope_ref: String::from_str(scope_kind),
            question_schema_ref: String::from_str("m6.advisory-adoption.question.v1"),
            allowed_answer_schema_ref: String::from_str("m6.advisory-adoption.answer.v1"),
            decision_command_type: String::from_str("AdoptCrossProjectAdvisoryDecision"),
            status: String::from_str("PENDING"),
            idempotency_key: request.idempotency_key.clone(),
            created_at_ms: now_ms,
            expires_at_ms,
        },
    )
}

/// A pending decision request was built for an issued advisory.
pub open spec fn adoption_built(
    r: M6OrgAdvisoryAdoptionRequest,
    scope_kind: Seq<char>,
    now_ms: i64,
) -> bool {
    exists|d: M6OrgDecisionRequest, advisory: M6OrgCrossProjectAdvisory|
        #[trigger] adoption_decision_from(d, r, advisory, scope_kind, now_ms)
            && advisory.lifecycle_status@ == "ISSUED"@
}

/// What an adoption hands to the store from `start` on: the lookup of the
/// advisory, then the decision request built from the advisory found, and
/// nothing else; the request returned is the store's answer to it.
pub open spec fn adoption_handed(
    log: Seq<AdvisoryCall>,
    start: int,
    request: M6OrgAdvisoryAdoptionRequest,
    scope_kind: Seq<char>,
    now_ms: i64,
    r: Result<M6OrgDecisionRequest, String>,
) -> bool {
    &&& 0 <= start && log.len() == start + 2
    &&& log[start] is LoadAdvisory && log[start]->LoadAdvisory_0 == request.advisory_id@
    &&& log[start]->LoadAdvisory_1 is Ok && log[start]->LoadAdvisory_1->Ok_0 is Some
    &&& log[start + 1] is RecordDecision && log[start + 1]->RecordDecision_1 == r
    &&& adoption_decision_from(
        log[start + 1]->RecordDecision_0,
        request,
        log[start]->LoadAdvisory_1->Ok_0->Some_0,
        scope_kind,
        now_ms,
    )
}

/// Adopting an advisory records a pending decision request and nothing else.
pub fn adopt_with_store<S: M6OrgAdvisoryStore>(
    store: &mut AdvisoryJournal<S>,
    request: &M6OrgAdvisoryAdoptionRequest,
    scope_kind: &str,
    now_ms: i64,
) -> (r: Result<M6OrgDecisionRequest, String>)
    ensures
        adoption_refusal(*request) matches Some(e) ==> (r matches Err(m) && m@ == e),
        adoption_refusal(*request) is Some ==> *final(store) == *old(store),
        r is Ok ==> adoption_refusal(*request) is None && adoption_built(*request, scope_kind@, now_ms),
        r is Ok ==> adoption_handed(final(store).log(), old(store).log().len() as int, *request, scope_kind@, now_ms, r),
{
    if !request.user_confirmed {
        return Err(String::from_str("m6_org_advisory_adoption_user_confirmation_required"));
    }
    if let Err(e) = require_nonempty("advisory_id", request.advisory_id.as_str()) {
        return Err(e);
    }
    if let Err(e) = require_nonempty("actor_ref", request.actor_ref.as_str()) {
        return Err(e);
    }
    if let Err(e) = require_nonempty("idempotency_key", request.idempotency_key.as_str()) {
        return Err(e);
    }
    let advisory = match store.load_advisory(request.advisory_id.as_str()) {
        Ok(Some(a)) => a,
        Ok(None) => {
            return Err(String::from_str("m6_org_advisory_not_found"));
        },
        Err(e) => {
            return Err(e);
        },
    };
    let decision = match adoption_decision(request, &advisory, scope_kind, now_ms) {
        Ok(d) => d,
        Err(e) => {
            return Err(e);
        },
    };
    assert(adoption_decision_from(decision, *request, advisory, scope_kind@, now_ms));
    store.record_decision_request(&decision)
}

/// The observation recorded for a validated application receipt.
pub open spec fn observation_from(
    o: M6OrgPerProjectApplicationObservation,
    r: M6OrgApplicationReceiptObservationRequest,
) -> bool {
    &&& o.observation_id@ == "m6-application-observation:"@ + sha256_hex_of(
        r.advisory_id@ + ":"@ + r.decision_request_id@ + ":"@ + r.authoritative_command_receipt_ref@,
    )
    &&& o.advisory_id@ == r.advisory_id@
    &&& o.decision_request_id@ == r.decision_request_id@
    &&& o.project_id@ == r.project_id@
    &&& o.project_owner_ref@ == r.project_owner_ref@
    &&& o.authoritative_command_receipt_ref@ == r.authoritative_command_receipt_ref@
    &&& o.grant_ref@ == r.grant_ref@
    &&& o.outcome == r.outcome
    &&& o.observed_at_ms == r.observed_at_ms
    &&& o.source_receipt_hash@ == r.source_receipt_hash@
}

/// The observation of an application receipt, identified by the advisory,
/// the decision request and the project's own command receipt.
pub fn application_observation(request: &M6OrgApplicationReceiptObservationRequest) -> (o:
    M6OrgPerProjectApplicationObservation)
    ensures
        observation_from(o, *request),
{
    let mut material = cat(request.advisory_id.as_str(), ":");
    material.append(request.decision_request_id.as_str());
    material.append(":");
    material.append(request.authoritative_command_receipt_ref.as_str());
    let digest = sha256_hex(material.as_str());
    M6OrgPerProjectApplicationObservation {
        observation_id: cat("m6-application-observation:", digest.as_str()),
        advisory_id: request.advisory_id.clone(),
        decision_request_id: request.decision_request_id.clone(),
        project_id: request.project_id.clone(),
        project_owner_ref: request.project_owner_ref.clone(),
        authoritative_command_receipt_ref: request.authoritative_command_receipt_ref.clone(),
        grant_ref: request.grant_ref.clone(),
        outcome: request.outcome,
        observed_at_ms: request.observed_at_ms,
        source_receipt_hash: request.source_receipt_hash.clone(),
    }
}

/// Records an application observation after validating its receipt.
pub fn observe_application_with_store<S: M6OrgAdvisoryStore>(
    store: &mut AdvisoryJournal<S>,
    request: &M6OrgApplicationReceiptObservationRequest,
) -> (r: Result<S::ApplicationProjection, String>)
    ensures
        application_receipt_refusal(*request) matches Some(e) ==> (r matches Err(m) && m@ == e)
            && final(store).log() == old(store).log(),
        application_receipt_refusal(*request) is None ==> final(store).log().len() == old(
            store,
        ).log().len() + 1 && final(store).log().last() is RecordObservation && observation_from(
            final(store).log().last()->RecordObservation_0,
            *request,
        ) && final(store).log().last()->RecordObservation_1 == r is Ok,
{
    if let Err(e) = validate_application_receipt(request) {
        return Err(e);
    }
    let observation = application_observation(request);
    store.record_application_observation(&observation)
}


// ---------------------------------------------------------------------------
// Order of findings and links
// ---------------------------------------------------------------------------

proof fn lemma_finding_order_total_preorder()
    ensures
        total_preorder::<M6OrgAdvisoryFinding>(),
{
    lemma_text_le_total_preorder();
}

proof fn lemma_link_order_total_preorder()
    ensures
        total_preorder::<M6OrgAdvisorySourceLink>(),
{
    lemma_text_le_total_preorder();
}

/// The findings of an advisory come highest priority first, and findings of
/// equal priority in order of their ids.
pub proof fn lemma_findings_highest_priority_first(u: Seq<M6OrgAdvisoryFinding>)
    ensures
        forall|i: int, j: int|
            0 <= i < j < stable_sort(u).len() ==> (#[trigger] stable_sort(u)[i]).priority
                >= (#[trigger] stable_sort(u)[j]).priority,
        forall|i: int, j: int|
            0 <= i < j < stable_sort(u).len() && stable_sort(u)[i].priority == stable_sort(
                u,
            )[j].priority ==> text_le(
                (#[trigger] stable_sort(u)[i]).finding_id@,
                (#[trigger] stable_sort(u)[j]).finding_id@,
            ),
{
    lemma_finding_order_total_preorder();
    lemma_stable_sort_sorted(u);
}

/// The source links of an advisory are ordered by link id.
pub proof fn lemma_source_links_by_id(u: Seq<M6OrgAdvisorySourceLink>)
    ensures
        forall|i: int, j: int|
            0 <= i < j < stable_sort(u).len() ==> text_le(
                (#[trigger] stable_sort(u)[i]).source_link_id@,
                (#[trigger] stable_sort(u)[j]).source_link_id@,
            ),
{
    lemma_link_order_total_preorder();
    lemma_stable_sort_sorted(u);
}

} // verus!
