//! The official project summary and its consumer gate. Consumers read only a
//! projected summary, never the project store or its sources.

use vstd::prelude::*;
use crate::dto::M5ProjectSummaryRead;
use crate::records::SupervisorSessionRef;
use crate::outside::{sha256_hex, sha256_hex_of};
use crate::text::{cat, has_char, has_char_str, i64_to_decimal, int_decimal, str_eq};

verus! {

/// Why a summary query was refused.
#[derive(Debug, Clone)]
pub enum QueryError {
    ProjectNotFound(String),
    InsufficientPermission(String),
    SummaryStale(String),
    ConsumerExpired(String),
    StorageError(String),
}

impl QueryError {
    /// The human-readable message of the error.
    pub fn to_display_string(&self) -> (r: String)
        ensures
            match self {
                QueryError::ProjectNotFound(id) => r@ == "project not found: "@ + id@,
                QueryError::InsufficientPermission(m) => r@ == "insufficient permission: "@ + m@,
                QueryError::SummaryStale(m) => r@ == "summary stale: "@ + m@,
                QueryError::ConsumerExpired(m) => r@ == "consumer expired: "@ + m@,
                QueryError::StorageError(m) => r@ == "storage error: "@ + m@,
            },
    {
        match self {
            QueryError::ProjectNotFound(id) => cat("project not found: ", id.as_str()),
            QueryError::InsufficientPermission(m) => cat("insufficient permission: ", m.as_str()),
            QueryError::SummaryStale(m) => cat("summary stale: ", m.as_str()),
            QueryError::ConsumerExpired(m) => cat("consumer expired: ", m.as_str()),
            QueryError::StorageError(m) => cat("storage error: ", m.as_str()),
        }
    }
}

/// One source a summary was projected from.
#[derive(Debug, Clone)]
pub struct SourceRef {
    pub source_type: String,
    pub source_id: String,
    pub last_updated_ms: i64,
}

/// The projected summary of one project.
#[derive(Debug, Clone)]
pub struct ProjectSummary {
    pub project_id: String,
    pub orchestration_id: String,
    pub schema_version: String,
    pub version: u64,
    pub watermark_ms: i64,
    pub summary_hash: String,
    pub source_refs: Vec<SourceRef>,
    pub fact_count: u32,
    pub unverified_claim_count: u32,
    pub open_run_count: u32,
    pub rebuilt_at_ms: i64,
}

/// Who is reading a summary, for which project, until when.
#[derive(Debug, Clone)]
pub struct SummaryConsumer {
    pub role_session_id: String,
    pub role: String,
    pub scope_project_id: String,
    pub expires_at_ms: i64,
}

/// How long a summary stays fresh after its watermark.
pub const SUMMARY_FRESHNESS_MS: i64 = 60_000;

/// A source id that looks like copied source text rather than a reference.
pub open spec fn looks_like_raw_text(source_id: Seq<char>) -> bool {
    has_char(source_id, '\n') || source_id.len() > 200
}

pub open spec fn summary_has_raw_text(s: ProjectSummary) -> bool {
    exists|i: int| 0 <= i < s.source_refs@.len() && looks_like_raw_text(#[trigger] s.source_refs@[i].source_id@)
}

/// Whether any source id of the summary looks like copied source text.
pub fn summary_contains_raw_text(summary: &ProjectSummary) -> (b: bool)
    ensures
        b == summary_has_raw_text(*summary),
{
    let mut i: usize = 0;
    while i < summary.source_refs.len()
        invariant
            i <= summary.source_refs.len(),
            forall|j: int| 0 <= j < i ==> !looks_like_raw_text(#[trigger] summary.source_refs@[j].source_id@),
        decreases summary.source_refs.len() - i,
    {
        let id = summary.source_refs[i].source_id.as_str();
        if has_char_str(id, '\n') || id.unicode_len() > 200 {
            return true;
        }
        i = i + 1;
    }
    false
}

/// The schema version of projected summaries.
pub const SUMMARY_SCHEMA_VERSION: &'static str = "m5.project-summary.v1";

/// The type and id of each source of a summary.
pub open spec fn source_kinds(refs: Seq<SourceRef>) -> Seq<(Seq<char>, Seq<char>)> {
    refs.map_values(|r: SourceRef| (r.source_type@, r.source_id@))
}

/// The sources a rebuild names: the project's facts, its unverified claims
/// and its open runs, each only when there is at least one.
pub open spec fn rebuilt_source_kinds(
    project_id: Seq<char>,
    fact_count: i64,
    unverified: i64,
    open_runs: i64,
) -> Seq<(Seq<char>, Seq<char>)> {
    (if fact_count > 0 {
        seq![("project_fact"@, "facts:"@ + project_id)]
    } else {
        Seq::empty()
    }) + (if unverified > 0 {
        seq![("unverified_claim"@, "claims:"@ + project_id)]
    } else {
        Seq::empty()
    }) + (if open_runs > 0 {
        seq![("workflow_run"@, "runs:"@ + project_id)]
    } else {
        Seq::empty()
    })
}

/// A rebuild names one source per kind of record the project has: its facts
/// when there are any, its unverified claims when there are any, its open
/// runs when there are any, each at most once and nothing else.
pub proof fn lemma_rebuilt_sources_follow_counts(
    project_id: Seq<char>,
    fact_count: i64,
    unverified: i64,
    open_runs: i64,
)
    ensures
        rebuilt_source_kinds(project_id, fact_count, unverified, open_runs).contains(
            ("project_fact"@, "facts:"@ + project_id),
        ) <==> fact_count > 0,
        rebuilt_source_kinds(project_id, fact_count, unverified, open_runs).contains(
            ("unverified_claim"@, "claims:"@ + project_id),
        ) <==> unverified > 0,
        rebuilt_source_kinds(project_id, fact_count, unverified, open_runs).contains(
            ("workflow_run"@, "runs:"@ + project_id),
        ) <==> open_runs > 0,
        rebuilt_source_kinds(project_id, fact_count, unverified, open_runs).len() == (if fact_count
            > 0 {
            1int
        } else {
            0int
        }) + (if unverified > 0 {
            1int
        } else {
            0int
        }) + (if open_runs > 0 {
            1int
        } else {
            0int
        }),
{
    reveal_strlit("project_fact");
    reveal_strlit("unverified_claim");
    reveal_strlit("workflow_run");
    let f: (Seq<char>, Seq<char>) = ("project_fact"@, "facts:"@ + project_id);
    let u: (Seq<char>, Seq<char>) = ("unverified_claim"@, "claims:"@ + project_id);
    let w: (Seq<char>, Seq<char>) = ("workflow_run"@, "runs:"@ + project_id);
    assert(f.0[0] != u.0[0] && f.0[0] != w.0[0] && u.0[0] != w.0[0]);
    let fs: Seq<(Seq<char>, Seq<char>)> = if fact_count > 0 { seq![f] } else { Seq::empty() };
    let us: Seq<(Seq<char>, Seq<char>)> = if unverified > 0 { seq![u] } else { Seq::empty() };
    let ws: Seq<(Seq<char>, Seq<char>)> = if open_runs > 0 { seq![w] } else { Seq::empty() };
    let all = rebuilt_source_kinds(project_id, fact_count, unverified, open_runs);
    assert(all == fs + us + ws);
    assert forall|x: (Seq<char>, Seq<char>)| all.contains(x) <==> (fs.contains(x) || us.contains(x)
        || ws.contains(x)) by {
        if all.contains(x) {
            let i = choose|i: int| 0 <= i < all.len() && all[i] == x;
            if i < fs.len() {
                assert(fs[i] == x);
            } else if i < fs.len() + us.len() {
                assert(us[i - fs.len()] == x);
            } else {
                assert(ws[i - fs.len() - us.len()] == x);
            }
        }
        if fs.contains(x) {
            let i = choose|i: int| 0 <= i < fs.len() && fs[i] == x;
            assert(all[i] == x);
        }
        if us.contains(x) {
            let i = choose|i: int| 0 <= i < us.len() && us[i] == x;
            assert(all[fs.len() + i] == x);
        }
        if ws.contains(x) {
            let i = choose|i: int| 0 <= i < ws.len() && ws[i] == x;
            assert(all[fs.len() + us.len() + i] == x);
        }
    }
    if fact_count > 0 {
        assert(fs[0] == f);
    }
    if unverified > 0 {
        assert(us[0] == u);
    }
    if open_runs > 0 {
        assert(ws[0] == w);
    }
}

/// The text a rebuilt summary's hash covers.
pub open spec fn summary_hash_material(
    project_id: Seq<char>,
    orchestration_id: Seq<char>,
    fact_count: i64,
    unverified: i64,
    open_runs: i64,
    now_ms: i64,
) -> Seq<char> {
    project_id + ":"@ + orchestration_id + ":"@ + int_decimal(fact_count as int) + ":"@ + int_decimal(
        unverified as int,
    ) + ":"@ + int_decimal(open_runs as int) + ":"@ + int_decimal(now_ms as int)
}

fn push_source(refs: &mut Vec<SourceRef>, source_type: &str, prefix: &str, project_id: &str, now_ms: i64)
    ensures
        source_kinds(final(refs)@) == source_kinds(old(refs)@).push((source_type@, prefix@ + project_id@)),
        final(refs)@.len() == old(refs)@.len() + 1,
        forall|i: int| 0 <= i < old(refs)@.len() ==> #[trigger] final(refs)@[i] == old(refs)@[i],
        final(refs)@[old(refs)@.len() as int].last_updated_ms == now_ms,
{
    let ghost before = refs@;
    refs.push(SourceRef { source_type: String::from_str(source_type), source_id: cat(prefix, project_id), last_updated_ms: now_ms });
    proof {
        assert(source_kinds(refs@) =~= source_kinds(before).push((source_type@, prefix@ + project_id@)));
    }
}

/// The summary a rebuild projects from the counts it read: one source per
/// kind present, the next version after the previous summary's, the rebuild
/// time as its watermark, and the digest of its identity and counts as its
/// hash. Counts are stored as `u32`, truncating as a cast does.
pub fn compose_project_summary(
    project_id: &str,
    orchestration_id: &str,
    fact_count: i64,
    unverified: i64,
    open_runs: i64,
    previous_version: Option<u64>,
    now_ms: i64,
) -> (r: ProjectSummary)
    requires
        previous_version matches Some(v) ==> v < u64::MAX,
    ensures
        r.project_id@ == project_id@,
        r.orchestration_id@ == orchestration_id@,
        r.schema_version@ == SUMMARY_SCHEMA_VERSION@,
        r.version == match previous_version {
            Some(v) => (v + 1) as u64,
            None => 1u64,
        },
        r.watermark_ms == now_ms,
        r.rebuilt_at_ms == now_ms,
        r.summary_hash@ == sha256_hex_of(
            summary_hash_material(project_id@, orchestration_id@, fact_count, unverified, open_runs, now_ms),
        ),
        source_kinds(r.source_refs@) == rebuilt_source_kinds(project_id@, fact_count, unverified, open_runs),
        forall|i: int| 0 <= i < r.source_refs@.len() ==> (#[trigger] r.source_refs@[i]).last_updated_ms == now_ms,
        r.fact_count == fact_count as u32,
        r.unverified_claim_count == unverified as u32,
        r.open_run_count == open_runs as u32,
{
    let mut refs: Vec<SourceRef> = Vec::new();
    let ghost empty = refs@;
    proof {
        assert(source_kinds(empty) =~= Seq::<(Seq<char>, Seq<char>)>::empty());
    }
    if fact_count > 0 {
        push_source(&mut refs, "project_fact", "facts:", project_id, now_ms);
    }
    let ghost k1 = source_kinds(refs@);
    if unverified > 0 {
        push_source(&mut refs, "unverified_claim", "claims:", project_id, now_ms);
    }
    let ghost k2 = source_kinds(refs@);
    if open_runs > 0 {
        push_source(&mut refs, "workflow_run", "runs:", project_id, now_ms);
    }
    proof {
        reveal_strlit("project_fact");
        reveal_strlit("facts:");
        reveal_strlit("unverified_claim");
        reveal_strlit("claims:");
        reveal_strlit("workflow_run");
        reveal_strlit("runs:");
        assert(source_kinds(refs@) =~= rebuilt_source_kinds(project_id@, fact_count, unverified, open_runs));
    }
    let version: u64 = match previous_version {
        Some(v) => v + 1,
        None => 1,
    };
    let mut material = cat(project_id, ":");
    material.append(orchestration_id);
    material.append(":");
    let f = i64_to_decimal(fact_count);
    material.append(f.as_str());
    material.append(":");
    let u = i64_to_decimal(unverified);
    material.append(u.as_str());
    material.append(":");
    let o = i64_to_decimal(open_runs);
    material.append(o.as_str());
    material.append(":");
    let n = i64_to_decimal(now_ms);
    material.append(n.as_str());
    proof {
        assert(material@ =~= summary_hash_material(project_id@, orchestration_id@, fact_count, unverified, open_runs, now_ms));
    }
    let summary_hash = sha256_hex(material.as_str());
    ProjectSummary {
        project_id: String::from_str(project_id),
        orchestration_id: String::from_str(orchestration_id),
        schema_version: String::from_str(SUMMARY_SCHEMA_VERSION),
        version,
        watermark_ms: now_ms,
        summary_hash,
        source_refs: refs,
        fact_count: fact_count as u32,
        unverified_claim_count: unverified as u32,
        open_run_count: open_runs as u32,
        rebuilt_at_ms: now_ms,
    }
}

/// The roles that may consume project summaries.
pub open spec fn consumer_role_allowed(role: Seq<char>) -> bool {
    role == "secretary"@ || role == "global_supervisor"@ || role == "project_supervisor"@
}

/// Checks a consumer before any summary is read: it must be unexpired, scoped
/// to exactly this project, and of a summary-reading role.
pub fn gate_summary_consumer(project_id: &str, consumer: &SummaryConsumer, now_ms: i64) -> (r: Result<
    (),
    QueryError,
>)
    ensures
        now_ms >= consumer.expires_at_ms ==> (r matches Err(QueryError::ConsumerExpired(m)) && m@
            == consumer.role_session_id@),
        now_ms < consumer.expires_at_ms && consumer.scope_project_id@ != project_id@ ==> (r matches Err(
            QueryError::InsufficientPermission(m),
        ) && m@ == "cross_project_summary_denied"@),
        now_ms < consumer.expires_at_ms && consumer.scope_project_id@ == project_id@
            && !consumer_role_allowed(consumer.role@) ==> (r matches Err(
            QueryError::InsufficientPermission(m),
        ) && m@ == consumer.role@),
        r is Ok <==> now_ms < consumer.expires_at_ms && consumer.scope_project_id@ == project_id@
            && consumer_role_allowed(consumer.role@),
{
    if now_ms >= consumer.expires_at_ms {
        return Err(QueryError::ConsumerExpired(String::from_str(consumer.role_session_id.as_str())));
    }
    if !str_eq(consumer.scope_project_id.as_str(), project_id) {
        return Err(
            QueryError::InsufficientPermission(String::from_str("cross_project_summary_denied")),
        );
    }
    let role = consumer.role.as_str();
    if !(str_eq(role, "secretary") || str_eq(role, "global_supervisor") || str_eq(
        role,
        "project_supervisor",
    )) {
        return Err(QueryError::InsufficientPermission(String::from_str(role)));
    }
    Ok(())
}

/// Admits a loaded summary row: a load failure is a storage error, a missing
/// row is `ProjectNotFound`, a summary older than its freshness window is
/// stale, and one that copies source text is refused.
pub fn admit_summary_row(
    project_id: &str,
    row: Result<Option<ProjectSummary>, String>,
    now_ms: i64,
) -> (r: Result<ProjectSummary, QueryError>)
    ensures
        row matches Err(e) ==> (r matches Err(QueryError::StorageError(m)) && m@ == e@),
        row matches Ok(None) ==> (r matches Err(QueryError::ProjectNotFound(m)) && m@ == project_id@),
        row matches Ok(Some(s)) ==> {
            if now_ms > s.watermark_ms + SUMMARY_FRESHNESS_MS {
                r matches Err(QueryError::SummaryStale(m)) && m@ == "watermark="@ + int_decimal(
                    s.watermark_ms as int,
                ) + " now="@ + int_decimal(now_ms as int)
            } else if summary_has_raw_text(s) {
                r matches Err(QueryError::StorageError(m)) && m@
                    == "summary_must_not_copy_source_text"@
            } else {
                r matches Ok(t) && t == s
            }
        },
{
    let summary = match row {
        Err(e) => {
            return Err(QueryError::StorageError(e));
        },
        Ok(None) => {
            return Err(QueryError::ProjectNotFound(String::from_str(project_id)));
        },
        Ok(Some(s)) => s,
    };
    let w = summary.watermark_ms;
    let stale = if w > i64::MAX - SUMMARY_FRESHNESS_MS {
        false
    } else {
        now_ms > w + SUMMARY_FRESHNESS_MS
    };
    if stale {
        let a = i64_to_decimal(summary.watermark_ms);
        let b = i64_to_decimal(now_ms);
        let mut m = cat("watermark=", a.as_str());
        m.append(" now=");
        m.append(b.as_str());
        return Err(QueryError::SummaryStale(m));
    }
    if summary_contains_raw_text(&summary) {
        return Err(
            QueryError::StorageError(String::from_str("summary_must_not_copy_source_text")),
        );
    }
    Ok(summary)
}

/// The official read port for project summaries. Implementations gate the
/// consumer before reading (see `get_summary`).
pub trait ProjectSummaryQueryPort {
    fn get_summary(
        &self,
        project_id: &str,
        consumer: &SummaryConsumer,
        now_ms: i64,
    ) -> Result<ProjectSummary, QueryError>;
}

/// A source of projected summary rows (the persistent summary table).
pub trait SummaryRowSource {
    fn load_summary_row(&self, project_id: &str) -> Result<Option<ProjectSummary>, String>;
}

/// The persistent summary query: the consumer gate first, then the loaded row.
pub fn get_summary<S: SummaryRowSource>(
    source: &S,
    project_id: &str,
    consumer: &SummaryConsumer,
    now_ms: i64,
) -> (r: Result<ProjectSummary, QueryError>)
    ensures
        !(now_ms < consumer.expires_at_ms && consumer.scope_project_id@ == project_id@
            && consumer_role_allowed(consumer.role@)) ==> r is Err,
        now_ms >= consumer.expires_at_ms ==> (r matches Err(QueryError::ConsumerExpired(m)) && m@
            == consumer.role_session_id@),
        r matches Ok(s) ==> !summary_has_raw_text(s) && now_ms <= s.watermark_ms
            + SUMMARY_FRESHNESS_MS,
{
    gate_summary_consumer(project_id, consumer, now_ms)?;
    let row = source.load_summary_row(project_id);
    admit_summary_row(project_id, row, now_ms)
}

/// The read shape of a summary.
pub fn to_summary_read(summary: &ProjectSummary, stale: bool) -> (r: M5ProjectSummaryRead)
    ensures
        r.project_id@ == summary.project_id@,
        r.version == summary.version,
        r.watermark_ms == summary.watermark_ms,
        r.fact_count == summary.fact_count,
        r.unverified_claim_count == summary.unverified_claim_count,
        r.open_run_count == summary.open_run_count,
        r.stale == stale,
{
    M5ProjectSummaryRead {
        project_id: String::from_str(summary.project_id.as_str()),
        version: summary.version,
        watermark_ms: summary.watermark_ms,
        fact_count: summary.fact_count,
        unverified_claim_count: summary.unverified_claim_count,
        open_run_count: summary.open_run_count,
        stale,
    }
}

/// A one-hour summary consumer for a supervisor session, starting at `now_ms`.
pub fn consumer_from_session(session: &SupervisorSessionRef, now_ms: i64) -> (r: SummaryConsumer)
    requires
        now_ms <= i64::MAX - 3_600_000,
    ensures
        r.role_session_id@ == session.role_session_id@,
        r.role@ == session.role@,
        r.scope_project_id@ == session.project_id@,
        r.expires_at_ms == now_ms + 3_600_000,
{
    SummaryConsumer {
        role_session_id: String::from_str(session.role_session_id.as_str()),
        role: String::from_str(session.role.as_str()),
        scope_project_id: String::from_str(session.project_id.as_str()),
        expires_at_ms: now_ms + 3_600_000,
    }
}

} // verus!
