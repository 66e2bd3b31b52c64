//! The frozen read/write shapes of the project shell. They carry data; they
//! own no execution truth.

use vstd::prelude::*;
use crate::text::cat;

verus! {

#[derive(Debug, Clone)]
pub struct M5SupervisorOpenRequest {
    pub project_id: String,
    pub role_session_id: String,
}

#[derive(Debug, Clone)]
pub struct M5SupervisorOpenResponse {
    pub binding_id: String,
    pub project_id: String,
    pub role_session_id: String,
}

#[derive(Debug, Clone)]
pub struct M5SupervisorTurnRequest {
    pub binding_id: String,
    pub project_id: String,
    pub kind: String,
    pub text: String,
}

#[derive(Debug, Clone)]
pub struct M5SupervisorTurnResponse {
    pub kind: String,
    pub created_proposal: bool,
    pub created_grant: bool,
    pub spawned: bool,
    pub text: String,
}

#[derive(Debug, Clone)]
pub struct M5ProjectSummaryRead {
    pub project_id: String,
    pub version: u64,
    pub watermark_ms: i64,
    pub fact_count: u32,
    pub unverified_claim_count: u32,
    pub open_run_count: u32,
    pub stale: bool,
}

/// The read-only global advice fixture shown for a project.
#[derive(Debug, Clone)]
pub struct M5GlobalAdviceFixture {
    pub advice_id: String,
    pub project_id: String,
    pub summary: String,
    pub source_ref: String,
    pub writable: bool,
}

impl M5GlobalAdviceFixture {
    /// The frozen fixture for `project_id`: never writable, sourced from the
    /// project's summary.
    pub fn frozen(project_id: &str) -> (r: Self)
        ensures
            r.advice_id@ == "m5r07.global-advice.fixture.v1"@,
            r.project_id@ == project_id@,
            r.summary@ == "readonly fixture; does not write any project"@,
            r.source_ref@ == "summary:"@ + project_id@,
            !r.writable,
    {
        M5GlobalAdviceFixture {
            advice_id: String::from_str("m5r07.global-advice.fixture.v1"),
            project_id: String::from_str(project_id),
            summary: String::from_str("readonly fixture; does not write any project"),
            source_ref: cat("summary:", project_id),
            writable: false,
        }
    }
}

/// One legacy execution path and how it is kept from executing.
#[derive(Debug, Clone)]
pub struct M5LegacyPathManifest {
    pub entry_id: String,
    pub class: String,
    pub physically_deleted: bool,
}

/// The legacy execution paths: none is physically deleted; each is blocked,
/// guarded, or replaced by the new grant path.
pub fn legacy_execution_manifest() -> (r: Vec<M5LegacyPathManifest>)
    ensures
        r@.len() == 3,
        r@[0].entry_id@ == "RUN-006"@ && r@[0].class@ == "blocked"@ && !r@[0].physically_deleted,
        r@[1].entry_id@ == "RUN-008"@ && r@[1].class@ == "guarded-legacy"@
            && !r@[1].physically_deleted,
        r@[2].entry_id@ == "M5-SE-001"@ && r@[2].class@ == "new-grant"@
            && !r@[2].physically_deleted,
{
    let mut r: Vec<M5LegacyPathManifest> = Vec::new();
    r.push(
        M5LegacyPathManifest {
            entry_id: String::from_str("RUN-006"),
            class: String::from_str("blocked"),
            physically_deleted: false,
        },
    );
    r.push(
        M5LegacyPathManifest {
            entry_id: String::from_str("RUN-008"),
            class: String::from_str("guarded-legacy"),
            physically_deleted: false,
        },
    );
    r.push(
        M5LegacyPathManifest {
            entry_id: String::from_str("M5-SE-001"),
            class: String::from_str("new-grant"),
            physically_deleted: false,
        },
    );
    r
}

} // verus!
