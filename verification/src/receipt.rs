//! Runtime receipts and their independent verifier, which trusts nothing the
//! receipt's producer says: the receipt must join the stored grant and dispatch.

use vstd::prelude::*;
use crate::grant::{ExecutionGrant, GrantStatus};
use crate::identity::{AttemptId, GrantId, RuntimeReceiptId};
use crate::ports::OrchestrationReadPort;
use crate::control::{CoreRead, CoreReads};
use crate::records::DispatchRecord;
use crate::text::{cat, is_blank, is_blank_seq, str_eq};

verus! {

/// How completely the runtime's enforcement was observed.
#[derive(Debug, Clone, Copy, PartialEq, Eq, Structural)]
pub enum EnforcementStatus {
    Enforced,
    Degraded,
    OutcomeUnknown,
}

impl EnforcementStatus {
    pub open spec fn name(self) -> Seq<char> {
        match self {
            EnforcementStatus::Enforced => "OK"@,
            EnforcementStatus::Degraded => "DEGRADED"@,
            EnforcementStatus::OutcomeUnknown => "OUTCOME_UNKNOWN"@,
        }
    }

    pub open spec fn from_name(s: Seq<char>) -> Option<EnforcementStatus> {
        if s == "OK"@ {
            Some(EnforcementStatus::Enforced)
        } else if s == "DEGRADED"@ {
            Some(EnforcementStatus::Degraded)
        } else if s == "OUTCOME_UNKNOWN"@ {
            Some(EnforcementStatus::OutcomeUnknown)
        } else {
            None
        }
    }

    pub fn as_str(&self) -> (r: &'static str)
        ensures
            r@ == self.name(),
    {
        match self {
            EnforcementStatus::Enforced => "OK",
            EnforcementStatus::Degraded => "DEGRADED",
            EnforcementStatus::OutcomeUnknown => "OUTCOME_UNKNOWN",
        }
    }

    pub fn parse(value: &str) -> (r: Result<EnforcementStatus, String>)
        ensures
            match EnforcementStatus::from_name(value@) {
                Some(s) => r == Ok::<EnforcementStatus, String>(s),
                None => r matches Err(e) && e@ == "unknown_enforcement:"@ + value@,
            },
    {
        if str_eq(value, "OK") {
            Ok(EnforcementStatus::Enforced)
        } else if str_eq(value, "DEGRADED") {
            Ok(EnforcementStatus::Degraded)
        } else if str_eq(value, "OUTCOME_UNKNOWN") {
            Ok(EnforcementStatus::OutcomeUnknown)
        } else {
            Err(cat("unknown_enforcement:", value))
        }
    }

    /// Only a fully enforced run may promote its claims to facts.
    pub fn allows_fact_promotion(&self) -> (b: bool)
        ensures
            b == (*self == EnforcementStatus::Enforced),
    {
        match self {
            EnforcementStatus::Enforced => true,
            _ => false,
        }
    }
}

/// The enforcement name of every status parses back to it.
pub proof fn lemma_enforcement_name_round_trip(s: EnforcementStatus)
    ensures
        EnforcementStatus::from_name(s.name()) == Some(s),
{
    reveal_strlit("OK");
    reveal_strlit("DEGRADED");
    reveal_strlit("OUTCOME_UNKNOWN");
    assert("OK"@.len() == 2);
    assert("DEGRADED"@.len() == 8);
    assert("OUTCOME_UNKNOWN"@.len() == 15);
}

/// A receipt produced by a runtime for one admitted step.
#[derive(Debug, Clone)]
pub struct RuntimeReceipt {
    pub receipt_id: RuntimeReceiptId,
    pub grant_id: GrantId,
    pub attempt_id: AttemptId,
    pub dispatch_id: String,
    pub effect_id: String,
    pub trace_hash: String,
    pub actor_binding: String,
    pub enforcement_status: EnforcementStatus,
    pub outcome: String,
}

impl RuntimeReceipt {
    /// Two receipts carry the same texts and status.
    pub open spec fn same_as(self, other: RuntimeReceipt) -> bool {
        &&& self.receipt_id.0@ == other.receipt_id.0@
        &&& self.grant_id.0@ == other.grant_id.0@
        &&& self.attempt_id.0@ == other.attempt_id.0@
        &&& self.dispatch_id@ == other.dispatch_id@
        &&& self.effect_id@ == other.effect_id@
        &&& self.trace_hash@ == other.trace_hash@
        &&& self.actor_binding@ == other.actor_binding@
        &&& self.enforcement_status == other.enforcement_status
        &&& self.outcome@ == other.outcome@
    }

    /// A copy of the receipt.
    pub fn duplicate(&self) -> (r: RuntimeReceipt)
        ensures
            r.same_as(*self),
    {
        RuntimeReceipt {
            receipt_id: RuntimeReceiptId::new(String::from_str(self.receipt_id.as_str())),
            grant_id: GrantId::new(String::from_str(self.grant_id.as_str())),
            attempt_id: AttemptId::new(String::from_str(self.attempt_id.as_str())),
            dispatch_id: String::from_str(self.dispatch_id.as_str()),
            effect_id: String::from_str(self.effect_id.as_str()),
            trace_hash: String::from_str(self.trace_hash.as_str()),
            actor_binding: String::from_str(self.actor_binding.as_str()),
            enforcement_status: self.enforcement_status,
            outcome: String::from_str(self.outcome.as_str()),
        }
    }
}

/// A receipt the independent verifier accepted.
#[derive(Debug, Clone)]
pub struct VerifiedRuntimeReceipt {
    pub receipt: RuntimeReceipt,
}

/// Why a receipt's own fields are refused, before anything is loaded.
pub open spec fn receipt_shape_refusal(r: RuntimeReceipt) -> Option<Seq<char>> {
    if is_blank_seq(r.trace_hash@) || is_blank_seq(r.effect_id@) {
        Some("receipt_missing_trace_or_effect"@)
    } else {
        None
    }
}

/// Why a receipt does not join its stored grant, or `None`.
pub open spec fn receipt_grant_refusal(r: RuntimeReceipt, g: ExecutionGrant) -> Option<Seq<char>> {
    if g.attempt_id.0@ != r.attempt_id.0@ {
        Some("receipt_attempt_mismatch"@)
    } else if g.worker_role_session_id@ != r.actor_binding@ {
        Some("receipt_actor_binding_mismatch"@)
    } else if g.status.m1_name() != "ACTIVE"@ || g.revoked_at_ms is Some {
        Some("receipt_grant_not_active"@)
    } else {
        None
    }
}

/// Why a receipt does not join its stored dispatch, or `None`.
pub open spec fn receipt_dispatch_refusal(r: RuntimeReceipt, d: DispatchRecord) -> Option<Seq<char>> {
    if d.grant_id@ != r.grant_id.0@ || d.attempt_id@ != r.attempt_id.0@ || d.effect_id@
        != r.effect_id@ {
        Some("receipt_effect_or_dispatch_mismatch"@)
    } else if d.worker_role_session_id@ != r.actor_binding@ {
        Some("receipt_dispatch_actor_mismatch"@)
    } else {
        None
    }
}

pub fn check_receipt_shape(receipt: &RuntimeReceipt) -> (r: Result<(), String>)
    ensures
        match receipt_shape_refusal(*receipt) {
            None => r is Ok,
            Some(m) => r matches Err(e) && e@ == m,
        },
{
    if is_blank(receipt.trace_hash.as_str()) || is_blank(receipt.effect_id.as_str()) {
        return Err(String::from_str("receipt_missing_trace_or_effect"));
    }
    Ok(())
}

pub fn check_receipt_grant(receipt: &RuntimeReceipt, grant: &ExecutionGrant) -> (r: Result<(), String>)
    ensures
        match receipt_grant_refusal(*receipt, *grant) {
            None => r is Ok,
            Some(m) => r matches Err(e) && e@ == m,
        },
{
    if !(grant.attempt_id == receipt.attempt_id) {
        return Err(String::from_str("receipt_attempt_mismatch"));
    }
    if !str_eq(grant.worker_role_session_id.as_str(), receipt.actor_binding.as_str()) {
        return Err(String::from_str("receipt_actor_binding_mismatch"));
    }
    if !str_eq(grant.status.as_m1_str(), "ACTIVE") || grant.revoked_at_ms.is_some() {
        return Err(String::from_str("receipt_grant_not_active"));
    }
    Ok(())
}

pub fn check_receipt_dispatch(receipt: &RuntimeReceipt, dispatch: &DispatchRecord) -> (r: Result<(), String>)
    ensures
        match receipt_dispatch_refusal(*receipt, *dispatch) {
            None => r is Ok,
            Some(m) => r matches Err(e) && e@ == m,
        },
{
    if !str_eq(dispatch.grant_id.as_str(), receipt.grant_id.as_str()) || !str_eq(
        dispatch.attempt_id.as_str(),
        receipt.attempt_id.as_str(),
    ) || !str_eq(dispatch.effect_id.as_str(), receipt.effect_id.as_str()) {
        return Err(String::from_str("receipt_effect_or_dispatch_mismatch"));
    }
    if !str_eq(dispatch.worker_role_session_id.as_str(), receipt.actor_binding.as_str()) {
        return Err(String::from_str("receipt_dispatch_actor_mismatch"));
    }
    Ok(())
}

/// The production verifier, independent of the worker and of the report's producer.
pub struct IndependentRuntimeReceiptVerifier;

/// The verifier's reads from `start` on ask for the receipt's grant and
/// then, if there is a second read, for its dispatch.
pub open spec fn receipt_reads_asked(log: Seq<CoreRead>, start: int, receipt: RuntimeReceipt) -> bool {
    &&& 0 <= start < log.len()
    &&& log[start] is Grant && log[start]->Grant_0 == receipt.grant_id.0@
    &&& log.len() > start + 1 ==> log[start + 1] is Dispatch && log[start + 1]->Dispatch_0
        == receipt.dispatch_id@
}

/// The receipt is well formed and the store answered both reads with
/// records under the receipt's ids, the grant joining the receipt.
pub open spec fn receipt_reads_found(log: Seq<CoreRead>, start: int, receipt: RuntimeReceipt) -> bool {
    let g = log[start]->Grant_1->Ok_0->Some_0;
    let d = log[start + 1]->Dispatch_1->Ok_0->Some_0;
    &&& receipt_shape_refusal(receipt) is None
    &&& 0 <= start && log.len() >= start + 2
    &&& log[start] is Grant && log[start]->Grant_1 is Ok && log[start]->Grant_1->Ok_0 is Some
    &&& log[start + 1] is Dispatch && log[start + 1]->Dispatch_1 is Ok && log[start + 1]->Dispatch_1->Ok_0
        is Some
    &&& g.grant_id.0@ == receipt.grant_id.0@
    &&& receipt_grant_refusal(receipt, g) is None
    &&& d.dispatch_id@ == receipt.dispatch_id@
}

impl IndependentRuntimeReceiptVerifier {
    /// Accepts a receipt only if its trace and effect are present and it joins
    /// the grant stored under its grant id and the dispatch stored under its
    /// dispatch id (so a forged effect or attempt is refused with
    /// `receipt_effect_or_dispatch_mismatch`, as `check_receipt_dispatch` states).
    pub fn verify<'a, P: OrchestrationReadPort>(&self, store: &mut CoreReads<'a, P>, receipt: &RuntimeReceipt) -> (r: Result<
        VerifiedRuntimeReceipt,
        String,
    >)
        ensures
            receipt_shape_refusal(*receipt) matches Some(m) ==> (r matches Err(e) && e@ == m),
            r matches Ok(v) ==> v.receipt.same_as(*receipt) && receipt_shape_refusal(*receipt) is None
                && (exists|g: ExecutionGrant, d: DispatchRecord|
                #![trigger receipt_grant_refusal(*receipt, g), receipt_dispatch_refusal(*receipt, d)]
                g.grant_id.0@ == receipt.grant_id.0@ && d.dispatch_id@ == receipt.dispatch_id@
                    && receipt_grant_refusal(*receipt, g) is None && receipt_dispatch_refusal(
                    *receipt,
                    d,
                ) is None),
            receipt_shape_refusal(*receipt) is None ==> receipt_reads_asked(final(store).log(), old(store).log().len() as int, *receipt),
            receipt_reads_found(final(store).log(), old(store).log().len() as int, *receipt) ==> match receipt_dispatch_refusal(
                *receipt,
                final(store).log()[old(store).log().len() as int + 1]->Dispatch_1->Ok_0->Some_0,
            ) {
                Some(m) => r matches Err(e) && e@ == m,
                None => r is Ok,
            },
    {
        let ghost start = store.log().len() as int;
        check_receipt_shape(receipt)?;
        let grant = match store.load_grant(receipt.grant_id.as_str())? {
            Some(g) => g,
            None => {
                return Err(String::from_str("receipt_grant_not_found"));
            },
        };
        // The store is keyed by id: a record under another id is not found.
        if !str_eq(grant.grant_id.as_str(), receipt.grant_id.as_str()) {
            return Err(String::from_str("receipt_grant_not_found"));
        }
        check_receipt_grant(receipt, &grant)?;
        let dispatch = match store.load_dispatch(receipt.dispatch_id.as_str())? {
            Some(d) => d,
            None => {
                return Err(String::from_str("receipt_dispatch_not_found"));
            },
        };
        if !str_eq(dispatch.dispatch_id.as_str(), receipt.dispatch_id.as_str()) {
            return Err(String::from_str("receipt_dispatch_not_found"));
        }
        check_receipt_dispatch(receipt, &dispatch)?;
        assert(receipt_grant_refusal(*receipt, grant) is None);
        assert(receipt_dispatch_refusal(*receipt, dispatch) is None);
        Ok(VerifiedRuntimeReceipt { receipt: receipt.duplicate() })
    }
}

} // verus!
