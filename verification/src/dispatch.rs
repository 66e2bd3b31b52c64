//! The authorized dispatch chain: decision, plan authorization, run, work
//! item, prepared attempt, minted grant, readback, dispatch and outbox item,
//! written in one unit of work through the orchestration store port, and the
//! readback that later makes a dispatched attempt runnable.

use vstd::prelude::*;
use crate::admission::bound_grant_text;
use crate::attempt::{AttemptState, PreparedAttempt};
use crate::calendar::{pad_decimal, padded, tdiv};
use crate::grant::{lemma_status_change_keeps_hash, ExecutionGrant, GrantMintInput, GrantStatus};
use crate::identity::{
    AttemptId, AuthorizationId, DispatchId, GrantId, NodeId, OrchestrationId, WorkItemId,
    WorkflowRunId,
};
use crate::orchestration::{AuthorizedExecutionRequest, AuthorizedExecutionResult, ChainFault};
use crate::outside::{new_uuid_v4, sha256_hex, sha256_hex_of};
use crate::records::{
    AuthorizationDecisionRecord, DispatchRecord, PlanAuthorizationRecord, WorkItemRecord,
    WorkerBindingRecord, WorkflowRunRecord,
};
use crate::text::{cat, clone_strings, is_blank, is_blank_seq, str_eq};

verus! {

// ---------------------------------------------------------------------------
// Outbox items
// ---------------------------------------------------------------------------

/// Where an outbox item is in its delivery.
#[derive(Debug, Clone, Copy, PartialEq, Eq, Structural)]
pub enum OutboxItemStatus {
    Declared,
    Available,
    Leased,
    Delivered,
    RetryWait,
    Poison,
    Cancelled,
    ResultReceived,
}

/// The status a stored status text stands for; unknown texts read as
/// cancelled, so an unreadable item is never delivered.
pub open spec fn outbox_status_of(value: Seq<char>) -> OutboxItemStatus {
    if value == "DECLARED"@ {
        OutboxItemStatus::Declared
    } else if value == "AVAILABLE"@ {
        OutboxItemStatus::Available
    } else if value == "LEASED"@ {
        OutboxItemStatus::Leased
    } else if value == "DELIVERED"@ {
        OutboxItemStatus::Delivered
    } else if value == "RETRY_WAIT"@ {
        OutboxItemStatus::RetryWait
    } else if value == "POISON"@ {
        OutboxItemStatus::Poison
    } else if value == "CANCELLED"@ {
        OutboxItemStatus::Cancelled
    } else if value == "RESULT_RECEIVED"@ {
        OutboxItemStatus::ResultReceived
    } else {
        OutboxItemStatus::Cancelled
    }
}

/// Reads a stored outbox status.
pub fn parse_outbox_status(value: &str) -> (r: OutboxItemStatus)
    ensures
        r == outbox_status_of(value@),
{
    if str_eq(value, "DECLARED") {
        OutboxItemStatus::Declared
    } else if str_eq(value, "AVAILABLE") {
        OutboxItemStatus::Available
    } else if str_eq(value, "LEASED") {
        OutboxItemStatus::Leased
    } else if str_eq(value, "DELIVERED") {
        OutboxItemStatus::Delivered
    } else if str_eq(value, "RETRY_WAIT") {
        OutboxItemStatus::RetryWait
    } else if str_eq(value, "POISON") {
        OutboxItemStatus::Poison
    } else if str_eq(value, "CANCELLED") {
        OutboxItemStatus::Cancelled
    } else if str_eq(value, "RESULT_RECEIVED") {
        OutboxItemStatus::ResultReceived
    } else {
        OutboxItemStatus::Cancelled
    }
}

/// The outbox item that asks for a granted attempt to be delivered.
#[derive(Debug, Clone)]
pub struct OutboxItem {
    pub outbox_item_id: String,
    pub owning_command_id: String,
    pub owning_command_receipt_ref: String,
    pub effect_id: String,
    pub capability_id: String,
    pub scope_ref: String,
    pub subject_ref: Option<String>,
    pub payload_ref: Option<String>,
    pub payload_hash: Option<String>,
    pub result_command_type: String,
    pub idempotency_key: String,
    pub correlation_id: Option<String>,
    pub status: OutboxItemStatus,
    pub created_at: String,
    pub attempt_count: Option<i64>,
}

// ---------------------------------------------------------------------------
// Small rules
// ---------------------------------------------------------------------------

/// The chain errors after which the recovery state is kept (committed)
/// rather than rolled back.
pub open spec fn handled_recovery(err: Seq<char>) -> bool {
    err == "grant_persist_failed"@ || err == "grant_readback_failed"@ || err
        == "grant_readback_hash_mismatch"@ || err == "dispatch_failed"@
}

/// Whether a chain error leaves a durable recovery (revoked grant and a
/// non-runnable attempt) that must be committed.
pub fn is_handled_recovery(err: &str) -> (b: bool)
    ensures
        b == handled_recovery(err@),
{
    str_eq(err, "grant_persist_failed") || str_eq(err, "grant_readback_failed") || str_eq(
        err,
        "grant_readback_hash_mismatch",
    ) || str_eq(err, "dispatch_failed")
}

/// `{:0w}` of a signed number: a minus sign counts toward the width.
pub open spec fn signed_padded(i: int, w: nat) -> Seq<char> {
    if i < 0 {
        "-"@ + padded((-i) as nat, if w > 0 { (w - 1) as nat } else { 0 })
    } else {
        padded(i as nat, w)
    }
}

/// The receipt time text of a millisecond clock reading, counted from the
/// epoch's first minute: `1970-01-01T00:00:{ms / 1000:02}.{ms % 1000:03}Z`.
pub open spec fn format_ms_text(ms: int) -> Seq<char> {
    "1970-01-01T00:00:"@ + signed_padded(tdiv(ms, 1000), 2) + "."@ + signed_padded(
        ms - tdiv(ms, 1000) * 1000,
        3,
    ) + "Z"@
}

fn signed_pad(i: i64, w: usize) -> (r: String)
    requires
        1 <= w <= 3,
    ensures
        r@ == signed_padded(i as int, w as nat),
{
    if i < 0 {
        let mag: u64 = if i == i64::MIN {
            9223372036854775808u64
        } else {
            (-i) as u64
        };
        let p = pad_decimal(mag, w - 1);
        cat("-", p.as_str())
    } else {
        pad_decimal(i as u64, w)
    }
}

/// The receipt time text of a millisecond clock reading.
pub fn format_ms(ms: i64) -> (r: String)
    ensures
        r@ == format_ms_text(ms as int),
{
    let secs = ms / 1000;
    let millis = ms % 1000;
    proof {
        assert(secs == tdiv(ms as int, 1000));
        assert(millis == ms - tdiv(ms as int, 1000) * 1000);
    }
    let s = signed_pad(secs, 2);
    let m = signed_pad(millis, 3);
    let mut r = cat("1970-01-01T00:00:", s.as_str());
    r.append(".");
    r.append(m.as_str());
    r.append("Z");
    r
}


// ---------------------------------------------------------------------------
// The store port
// ---------------------------------------------------------------------------

/// The orchestration store as the dispatch chain reads and writes it. The
/// chain runs inside one unit of work (`begin`, then `commit` or
/// `rollback`); receipts, events and audit records are written by the store
/// itself from the fields given.
pub trait OrchestrationWritePort {
    fn begin(&self) -> Result<(), String>;

    fn commit(&self) -> Result<(), String>;

    fn rollback(&self) -> Result<(), String>;

    /// Persists a committed command receipt; returns its receipt id and
    /// command id.
    fn commit_receipt(
        &self,
        command: &str,
        actor_id: &str,
        scope_ref: &str,
        correlation_id: &str,
        now_iso: &str,
    ) -> Result<(String, String), String>;

    fn record_event(
        &self,
        event_type: &str,
        actor_id: &str,
        scope_ref: &str,
        command_id: &str,
        correlation_id: &str,
        now_iso: &str,
    ) -> Result<(), String>;

    fn record_audit(
        &self,
        decision: &str,
        actor_id: &str,
        scope_ref: &str,
        subject_ref: &str,
        command_id: &str,
        correlation_id: &str,
        now_iso: &str,
    ) -> Result<(), String>;

    fn persist_decision(&self, record: &AuthorizationDecisionRecord) -> Result<(), String>;

    fn persist_authorization(&self, record: &PlanAuthorizationRecord) -> Result<(), String>;

    fn persist_run(&self, record: &WorkflowRunRecord) -> Result<(), String>;

    fn persist_work_item(&self, record: &WorkItemRecord) -> Result<(), String>;

    fn persist_binding(&self, record: &WorkerBindingRecord) -> Result<(), String>;

    fn persist_attempt(&self, attempt: &PreparedAttempt) -> Result<(), String>;

    fn load_attempt(&self, attempt_id: &str) -> Result<Option<PreparedAttempt>, String>;

    fn persist_grant(&self, grant: &ExecutionGrant) -> Result<(), String>;

    fn load_grant(&self, grant_id: &str) -> Result<Option<ExecutionGrant>, String>;

    fn create_outbox_item(&self, item: &OutboxItem) -> Result<(), String>;

    fn load_outbox_item(&self, outbox_item_id: &str) -> Result<Option<OutboxItem>, String>;

    fn update_outbox_status(&self, outbox_item_id: &str, status: OutboxItemStatus) -> Result<
        (),
        String,
    >;

    fn persist_dispatch(&self, record: &DispatchRecord) -> Result<(), String>;

    fn load_dispatch(&self, dispatch_id: &str) -> Result<Option<DispatchRecord>, String>;

    /// Moves a PENDING_DELIVERY dispatch at `expected_revision` to DISPATCHED.
    fn transition_dispatch_to_dispatched(&self, dispatch_id: &str, expected_revision: i64) -> Result<
        DispatchRecord,
        String,
    >;
}

// ---------------------------------------------------------------------------
// The journal of what is handed to the store
// ---------------------------------------------------------------------------

/// One call handed to the orchestration store, with the store's answer.
pub ghost enum PortCall {
    Begin(Result<(), String>),
    Commit(Result<(), String>),
    Rollback(Result<(), String>),
    Receipt(Seq<char>, Result<(String, String), String>),
    Event(Seq<char>, Result<(), String>),
    Audit(Seq<char>, Result<(), String>),
    Decision(AuthorizationDecisionRecord, Result<(), String>),
    Authorization(PlanAuthorizationRecord, Result<(), String>),
    Run(WorkflowRunRecord, Result<(), String>),
    WorkItem(WorkItemRecord, Result<(), String>),
    Binding(WorkerBindingRecord, Result<(), String>),
    PersistAttempt(PreparedAttempt, Result<(), String>),
    LoadAttempt(Seq<char>, Result<Option<PreparedAttempt>, String>),
    PersistGrant(ExecutionGrant, Result<(), String>),
    LoadGrant(Seq<char>, Result<Option<ExecutionGrant>, String>),
    CreateOutbox(OutboxItem, Result<(), String>),
    LoadOutbox(Seq<char>, Result<Option<OutboxItem>, String>),
    UpdateOutbox(Seq<char>, OutboxItemStatus, Result<(), String>),
    PersistDispatch(DispatchRecord, Result<(), String>),
    LoadDispatch(Seq<char>, Result<Option<DispatchRecord>, String>),
    TransitionDispatch(Seq<char>, i64, Result<DispatchRecord, String>),
}

/// The grant last persisted (and accepted) under `id` in `log`.
#[verifier::opaque]
pub open spec fn last_persisted_grant(log: Seq<PortCall>, id: Seq<char>) -> Option<ExecutionGrant>
    decreases log.len(),
{
    if log.len() == 0 {
        None
    } else {
        match log.last() {
            PortCall::PersistGrant(g, r) => if r is Ok && g.grant_id.0@ == id {
                Some(g)
            } else {
                last_persisted_grant(log.drop_last(), id)
            },
            _ => last_persisted_grant(log.drop_last(), id),
        }
    }
}

/// The store answered `c` as a working store does, given the calls before
/// it: every write and read succeeds, and a grant is read back exactly as it
/// was last persisted.
pub open spec fn answered_well(before: Seq<PortCall>, c: PortCall) -> bool {
    match c {
        PortCall::Begin(r) => r is Ok,
        PortCall::Commit(r) => r is Ok,
        PortCall::Rollback(r) => r is Ok,
        PortCall::Receipt(_, r) => r is Ok,
        PortCall::Event(_, r) => r is Ok,
        PortCall::Audit(_, r) => r is Ok,
        PortCall::Decision(_, r) => r is Ok,
        PortCall::Authorization(_, r) => r is Ok,
        PortCall::Run(_, r) => r is Ok,
        PortCall::WorkItem(_, r) => r is Ok,
        PortCall::Binding(_, r) => r is Ok,
        PortCall::PersistAttempt(_, r) => r is Ok,
        PortCall::LoadAttempt(_, r) => r is Ok,
        PortCall::PersistGrant(_, r) => r is Ok,
        PortCall::LoadGrant(id, r) => r is Ok && r->Ok_0 is Some && r->Ok_0 == last_persisted_grant(
            before,
            id,
        ),
        PortCall::CreateOutbox(_, r) => r is Ok,
        PortCall::LoadOutbox(_, r) => r is Ok,
        PortCall::UpdateOutbox(_, _, r) => r is Ok,
        PortCall::PersistDispatch(_, r) => r is Ok,
        PortCall::LoadDispatch(_, r) => r is Ok,
        PortCall::TransitionDispatch(_, _, r) => r is Ok,
    }
}

/// Every call in `log` from `start` on was answered well.
#[verifier::opaque]
pub open spec fn cooperative_from(log: Seq<PortCall>, start: int) -> bool {
    forall|i: int| start <= i < log.len() ==> #[trigger] answered_well(log.take(i), log[i])
}

/// `log` is `before` with more calls after it.
pub open spec fn extends(log: Seq<PortCall>, before: Seq<PortCall>) -> bool {
    log.len() >= before.len() && log.take(before.len() as int) == before
}


/// Whether `c` writes a dispatch or an outbox item.
pub open spec fn writes_dispatch(c: PortCall) -> bool {
    c is PersistDispatch || c is CreateOutbox
}

/// No call in `log` from `start` on writes a dispatch or an outbox item.
#[verifier::opaque]
pub open spec fn no_dispatch_writes(log: Seq<PortCall>, start: int) -> bool {
    forall|i: int| start <= i < log.len() ==> !writes_dispatch(#[trigger] log[i])
}

/// Whether `c` changes what the store holds: any call but a load, `begin`,
/// `commit` or `rollback`.
pub open spec fn is_write(c: PortCall) -> bool {
    !(c is LoadAttempt || c is LoadGrant || c is LoadOutbox || c is LoadDispatch || c is Begin
        || c is Commit || c is Rollback)
}

/// No call in `log` from `start` on changes what the store holds.
#[verifier::opaque]
pub open spec fn no_writes_from(log: Seq<PortCall>, start: int) -> bool {
    forall|i: int| start <= i < log.len() ==> !is_write(#[trigger] log[i])
}

/// `new` is `old` with one more call.
pub open spec fn journal_step(new: Seq<PortCall>, old: Seq<PortCall>) -> bool {
    &&& new.len() == old.len() + 1
    &&& forall|i: int| 0 <= i < old.len() ==> #[trigger] new[i] == old[i]
    &&& forall|start: int|
        0 <= start <= old.len() && #[trigger] cooperative_from(new, start) ==> cooperative_from(
            old,
            start,
        ) && answered_well(old, new[old.len() as int])
    &&& forall|start: int|
        0 <= start <= old.len() && #[trigger] no_dispatch_writes(old, start) && !writes_dispatch(
            new[old.len() as int],
        ) ==> no_dispatch_writes(new, start)
    &&& forall|start: int|
        0 <= start <= old.len() && #[trigger] no_writes_from(old, start) && !is_write(
            new[old.len() as int],
        ) ==> no_writes_from(new, start)
}

/// `new` is `old` with zero or more calls after it.
pub open spec fn journal_grows(new: Seq<PortCall>, old: Seq<PortCall>) -> bool {
    &&& new.len() >= old.len()
    &&& forall|i: int| 0 <= i < old.len() ==> #[trigger] new[i] == old[i]
    &&& forall|start: int|
        0 <= start <= old.len() && #[trigger] cooperative_from(new, start) ==> cooperative_from(
            old,
            start,
        )
}

/// Being answered well from an index on holds from any later index on.
proof fn lemma_cooperative_later(log: Seq<PortCall>, s0: int, s1: int)
    requires
        s0 <= s1,
        cooperative_from(log, s0),
    ensures
        cooperative_from(log, s1),
{
    reveal(cooperative_from);
}

/// An empty stretch of a journal writes no dispatch.
proof fn lemma_no_dispatch_empty(log: Seq<PortCall>)
    ensures
        no_dispatch_writes(log, log.len() as int),
{
    reveal(no_dispatch_writes);
}

/// Writing no dispatch before and after a point, no dispatch is written.
proof fn lemma_no_dispatch_join(log: Seq<PortCall>, mid: Seq<PortCall>, start: int)
    requires
        0 <= start <= mid.len(),
        journal_grows(log, mid),
        no_dispatch_writes(mid, start),
        no_dispatch_writes(log, mid.len() as int),
    ensures
        no_dispatch_writes(log, start),
{
    reveal(no_dispatch_writes);
    assert forall|i: int| start <= i < log.len() implies !writes_dispatch(#[trigger] log[i]) by {
        if i < mid.len() {
            assert(log[i] == mid[i]);
        }
    }
}

proof fn lemma_journal_push(log: Seq<PortCall>, c: PortCall)
    ensures
        journal_step(log.push(c), log),
{
    reveal(cooperative_from);
    reveal(no_dispatch_writes);
    reveal(no_writes_from);
    let new = log.push(c);
    assert forall|start: int| 0 <= start <= log.len() && #[trigger] cooperative_from(new, start) implies cooperative_from(
        log,
        start,
    ) && answered_well(log, new[log.len() as int]) by {
        assert forall|i: int| start <= i < log.len() implies #[trigger] answered_well(log.take(i), log[i]) by {
            assert(new.take(i) =~= log.take(i));
            assert(answered_well(new.take(i), new[i]));
        }
        assert(new.take(log.len() as int) =~= log);
        assert(answered_well(new.take(log.len() as int), new[log.len() as int]));
    }
    assert forall|start: int|
        0 <= start <= log.len() && #[trigger] no_dispatch_writes(log, start) && !writes_dispatch(
            new[log.len() as int],
        ) implies no_dispatch_writes(new, start) by {
        assert forall|i: int| start <= i < new.len() implies !writes_dispatch(#[trigger] new[i]) by {
            if i < log.len() {
                assert(new[i] == log[i]);
            }
        }
    }
    assert forall|start: int|
        0 <= start <= log.len() && #[trigger] no_writes_from(log, start) && !is_write(
            new[log.len() as int],
        ) implies no_writes_from(new, start) by {
        assert forall|i: int| start <= i < new.len() implies !is_write(#[trigger] new[i]) by {
            if i < log.len() {
                assert(new[i] == log[i]);
            }
        }
    }
}

/// An empty stretch of a journal changes nothing.
proof fn lemma_no_writes_empty(log: Seq<PortCall>)
    ensures
        no_writes_from(log, log.len() as int),
{
    reveal(no_writes_from);
}

/// A store port whose every call is journaled, with its answer, in `calls`.
pub struct Journaled<'a, S> {
    store: &'a S,
    calls: Ghost<Seq<PortCall>>,
}

impl<'a, S> Journaled<'a, S> {
    /// The calls handed to the store so far, with its answers.
    pub closed spec fn log(&self) -> Seq<PortCall> {
        self.calls@
    }
}

impl<'a, S: OrchestrationWritePort> Journaled<'a, S> {
    /// A journal over `store`, with no call in it yet.
    pub fn new(store: &'a S) -> (j: Self)
        ensures
            j.log() == Seq::<PortCall>::empty(),
    {
        Journaled { store, calls: Ghost(Seq::empty()) }
    }

    pub fn begin(&mut self) -> (r: Result<(), String>)
        ensures
            final(self).log() == old(self).log().push(PortCall::Begin(r)),
            journal_step(final(self).log(), old(self).log()),
    {
        let r = self.store.begin();
        proof {
            lemma_journal_push(self.calls@, PortCall::Begin(r));
        }
        self.calls = Ghost(self.calls@.push(PortCall::Begin(r)));
        r
    }

    pub fn commit(&mut self) -> (r: Result<(), String>)
        ensures
            final(self).log() == old(self).log().push(PortCall::Commit(r)),
            journal_step(final(self).log(), old(self).log()),
    {
        let r = self.store.commit();
        proof {
            lemma_journal_push(self.calls@, PortCall::Commit(r));
        }
        self.calls = Ghost(self.calls@.push(PortCall::Commit(r)));
        r
    }

    pub fn rollback(&mut self) -> (r: Result<(), String>)
        ensures
            final(self).log() == old(self).log().push(PortCall::Rollback(r)),
            journal_step(final(self).log(), old(self).log()),
    {
        let r = self.store.rollback();
        proof {
            lemma_journal_push(self.calls@, PortCall::Rollback(r));
        }
        self.calls = Ghost(self.calls@.push(PortCall::Rollback(r)));
        r
    }

    pub fn commit_receipt(&mut self, command: &str, actor_id: &str, scope_ref: &str, correlation_id: &str, now_iso: &str) -> (r: Result<(String, String), String>)
        ensures
            final(self).log() == old(self).log().push(PortCall::Receipt(command@, r)),
            journal_step(final(self).log(), old(self).log()),
    {
        let r = self.store.commit_receipt(command, actor_id, scope_ref, correlation_id, now_iso);
        proof {
            lemma_journal_push(self.calls@, PortCall::Receipt(command@, r));
        }
        self.calls = Ghost(self.calls@.push(PortCall::Receipt(command@, r)));
        r
    }

    pub fn record_event(&mut self, event_type: &str, actor_id: &str, scope_ref: &str, command_id: &str, correlation_id: &str, now_iso: &str) -> (r: Result<(), String>)
        ensures
            final(self).log() == old(self).log().push(PortCall::Event(event_type@, r)),
            journal_step(final(self).log(), old(self).log()),
    {
        let r = self.store.record_event(event_type, actor_id, scope_ref, command_id, correlation_id, now_iso);
        proof {
            lemma_journal_push(self.calls@, PortCall::Event(event_type@, r));
        }
        self.calls = Ghost(self.calls@.push(PortCall::Event(event_type@, r)));
        r
    }

    pub fn record_audit(&mut self, decision: &str, actor_id: &str, scope_ref: &str, subject_ref: &str, command_id: &str, correlation_id: &str, now_iso: &str) -> (r: Result<(), String>)
        ensures
            final(self).log() == old(self).log().push(PortCall::Audit(decision@, r)),
            journal_step(final(self).log(), old(self).log()),
    {
        let r = self.store.record_audit(decision, actor_id, scope_ref, subject_ref, command_id, correlation_id, now_iso);
        proof {
            lemma_journal_push(self.calls@, PortCall::Audit(decision@, r));
        }
        self.calls = Ghost(self.calls@.push(PortCall::Audit(decision@, r)));
        r
    }

    pub fn persist_decision(&mut self, record: &AuthorizationDecisionRecord) -> (r: Result<(), String>)
        ensures
            final(self).log() == old(self).log().push(PortCall::Decision(*record, r)),
            journal_step(final(self).log(), old(self).log()),
    {
        let r = self.store.persist_decision(record);
        proof {
            lemma_journal_push(self.calls@, PortCall::Decision(*record, r));
        }
        self.calls = Ghost(self.calls@.push(PortCall::Decision(*record, r)));
        r
    }

    pub fn persist_authorization(&mut self, record: &PlanAuthorizationRecord) -> (r: Result<(), String>)
        ensures
            final(self).log() == old(self).log().push(PortCall::Authorization(*record, r)),
            journal_step(final(self).log(), old(self).log()),
    {
        let r = self.store.persist_authorization(record);
        proof {
            lemma_journal_push(self.calls@, PortCall::Authorization(*record, r));
        }
        self.calls = Ghost(self.calls@.push(PortCall::Authorization(*record, r)));
        r
    }

    pub fn persist_run(&mut self, record: &WorkflowRunRecord) -> (r: Result<(), String>)
        ensures
            final(self).log() == old(self).log().push(PortCall::Run(*record, r)),
            journal_step(final(self).log(), old(self).log()),
    {
        let r = self.store.persist_run(record);
        proof {
            lemma_journal_push(self.calls@, PortCall::Run(*record, r));
        }
        self.calls = Ghost(self.calls@.push(PortCall::Run(*record, r)));
        r
    }

    pub fn persist_work_item(&mut self, record: &WorkItemRecord) -> (r: Result<(), String>)
        ensures
            final(self).log() == old(self).log().push(PortCall::WorkItem(*record, r)),
            journal_step(final(self).log(), old(self).log()),
    {
        let r = self.store.persist_work_item(record);
        proof {
            lemma_journal_push(self.calls@, PortCall::WorkItem(*record, r));
        }
        self.calls = Ghost(self.calls@.push(PortCall::WorkItem(*record, r)));
        r
    }

    pub fn persist_binding(&mut self, record: &WorkerBindingRecord) -> (r: Result<(), String>)
        ensures
            final(self).log() == old(self).log().push(PortCall::Binding(*record, r)),
            journal_step(final(self).log(), old(self).log()),
    {
        let r = self.store.persist_binding(record);
        proof {
            lemma_journal_push(self.calls@, PortCall::Binding(*record, r));
        }
        self.calls = Ghost(self.calls@.push(PortCall::Binding(*record, r)));
        r
    }

    pub fn persist_attempt(&mut self, attempt: &PreparedAttempt) -> (r: Result<(), String>)
        ensures
            final(self).log() == old(self).log().push(PortCall::PersistAttempt(*attempt, r)),
            journal_step(final(self).log(), old(self).log()),
    {
        let r = self.store.persist_attempt(attempt);
        proof {
            lemma_journal_push(self.calls@, PortCall::PersistAttempt(*attempt, r));
        }
        self.calls = Ghost(self.calls@.push(PortCall::PersistAttempt(*attempt, r)));
        r
    }

    pub fn load_attempt(&mut self, attempt_id: &str) -> (r: Result<Option<PreparedAttempt>, String>)
        ensures
            final(self).log() == old(self).log().push(PortCall::LoadAttempt(attempt_id@, r)),
            journal_step(final(self).log(), old(self).log()),
    {
        let r = self.store.load_attempt(attempt_id);
        proof {
            lemma_journal_push(self.calls@, PortCall::LoadAttempt(attempt_id@, r));
        }
        self.calls = Ghost(self.calls@.push(PortCall::LoadAttempt(attempt_id@, r)));
        r
    }

    pub fn persist_grant(&mut self, grant: &ExecutionGrant) -> (r: Result<(), String>)
        ensures
            final(self).log() == old(self).log().push(PortCall::PersistGrant(*grant, r)),
            journal_step(final(self).log(), old(self).log()),
    {
        let r = self.store.persist_grant(grant);
        proof {
            lemma_journal_push(self.calls@, PortCall::PersistGrant(*grant, r));
        }
        self.calls = Ghost(self.calls@.push(PortCall::PersistGrant(*grant, r)));
        r
    }

    pub fn load_grant(&mut self, grant_id: &str) -> (r: Result<Option<ExecutionGrant>, String>)
        ensures
            final(self).log() == old(self).log().push(PortCall::LoadGrant(grant_id@, r)),
            journal_step(final(self).log(), old(self).log()),
    {
        let r = self.store.load_grant(grant_id);
        proof {
            lemma_journal_push(self.calls@, PortCall::LoadGrant(grant_id@, r));
        }
        self.calls = Ghost(self.calls@.push(PortCall::LoadGrant(grant_id@, r)));
        r
    }

    pub fn create_outbox_item(&mut self, item: &OutboxItem) -> (r: Result<(), String>)
        ensures
            final(self).log() == old(self).log().push(PortCall::CreateOutbox(*item, r)),
            journal_step(final(self).log(), old(self).log()),
    {
        let r = self.store.create_outbox_item(item);
        proof {
            lemma_journal_push(self.calls@, PortCall::CreateOutbox(*item, r));
        }
        self.calls = Ghost(self.calls@.push(PortCall::CreateOutbox(*item, r)));
        r
    }

    pub fn load_outbox_item(&mut self, outbox_item_id: &str) -> (r: Result<Option<OutboxItem>, String>)
        ensures
            final(self).log() == old(self).log().push(PortCall::LoadOutbox(outbox_item_id@, r)),
            journal_step(final(self).log(), old(self).log()),
    {
        let r = self.store.load_outbox_item(outbox_item_id);
        proof {
            lemma_journal_push(self.calls@, PortCall::LoadOutbox(outbox_item_id@, r));
        }
        self.calls = Ghost(self.calls@.push(PortCall::LoadOutbox(outbox_item_id@, r)));
        r
    }

    pub fn update_outbox_status(&mut self, outbox_item_id: &str, status: OutboxItemStatus) -> (r: Result<(), String>)
        ensures
            final(self).log() == old(self).log().push(PortCall::UpdateOutbox(outbox_item_id@, status, r)),
            journal_step(final(self).log(), old(self).log()),
    {
        let r = self.store.update_outbox_status(outbox_item_id, status);
        proof {
            lemma_journal_push(self.calls@, PortCall::UpdateOutbox(outbox_item_id@, status, r));
        }
        self.calls = Ghost(self.calls@.push(PortCall::UpdateOutbox(outbox_item_id@, status, r)));
        r
    }

    pub fn persist_dispatch(&mut self, record: &DispatchRecord) -> (r: Result<(), String>)
        ensures
            final(self).log() == old(self).log().push(PortCall::PersistDispatch(*record, r)),
            journal_step(final(self).log(), old(self).log()),
    {
        let r = self.store.persist_dispatch(record);
        proof {
            lemma_journal_push(self.calls@, PortCall::PersistDispatch(*record, r));
        }
        self.calls = Ghost(self.calls@.push(PortCall::PersistDispatch(*record, r)));
        r
    }

    pub fn load_dispatch(&mut self, dispatch_id: &str) -> (r: Result<Option<DispatchRecord>, String>)
        ensures
            final(self).log() == old(self).log().push(PortCall::LoadDispatch(dispatch_id@, r)),
            journal_step(final(self).log(), old(self).log()),
    {
        let r = self.store.load_dispatch(dispatch_id);
        proof {
            lemma_journal_push(self.calls@, PortCall::LoadDispatch(dispatch_id@, r));
        }
        self.calls = Ghost(self.calls@.push(PortCall::LoadDispatch(dispatch_id@, r)));
        r
    }

    pub fn transition_dispatch_to_dispatched(&mut self, dispatch_id: &str, expected_revision: i64) -> (r: Result<DispatchRecord, String>)
        ensures
            final(self).log() == old(self).log().push(PortCall::TransitionDispatch(dispatch_id@, expected_revision, r)),
            journal_step(final(self).log(), old(self).log()),
    {
        let r = self.store.transition_dispatch_to_dispatched(dispatch_id, expected_revision);
        proof {
            lemma_journal_push(self.calls@, PortCall::TransitionDispatch(dispatch_id@, expected_revision, r));
        }
        self.calls = Ghost(self.calls@.push(PortCall::TransitionDispatch(dispatch_id@, expected_revision, r)));
        r
    }
}

// ---------------------------------------------------------------------------
// The chain
// ---------------------------------------------------------------------------

/// Which recovery the chain took before it stopped.
#[derive(Debug, Clone, Copy, PartialEq, Eq, Structural)]
pub enum ChainRecovery {
    PersistFault,
    ReadbackFault,
    ReadbackMismatch,
    DispatchFault,
}

/// What a run of the chain ended with: its result, the last attempt and
/// grant it persisted, and the recovery it took if any.
pub struct ChainOutcome {
    pub result: Result<AuthorizedExecutionResult, String>,
    pub attempt: Option<PreparedAttempt>,
    pub grant: Option<ExecutionGrant>,
    pub recovery: Option<ChainRecovery>,
    pub dispatch: Option<DispatchRecord>,
    pub outbox: Option<OutboxItem>,
}

/// A request with the fields the chain cannot run without.
pub open spec fn request_complete(r: AuthorizedExecutionRequest) -> bool {
    !is_blank_seq(r.project_id@) && !is_blank_seq(r.worker_role_session_id@) && !is_blank_seq(
        r.principal_actor_id@,
    )
}

/// A successful chain: no fault, a ready but non-runnable attempt bound to
/// an active grant of the request's project, a PENDING_DELIVERY dispatch of
/// that attempt and grant, and its AVAILABLE outbox item.
pub open spec fn success_sound(o: ChainOutcome, request: AuthorizedExecutionRequest, fault: ChainFault) -> bool {
    &&& fault == ChainFault::NoFault
    &&& o.recovery is None
    &&& o.attempt matches Some(a) && o.grant matches Some(g) && {
        &&& a.state == AttemptState::GrantReadyNonRunnable
        &&& !a.state.runnable()
        &&& a.grant_id == Some(g.grant_id)
        &&& g.status == GrantStatus::Active
        &&& g.attempt_id == a.attempt_id
        &&& g.hash_intact()
        &&& g.project_id@ == request.project_id@
        &&& a.project_id@ == request.project_id@
        &&& o.result->Ok_0.attempt_id == a.attempt_id
        &&& o.result->Ok_0.grant_id == Some(g.grant_id)
    }
    &&& o.dispatch matches Some(d) && o.outbox matches Some(x) && o.grant matches Some(g)
        && o.attempt matches Some(a) && {
        &&& d.state@ == "PENDING_DELIVERY"@
        &&& d.revision == 1
        &&& d.grant_id == g.grant_id.0
        &&& d.grant_revision == g.revision
        &&& d.attempt_id == a.attempt_id.0
        &&& d.project_id@ == request.project_id@
        &&& d.worker_role_session_id@ == request.worker_role_session_id@
        &&& d.outbox_item_id == x.outbox_item_id
        &&& d.effect_id == g.effect_key
        &&& x.status == OutboxItemStatus::Available
        &&& x.effect_id == g.effect_key
        &&& x.scope_ref@ == request.project_id@
        &&& x.payload_hash == Some(g.grant_hash)
        &&& o.result->Ok_0.dispatch_id == Some(DispatchId(d.dispatch_id))
        &&& o.result->Ok_0.outbox_item_id == Some(x.outbox_item_id)
    }
}

/// The error text of a recovery.
pub open spec fn recovery_error(k: ChainRecovery) -> Seq<char> {
    match k {
        ChainRecovery::PersistFault => "grant_persist_failed"@,
        ChainRecovery::ReadbackFault => "grant_readback_failed"@,
        ChainRecovery::ReadbackMismatch => "grant_readback_hash_mismatch"@,
        ChainRecovery::DispatchFault => "dispatch_failed"@,
    }
}

/// A recovery: the grant revoked and the attempt not runnable (back to
/// PREPARED_NON_RUNNABLE without a grant, or CANCELLED after a dispatch
/// fault), each injected fault answered by its own recovery.
pub open spec fn recovery_sound(o: ChainOutcome, k: ChainRecovery, fault: ChainFault) -> bool {
    &&& o.attempt matches Some(a) && o.grant matches Some(g) && {
        &&& g.status == GrantStatus::Revoked
        &&& !a.state.runnable()
        &&& (k == ChainRecovery::DispatchFault ==> a.state == AttemptState::Cancelled)
        &&& (k != ChainRecovery::DispatchFault ==> a.state == AttemptState::PreparedNonRunnable
            && a.grant_id is None)
    }
    &&& (k == ChainRecovery::PersistFault <==> fault == ChainFault::FailPersistGrant)
    &&& (k == ChainRecovery::ReadbackFault <==> fault == ChainFault::FailReadback)
    &&& (k == ChainRecovery::DispatchFault ==> fault == ChainFault::FailDispatch)
    &&& (k == ChainRecovery::ReadbackMismatch ==> fault == ChainFault::NoFault || fault
        == ChainFault::FailDispatch)
    &&& o.result matches Err(e) && e@ == recovery_error(k) && handled_recovery(e@)
}

/// The inputs on which the chain itself can run to its end: a complete
/// request whose grant can be minted and still be current at readback.
pub open spec fn chain_can_run(r: AuthorizedExecutionRequest) -> bool {
    &&& request_complete(r)
    &&& r.allowed_commands@.len() > 0
    &&& !is_blank_seq(r.cwd_ref@)
    &&& r.ttl_ms > 3
}

/// The recovery each injected fault calls for.
pub open spec fn fault_recovery(fault: ChainFault) -> Option<ChainRecovery> {
    match fault {
        ChainFault::NoFault => None,
        ChainFault::FailPersistGrant => Some(ChainRecovery::PersistFault),
        ChainFault::FailReadback => Some(ChainRecovery::ReadbackFault),
        ChainFault::FailDispatch => Some(ChainRecovery::DispatchFault),
    }
}

/// The last two calls of `log` persist the outcome's revoked grant and then
/// its non-runnable attempt.
pub open spec fn hands_recovery(log: Seq<PortCall>, o: ChainOutcome) -> bool {
    o.grant matches Some(g) && o.attempt matches Some(a) && ends_with_grant_and_attempt(log, g, a)
}

/// The last two calls of `log` persist `g` and then `a`, each accepted.
pub open spec fn ends_with_grant_and_attempt(
    log: Seq<PortCall>,
    g: ExecutionGrant,
    a: PreparedAttempt,
) -> bool {
    &&& log.len() >= 2
    &&& log[log.len() - 2] matches PortCall::PersistGrant(x, r) && x == g && r is Ok
    &&& log[log.len() - 1] matches PortCall::PersistAttempt(y, r) && y == a && r is Ok
}

/// The last five calls of `log` take the dispatch receipt, create the
/// outcome's outbox item, persist its dispatch, and record the event and the
/// audit, each accepted.
pub open spec fn hands_dispatch_tail(log: Seq<PortCall>, o: ChainOutcome) -> bool {
    let n = log.len() as int;
    &&& n >= 5
    &&& log[n - 5] matches PortCall::Receipt(_, r) && r is Ok
    &&& o.outbox matches Some(x) && log[n - 4] matches PortCall::CreateOutbox(y, r) && y == x && r is Ok
    &&& o.dispatch matches Some(d) && log[n - 3] matches PortCall::PersistDispatch(y, r) && y == d
        && r is Ok
    &&& log[n - 2] matches PortCall::Event(_, r) && r is Ok
    &&& log[n - 1] matches PortCall::Audit(_, r) && r is Ok
}

/// The last seven calls of `log` persist the outcome's grant and attempt and
/// then hand over its dispatch, each accepted.
pub open spec fn hands_dispatch(log: Seq<PortCall>, o: ChainOutcome) -> bool {
    &&& log.len() >= 7
    &&& o.grant matches Some(g) && o.attempt matches Some(a) && ends_with_grant_and_attempt(
        log.take(log.len() - 5),
        g,
        a,
    )
    &&& hands_dispatch_tail(log, o)
}

/// The guarantees of every chain outcome.
pub open spec fn chain_outcome_sound(o: ChainOutcome, request: AuthorizedExecutionRequest, fault: ChainFault) -> bool {
    &&& o.result is Ok ==> success_sound(o, request, fault)
    &&& o.recovery matches Some(k) ==> recovery_sound(o, k, fault)
}

fn fail(e: String, attempt: Option<PreparedAttempt>, grant: Option<ExecutionGrant>) -> (o: ChainOutcome)
    ensures
        o.result == Err::<AuthorizedExecutionResult, String>(e),
        o.recovery is None,
        o.attempt == attempt,
        o.grant == grant,
        o.dispatch is None,
        o.outbox is None,
{
    ChainOutcome { result: Err(e), attempt, grant, recovery: None, dispatch: None, outbox: None }
}

fn prefixed_uuid(prefix: &str) -> (r: String)
    ensures
        r@.len() == prefix@.len() + 36,
{
    let u = new_uuid_v4();
    cat(prefix, u.as_str())
}

/// Revokes the grant and returns the attempt to PREPARED_NON_RUNNABLE (or
/// cancels it), persisting both, then reports the recovery.
fn recover<'a, S: OrchestrationWritePort>(
    store: &mut Journaled<'a, S>,
    mut attempt: PreparedAttempt,
    mut grant: ExecutionGrant,
    at: i64,
    kind: ChainRecovery,
    fault: ChainFault,
) -> (o: ChainOutcome)
    requires
        attempt.revision < i64::MAX,
        grant.revision < i64::MAX,
        kind == ChainRecovery::DispatchFault ==> attempt.state == AttemptState::GrantReadyNonRunnable
            || attempt.state == AttemptState::PreparedNonRunnable || attempt.state
            == AttemptState::GrantPendingNonRunnable,
        kind != ChainRecovery::DispatchFault ==> attempt.state
            == AttemptState::GrantPendingNonRunnable || attempt.state
            == AttemptState::GrantReadyNonRunnable,
        (kind == ChainRecovery::PersistFault <==> fault == ChainFault::FailPersistGrant),
        (kind == ChainRecovery::ReadbackFault <==> fault == ChainFault::FailReadback),
        (kind == ChainRecovery::DispatchFault ==> fault == ChainFault::FailDispatch),
        (kind == ChainRecovery::ReadbackMismatch ==> fault == ChainFault::NoFault || fault
            == ChainFault::FailDispatch),
    ensures
        o.result is Err,
        o.dispatch is None,
        o.outbox is None,
        o.recovery is Some ==> o.recovery == Some(kind) && recovery_sound(o, kind, fault),
        journal_grows(final(store).log(), old(store).log()),
        forall|s: int|
            0 <= s <= old(store).log().len() && #[trigger] cooperative_from(final(store).log(), s)
                ==> o.recovery == Some(kind),
        o.recovery is Some ==> hands_recovery(final(store).log(), o),
        forall|s: int|
            0 <= s <= old(store).log().len() && #[trigger] no_dispatch_writes(old(store).log(), s)
                ==> no_dispatch_writes(final(store).log(), s),
{
    let ghost before = store.log();
    proof {
        lemma_no_dispatch_empty(store.log());
    }
    grant.revoke(at);
    let pg = store.persist_grant(&grant);
    if let Err(e) = pg {
        return fail(e, Some(attempt), Some(grant));
    }
    let moved = if kind == ChainRecovery::DispatchFault {
        attempt.cancel(at)
    } else {
        attempt.recover_grant_failure(at)
    };
    if let Err(e) = moved {
        return fail(e.to_display_string(), Some(attempt), Some(grant));
    }
    let pa = store.persist_attempt(&attempt);
    if let Err(e) = pa {
        return fail(e, Some(attempt), Some(grant));
    }
    proof {
        let fin = store.log();
        assert forall|s: int|
            0 <= s <= before.len() && #[trigger] no_dispatch_writes(before, s) implies no_dispatch_writes(
                fin,
                s,
            ) by {
            lemma_no_dispatch_join(fin, before, s);
        }
    }
    let msg = match kind {
        ChainRecovery::PersistFault => String::from_str("grant_persist_failed"),
        ChainRecovery::ReadbackFault => String::from_str("grant_readback_failed"),
        ChainRecovery::ReadbackMismatch => String::from_str("grant_readback_hash_mismatch"),
        ChainRecovery::DispatchFault => String::from_str("dispatch_failed"),
    };
    ChainOutcome {
        result: Err(msg),
        attempt: Some(attempt),
        grant: Some(grant),
        recovery: Some(kind),
        dispatch: None,
        outbox: None,
    }
}


/// The ids the preparation phase leaves for the grant and the dispatch.
struct Prepared {
    authorization_id: String,
    run_id: String,
    work_item_id: String,
    attempt_id: String,
}

/// The decision, plan authorization, run, work item, worker binding and
/// prepared attempt, which ends pending its grant.
fn prepare_attempt<'a, S: OrchestrationWritePort>(
    store: &mut Journaled<'a, S>,
    request: &AuthorizedExecutionRequest,
    correlation_id: &str,
    orchestration_id: &str,
    now_iso: &str,
) -> (r: Result<(Prepared, PreparedAttempt), ChainOutcome>)
    requires
        i64::MIN <= request.now_ms + request.ttl_ms <= i64::MAX,
        request.now_ms <= i64::MAX - 4,
    ensures
        journal_grows(final(store).log(), old(store).log()),
        no_dispatch_writes(final(store).log(), old(store).log().len() as int),
        r matches Ok((p, a)) ==> {
            &&& a.state == AttemptState::GrantPendingNonRunnable
            &&& a.grant_id is None
            &&& a.revision == 2
            &&& a.project_id == request.project_id
            &&& a.attempt_id.0 == p.attempt_id
        },
        r matches Err(o) ==> o.result is Err && o.recovery is None && o.dispatch is None
            && o.outbox is None,
        cooperative_from(final(store).log(), old(store).log().len() as int) ==> r is Ok,
{
    proof {
        lemma_no_dispatch_empty(store.log());
    }
    let project = request.project_id.as_str();
    let actor = request.deciding_actor_id.as_str();
    let now = request.now_ms;
    // decision
    let (decision_receipt, decision_command) = match store.commit_receipt(
        "RecordAuthorizationDecision",
        actor,
        project,
        correlation_id,
        now_iso,
    ) {
        Ok(ids) => ids,
        Err(e) => {
            return Err(fail(e, None, None));
        },
    };
    let decision = AuthorizationDecisionRecord {
        authorization_decision_id: new_uuid_v4(),
        proposal_id: request.proposal_id.clone(),
        proposal_revision: 1,
        project_id: request.project_id.clone(),
        orchestration_id: String::from_str(orchestration_id),
        deciding_actor_id: request.deciding_actor_id.clone(),
        decision: String::from_str("APPROVED"),
        constraint_ref: None,
        reason_code: None,
        idempotency_key: prefixed_uuid("plan-auth-"),
        recorded_by_command_receipt_ref: decision_receipt,
        decided_at_ms: now,
    };
    if let Err(e) = store.persist_decision(&decision) {
        return Err(fail(e, None, None));
    }
    if let Err(e) = store.record_event(
        "AuthorizationDecisionRecorded",
        actor,
        project,
        decision_command.as_str(),
        correlation_id,
        now_iso,
    ) {
        return Err(fail(e, None, None));
    }
    // plan authorization
    let (auth_receipt, _auth_command) = match store.commit_receipt(
        "CreatePlanAuthorization",
        actor,
        project,
        correlation_id,
        now_iso,
    ) {
        Ok(ids) => ids,
        Err(e) => {
            return Err(fail(e, None, None));
        },
    };
    let authorization_id = new_uuid_v4();
    let mut hash_material = cat(authorization_id.as_str(), ":");
    hash_material.append(project);
    hash_material.append(":");
    hash_material.append(request.scope_fingerprint.as_str());
    let authorization = PlanAuthorizationRecord {
        authorization_id: authorization_id.clone(),
        authorization_revision: 1,
        authorization_decision_id: decision.authorization_decision_id.clone(),
        proposal_id: request.proposal_id.clone(),
        proposal_revision: 1,
        project_id: request.project_id.clone(),
        orchestration_id: String::from_str(orchestration_id),
        authorized_scope_ref: request.scope_fingerprint.clone(),
        allowed_commands: clone_strings(&request.allowed_commands),
        allowed_object_refs: clone_strings(&request.object_refs),
        cwd_ref: request.cwd_ref.clone(),
        write_root_refs: clone_strings(&request.write_root_refs),
        risk_constraints: None,
        status: String::from_str("ACTIVE"),
        expires_at_ms: now + request.ttl_ms,
        revoked_at_ms: None,
        authorization_hash: sha256_hex(hash_material.as_str()),
        created_by_command_receipt_ref: auth_receipt,
    };
    if let Err(e) = store.persist_authorization(&authorization) {
        return Err(fail(e, None, None));
    }
    // run, work item, binding, prepared attempt
    let (run_receipt, _run_command) = match store.commit_receipt(
        "CreateAuthorizedRunAndPreparedAttempt",
        actor,
        project,
        correlation_id,
        now_iso,
    ) {
        Ok(ids) => ids,
        Err(e) => {
            return Err(fail(e, None, None));
        },
    };
    let run_id = new_uuid_v4();
    let work_item_id = new_uuid_v4();
    let attempt_id = new_uuid_v4();
    if let Err(e) = store.persist_run(
        &WorkflowRunRecord {
            workflow_run_id: run_id.clone(),
            project_id: request.project_id.clone(),
            orchestration_id: String::from_str(orchestration_id),
            authorization_id: authorization_id.clone(),
            authorization_revision: 1,
            workflow_ref: request.workflow_ref.clone(),
            status: String::from_str("CREATED"),
            revision: 1,
            created_by_command_receipt_ref: run_receipt.clone(),
            created_at_ms: now,
        },
    ) {
        return Err(fail(e, None, None));
    }
    if let Err(e) = store.persist_work_item(
        &WorkItemRecord {
            work_item_id: work_item_id.clone(),
            project_id: request.project_id.clone(),
            orchestration_id: String::from_str(orchestration_id),
            workflow_run_id: run_id.clone(),
            source_object_ref: request.source_object_ref.clone(),
            node_id: String::from_str("node-primary"),
            status: String::from_str("READY"),
            revision: 1,
            created_by_command_receipt_ref: run_receipt,
        },
    ) {
        return Err(fail(e, None, None));
    }
    let mut attempt = PreparedAttempt::new(
        AttemptId(attempt_id.clone()),
        request.project_id.clone(),
        OrchestrationId(String::from_str(orchestration_id)),
        WorkflowRunId(run_id.clone()),
        WorkItemId(work_item_id.clone()),
        NodeId(String::from_str("node-primary")),
        request.worker_role_session_id.clone(),
        AuthorizationId(authorization_id.clone()),
        1,
        now,
    );
    if let Err(e) = store.persist_binding(
        &WorkerBindingRecord {
            binding_id: new_uuid_v4(),
            project_id: request.project_id.clone(),
            orchestration_id: String::from_str(orchestration_id),
            workflow_run_id: run_id.clone(),
            work_item_id: work_item_id.clone(),
            attempt_id: attempt_id.clone(),
            worker_role_session_id: request.worker_role_session_id.clone(),
            principal_actor_id: request.principal_actor_id.clone(),
            created_at_ms: now,
        },
    ) {
        return Err(fail(e, Some(attempt), None));
    }
    if let Err(e) = store.persist_attempt(&attempt) {
        return Err(fail(e, Some(attempt), None));
    }
    if let Err(e) = attempt.begin_grant_binding(now + 1) {
        return Err(fail(e.to_display_string(), Some(attempt), None));
    }
    if let Err(e) = store.persist_attempt(&attempt) {
        return Err(fail(e, Some(attempt), None));
    }
    Ok((Prepared { authorization_id, run_id, work_item_id, attempt_id }, attempt))
}

/// The minted grant, persisted MINT_PENDING and bound to the attempt, which
/// is persisted too; an injected persist fault takes its recovery instead.
fn mint_and_bind<'a, S: OrchestrationWritePort>(
    store: &mut Journaled<'a, S>,
    request: &AuthorizedExecutionRequest,
    fault: ChainFault,
    ids: &Prepared,
    attempt: PreparedAttempt,
    correlation_id: &str,
    orchestration_id: &str,
    now_iso: &str,
) -> (r: Result<(PreparedAttempt, ExecutionGrant), ChainOutcome>)
    requires
        i64::MIN <= request.now_ms + request.ttl_ms <= i64::MAX,
        request.now_ms <= i64::MAX - 4,
        attempt.state == AttemptState::GrantPendingNonRunnable,
        attempt.grant_id is None,
        attempt.revision == 2,
        attempt.project_id == request.project_id,
        attempt.attempt_id.0 == ids.attempt_id,
    ensures
        journal_grows(final(store).log(), old(store).log()),
        no_dispatch_writes(final(store).log(), old(store).log().len() as int),
        r matches Ok((a, g)) ==> {
            &&& fault != ChainFault::FailPersistGrant
            &&& a.state == AttemptState::GrantPendingNonRunnable
            &&& a.grant_id == Some(g.grant_id)
            &&& a.revision == 3
            &&& a.project_id == request.project_id
            &&& a.attempt_id.0 == ids.attempt_id
            &&& g.status == GrantStatus::MintPending
            &&& g.hash_intact()
            &&& g.revision == 1
            &&& g.attempt_id == a.attempt_id
            &&& g.project_id == request.project_id
            &&& g.expires_at_ms == request.now_ms + request.ttl_ms
            &&& last_persisted_grant(final(store).log(), g.grant_id.0@) == Some(g)
            &&& final(store).log().len() >= old(store).log().len() + 2
        },
        r matches Err(o) ==> {
            &&& o.result is Err
            &&& o.dispatch is None
            &&& o.outbox is None
            &&& o.recovery matches Some(k) ==> recovery_sound(o, k, fault) && hands_recovery(
                final(store).log(),
                o,
            )
        },
        chain_can_run(*request) && cooperative_from(final(store).log(), old(store).log().len() as int)
            ==> if fault == ChainFault::FailPersistGrant {
            r matches Err(o) && o.recovery == Some(ChainRecovery::PersistFault)
        } else {
            r is Ok
        },
{
    proof {
        lemma_no_dispatch_empty(store.log());
    }
    let mut attempt = attempt;
    let run_id = &ids.run_id;
    let work_item_id = &ids.work_item_id;
    let attempt_id = &ids.attempt_id;
    let authorization_id = &ids.authorization_id;
    let project = request.project_id.as_str();
    let actor = request.deciding_actor_id.as_str();
    let now = request.now_ms;
    // grant
    let (mint_receipt, _mint_command) = match store.commit_receipt(
        "MintAttemptScopedGrant",
        actor,
        project,
        correlation_id,
        now_iso,
    ) {
        Ok(ids) => ids,
        Err(e) => {
            return Err(fail(e, Some(attempt), None));
        },
    };
    let minted = ExecutionGrant::mint(
        GrantMintInput {
            project_id: request.project_id.clone(),
            orchestration_id: OrchestrationId(String::from_str(orchestration_id)),
            workflow_run_id: WorkflowRunId(run_id.clone()),
            work_item_id: WorkItemId(work_item_id.clone()),
            attempt_id: AttemptId(attempt_id.clone()),
            authorization_id: AuthorizationId(authorization_id.clone()),
            authorization_revision: 1,
            principal_actor_id: request.principal_actor_id.clone(),
            worker_role_session_id: request.worker_role_session_id.clone(),
            scope_fingerprint: request.scope_fingerprint.clone(),
            allowed_commands: clone_strings(&request.allowed_commands),
            cwd_ref: request.cwd_ref.clone(),
            write_root_refs: clone_strings(&request.write_root_refs),
            object_refs: clone_strings(&request.object_refs),
            policy_decision_ref: request.policy_decision_ref.clone(),
            issued_at_ms: now,
            expires_at_ms: now + request.ttl_ms,
            idempotency_key: prefixed_uuid("grant-"),
            effect_key: prefixed_uuid("effect-"),
            created_by_command_receipt_ref: mint_receipt,
        },
    );
    let mut grant = match minted {
        Ok(g) => g,
        Err(e) => {
            return Err(fail(e, Some(attempt), None));
        },
    };
    if fault == ChainFault::FailPersistGrant {
        return Err(recover(store, attempt, grant, now + 2, ChainRecovery::PersistFault, fault));
    }
    if let Err(e) = store.persist_grant(&grant) {
        return Err(fail(e, Some(attempt), Some(grant)));
    }
    let ghost after_grant = store.log();
    if let Err(e) = attempt.attach_minted_grant(GrantId(grant.grant_id.0.clone()), now + 2) {
        return Err(fail(e.to_display_string(), Some(attempt), Some(grant)));
    }
    if let Err(e) = store.persist_attempt(&attempt) {
        return Err(fail(e, Some(attempt), Some(grant)));
    }
    proof {
        let fin = store.log();
        assert(fin.drop_last() =~= after_grant);
        assert(after_grant.drop_last() =~= after_grant.drop_last());
        reveal_with_fuel(last_persisted_grant, 2);
        assert(last_persisted_grant(after_grant, grant.grant_id.0@) == Some(grant));
    }
    Ok((attempt, grant))
}

/// The readback of the persisted grant, which makes it ACTIVE, and the
/// attempt then GRANT_READY, both persisted; an injected fault or a readback
/// mismatch takes its recovery instead.
fn read_back_and_ready<'a, S: OrchestrationWritePort>(
    store: &mut Journaled<'a, S>,
    request: &AuthorizedExecutionRequest,
    fault: ChainFault,
    attempt: PreparedAttempt,
    grant: ExecutionGrant,
) -> (r: Result<(PreparedAttempt, ExecutionGrant), ChainOutcome>)
    requires
        request.now_ms <= i64::MAX - 4,
        fault != ChainFault::FailPersistGrant,
        attempt.state == AttemptState::GrantPendingNonRunnable,
        attempt.grant_id == Some(grant.grant_id),
        attempt.revision == 3,
        attempt.project_id == request.project_id,
        grant.status == GrantStatus::MintPending,
        grant.hash_intact(),
        grant.revision == 1,
        grant.attempt_id == attempt.attempt_id,
        grant.project_id == request.project_id,
        grant.expires_at_ms == request.now_ms + request.ttl_ms,
        last_persisted_grant(old(store).log(), grant.grant_id.0@) == Some(grant),
    ensures
        journal_grows(final(store).log(), old(store).log()),
        r matches Ok((a, g)) ==> {
            &&& fault == ChainFault::NoFault
            &&& a.state == AttemptState::GrantReadyNonRunnable
            &&& !a.state.runnable()
            &&& a.grant_id == Some(g.grant_id)
            &&& g.status == GrantStatus::Active
            &&& g.attempt_id == a.attempt_id
            &&& g.hash_intact()
            &&& g.project_id@ == request.project_id@
            &&& a.project_id@ == request.project_id@
            &&& a.attempt_id == attempt.attempt_id
            &&& final(store).log().len() >= old(store).log().len() + 2
            &&& ends_with_grant_and_attempt(final(store).log(), g, a)
            &&& no_dispatch_writes(final(store).log(), old(store).log().len() as int)
        },
        r matches Err(o) ==> {
            &&& o.result is Err
            &&& o.dispatch is None
            &&& o.outbox is None
            &&& o.recovery matches Some(k) ==> recovery_sound(o, k, fault) && hands_recovery(
                final(store).log(),
                o,
            ) && no_dispatch_writes(final(store).log(), old(store).log().len() as int)
        },
        request.ttl_ms > 3 && cooperative_from(final(store).log(), old(store).log().len() as int)
            ==> match fault_recovery(fault) {
            None => r is Ok,
            Some(k) => r matches Err(o) && o.recovery == Some(k),
        },
{
    proof {
        lemma_no_dispatch_empty(store.log());
    }
    let mut attempt = attempt;
    let mut grant = grant;
    let now = request.now_ms;
    if fault == ChainFault::FailReadback {
        return Err(recover(store, attempt, grant, now + 3, ChainRecovery::ReadbackFault, fault));
    }
    // readback
    let expected_hash = grant.grant_hash.clone();
    let loaded = match store.load_grant(grant.grant_id.as_str()) {
        Ok(Some(g)) => g,
        Ok(None) => {
            return Err(fail(String::from_str("grant_missing_after_persist"), Some(attempt), Some(grant)));
        },
        Err(e) => {
            return Err(fail(e, Some(attempt), Some(grant)));
        },
    };
    if !str_eq(loaded.grant_hash.as_str(), expected_hash.as_str()) {
        return Err(recover(store, attempt, grant, now + 3, ChainRecovery::ReadbackMismatch, fault));
    }
    let ghost minted = grant;
    if let Err(e) = grant.confirm_readback(expected_hash.as_str(), now + 3) {
        return Err(fail(e, Some(attempt), Some(grant)));
    }
    proof {
        lemma_status_change_keeps_hash(minted, GrantStatus::Active);
    }
    if let Err(e) = store.persist_grant(&grant) {
        return Err(fail(e, Some(attempt), Some(grant)));
    }
    let bound = GrantId(grant.grant_id.0.clone());
    if let Err(e) = attempt.confirm_grant_ready(&bound, now + 3) {
        return Err(fail(e.to_display_string(), Some(attempt), Some(grant)));
    }
    if let Err(e) = store.persist_attempt(&attempt) {
        return Err(fail(e, Some(attempt), Some(grant)));
    }
    if fault == ChainFault::FailDispatch {
        return Err(recover(store, attempt, grant, now + 4, ChainRecovery::DispatchFault, fault));
    }
    Ok((attempt, grant))
}

/// The grant: minted, persisted, bound to the attempt, read back and made
/// ACTIVE, with the attempt then GRANT_READY; an injected fault or a
/// readback mismatch takes its recovery instead.
fn secure_grant<'a, S: OrchestrationWritePort>(
    store: &mut Journaled<'a, S>,
    request: &AuthorizedExecutionRequest,
    fault: ChainFault,
    ids: &Prepared,
    attempt: PreparedAttempt,
    correlation_id: &str,
    orchestration_id: &str,
    now_iso: &str,
) -> (r: Result<(PreparedAttempt, ExecutionGrant), ChainOutcome>)
    requires
        i64::MIN <= request.now_ms + request.ttl_ms <= i64::MAX,
        request.now_ms <= i64::MAX - 4,
        attempt.state == AttemptState::GrantPendingNonRunnable,
        attempt.grant_id is None,
        attempt.revision == 2,
        attempt.project_id == request.project_id,
        attempt.attempt_id.0 == ids.attempt_id,
    ensures
        journal_grows(final(store).log(), old(store).log()),
        r matches Ok((a, g)) ==> {
            &&& fault == ChainFault::NoFault
            &&& a.state == AttemptState::GrantReadyNonRunnable
            &&& !a.state.runnable()
            &&& a.grant_id == Some(g.grant_id)
            &&& g.status == GrantStatus::Active
            &&& g.attempt_id == a.attempt_id
            &&& g.hash_intact()
            &&& g.project_id@ == request.project_id@
            &&& a.project_id@ == request.project_id@
            &&& a.attempt_id.0 == ids.attempt_id
            &&& final(store).log().len() >= old(store).log().len() + 2
            &&& final(store).log()[final(store).log().len() - 2] matches PortCall::PersistGrant(x, pr)
                && x == g && pr is Ok
            &&& final(store).log()[final(store).log().len() - 1] matches PortCall::PersistAttempt(
                y,
                pr,
            ) && y == a && pr is Ok
            &&& no_dispatch_writes(final(store).log(), old(store).log().len() as int)
        },
        r matches Err(o) ==> {
            &&& o.result is Err
            &&& o.dispatch is None
            &&& o.outbox is None
            &&& o.recovery matches Some(k) ==> recovery_sound(o, k, fault) && hands_recovery(
                final(store).log(),
                o,
            ) && no_dispatch_writes(final(store).log(), old(store).log().len() as int)
        },
        chain_can_run(*request) && cooperative_from(final(store).log(), old(store).log().len() as int)
            ==> match fault_recovery(fault) {
            None => r is Ok,
            Some(k) => r matches Err(o) && o.recovery == Some(k),
        },
{
    let ghost start = store.log().len() as int;
    let (attempt, grant) = match mint_and_bind(
        store,
        request,
        fault,
        ids,
        attempt,
        correlation_id,
        orchestration_id,
        now_iso,
    ) {
        Ok(ag) => ag,
        Err(o) => {
            return Err(o);
        },
    };
    let ghost mid = store.log();
    let r = read_back_and_ready(store, request, fault, attempt, grant);
    proof {
        let fin = store.log();
        if chain_can_run(*request) && cooperative_from(fin, start) {
            lemma_cooperative_later(fin, start, mid.len() as int);
        }
        if r is Ok || r->Err_0.recovery is Some {
            lemma_no_dispatch_join(fin, mid, start);
        }
    }
    r
}

/// The dispatch of a granted attempt: its receipt, AVAILABLE outbox item,
/// PENDING_DELIVERY dispatch, event and audit record.
fn dispatch_granted<'a, S: OrchestrationWritePort>(
    store: &mut Journaled<'a, S>,
    request: &AuthorizedExecutionRequest,
    ids: Prepared,
    attempt: PreparedAttempt,
    grant: ExecutionGrant,
    correlation_id: &str,
    orchestration_id: &str,
    now_iso: &str,
) -> (o: ChainOutcome)
    requires
        request.now_ms <= i64::MAX - 4,
        attempt.state == AttemptState::GrantReadyNonRunnable,
        !attempt.state.runnable(),
        attempt.grant_id == Some(grant.grant_id),
        grant.status == GrantStatus::Active,
        grant.attempt_id == attempt.attempt_id,
        grant.hash_intact(),
        grant.project_id@ == request.project_id@,
        attempt.project_id@ == request.project_id@,
        attempt.attempt_id.0 == ids.attempt_id,
    ensures
        journal_grows(final(store).log(), old(store).log()),
        o.result is Ok ==> success_sound(o, *request, ChainFault::NoFault) && final(store).log().len()
            == old(store).log().len() + 5 && hands_dispatch_tail(final(store).log(), o)
            && o.grant == Some(grant) && o.attempt == Some(attempt),
        o.result is Err ==> o.recovery is None,
        cooperative_from(final(store).log(), old(store).log().len() as int) ==> o.result is Ok,
{
    let run_id = ids.run_id;
    let work_item_id = ids.work_item_id;
    let attempt_id = ids.attempt_id;
    let authorization_id = ids.authorization_id;
    let project = request.project_id.as_str();
    let actor = request.deciding_actor_id.as_str();
    let now = request.now_ms;
    // dispatch
    let (dispatch_receipt, dispatch_command) = match store.commit_receipt(
        "DispatchGrantedAttempt",
        actor,
        project,
        correlation_id,
        now_iso,
    ) {
        Ok(ids) => ids,
        Err(e) => {
            return fail(e, Some(attempt), Some(grant));
        },
    };
    let dispatch_id = new_uuid_v4();
    let outbox_item_id = new_uuid_v4();
    let outbox = OutboxItem {
        outbox_item_id: outbox_item_id.clone(),
        owning_command_id: dispatch_command.clone(),
        owning_command_receipt_ref: dispatch_receipt.clone(),
        effect_id: grant.effect_key.clone(),
        capability_id: String::from_str("m5.dispatch.granted-attempt"),
        scope_ref: request.project_id.clone(),
        subject_ref: Some(attempt_id.clone()),
        payload_ref: Some(cat("grant:", grant.grant_id.as_str())),
        payload_hash: Some(grant.grant_hash.clone()),
        result_command_type: String::from_str("RecordDispatchReadback"),
        idempotency_key: cat("dispatch-", grant.grant_id.as_str()),
        correlation_id: Some(String::from_str(correlation_id)),
        status: OutboxItemStatus::Available,
        created_at: String::from_str(now_iso),
        attempt_count: Some(0),
    };
    if let Err(e) = store.create_outbox_item(&outbox) {
        return fail(e, Some(attempt), Some(grant));
    }
    let dispatch = DispatchRecord {
            dispatch_id: dispatch_id.clone(),
            project_id: request.project_id.clone(),
            orchestration_id: String::from_str(orchestration_id),
            workflow_run_id: run_id.clone(),
            work_item_id: work_item_id.clone(),
            node_id: String::from_str("node-primary"),
            attempt_id: attempt_id.clone(),
            grant_id: grant.grant_id.0.clone(),
            grant_revision: grant.revision,
            worker_role_session_id: request.worker_role_session_id.clone(),
            outbox_item_id: outbox_item_id.clone(),
            effect_id: grant.effect_key.clone(),
            state: String::from_str("PENDING_DELIVERY"),
            revision: 1,
            created_by_command_receipt_ref: dispatch_receipt,
            created_at_ms: now + 4,
        };
    if let Err(e) = store.persist_dispatch(&dispatch) {
        return fail(e, Some(attempt), Some(grant));
    }
    if let Err(e) = store.record_event(
        "ExecutionAttemptDispatchRequested",
        actor,
        project,
        dispatch_command.as_str(),
        correlation_id,
        now_iso,
    ) {
        return fail(e, Some(attempt), Some(grant));
    }
    if let Err(e) = store.record_audit(
        "DISPATCHED",
        actor,
        project,
        grant.grant_id.as_str(),
        dispatch_command.as_str(),
        correlation_id,
        now_iso,
    ) {
        return fail(e, Some(attempt), Some(grant));
    }
    let result = AuthorizedExecutionResult {
        authorization_id: AuthorizationId(authorization_id),
        workflow_run_id: WorkflowRunId(run_id),
        work_item_id: WorkItemId(work_item_id),
        attempt_id: AttemptId(attempt.attempt_id.0.clone()),
        grant_id: Some(GrantId(grant.grant_id.0.clone())),
        dispatch_id: Some(DispatchId(dispatch_id)),
        outbox_item_id: Some(outbox_item_id),
    };
    ChainOutcome {
        result: Ok(result),
        attempt: Some(attempt),
        grant: Some(grant),
        recovery: None,
        dispatch: Some(dispatch),
        outbox: Some(outbox),
    }
}
/// Runs the whole chain inside an open unit of work, stopping at the first
/// failure. An injected fault, or a readback that does not return the
/// persisted hash, takes its recovery: the grant is revoked and the attempt
/// made non-runnable, both persisted.
pub fn run_dispatch_chain<'a, S: OrchestrationWritePort>(
    store: &mut Journaled<'a, S>,
    request: &AuthorizedExecutionRequest,
    fault: ChainFault,
    correlation_id: &str,
    orchestration_id: &str,
    now_iso: &str,
) -> (o: ChainOutcome)
    requires
        i64::MIN <= request.now_ms + request.ttl_ms <= i64::MAX,
        request.now_ms <= i64::MAX - 4,
    ensures
        chain_outcome_sound(o, *request, fault),
        journal_grows(final(store).log(), old(store).log()),
        chain_can_run(*request) && cooperative_from(final(store).log(), old(store).log().len() as int)
            ==> match fault_recovery(fault) {
            None => o.result is Ok,
            Some(k) => o.recovery == Some(k),
        },
        o.result is Ok ==> hands_dispatch(final(store).log(), o),
        o.recovery is Some ==> hands_recovery(final(store).log(), o) && no_dispatch_writes(
            final(store).log(),
            old(store).log().len() as int,
        ),
{
    let ghost start = store.log().len() as int;
    let (ids, attempt) = match prepare_attempt(store, request, correlation_id, orchestration_id, now_iso) {
        Ok(p) => p,
        Err(o) => {
            return o;
        },
    };
    let ghost after_prepare = store.log();
    let (attempt, grant) = match secure_grant(
        store,
        request,
        fault,
        &ids,
        attempt,
        correlation_id,
        orchestration_id,
        now_iso,
    ) {
        Ok(ag) => ag,
        Err(o) => {
            proof {
                let fin = store.log();
                if chain_can_run(*request) && cooperative_from(fin, start) {
                    lemma_cooperative_later(fin, start, after_prepare.len() as int);
                }
                if o.recovery is Some {
                    lemma_no_dispatch_join(fin, after_prepare, start);
                }
            }
            return o;
        },
    };
    let ghost after_grant = store.log();
    let o = dispatch_granted(store, request, ids, attempt, grant, correlation_id, orchestration_id, now_iso);
    proof {
        let fin = store.log();
        if o.result is Ok {
            assert(fin.take(fin.len() - 5) =~= after_grant);
        }
        if chain_can_run(*request) && cooperative_from(fin, start) {
            lemma_cooperative_later(fin, start, after_grant.len() as int);
        }
    }
    o
}


/// How a unit of work ends.
#[derive(Debug, Clone, Copy, PartialEq, Eq, Structural)]
pub enum UowAction {
    Commit,
    Rollback,
}

/// A chain's unit of work is committed on success and on a handled
/// recovery (so the revoked grant and non-runnable attempt are durable), and
/// rolled back on any other failure.
pub open spec fn uow_action_of(result: Result<AuthorizedExecutionResult, String>) -> UowAction {
    match result {
        Ok(_) => UowAction::Commit,
        Err(e) => if handled_recovery(e@) {
            UowAction::Commit
        } else {
            UowAction::Rollback
        },
    }
}

/// The end of the unit of work a chain outcome calls for.
pub fn unit_of_work_action(o: &ChainOutcome) -> (a: UowAction)
    ensures
        a == uow_action_of(o.result),
        a == UowAction::Commit <==> (o.result is Ok || (o.result matches Err(e) && handled_recovery(
            e@,
        ))),
{
    match &o.result {
        Ok(_) => UowAction::Commit,
        Err(e) => if is_handled_recovery(e.as_str()) {
            UowAction::Commit
        } else {
            UowAction::Rollback
        },
    }
}

/// A successful dispatch run answers with the result of a sound chain
/// outcome: its attempt GRANT_READY and not runnable, bound to an ACTIVE
/// grant of the project with an intact hash, and dispatch and outbox ids.
pub open spec fn dispatched_from_sound_chain(
    res: AuthorizedExecutionResult,
    request: AuthorizedExecutionRequest,
    fault: ChainFault,
) -> bool {
    exists|o: ChainOutcome|
        #[trigger] chain_outcome_sound(o, request, fault) && o.result == Ok::<
            AuthorizedExecutionResult,
            String,
        >(res)
}

/// The seven calls that end `log` hand over a dispatched chain's records:
/// its grant ACTIVE with an intact hash and its attempt GRANT_READY (not
/// runnable), bound to that grant, then its AVAILABLE outbox item and its
/// PENDING_DELIVERY dispatch, each accepted and each named in `res`.
pub open spec fn dispatch_written(
    log: Seq<PortCall>,
    res: AuthorizedExecutionResult,
    request: AuthorizedExecutionRequest,
) -> bool {
    let n = log.len() as int;
    let g = log[n - 7]->PersistGrant_0;
    let a = log[n - 6]->PersistAttempt_0;
    let x = log[n - 4]->CreateOutbox_0;
    let d = log[n - 3]->PersistDispatch_0;
    &&& n >= 7
    &&& log[n - 7] is PersistGrant && log[n - 7]->PersistGrant_1 is Ok
    &&& log[n - 6] is PersistAttempt && log[n - 6]->PersistAttempt_1 is Ok
    &&& log[n - 4] is CreateOutbox && log[n - 4]->CreateOutbox_1 is Ok
    &&& log[n - 3] is PersistDispatch && log[n - 3]->PersistDispatch_1 is Ok
    &&& g.status == GrantStatus::Active
    &&& g.hash_intact()
    &&& g.project_id@ == request.project_id@
    &&& res.grant_id == Some(g.grant_id)
    &&& a.state == AttemptState::GrantReadyNonRunnable
    &&& !a.state.runnable()
    &&& a.grant_id == Some(g.grant_id)
    &&& a.attempt_id == res.attempt_id
    &&& x.status == OutboxItemStatus::Available
    &&& res.outbox_item_id == Some(x.outbox_item_id)
    &&& d.state@ == "PENDING_DELIVERY"@
    &&& res.dispatch_id == Some(DispatchId(d.dispatch_id))
    &&& d.grant_id == g.grant_id.0
    &&& d.attempt_id == a.attempt_id.0
    &&& d.outbox_item_id == x.outbox_item_id
}

/// The two calls that end `log` hand over recovery `k`: the grant persisted
/// REVOKED, then the attempt persisted non-runnable (CANCELLED after a
/// dispatch fault, else PREPARED_NON_RUNNABLE without a grant).
pub open spec fn recovery_written(log: Seq<PortCall>, k: ChainRecovery) -> bool {
    let n = log.len() as int;
    &&& n >= 2
    &&& log[n - 2] matches PortCall::PersistGrant(g, gr) && gr is Ok && g.status == GrantStatus::Revoked
    &&& log[n - 1] matches PortCall::PersistAttempt(a, ar) && ar is Ok && !a.state.runnable() && (k
        == ChainRecovery::DispatchFault ==> a.state == AttemptState::Cancelled) && (k
        != ChainRecovery::DispatchFault ==> a.state == AttemptState::PreparedNonRunnable
        && a.grant_id is None)
}

/// How the unit of work that `log` opened at `start` was closed, and what it
/// answered: a refused `begin` ends it and is the answer; otherwise it ends
/// with a rollback, for an answer that is no handled recovery, or with a
/// commit, for a success or a handled recovery, and a refused commit is the
/// answer.
pub open spec fn unit_of_work_closed(
    log: Seq<PortCall>,
    start: int,
    r: Result<AuthorizedExecutionResult, String>,
) -> bool {
    &&& log.len() > start
    &&& log[start] matches PortCall::Begin(b) && if b is Err {
        log.len() == start + 1 && r == Err::<AuthorizedExecutionResult, String>(b->Err_0)
    } else {
        &&& log.len() >= start + 2
        &&& log.last() is Commit || log.last() is Rollback
        &&& log.last() matches PortCall::Rollback(_) ==> uow_action_of(r) == UowAction::Rollback
        &&& log.last() matches PortCall::Commit(c) ==> (c is Ok ==> uow_action_of(r)
            == UowAction::Commit) && (c is Err ==> r == Err::<AuthorizedExecutionResult, String>(
            c->Err_0,
        ))
    }
}

/// Runs the authorized dispatch chain in one unit of work: a fresh
/// correlation and orchestration id, the chain, then commit on success or
/// on a handled recovery (so the revoked grant and non-runnable attempt are
/// durable), and rollback on any other failure.
pub fn prepare_and_dispatch<'a, S: OrchestrationWritePort>(
    store: &mut Journaled<'a, S>,
    request: AuthorizedExecutionRequest,
    fault: ChainFault,
) -> (r: Result<AuthorizedExecutionResult, String>)
    requires
        i64::MIN <= request.now_ms + request.ttl_ms <= i64::MAX,
        request.now_ms <= i64::MAX - 4,
    ensures
        !request_complete(request) ==> (r matches Err(e) && e@ == "request_incomplete"@),
        r matches Ok(res) ==> request_complete(request) && fault == ChainFault::NoFault
            && res.grant_id is Some && res.dispatch_id is Some && res.outbox_item_id is Some,
        fault != ChainFault::NoFault ==> r is Err,
        r matches Ok(res) ==> dispatched_from_sound_chain(res, request, fault),
        journal_grows(final(store).log(), old(store).log()),
        !request_complete(request) ==> final(store).log() == old(store).log(),
        request_complete(request) ==> unit_of_work_closed(
            final(store).log(),
            old(store).log().len() as int,
            r,
        ),
        r matches Ok(res) ==> final(store).log().last() matches PortCall::Commit(c) && c is Ok
            && dispatch_written(final(store).log().drop_last(), res, request),
        chain_can_run(request) && cooperative_from(final(store).log(), old(store).log().len() as int)
            ==> match fault_recovery(fault) {
            None => r is Ok,
            Some(k) => r matches Err(e) && e@ == recovery_error(k) && final(store).log().last() is Commit
                && recovery_written(final(store).log().drop_last(), k) && no_dispatch_writes(
                final(store).log(),
                old(store).log().len() as int,
            ),
        },
{
    let ghost before = store.log();
    if is_blank(request.project_id.as_str()) || is_blank(request.worker_role_session_id.as_str())
        || is_blank(request.principal_actor_id.as_str()) {
        return Err(String::from_str("request_incomplete"));
    }
    let now_iso = format_ms(request.now_ms);
    let correlation_id = new_uuid_v4();
    let orchestration_id = new_uuid_v4();
    if let Err(e) = store.begin() {
        return Err(e);
    }
    let ghost after_begin = store.log();
    let outcome = run_dispatch_chain(
        store,
        &request,
        fault,
        correlation_id.as_str(),
        orchestration_id.as_str(),
        now_iso.as_str(),
    );
    let ghost chained = store.log();
    proof {
        assert(chain_outcome_sound(outcome, request, fault));
        assert(chained[before.len() as int] == after_begin[before.len() as int]);
        if outcome.result is Ok {
            let t = chained.take(chained.len() - 5);
            assert(t[t.len() - 2] == chained[chained.len() - 7]);
            assert(t[t.len() - 1] == chained[chained.len() - 6]);
            assert(dispatch_written(chained, outcome.result->Ok_0, request));
        }
        if let Some(k) = outcome.recovery {
            assert(recovery_written(chained, k));
        }
    }
    let keep = unit_of_work_action(&outcome) == UowAction::Commit;
    if keep {
        if let Err(e) = store.commit() {
            proof {
                assert(store.log().drop_last() =~= chained);
            }
            return Err(e);
        }
    } else {
        let _ = store.rollback();
    }
    proof {
        let fin = store.log();
        assert(fin.drop_last() =~= chained);
        if chain_can_run(request) && cooperative_from(fin, before.len() as int) {
            lemma_cooperative_later(chained, before.len() as int, after_begin.len() as int);
            if outcome.recovery is Some {
                lemma_no_dispatch_empty(before);
                lemma_no_dispatch_join(chained, after_begin, before.len() as int);
            }
        }
    }
    outcome.result
}

/// The dispatch-state, attempt and grant checks of a readback, before the
/// outbox item is read.
pub fn check_dispatch_and_attempt(d: &DispatchRecord, a: &PreparedAttempt) -> (r: Result<(), String>)
    ensures
        r is Ok <==> (d.state@ == "PENDING_DELIVERY"@ && a.state == AttemptState::GrantReadyNonRunnable
            && a.grant_id is Some && bound_grant_text(*a) == d.grant_id@),
        r matches Err(e) ==> {
            &&& d.state@ != "PENDING_DELIVERY"@ ==> e@ == "dispatch_not_pending_delivery"@
            &&& d.state@ == "PENDING_DELIVERY"@ && a.state != AttemptState::GrantReadyNonRunnable
                ==> e@ == "attempt_not_grant_ready"@
            &&& d.state@ == "PENDING_DELIVERY"@ && a.state == AttemptState::GrantReadyNonRunnable
                && a.grant_id is None ==> e@ == "attempt_missing_bound_grant"@
            &&& d.state@ == "PENDING_DELIVERY"@ && a.state == AttemptState::GrantReadyNonRunnable
                && a.grant_id is Some && bound_grant_text(*a) != d.grant_id@ ==> e@
                == "attempt_dispatch_grant_join_failed"@
        },
{
    if !str_eq(d.state.as_str(), "PENDING_DELIVERY") {
        return Err(String::from_str("dispatch_not_pending_delivery"));
    }
    if a.state != AttemptState::GrantReadyNonRunnable {
        return Err(String::from_str("attempt_not_grant_ready"));
    }
    match &a.grant_id {
        None => Err(String::from_str("attempt_missing_bound_grant")),
        Some(g) => {
            if !str_eq(g.as_str(), d.grant_id.as_str()) {
                Err(String::from_str("attempt_dispatch_grant_join_failed"))
            } else {
                Ok(())
            }
        },
    }
}

/// The outbox checks of a readback.
pub fn check_outbox(d: &DispatchRecord, o: &OutboxItem) -> (r: Result<(), String>)
    ensures
        r is Ok <==> (o.status == OutboxItemStatus::Available && o.effect_id@ == d.effect_id@),
        o.status != OutboxItemStatus::Available ==> (r matches Err(e) && e@
            == "outbox_not_available"@),
        o.status == OutboxItemStatus::Available && o.effect_id@ != d.effect_id@ ==> (r matches Err(
            e,
        ) && e@ == "outbox_effect_join_failed"@),
{
    if o.status != OutboxItemStatus::Available {
        return Err(String::from_str("outbox_not_available"));
    }
    if !str_eq(o.effect_id.as_str(), d.effect_id.as_str()) {
        return Err(String::from_str("outbox_effect_join_failed"));
    }
    Ok(())
}

/// What a readback admits: a PENDING_DELIVERY dispatch, its attempt ready
/// (not runnable) and bound to the dispatch's grant, and its outbox item
/// AVAILABLE for the same effect.
pub open spec fn readback_admitted(d: DispatchRecord, a: PreparedAttempt, x: OutboxItem) -> bool {
    &&& d.state@ == "PENDING_DELIVERY"@
    &&& a.state == AttemptState::GrantReadyNonRunnable
    &&& a.grant_id is Some
    &&& bound_grant_text(a) == d.grant_id@
    &&& x.status == OutboxItemStatus::Available
    &&& x.effect_id@ == d.effect_id@
}

/// The attempt was made runnable only after its dispatch, the attempt
/// itself and its outbox item were admitted for readback.
pub open spec fn dispatched_after_admission(a: PreparedAttempt) -> bool {
    exists|d0: DispatchRecord, a0: PreparedAttempt, x0: OutboxItem|
        #[trigger] readback_admitted(d0, a0, x0) && a0.attempt_id == a.attempt_id
            && d0.grant_id@ == bound_grant_text(a)
}

/// What a failed readback leaves behind in `log` from `start` on: nothing
/// written at all, or writes in a unit of work that was rolled back (or
/// whose commit the store refused).
pub open spec fn readback_left_nothing(log: Seq<PortCall>, start: int) -> bool {
    ||| no_writes_from(log, start)
    ||| log.len() > start && log.last() is Rollback
    ||| log.len() > start && (log.last() matches PortCall::Commit(c) && c is Err)
}

/// The four calls that end `log` move dispatch `d` to DISPATCHED, mark its
/// outbox item DELIVERED, persist attempt `a`, and commit, each accepted.
pub open spec fn readback_written(log: Seq<PortCall>, d: DispatchRecord, a: PreparedAttempt) -> bool {
    let n = log.len() as int;
    &&& n >= 4
    &&& log[n - 4] matches PortCall::TransitionDispatch(_, _, t) && t == Ok::<DispatchRecord, String>(d)
    &&& log[n - 3] matches PortCall::UpdateOutbox(id, st, u) && id == d.outbox_item_id@ && st
        == OutboxItemStatus::Delivered && u is Ok
    &&& log[n - 2] matches PortCall::PersistAttempt(x, p) && x == a && p is Ok
    &&& log[n - 1] matches PortCall::Commit(c) && c is Ok
}

/// After read-only admission has passed: in one unit of work the dispatch
/// becomes DISPATCHED, its outbox item DELIVERED, and only then the attempt
/// DISPATCHED, the one state from which it may run.
pub fn complete_dispatch_readback<'a, S: OrchestrationWritePort>(
    store: &mut Journaled<'a, S>,
    dispatch_id: &str,
    now_ms: i64,
) -> (r: Result<(DispatchRecord, PreparedAttempt), String>)
    ensures
        r matches Ok((d, a)) ==> a.state == AttemptState::Dispatched && a.state.runnable()
            && a.grant_id is Some && a.updated_at_ms == now_ms,
        r matches Ok((d, a)) ==> d.state@ == "DISPATCHED"@ && d.dispatch_id@ == dispatch_id@
            && bound_grant_text(a) == d.grant_id@,
        r matches Ok((d, a)) ==> dispatched_after_admission(a),
        journal_grows(final(store).log(), old(store).log()),
        r matches Ok((d, a)) ==> readback_written(final(store).log(), d, a),
        r is Err ==> readback_left_nothing(final(store).log(), old(store).log().len() as int),
{
    let ghost start = store.log().len() as int;
    proof {
        lemma_no_writes_empty(store.log());
    }
    let dispatch = match store.load_dispatch(dispatch_id) {
        Ok(Some(d)) => d,
        Ok(None) => {
            return Err(String::from_str("dispatch_not_found"));
        },
        Err(e) => {
            return Err(e);
        },
    };
    if !str_eq(dispatch.state.as_str(), "PENDING_DELIVERY") {
        return Err(String::from_str("dispatch_not_pending_delivery"));
    }
    let mut attempt = match store.load_attempt(dispatch.attempt_id.as_str()) {
        Ok(Some(a)) => a,
        Ok(None) => {
            return Err(String::from_str("attempt_not_found"));
        },
        Err(e) => {
            return Err(e);
        },
    };
    if let Err(e) = check_dispatch_and_attempt(&dispatch, &attempt) {
        return Err(e);
    }
    let outbox = match store.load_outbox_item(dispatch.outbox_item_id.as_str()) {
        Ok(Some(o)) => o,
        Ok(None) => {
            return Err(String::from_str("outbox_not_found"));
        },
        Err(e) => {
            return Err(e);
        },
    };
    if let Err(e) = check_outbox(&dispatch, &outbox) {
        return Err(e);
    }
    let ghost admitted = attempt;
    assert(readback_admitted(dispatch, admitted, outbox));
    if attempt.revision == i64::MAX {
        return Err(String::from_str("attempt_revision_exhausted"));
    }
    if let Err(e) = store.begin() {
        return Err(e);
    }
    let result: Result<(DispatchRecord, PreparedAttempt), String> = match store.transition_dispatch_to_dispatched(
        dispatch.dispatch_id.as_str(),
        dispatch.revision,
    ) {
        Err(e) => Err(e),
        Ok(dispatched) => if !str_eq(dispatched.state.as_str(), "DISPATCHED") || !str_eq(
            dispatched.dispatch_id.as_str(),
            dispatch_id,
        ) || !str_eq(dispatched.grant_id.as_str(), dispatch.grant_id.as_str()) {
            // The transition must hand back this dispatch, now DISPATCHED.
            Err(String::from_str("dispatch_transition_not_committed"))
        } else {
            match store.update_outbox_status(
            dispatched.outbox_item_id.as_str(),
            OutboxItemStatus::Delivered,
        ) {
            Err(e) => Err(e),
            Ok(()) => match attempt.mark_dispatched(now_ms) {
                Err(e) => Err(e.to_display_string()),
                Ok(()) => match store.persist_attempt(&attempt) {
                    Err(e) => Err(e),
                    Ok(()) => Ok((dispatched, attempt)),
                },
            },
        }
        },
    };
    match &result {
        Ok(_) => {
            if let Err(e) = store.commit() {
                return Err(e);
            }
        },
        Err(_) => {
            let _ = store.rollback();
        },
    }
    result
}

} // verus!
