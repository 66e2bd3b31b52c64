use std::cell::RefCell;
use std::collections::HashMap;

use productized_shell::attempt::{AttemptState, PreparedAttempt};
use productized_shell::control::{
    CoreReads, compose_backend_receipt, load_exact_chain, independent_reviewer_from_authority, LoadedExactChain, StoreCounts, AssessmentJoin, ClaimJoin, ExactChainReadPort,
    ExecutionReadbackJoin,
};
use productized_shell::dispatch::{unit_of_work_action, ChainOutcome, Journaled, UowAction};
use productized_shell::dispatch::{
    complete_dispatch_readback, format_ms, is_handled_recovery, parse_outbox_status,
    prepare_and_dispatch, run_dispatch_chain, ChainRecovery, OrchestrationWritePort, OutboxItem,
    OutboxItemStatus,
};
use productized_shell::gateway::{verify_loaded_grant, GatewayError, GrantUseRequest};
use productized_shell::grant::{ExecutionGrant, GrantStatus};
use productized_shell::identity::{GrantId, RuntimeReceiptId};
use productized_shell::orchestration::{AuthorizedExecutionRequest, ChainFault};
use productized_shell::ports::OrchestrationReadPort;
use productized_shell::receipt::{EnforcementStatus, IndependentRuntimeReceiptVerifier, RuntimeReceipt};
use productized_shell::records::{
    AuthorizationDecisionRecord, DispatchRecord, PlanAuthorizationRecord, SupervisorProposal,
    WorkItemRecord, WorkerBindingRecord, WorkflowRunRecord,
};
use productized_shell::side_effect::{admit_granted_side_effect, load_grant_by_id};
use productized_shell::records::{SupervisorBinding, SupervisorSessionRef};
use productized_shell::supervisor::{
    approve_supervisor_proposal, authorize_and_dispatch_from_supervisor,
    handle_supervisor_action, open_or_resume_supervisor, SupervisorWrites, ProjectSupervisorRoleSessionPort,
    SupervisorAction, SupervisorStorePort, SupervisorTurn,
};

#[derive(Clone, Default)]
struct Data {
    receipts: usize,
    events: Vec<String>,
    audits: Vec<String>,
    decisions: Vec<AuthorizationDecisionRecord>,
    authorizations: HashMap<String, PlanAuthorizationRecord>,
    runs: Vec<WorkflowRunRecord>,
    work_items: Vec<WorkItemRecord>,
    bindings: Vec<WorkerBindingRecord>,
    attempts: HashMap<String, PreparedAttempt>,
    grants: HashMap<String, ExecutionGrant>,
    outbox: HashMap<String, OutboxItem>,
    dispatches: HashMap<String, DispatchRecord>,
    sup_bindings: Vec<(SupervisorBinding, i64)>,
    sup_proposals: Vec<(String, String, String, String, String)>,
    sup_turns: Vec<(String, String, SupervisorTurn)>,
    receipts_by_json: HashMap<String, RuntimeReceipt>,
    readbacks: HashMap<String, ExecutionReadbackJoin>,
    claims: HashMap<String, ClaimJoin>,
    assessments: HashMap<String, AssessmentJoin>,
    results: HashMap<String, (String, String)>,
    facts: Vec<(String, String, String, String)>,
}

/// An in-memory orchestration store with one-level transactions.
#[derive(Default)]
struct MemStore {
    data: RefCell<Data>,
    saved: RefCell<Option<Data>>,
}

impl OrchestrationWritePort for MemStore {
    fn begin(&self) -> Result<(), String> {
        *self.saved.borrow_mut() = Some(self.data.borrow().clone());
        Ok(())
    }
    fn commit(&self) -> Result<(), String> {
        *self.saved.borrow_mut() = None;
        Ok(())
    }
    fn rollback(&self) -> Result<(), String> {
        if let Some(saved) = self.saved.borrow_mut().take() {
            *self.data.borrow_mut() = saved;
        }
        Ok(())
    }
    fn commit_receipt(
        &self,
        command: &str,
        _actor_id: &str,
        _scope_ref: &str,
        _correlation_id: &str,
        _now_iso: &str,
    ) -> Result<(String, String), String> {
        let mut d = self.data.borrow_mut();
        d.receipts += 1;
        Ok((format!("rcpt-{}", d.receipts), format!("cmd-{command}-{}", d.receipts)))
    }
    fn record_event(
        &self,
        event_type: &str,
        _actor_id: &str,
        _scope_ref: &str,
        _command_id: &str,
        _correlation_id: &str,
        _now_iso: &str,
    ) -> Result<(), String> {
        self.data.borrow_mut().events.push(event_type.to_string());
        Ok(())
    }
    fn record_audit(
        &self,
        decision: &str,
        _actor_id: &str,
        _scope_ref: &str,
        _subject_ref: &str,
        _command_id: &str,
        _correlation_id: &str,
        _now_iso: &str,
    ) -> Result<(), String> {
        self.data.borrow_mut().audits.push(decision.to_string());
        Ok(())
    }
    fn persist_decision(&self, record: &AuthorizationDecisionRecord) -> Result<(), String> {
        self.data.borrow_mut().decisions.push(record.clone());
        Ok(())
    }
    fn persist_authorization(&self, record: &PlanAuthorizationRecord) -> Result<(), String> {
        self.data
            .borrow_mut()
            .authorizations
            .insert(record.authorization_id.clone(), record.clone());
        Ok(())
    }
    fn persist_run(&self, record: &WorkflowRunRecord) -> Result<(), String> {
        self.data.borrow_mut().runs.push(record.clone());
        Ok(())
    }
    fn persist_work_item(&self, record: &WorkItemRecord) -> Result<(), String> {
        self.data.borrow_mut().work_items.push(record.clone());
        Ok(())
    }
    fn persist_binding(&self, record: &WorkerBindingRecord) -> Result<(), String> {
        self.data.borrow_mut().bindings.push(record.clone());
        Ok(())
    }
    fn persist_attempt(&self, attempt: &PreparedAttempt) -> Result<(), String> {
        self.data
            .borrow_mut()
            .attempts
            .insert(attempt.attempt_id.as_str().to_string(), attempt.clone());
        Ok(())
    }
    fn load_attempt(&self, attempt_id: &str) -> Result<Option<PreparedAttempt>, String> {
        Ok(self.data.borrow().attempts.get(attempt_id).cloned())
    }
    fn persist_grant(&self, grant: &ExecutionGrant) -> Result<(), String> {
        self.data
            .borrow_mut()
            .grants
            .insert(grant.grant_id.as_str().to_string(), grant.clone());
        Ok(())
    }
    fn load_grant(&self, grant_id: &str) -> Result<Option<ExecutionGrant>, String> {
        Ok(self.data.borrow().grants.get(grant_id).cloned())
    }
    fn create_outbox_item(&self, item: &OutboxItem) -> Result<(), String> {
        self.data
            .borrow_mut()
            .outbox
            .insert(item.outbox_item_id.clone(), item.clone());
        Ok(())
    }
    fn load_outbox_item(&self, outbox_item_id: &str) -> Result<Option<OutboxItem>, String> {
        Ok(self.data.borrow().outbox.get(outbox_item_id).cloned())
    }
    fn update_outbox_status(
        &self,
        outbox_item_id: &str,
        status: OutboxItemStatus,
    ) -> Result<(), String> {
        match self.data.borrow_mut().outbox.get_mut(outbox_item_id) {
            Some(item) => {
                item.status = status;
                Ok(())
            }
            None => Err("outbox_not_found".to_string()),
        }
    }
    fn persist_dispatch(&self, record: &DispatchRecord) -> Result<(), String> {
        self.data
            .borrow_mut()
            .dispatches
            .insert(record.dispatch_id.clone(), record.clone());
        Ok(())
    }
    fn load_dispatch(&self, dispatch_id: &str) -> Result<Option<DispatchRecord>, String> {
        Ok(self.data.borrow().dispatches.get(dispatch_id).cloned())
    }
    fn transition_dispatch_to_dispatched(
        &self,
        dispatch_id: &str,
        expected_revision: i64,
    ) -> Result<DispatchRecord, String> {
        let mut d = self.data.borrow_mut();
        let rec = d
            .dispatches
            .get_mut(dispatch_id)
            .ok_or_else(|| "dispatch_not_found".to_string())?;
        if rec.state != "PENDING_DELIVERY" || rec.revision != expected_revision {
            return Err("dispatch_transition_conflict".to_string());
        }
        rec.state = "DISPATCHED".to_string();
        rec.revision += 1;
        Ok(rec.clone())
    }
}

impl OrchestrationReadPort for MemStore {
    fn load_dispatch(&self, dispatch_id: &str) -> Result<Option<DispatchRecord>, String> {
        OrchestrationWritePort::load_dispatch(self, dispatch_id)
    }
    fn load_attempt(&self, attempt_id: &str) -> Result<Option<PreparedAttempt>, String> {
        OrchestrationWritePort::load_attempt(self, attempt_id)
    }
    fn load_authorization(
        &self,
        authorization_id: &str,
    ) -> Result<Option<PlanAuthorizationRecord>, String> {
        Ok(self.data.borrow().authorizations.get(authorization_id).cloned())
    }
    fn load_grant(&self, grant_id: &str) -> Result<Option<ExecutionGrant>, String> {
        OrchestrationWritePort::load_grant(self, grant_id)
    }
    fn load_supervisor_proposal(
        &self,
        _proposal_id: &str,
        _project_id: &str,
        _binding_id: &str,
    ) -> Result<SupervisorProposal, String> {
        Err("proposal_not_found".to_string())
    }
}

fn req() -> AuthorizedExecutionRequest {
    AuthorizedExecutionRequest {
        project_id: "proj-1".into(),
        proposal_id: "prop-1".into(),
        deciding_actor_id: "user-1".into(),
        worker_role_session_id: "role-sess-1".into(),
        principal_actor_id: "actor-1".into(),
        workflow_ref: "wf-1".into(),
        source_object_ref: "obj:1".into(),
        allowed_commands: vec!["echo".into()],
        cwd_ref: "/tmp/scratch".into(),
        write_root_refs: vec!["/tmp/scratch".into()],
        object_refs: vec!["obj:1".into()],
        scope_fingerprint: "scope-1".into(),
        policy_decision_ref: "pol-1".into(),
        now_ms: 1_000,
        ttl_ms: 60_000,
    }
}

fn use_req() -> GrantUseRequest {
    GrantUseRequest {
        project_id: "proj-1".into(),
        attempt_id: String::new(),
        worker_role_session_id: "role-sess-1".into(),
        principal_actor_id: "actor-1".into(),
        authorization_id: String::new(),
        authorization_revision: 1,
        command: "echo".into(),
        cwd_ref: "/tmp/scratch".into(),
        write_root_refs: vec!["/tmp/scratch".into()],
        object_refs: vec!["obj:1".into()],
        now_ms: 2_000,
    }
}

fn only_attempt(store: &MemStore) -> PreparedAttempt {
    let d = store.data.borrow();
    assert_eq!(d.attempts.len(), 1);
    d.attempts.values().next().unwrap().clone()
}

#[test]
fn happy_path_persists_and_survives_reopen() {
    let store = MemStore::default();
    let result = prepare_and_dispatch(&mut Journaled::new(&store), req(), ChainFault::NoFault).unwrap();
    let attempt = OrchestrationWritePort::load_attempt(&store, result.attempt_id.as_str())
        .unwrap()
        .unwrap();
    let grant = OrchestrationWritePort::load_grant(&store, result.grant_id.as_ref().unwrap().as_str())
        .unwrap()
        .unwrap();
    let dispatch =
        OrchestrationWritePort::load_dispatch(&store, result.dispatch_id.as_ref().unwrap().as_str())
            .unwrap()
            .unwrap();
    assert_eq!(attempt.state, AttemptState::GrantReadyNonRunnable);
    assert!(!attempt.is_runnable());
    assert_eq!(grant.status, GrantStatus::Active);
    assert_eq!(dispatch.state, "PENDING_DELIVERY");
    let outbox = store
        .load_outbox_item(result.outbox_item_id.as_ref().unwrap())
        .unwrap()
        .unwrap();
    assert_eq!(outbox.status, OutboxItemStatus::Available);
    let (dispatched, runnable) =
        complete_dispatch_readback(&mut Journaled::new(&store), result.dispatch_id.as_ref().unwrap().as_str(), 2_000)
            .unwrap();
    assert_eq!(dispatched.state, "DISPATCHED");
    assert_eq!(runnable.state, AttemptState::Dispatched);
    assert!(runnable.is_runnable());
    let delivered = store
        .load_outbox_item(result.outbox_item_id.as_ref().unwrap())
        .unwrap()
        .unwrap();
    assert_eq!(delivered.status, OutboxItemStatus::Delivered);
}

#[test]
fn dispatch_readback_does_not_reinsert() {
    let store = MemStore::default();
    let result = prepare_and_dispatch(&mut Journaled::new(&store), req(), ChainFault::NoFault).unwrap();
    let dispatch_id = result.dispatch_id.as_ref().unwrap().as_str().to_string();
    complete_dispatch_readback(&mut Journaled::new(&store), &dispatch_id, 2_000).unwrap();
    let err = complete_dispatch_readback(&mut Journaled::new(&store), &dispatch_id, 3_000).unwrap_err();
    assert_eq!(err, "dispatch_not_pending_delivery");
    assert_eq!(store.data.borrow().dispatches.len(), 1);
}

#[test]
fn persist_failure_revokes_and_keeps_non_runnable() {
    let store = MemStore::default();
    let err = prepare_and_dispatch(&mut Journaled::new(&store), req(), ChainFault::FailPersistGrant).unwrap_err();
    assert_eq!(err, "grant_persist_failed");
    let attempt = only_attempt(&store);
    assert_eq!(attempt.state.as_m1_str(), "PREPARED_NON_RUNNABLE");
    let d = store.data.borrow();
    let revoked = d
        .grants
        .values()
        .filter(|g| g.status == GrantStatus::Revoked)
        .count();
    assert_eq!(revoked, 1);
    assert_eq!(d.dispatches.len(), 0);
}

#[test]
fn readback_failure_does_not_dispatch() {
    let store = MemStore::default();
    let err = prepare_and_dispatch(&mut Journaled::new(&store), req(), ChainFault::FailReadback).unwrap_err();
    assert_eq!(err, "grant_readback_failed");
    assert_eq!(only_attempt(&store).state.as_m1_str(), "PREPARED_NON_RUNNABLE");
}

#[test]
fn dispatch_failure_does_not_leave_runnable() {
    let store = MemStore::default();
    let err = prepare_and_dispatch(&mut Journaled::new(&store), req(), ChainFault::FailDispatch).unwrap_err();
    assert_eq!(err, "dispatch_failed");
    assert_eq!(only_attempt(&store).state.as_m1_str(), "CANCELLED");
    let d = store.data.borrow();
    let grant = d.grants.values().next().unwrap();
    assert_eq!(grant.status.as_m1_str(), "REVOKED");
}

#[test]
fn incomplete_request_writes_nothing() {
    let store = MemStore::default();
    let mut request = req();
    request.worker_role_session_id = "  ".into();
    let err = prepare_and_dispatch(&mut Journaled::new(&store), request, ChainFault::NoFault).unwrap_err();
    assert_eq!(err, "request_incomplete");
    assert_eq!(store.data.borrow().receipts, 0);
}

#[test]
fn chain_outcome_reports_recovery_kind() {
    let store = MemStore::default();
    let outcome = run_dispatch_chain(&mut Journaled::new(&store), &req(), ChainFault::FailDispatch, "corr", "orch", "t");
    assert_eq!(outcome.recovery, Some(ChainRecovery::DispatchFault));
    assert_eq!(outcome.attempt.unwrap().state, AttemptState::Cancelled);
    assert_eq!(outcome.grant.unwrap().status, GrantStatus::Revoked);
}

#[test]
fn production_gateway_loads_only_by_grant_id() {
    let store = MemStore::default();
    let chain = prepare_and_dispatch(&mut Journaled::new(&store), req(), ChainFault::NoFault).unwrap();
    let grant_id = chain.grant_id.unwrap();
    let grant = load_grant_by_id(&store, &grant_id).unwrap();
    let mut request = use_req();
    request.attempt_id = chain.attempt_id.as_str().to_string();
    request.authorization_id = chain.authorization_id.as_str().to_string();
    verify_loaded_grant(&grant, &request).unwrap();
}

#[test]
fn wrong_project_is_rejected() {
    let store = MemStore::default();
    let chain = prepare_and_dispatch(&mut Journaled::new(&store), req(), ChainFault::NoFault).unwrap();
    let grant = load_grant_by_id(&store, chain.grant_id.as_ref().unwrap()).unwrap();
    let mut request = use_req();
    request.project_id = "other-project".into();
    request.attempt_id = chain.attempt_id.as_str().to_string();
    request.authorization_id = chain.authorization_id.as_str().to_string();
    assert!(matches!(
        verify_loaded_grant(&grant, &request),
        Err(GatewayError::CrossProject(_))
    ));
}

#[test]
fn caller_cannot_expand_command() {
    let store = MemStore::default();
    let chain = prepare_and_dispatch(&mut Journaled::new(&store), req(), ChainFault::NoFault).unwrap();
    let grant = load_grant_by_id(&store, chain.grant_id.as_ref().unwrap()).unwrap();
    let mut request = use_req();
    request.attempt_id = chain.attempt_id.as_str().to_string();
    request.authorization_id = chain.authorization_id.as_str().to_string();
    request.command = "rm".into();
    assert!(matches!(
        verify_loaded_grant(&grant, &request),
        Err(GatewayError::PrivilegeExpansion(_))
    ));
}

#[test]
fn wrong_revision_rejected() {
    let store = MemStore::default();
    let chain = prepare_and_dispatch(&mut Journaled::new(&store), req(), ChainFault::NoFault).unwrap();
    let grant = load_grant_by_id(&store, chain.grant_id.as_ref().unwrap()).unwrap();
    let mut request = use_req();
    request.attempt_id = chain.attempt_id.as_str().to_string();
    request.authorization_id = chain.authorization_id.as_str().to_string();
    request.authorization_revision = 99;
    assert!(matches!(
        verify_loaded_grant(&grant, &request),
        Err(GatewayError::WrongRevision(_))
    ));
}

#[test]
fn verifier_accepts_exact_join_receipt() {
    let store = MemStore::default();
    let chain = prepare_and_dispatch(&mut Journaled::new(&store), req(), ChainFault::NoFault).unwrap();
    let dispatch =
        OrchestrationWritePort::load_dispatch(&store, chain.dispatch_id.as_ref().unwrap().as_str())
            .unwrap()
            .unwrap();
    let receipt = RuntimeReceipt {
        receipt_id: RuntimeReceiptId::new("rr-1".into()),
        grant_id: chain.grant_id.unwrap(),
        attempt_id: chain.attempt_id,
        dispatch_id: dispatch.dispatch_id,
        effect_id: dispatch.effect_id,
        trace_hash: "trace-aaa".into(),
        actor_binding: "role-sess-1".into(),
        enforcement_status: EnforcementStatus::Enforced,
        outcome: "SUCCEEDED".into(),
    };
    IndependentRuntimeReceiptVerifier.verify(&mut CoreReads::new(&store), &receipt).unwrap();
}

#[test]
fn verifier_rejects_forged_effect() {
    let store = MemStore::default();
    let chain = prepare_and_dispatch(&mut Journaled::new(&store), req(), ChainFault::NoFault).unwrap();
    let dispatch =
        OrchestrationWritePort::load_dispatch(&store, chain.dispatch_id.as_ref().unwrap().as_str())
            .unwrap()
            .unwrap();
    let receipt = RuntimeReceipt {
        receipt_id: RuntimeReceiptId::new("rr-2".into()),
        grant_id: chain.grant_id.unwrap(),
        attempt_id: chain.attempt_id,
        dispatch_id: dispatch.dispatch_id,
        effect_id: "forged-effect".into(),
        trace_hash: "trace-aaa".into(),
        actor_binding: "role-sess-1".into(),
        enforcement_status: EnforcementStatus::Enforced,
        outcome: "SUCCEEDED".into(),
    };
    let err = IndependentRuntimeReceiptVerifier
        .verify(&mut CoreReads::new(&store), &receipt)
        .unwrap_err();
    assert_eq!(err, "receipt_effect_or_dispatch_mismatch");
}

#[test]
fn side_effect_entry_consumes_server_loaded_grant_only() {
    let store = MemStore::default();
    let chain = prepare_and_dispatch(&mut Journaled::new(&store), req(), ChainFault::NoFault).unwrap();
    let grant_id = chain.grant_id.unwrap();
    let admitted = admit_granted_side_effect(
        &store,
        &grant_id,
        GrantUseRequest {
            project_id: "proj-1".into(),
            attempt_id: chain.attempt_id.as_str().to_string(),
            worker_role_session_id: "role-sess-1".into(),
            principal_actor_id: "actor-1".into(),
            authorization_id: chain.authorization_id.as_str().to_string(),
            authorization_revision: 1,
            command: "echo".into(),
            cwd_ref: "/tmp/scratch".into(),
            write_root_refs: vec!["/tmp/scratch".into()],
            object_refs: vec!["obj:1".into()],
            now_ms: 2_000,
        },
    )
    .unwrap();
    assert_eq!(admitted.grant_id, grant_id.as_str());
    assert_eq!(admitted.command, "echo");
}

#[test]
fn unknown_grant_id_is_rejected() {
    let store = MemStore::default();
    let err = admit_granted_side_effect(
        &store,
        &GrantId::new("missing".into()),
        GrantUseRequest {
            project_id: "proj-1".into(),
            attempt_id: "att".into(),
            worker_role_session_id: "role".into(),
            principal_actor_id: "actor".into(),
            authorization_id: "auth".into(),
            authorization_revision: 1,
            command: "echo".into(),
            cwd_ref: "/tmp/scratch".into(),
            write_root_refs: vec![],
            object_refs: vec![],
            now_ms: 2_000,
        },
    )
    .unwrap_err();
    assert!(matches!(err, GatewayError::GrantNotFound(_)));
}

#[test]
fn handled_recoveries_are_exactly_the_four_faults() {
    for e in [
        "grant_persist_failed",
        "grant_readback_failed",
        "grant_readback_hash_mismatch",
        "dispatch_failed",
    ] {
        assert!(is_handled_recovery(e));
    }
    assert!(!is_handled_recovery("request_incomplete"));
    assert!(!is_handled_recovery(""));
}

#[test]
fn format_ms_pads_seconds_and_millis() {
    assert_eq!(format_ms(1_000), "1970-01-01T00:00:01.000Z");
    assert_eq!(format_ms(61_234), "1970-01-01T00:00:61.234Z");
    assert_eq!(format_ms(5), "1970-01-01T00:00:00.005Z");
    assert_eq!(format_ms(-1_500), format!("1970-01-01T00:00:{:02}.{:03}Z", -1_500i64 / 1000, -1_500i64 % 1000));
}

#[test]
fn outbox_status_parses_known_names_and_fails_closed() {
    assert_eq!(parse_outbox_status("AVAILABLE"), OutboxItemStatus::Available);
    assert_eq!(parse_outbox_status("DELIVERED"), OutboxItemStatus::Delivered);
    assert_eq!(parse_outbox_status("RETRY_WAIT"), OutboxItemStatus::RetryWait);
    assert_eq!(parse_outbox_status("RESULT_RECEIVED"), OutboxItemStatus::ResultReceived);
    assert_eq!(parse_outbox_status("garbage"), OutboxItemStatus::Cancelled);
}

#[test]
fn readback_refuses_undelivered_outbox_effect() {
    let store = MemStore::default();
    let result = prepare_and_dispatch(&mut Journaled::new(&store), req(), ChainFault::NoFault).unwrap();
    let outbox_id = result.outbox_item_id.clone().unwrap();
    store
        .data
        .borrow_mut()
        .outbox
        .get_mut(&outbox_id)
        .unwrap()
        .effect_id = "other-effect".into();
    let err =
        complete_dispatch_readback(&mut Journaled::new(&store), result.dispatch_id.as_ref().unwrap().as_str(), 2_000)
            .unwrap_err();
    assert_eq!(err, "outbox_effect_join_failed");
    let attempt = only_attempt(&store);
    assert!(!attempt.is_runnable());
}

impl SupervisorStorePort for MemStore {
    fn load_binding(
        &self,
        project_id: &str,
        role_session_id: &str,
    ) -> Result<Option<SupervisorBinding>, String> {
        Ok(self
            .data
            .borrow()
            .sup_bindings
            .iter()
            .find(|(b, _)| b.project_id == project_id && b.role_session_id == role_session_id)
            .map(|(b, _)| b.clone()))
    }
    fn insert_binding(&self, binding: &SupervisorBinding, now_ms: i64) -> Result<(), String> {
        self.data.borrow_mut().sup_bindings.push((binding.clone(), now_ms));
        Ok(())
    }
    fn insert_proposal(&self, proposal: &SupervisorProposal, _now_ms: i64) -> Result<(), String> {
        self.data.borrow_mut().sup_proposals.push((
            proposal.proposal_id.clone(),
            proposal.binding_id.clone(),
            proposal.project_id.clone(),
            proposal.authorized_action.clone(),
            proposal.status.clone(),
        ));
        Ok(())
    }
    fn insert_turn(
        &self,
        turn_id: &str,
        binding: &SupervisorBinding,
        turn: &SupervisorTurn,
        _now_ms: i64,
    ) -> Result<(), String> {
        self.data.borrow_mut().sup_turns.push((
            turn_id.to_string(),
            binding.binding_id.clone(),
            turn.clone(),
        ));
        Ok(())
    }
    fn load_proposal_status(
        &self,
        proposal_id: &str,
        project_id: &str,
    ) -> Result<Option<String>, String> {
        Ok(self
            .data
            .borrow()
            .sup_proposals
            .iter()
            .find(|p| p.0 == proposal_id && p.2 == project_id)
            .map(|p| p.4.clone()))
    }
    fn approve_draft_proposal(
        &self,
        proposal_id: &str,
        project_id: &str,
        binding_id: &str,
    ) -> Result<u64, String> {
        let mut changed = 0;
        for p in self.data.borrow_mut().sup_proposals.iter_mut() {
            if p.0 == proposal_id && p.2 == project_id && p.1 == binding_id && p.4 == "DRAFT" {
                p.4 = "APPROVED".to_string();
                changed += 1;
            }
        }
        Ok(changed)
    }
}

struct MapSessions(HashMap<String, SupervisorSessionRef>);

impl ProjectSupervisorRoleSessionPort for MapSessions {
    fn load(&self, role_session_id: &str) -> Result<SupervisorSessionRef, String> {
        self.0
            .get(role_session_id)
            .cloned()
            .ok_or_else(|| "m3_role_session_missing".to_string())
    }
}

fn session(id: &str, project: &str, actor: &str) -> SupervisorSessionRef {
    SupervisorSessionRef {
        role_session_id: id.into(),
        project_id: project.into(),
        actor_id: actor.into(),
        role: "project_supervisor".into(),
        status: "ACTIVE".into(),
    }
}

fn supervisor_request(proposal_id: &str) -> AuthorizedExecutionRequest {
    AuthorizedExecutionRequest {
        project_id: "proj-a".into(),
        proposal_id: proposal_id.into(),
        deciding_actor_id: "actor-a".into(),
        worker_role_session_id: "worker-1".into(),
        principal_actor_id: "actor-a".into(),
        workflow_ref: "wf".into(),
        source_object_ref: "obj:1".into(),
        allowed_commands: vec!["echo".into()],
        cwd_ref: "/tmp/scratch".into(),
        write_root_refs: vec!["/tmp/scratch".into()],
        object_refs: vec!["obj:1".into()],
        scope_fingerprint: "scope".into(),
        policy_decision_ref: "pol".into(),
        now_ms: 1400,
        ttl_ms: 60_000,
    }
}

#[test]
fn resume_returns_same_binding_after_reopen() {
    let store = MemStore::default();
    let sessions = MapSessions(HashMap::from([(
        "rs-1".into(),
        session("rs-1", "proj-a", "actor-a"),
    )]));
    let first = open_or_resume_supervisor(&store, &sessions, "rs-1", "proj-a", 1000).unwrap();
    let second = open_or_resume_supervisor(&store, &sessions, "rs-1", "proj-a", 2000).unwrap();
    assert_eq!(first.binding_id, second.binding_id);
    assert!(first.binding_id.starts_with("sup-"));
}

#[test]
fn two_projects_do_not_share_bindings() {
    let store = MemStore::default();
    let sessions = MapSessions(HashMap::from([
        ("rs-a".into(), session("rs-a", "proj-a", "actor-a")),
        ("rs-b".into(), session("rs-b", "proj-b", "actor-b")),
    ]));
    let a = open_or_resume_supervisor(&store, &sessions, "rs-a", "proj-a", 1000).unwrap();
    let b = open_or_resume_supervisor(&store, &sessions, "rs-b", "proj-b", 1000).unwrap();
    assert_ne!(a.binding_id, b.binding_id);
    let err = open_or_resume_supervisor(&store, &sessions, "rs-a", "proj-b", 1000).unwrap_err();
    assert_eq!(err, "role_session_project_mismatch");
}

#[test]
fn non_supervisor_session_cannot_open() {
    let store = MemStore::default();
    let mut worker = session("rs-w", "proj-a", "actor-w");
    worker.role = "worker".into();
    let sessions = MapSessions(HashMap::from([("rs-w".into(), worker)]));
    let err = open_or_resume_supervisor(&store, &sessions, "rs-w", "proj-a", 1000).unwrap_err();
    assert_eq!(err, "role_is_not_project_supervisor");
    let err = open_or_resume_supervisor(&store, &sessions, "rs-x", "proj-a", 1000).unwrap_err();
    assert_eq!(err, "m3_role_session_missing");
}

#[test]
fn chat_and_read_create_no_proposal_grant_or_spawn() {
    let store = MemStore::default();
    let sessions = MapSessions(HashMap::from([(
        "rs-1".into(),
        session("rs-1", "proj-a", "actor-a"),
    )]));
    let binding = open_or_resume_supervisor(&store, &sessions, "rs-1", "proj-a", 1000).unwrap();
    let chat = handle_supervisor_action(
        &mut SupervisorWrites::new(&store),
        &binding,
        SupervisorAction::Chat {
            text: "what's open?".into(),
        },
        1100,
    )
    .unwrap();
    let read = handle_supervisor_action(
        &mut SupervisorWrites::new(&store),
        &binding,
        SupervisorAction::Read {
            query: "facts".into(),
        },
        1200,
    )
    .unwrap();
    assert!(!chat.created_proposal && !chat.created_grant && !chat.spawned);
    assert!(!read.created_proposal && !read.created_grant && !read.spawned);
    assert_eq!(store.data.borrow().grants.len(), 0);
    assert_eq!(store.data.borrow().sup_turns.len(), 2);
}

#[test]
fn cannot_dispatch_without_approved_proposal() {
    let store = MemStore::default();
    let sessions = MapSessions(HashMap::from([(
        "rs-1".into(),
        session("rs-1", "proj-a", "actor-a"),
    )]));
    let binding = open_or_resume_supervisor(&store, &sessions, "rs-1", "proj-a", 1000).unwrap();
    let turn = handle_supervisor_action(
        &mut SupervisorWrites::new(&store),
        &binding,
        SupervisorAction::SubmitProposal {
            goal: "echo hello".into(),
        },
        1300,
    )
    .unwrap();
    assert!(turn.created_proposal);
    assert!(!turn.created_grant);
    let err = authorize_and_dispatch_from_supervisor(
        &store,
        &binding,
        &turn.text,
        supervisor_request(&turn.text),
    )
    .unwrap_err();
    assert_eq!(err, "supervisor_proposal_not_approved");
}

#[test]
fn approved_proposal_dispatches_once_approved() {
    let store = MemStore::default();
    let sessions = MapSessions(HashMap::from([(
        "rs-1".into(),
        session("rs-1", "proj-a", "actor-a"),
    )]));
    let binding = open_or_resume_supervisor(&store, &sessions, "rs-1", "proj-a", 1000).unwrap();
    let turn = handle_supervisor_action(
        &mut SupervisorWrites::new(&store),
        &binding,
        SupervisorAction::SubmitProposal {
            goal: "echo hello".into(),
        },
        1300,
    )
    .unwrap();
    approve_supervisor_proposal(&store, &binding, &turn.text).unwrap();
    assert_eq!(
        approve_supervisor_proposal(&store, &binding, &turn.text).unwrap_err(),
        "supervisor_proposal_not_draft"
    );
    let mut other = supervisor_request(&turn.text);
    other.project_id = "proj-b".into();
    assert_eq!(
        authorize_and_dispatch_from_supervisor(&store, &binding, &turn.text, other).unwrap_err(),
        "supervisor_cannot_dispatch_other_project"
    );
    let result = authorize_and_dispatch_from_supervisor(
        &store,
        &binding,
        &turn.text,
        supervisor_request(&turn.text),
    )
    .unwrap();
    assert!(result.grant_id.is_some());
    assert_eq!(
        authorize_and_dispatch_from_supervisor(&store, &binding, "prop-missing", supervisor_request("x"))
            .unwrap_err(),
        "supervisor_proposal_missing"
    );
}

impl ExactChainReadPort for MemStore {
    fn load_authorization_decision(
        &self,
        authorization_decision_id: &str,
        project_id: &str,
        orchestration_id: &str,
    ) -> Result<Option<(String, String)>, String> {
        Ok(self
            .data
            .borrow()
            .decisions
            .iter()
            .find(|d| {
                d.authorization_decision_id == authorization_decision_id
                    && d.project_id == project_id
                    && d.orchestration_id == orchestration_id
            })
            .map(|d| (d.authorization_decision_id.clone(), d.proposal_id.clone())))
    }
    fn load_proposal_id(&self, proposal_id: &str, project_id: &str) -> Result<Option<String>, String> {
        Ok(self
            .data
            .borrow()
            .sup_proposals
            .iter()
            .find(|p| p.0 == proposal_id && p.2 == project_id)
            .map(|p| p.0.clone()))
    }
    fn load_workflow_run_join(
        &self,
        workflow_run_id: &str,
        project_id: &str,
    ) -> Result<Option<(String, String, String)>, String> {
        Ok(self
            .data
            .borrow()
            .runs
            .iter()
            .find(|r| r.workflow_run_id == workflow_run_id && r.project_id == project_id)
            .map(|r| (r.workflow_run_id.clone(), r.orchestration_id.clone(), r.authorization_id.clone())))
    }
    fn load_work_item_join(
        &self,
        work_item_id: &str,
        project_id: &str,
    ) -> Result<Option<(String, String, String, String)>, String> {
        Ok(self
            .data
            .borrow()
            .work_items
            .iter()
            .find(|w| w.work_item_id == work_item_id && w.project_id == project_id)
            .map(|w| {
                (
                    w.work_item_id.clone(),
                    w.orchestration_id.clone(),
                    w.workflow_run_id.clone(),
                    w.node_id.clone(),
                )
            }))
    }
    fn decode_runtime_receipt(&self, receipt_json: &str) -> Result<RuntimeReceipt, String> {
        self.data
            .borrow()
            .receipts_by_json
            .get(receipt_json)
            .cloned()
            .ok_or_else(|| "ordinary_receipt_decode:unknown".to_string())
    }
    fn load_execution_readback(
        &self,
        receipt: &RuntimeReceipt,
    ) -> Result<Option<ExecutionReadbackJoin>, String> {
        Ok(self.data.borrow().readbacks.get(receipt.receipt_id.as_str()).cloned())
    }
    fn load_claim_join(&self, claim_id: &str, project_id: &str) -> Result<Option<ClaimJoin>, String> {
        Ok(self
            .data
            .borrow()
            .claims
            .get(claim_id)
            .filter(|c| c.project_id == project_id)
            .cloned())
    }
    fn load_assessment(
        &self,
        assessment_id: &str,
        _project_id: &str,
        claim_id: &str,
    ) -> Result<Option<AssessmentJoin>, String> {
        Ok(self
            .data
            .borrow()
            .assessments
            .get(assessment_id)
            .filter(|a| a.claim_id == claim_id)
            .cloned())
    }
    fn load_result_decision(
        &self,
        assessment_id: &str,
        _project_id: &str,
    ) -> Result<Option<(String, String)>, String> {
        Ok(self.data.borrow().results.get(assessment_id).cloned())
    }
    fn load_fact_id(
        &self,
        claim_id: &str,
        result_decision_id: &str,
        project_id: &str,
    ) -> Result<Option<String>, String> {
        Ok(self
            .data
            .borrow()
            .facts
            .iter()
            .find(|f| f.1 == claim_id && f.2 == result_decision_id && f.3 == project_id)
            .map(|f| f.0.clone()))
    }
}

/// A supervisor-approved proposal dispatched through the chain; returns the
/// store, the grant id and the dispatch id.
fn dispatched_chain() -> (MemStore, String, String) {
    let store = MemStore::default();
    let sessions = MapSessions(HashMap::from([(
        "rs-1".into(),
        session("rs-1", "proj-a", "actor-a"),
    )]));
    let binding = open_or_resume_supervisor(&store, &sessions, "rs-1", "proj-a", 1000).unwrap();
    let turn = handle_supervisor_action(
        &mut SupervisorWrites::new(&store),
        &binding,
        SupervisorAction::SubmitProposal { goal: "echo hello".into() },
        1300,
    )
    .unwrap();
    approve_supervisor_proposal(&store, &binding, &turn.text).unwrap();
    let result = authorize_and_dispatch_from_supervisor(
        &store,
        &binding,
        &turn.text,
        supervisor_request(&turn.text),
    )
    .unwrap();
    (
        store,
        result.grant_id.unwrap().as_str().to_string(),
        result.dispatch_id.unwrap().as_str().to_string(),
    )
}

/// Records an executed run, its claim, an independent assessment, the
/// accepted result and its fact for the dispatched chain.
fn record_followthrough(store: &MemStore, grant_id: &str, dispatch_id: &str) {
    let grant = OrchestrationWritePort::load_grant(store, grant_id).unwrap().unwrap();
    let dispatch = OrchestrationWritePort::load_dispatch(store, dispatch_id).unwrap().unwrap();
    let receipt = RuntimeReceipt {
        receipt_id: RuntimeReceiptId::new("rr-chain".into()),
        grant_id: grant.grant_id.clone(),
        attempt_id: grant.attempt_id.clone(),
        dispatch_id: dispatch.dispatch_id.clone(),
        effect_id: dispatch.effect_id.clone(),
        trace_hash: "trace-chain".into(),
        actor_binding: grant.worker_role_session_id.clone(),
        enforcement_status: EnforcementStatus::Enforced,
        outcome: "SUCCEEDED".into(),
    };
    let mut d = store.data.borrow_mut();
    d.receipts_by_json.insert("receipt-json".into(), receipt);
    d.readbacks.insert(
        "rr-chain".into(),
        ExecutionReadbackJoin {
            receipt_id: "readback-1".into(),
            grant_id: grant.grant_id.as_str().into(),
            attempt_id: grant.attempt_id.as_str().into(),
            dispatch_id: dispatch.dispatch_id.clone(),
            actor_binding: grant.worker_role_session_id.clone(),
            derived_attempt_state: "SUCCEEDED".into(),
            matches_receipt: true,
        },
    );
    d.claims.insert(
        "claim-1".into(),
        ClaimJoin {
            claim_id: "claim-1".into(),
            report_kind: "executed".into(),
            project_id: "proj-a".into(),
            orchestration_id: grant.orchestration_id.as_str().into(),
            workflow_run_id: Some(grant.workflow_run_id.as_str().into()),
            work_item_id: Some(grant.work_item_id.as_str().into()),
            node_id: Some(dispatch.node_id.clone()),
            dispatch_id: Some(dispatch.dispatch_id.clone()),
            attempt_id: Some(grant.attempt_id.as_str().into()),
            grant_id: Some(grant.grant_id.as_str().into()),
            worker_role_session_id: Some(grant.worker_role_session_id.clone()),
            authoritative_receipt_ref: Some("rr-chain".into()),
        },
    );
    d.assessments.insert(
        "assess-1".into(),
        AssessmentJoin {
            assessment_id: "assess-1".into(),
            claim_id: "claim-1".into(),
            assessor_actor_id: "actor-assessor".into(),
            assessor_role_session_id: "session-assessor".into(),
            outcome: "VERIFIED".into(),
        },
    );
    d.results.insert("assess-1".into(), ("result-1".into(), "ACCEPTED_RESULT".into()));
    d.facts.push(("fact-1".into(), "claim-1".into(), "result-1".into(), "proj-a".into()));
}

fn progress(
    grant_id: &str,
    dispatch_id: &str,
    followthrough: bool,
) -> (Option<String>, Option<String>, Option<String>, Option<String>, Option<String>) {
    if followthrough {
        (
            Some(grant_id.into()),
            Some(dispatch_id.into()),
            Some("receipt-json".into()),
            Some("claim-1".into()),
            Some("assess-1".into()),
        )
    } else {
        (Some(grant_id.into()), Some(dispatch_id.into()), None, None, None)
    }
}

fn independence(chain: &LoadedExactChain) -> bool {
    independent_reviewer_from_authority(
        &Some(("actor-worker".to_string(), "worker-1".to_string())),
        &Some(("actor-assessor".to_string(), "session-assessor".to_string())),
        chain,
    )
}

#[test]
fn dispatched_chain_without_followthrough_is_not_complete() {
    let (store, grant_id, dispatch_id) = dispatched_chain();
    let chain = load_exact_chain(&mut CoreReads::new(&store), "proj-a", &progress(&grant_id, &dispatch_id, false)).unwrap();
    assert!(chain.joins_hold);
    assert_eq!(chain.grant_id.as_deref(), Some(grant_id.as_str()));
    assert_eq!(chain.dispatch_id.as_deref(), Some(dispatch_id.as_str()));
    assert_eq!(chain.join_project_id.as_deref(), Some("proj-a"));
    assert_eq!(chain.worker_session_id.as_deref(), Some("worker-1"));
    assert!(chain.proposal_id.as_deref().unwrap().starts_with("prop-"));
    assert!(chain.runtime_receipt_id.is_none());
    assert!(chain.claim_id.is_none());
    assert!(chain.review_id.is_none());
    assert!(chain.result_decision_id.is_none());
    assert!(chain.fact_id.is_none());
    assert!(independence(&chain));
    assert!(!chain.is_complete("proj-a", &independence(&chain)));
}

#[test]
fn followed_through_chain_is_exact_and_complete() {
    let (store, grant_id, dispatch_id) = dispatched_chain();
    record_followthrough(&store, &grant_id, &dispatch_id);
    let chain = load_exact_chain(&mut CoreReads::new(&store), "proj-a", &progress(&grant_id, &dispatch_id, true)).unwrap();
    assert_eq!(chain.runtime_receipt_id.as_deref(), Some("rr-chain"));
    assert_eq!(chain.execution_readback_id.as_deref(), Some("readback-1"));
    assert!(chain.terminal_readback);
    assert_eq!(chain.claim_id.as_deref(), Some("claim-1"));
    assert_eq!(chain.executed_claim_id.as_deref(), Some("claim-1"));
    assert_eq!(chain.claim_worker_session.as_deref(), Some("worker-1"));
    assert_eq!(chain.review_id.as_deref(), Some("assess-1"));
    assert_eq!(chain.review_outcome.as_deref(), Some("VERIFIED"));
    assert_eq!(chain.result_decision.as_deref(), Some("ACCEPTED_RESULT"));
    assert_eq!(chain.fact_id.as_deref(), Some("fact-1"));
    assert!(independence(&chain));
    assert!(chain.is_complete("proj-a", &true));
    assert!(!chain.is_complete("proj-b", &true));
}

#[test]
fn links_that_do_not_join_are_left_out() {
    let (store, grant_id, dispatch_id) = dispatched_chain();
    record_followthrough(&store, &grant_id, &dispatch_id);
    // A readback that does not match its receipt drops the receipt, and the
    // claim citing it no longer joins.
    store.data.borrow_mut().readbacks.get_mut("rr-chain").unwrap().matches_receipt = false;
    let chain = load_exact_chain(&mut CoreReads::new(&store), "proj-a", &progress(&grant_id, &dispatch_id, true)).unwrap();
    assert!(chain.joins_hold);
    assert!(chain.runtime_receipt_id.is_none());
    assert!(!chain.terminal_readback);
    assert!(chain.claim_id.is_none());
    assert!(chain.review_id.is_none());
    assert!(chain.fact_id.is_none());
    // Another project sees nothing of the chain.
    let other = load_exact_chain(&mut CoreReads::new(&store), "proj-b", &progress(&grant_id, &dispatch_id, true)).unwrap();
    assert!(!other.joins_hold);
    assert!(other.grant_id.is_none());
    // Without a recorded grant there is no chain.
    let none = load_exact_chain(&mut CoreReads::new(&store), "proj-a", &(None, Some(dispatch_id.clone()), None, None, None))
        .unwrap();
    assert!(none.grant_id.is_none() && !none.joins_hold);
    // A dispatch moved to another worker breaks the core join.
    store.data.borrow_mut().dispatches.get_mut(&dispatch_id).unwrap().worker_role_session_id =
        "worker-2".into();
    let broken = load_exact_chain(&mut CoreReads::new(&store), "proj-a", &progress(&grant_id, &dispatch_id, true)).unwrap();
    assert!(!broken.joins_hold && broken.dispatch_id.is_none());
}

#[test]
fn undecodable_receipt_is_an_error() {
    let (store, grant_id, dispatch_id) = dispatched_chain();
    let mut p = progress(&grant_id, &dispatch_id, false);
    p.2 = Some("not-json".into());
    assert_eq!(
        load_exact_chain(&mut CoreReads::new(&store), "proj-a", &p).unwrap_err(),
        "ordinary_receipt_decode:unknown"
    );
}

fn counts() -> StoreCounts {
    StoreCounts {
        grants: 1,
        attempts: 1,
        dispatches: 1,
        durable_operations: 0,
        formal_receipts: 1,
        execution_readbacks: 1,
        claims: 1,
        reviews: 1,
        result_decisions: 1,
        project_facts: 1,
    }
}

#[test]
fn backend_receipt_reports_exact_chain_and_independence() {
    let (store, grant_id, dispatch_id) = dispatched_chain();
    record_followthrough(&store, &grant_id, &dispatch_id);
    let p = progress(&grant_id, &dispatch_id, true);
    let chain = load_exact_chain(&mut CoreReads::new(&store), "proj-a", &p).unwrap();
    let worker = Some(("actor-worker".to_string(), "worker-1".to_string()));
    let assessor = Some(("actor-assessor".to_string(), "session-assessor".to_string()));
    let receipt = compose_backend_receipt(
        "result",
        "syn-m5r07-alias",
        "proj-a",
        Some(("binding-1".into(), "rs-1".into(), "actor-a".into())),
        Some(("actor-a".into(), "rs-1".into())),
        worker.clone(),
        assessor,
        &p,
        counts(),
        chain.clone(),
    );
    assert_eq!(receipt.schema, "syn.m5r07.ordinary-control-backend-receipt.v2");
    assert_eq!(receipt.composition, "ORDINARY_TAURI_CONSTRUCTOR_SYNTHETIC_ISOLATED_INPUTS");
    assert_eq!(receipt.phase, "result");
    assert_eq!(receipt.project_id, "proj-a");
    assert!(receipt.independent_reviewer);
    assert!(receipt.exact_chain_complete);
    assert!(receipt.formal_grant_id_present && receipt.formal_receipt_present);
    assert_eq!(receipt.chain.fact_id.as_deref(), Some("fact-1"));
    assert_eq!(receipt.derived_from, "backend_store");
    assert_eq!(receipt.window_capture, "NO_WINDOW_CAPTURE");
    // The worker cannot assess its own claim.
    let own = compose_backend_receipt(
        "result", "syn-m5r07-alias", "proj-a", None, None, worker.clone(), worker, &p, counts(), chain,
    );
    assert!(!own.independent_reviewer);
    assert!(!own.exact_chain_complete);
}

#[test]
fn backend_receipt_of_incomplete_chain_is_not_complete() {
    let (store, grant_id, dispatch_id) = dispatched_chain();
    let p = progress(&grant_id, &dispatch_id, false);
    let chain = load_exact_chain(&mut CoreReads::new(&store), "proj-a", &p).unwrap();
    let receipt = compose_backend_receipt(
        "approved",
        "syn-m5r07-alias",
        "proj-a",
        None,
        None,
        Some(("actor-worker".into(), "worker-1".into())),
        Some(("actor-assessor".into(), "session-assessor".into())),
        &p,
        counts(),
        chain,
    );
    assert!(!receipt.exact_chain_complete);
    assert!(receipt.independent_reviewer);
    assert!(receipt.chain.grant_id.is_some());
    assert!(receipt.chain.claim_id.is_none());
    assert!(receipt.chain.review_id.is_none());
    assert!(receipt.chain.result_decision_id.is_none());
    assert!(receipt.chain.fact_id.is_none());
    assert!(!receipt.formal_receipt_present);
}

#[test]
fn grant_loaded_under_another_id_is_not_found() {
    let store = MemStore::default();
    let result = prepare_and_dispatch(&mut Journaled::new(&store), req(), ChainFault::NoFault).unwrap();
    let grant_id = result.grant_id.unwrap();
    let grant = load_grant_by_id(&store, &grant_id).unwrap();
    assert_eq!(grant.grant_id.as_str(), grant_id.as_str());
    store.data.borrow_mut().grants.insert("alias".into(), grant);
    match load_grant_by_id(&store, &GrantId::new("alias".into())) {
        Err(GatewayError::GrantNotFound(id)) => assert_eq!(id, "alias"),
        other => panic!("unexpected {other:?}"),
    }
}

#[test]
fn handled_recoveries_commit_and_others_roll_back() {
    let outcome = |result: Result<_, String>| ChainOutcome { result, attempt: None, grant: None, recovery: None, dispatch: None, outbox: None };
    for e in ["grant_persist_failed", "grant_readback_failed", "grant_readback_hash_mismatch", "dispatch_failed"] {
        assert_eq!(unit_of_work_action(&outcome(Err(e.to_string()))), UowAction::Commit);
    }
    assert_eq!(unit_of_work_action(&outcome(Err("store_down".to_string()))), UowAction::Rollback);
    let store = MemStore::default();
    let ok = prepare_and_dispatch(&mut Journaled::new(&store), req(), ChainFault::NoFault);
    assert_eq!(unit_of_work_action(&outcome(ok)), UowAction::Commit);
}

#[test]
fn successful_chain_leaves_pending_dispatch_and_available_outbox() {
    let store = MemStore::default();
    let outcome = run_dispatch_chain(&mut Journaled::new(&store), &req(), ChainFault::NoFault, "corr", "orch", "t");
    let result = outcome.result.as_ref().unwrap();
    let dispatch = outcome.dispatch.as_ref().unwrap();
    let outbox = outcome.outbox.as_ref().unwrap();
    let grant = outcome.grant.as_ref().unwrap();
    assert_eq!(dispatch.state, "PENDING_DELIVERY");
    assert_eq!(dispatch.revision, 1);
    assert_eq!(dispatch.grant_id, grant.grant_id.as_str());
    assert_eq!(outbox.status, OutboxItemStatus::Available);
    assert_eq!(dispatch.outbox_item_id, outbox.outbox_item_id);
    assert_eq!(result.dispatch_id.as_ref().unwrap().as_str(), dispatch.dispatch_id.as_str());
    assert_eq!(result.outbox_item_id.as_deref(), Some(outbox.outbox_item_id.as_str()));
    let failed = run_dispatch_chain(&mut Journaled::new(&store), &req(), ChainFault::FailPersistGrant, "corr", "orch", "t");
    assert!(failed.dispatch.is_none() && failed.outbox.is_none());
    assert_eq!(failed.result.unwrap_err(), "grant_persist_failed");
}

#[test]
fn supervisor_proposal_is_a_draft_of_the_binding_project() {
    let binding = SupervisorBinding {
        binding_id: "binding-1".into(),
        project_id: "proj-1".into(),
        role_session_id: "role-sess-1".into(),
        actor_id: "actor-1".into(),
    };
    let p = productized_shell::supervisor::draft_proposal("prop-1".into(), &binding, "ship it");
    assert_eq!(p.proposal_id, "prop-1");
    assert_eq!(p.binding_id, "binding-1");
    assert_eq!(p.project_id, "proj-1");
    assert_eq!(p.authorized_action, "ship it");
    assert_eq!(p.status, "DRAFT");
}
