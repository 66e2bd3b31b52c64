//! The prepared-attempt state machine. An attempt becomes runnable only once a
//! persisted, read-back grant has been bound to it and it has been dispatched;
//! minting or reading back a grant alone never makes it runnable.

use vstd::prelude::*;
use crate::identity::{AttemptId, AuthorizationId, GrantId, NodeId, OrchestrationId, WorkItemId, WorkflowRunId};
use crate::text::{cat, is_blank, is_blank_seq, str_eq};

verus! {

/// The legal states of a prepared attempt.
#[derive(Debug, Clone, Copy, PartialEq, Eq, Structural)]
pub enum AttemptState {
    PreparedNonRunnable,
    GrantPendingNonRunnable,
    GrantReadyNonRunnable,
    Dispatched,
    Running,
    Succeeded,
    Failed,
    Cancelled,
    TimedOut,
    UnknownReadback,
}

impl AttemptState {
    /// The state's name in the persisted vocabulary.
    pub open spec fn m1_name(self) -> Seq<char> {
        match self {
            AttemptState::PreparedNonRunnable => "PREPARED_NON_RUNNABLE"@,
            AttemptState::GrantPendingNonRunnable => "GRANT_PENDING_NON_RUNNABLE"@,
            AttemptState::GrantReadyNonRunnable => "GRANT_READY_NON_RUNNABLE"@,
            AttemptState::Dispatched => "DISPATCHED"@,
            AttemptState::Running => "RUNNING"@,
            AttemptState::Succeeded => "SUCCEEDED"@,
            AttemptState::Failed => "FAILED"@,
            AttemptState::Cancelled => "CANCELLED"@,
            AttemptState::TimedOut => "TIMED_OUT"@,
            AttemptState::UnknownReadback => "UNKNOWN_READBACK"@,
        }
    }

    /// The state a persisted name denotes, if any.
    pub open spec fn from_m1_name(s: Seq<char>) -> Option<AttemptState> {
        if s == "PREPARED_NON_RUNNABLE"@ {
            Some(AttemptState::PreparedNonRunnable)
        } else if s == "GRANT_PENDING_NON_RUNNABLE"@ {
            Some(AttemptState::GrantPendingNonRunnable)
        } else if s == "GRANT_READY_NON_RUNNABLE"@ {
            Some(AttemptState::GrantReadyNonRunnable)
        } else if s == "DISPATCHED"@ {
            Some(AttemptState::Dispatched)
        } else if s == "RUNNING"@ {
            Some(AttemptState::Running)
        } else if s == "SUCCEEDED"@ {
            Some(AttemptState::Succeeded)
        } else if s == "FAILED"@ {
            Some(AttemptState::Failed)
        } else if s == "CANCELLED"@ {
            Some(AttemptState::Cancelled)
        } else if s == "TIMED_OUT"@ {
            Some(AttemptState::TimedOut)
        } else if s == "UNKNOWN_READBACK"@ {
            Some(AttemptState::UnknownReadback)
        } else {
            None
        }
    }

    pub open spec fn terminal(self) -> bool {
        match self {
            AttemptState::Succeeded | AttemptState::Failed | AttemptState::Cancelled
            | AttemptState::TimedOut | AttemptState::UnknownReadback => true,
            _ => false,
        }
    }

    pub open spec fn runnable(self) -> bool {
        self == AttemptState::Dispatched || self == AttemptState::Running
    }

    pub fn as_m1_str(&self) -> (r: &'static str)
        ensures
            r@ == self.m1_name(),
    {
        match self {
            AttemptState::PreparedNonRunnable => "PREPARED_NON_RUNNABLE",
            AttemptState::GrantPendingNonRunnable => "GRANT_PENDING_NON_RUNNABLE",
            AttemptState::GrantReadyNonRunnable => "GRANT_READY_NON_RUNNABLE",
            AttemptState::Dispatched => "DISPATCHED",
            AttemptState::Running => "RUNNING",
            AttemptState::Succeeded => "SUCCEEDED",
            AttemptState::Failed => "FAILED",
            AttemptState::Cancelled => "CANCELLED",
            AttemptState::TimedOut => "TIMED_OUT",
            AttemptState::UnknownReadback => "UNKNOWN_READBACK",
        }
    }

    /// The display form: the persisted name.
    pub fn to_display_string(&self) -> (r: String)
        ensures
            r@ == self.m1_name(),
    {
        String::from_str(self.as_m1_str())
    }

    pub fn parse(value: &str) -> (r: Result<AttemptState, String>)
        ensures
            match AttemptState::from_m1_name(value@) {
                Some(s) => r == Ok::<AttemptState, String>(s),
                None => r matches Err(e) && e@ == "unknown_attempt_state:"@ + value@,
            },
    {
        if str_eq(value, "PREPARED_NON_RUNNABLE") {
            Ok(AttemptState::PreparedNonRunnable)
        } else if str_eq(value, "GRANT_PENDING_NON_RUNNABLE") {
            Ok(AttemptState::GrantPendingNonRunnable)
        } else if str_eq(value, "GRANT_READY_NON_RUNNABLE") {
            Ok(AttemptState::GrantReadyNonRunnable)
        } else if str_eq(value, "DISPATCHED") {
            Ok(AttemptState::Dispatched)
        } else if str_eq(value, "RUNNING") {
            Ok(AttemptState::Running)
        } else if str_eq(value, "SUCCEEDED") {
            Ok(AttemptState::Succeeded)
        } else if str_eq(value, "FAILED") {
            Ok(AttemptState::Failed)
        } else if str_eq(value, "CANCELLED") {
            Ok(AttemptState::Cancelled)
        } else if str_eq(value, "TIMED_OUT") {
            Ok(AttemptState::TimedOut)
        } else if str_eq(value, "UNKNOWN_READBACK") {
            Ok(AttemptState::UnknownReadback)
        } else {
            Err(cat("unknown_attempt_state:", value))
        }
    }

    pub fn is_terminal(&self) -> (b: bool)
        ensures
            b == self.terminal(),
    {
        match self {
            AttemptState::Succeeded | AttemptState::Failed | AttemptState::Cancelled
            | AttemptState::TimedOut | AttemptState::UnknownReadback => true,
            _ => false,
        }
    }

    /// Only DISPATCHED and RUNNING may execute; GRANT_READY is still not runnable.
    pub fn is_runnable(&self) -> (b: bool)
        ensures
            b == self.runnable(),
    {
        match self {
            AttemptState::Dispatched | AttemptState::Running => true,
            _ => false,
        }
    }
}

/// Why a transition was refused.
#[derive(Debug, Clone)]
pub enum AttemptTransitionError {
    InvalidTransition { from: AttemptState, to: AttemptState },
    MissingGrant,
    InvalidGrant(String),
    AlreadyCompleted,
}

impl AttemptTransitionError {
    /// The human-readable message of the error.
    pub fn to_display_string(&self) -> (r: String)
        ensures
            match self {
                AttemptTransitionError::InvalidTransition { from, to } => r@
                    == "invalid transition from "@ + from.m1_name() + " to "@ + to.m1_name(),
                AttemptTransitionError::MissingGrant => r@ == "missing grant"@,
                AttemptTransitionError::InvalidGrant(reason) => r@ == "invalid grant: "@
                    + reason@,
                AttemptTransitionError::AlreadyCompleted => r@ == "attempt already completed"@,
            },
    {
        match self {
            AttemptTransitionError::InvalidTransition { from, to } => {
                let mut s = cat("invalid transition from ", from.as_m1_str());
                s.append(" to ");
                s.append(to.as_m1_str());
                s
            },
            AttemptTransitionError::MissingGrant => String::from_str("missing grant"),
            AttemptTransitionError::InvalidGrant(reason) => cat("invalid grant: ", reason.as_str()),
            AttemptTransitionError::AlreadyCompleted => String::from_str(
                "attempt already completed",
            ),
        }
    }
}

/// An attempt prepared for one work item of one authorized run.
#[derive(Debug, Clone)]
pub struct PreparedAttempt {
    pub attempt_id: AttemptId,
    pub state: AttemptState,
    pub project_id: String,
    pub orchestration_id: OrchestrationId,
    pub workflow_run_id: WorkflowRunId,
    pub work_item_id: WorkItemId,
    pub node_id: NodeId,
    pub worker_role_session_id: String,
    pub authorization_id: AuthorizationId,
    pub authorization_revision: i64,
    pub grant_id: Option<GrantId>,
    pub revision: i64,
    pub created_at_ms: i64,
    pub updated_at_ms: i64,
}

/// The transitions a prepared attempt can be asked to take, with their inputs.
pub enum AttemptEvent {
    BeginGrantBinding { now_ms: i64 },
    AttachMintedGrant { grant_id: GrantId, now_ms: i64 },
    ConfirmGrantReady { expected_grant_id: GrantId, now_ms: i64 },
    RecoverGrantFailure { now_ms: i64 },
    MarkDispatched { now_ms: i64 },
    StartExecution { now_ms: i64 },
    Succeed { now_ms: i64 },
    Fail { now_ms: i64 },
    Cancel { now_ms: i64 },
}

impl PreparedAttempt {
    /// The attempt after a successful transition to `state`, with the grant
    /// binding `grant_id`, at time `now_ms`: every other field is kept, the
    /// revision goes up by one and the update time becomes `now_ms`.
    pub open spec fn advanced(self, state: AttemptState, grant_id: Option<GrantId>, now_ms: i64) -> Self {
        PreparedAttempt {
            state,
            grant_id,
            revision: (self.revision + 1) as i64,
            updated_at_ms: now_ms,
            ..self
        }
    }


    /// The attempt that results from `event`, or `None` when the transition is refused.
    pub open spec fn step(self, event: AttemptEvent) -> Option<PreparedAttempt> {
        match event {
            AttemptEvent::BeginGrantBinding { now_ms } => if self.state
                == AttemptState::PreparedNonRunnable {
                Some(self.advanced(AttemptState::GrantPendingNonRunnable, self.grant_id, now_ms))
            } else {
                None
            },
            AttemptEvent::AttachMintedGrant { grant_id, now_ms } => if self.state
                == AttemptState::GrantPendingNonRunnable && !is_blank_seq(grant_id.0@) {
                Some(self.advanced(AttemptState::GrantPendingNonRunnable, Some(grant_id), now_ms))
            } else {
                None
            },
            AttemptEvent::ConfirmGrantReady { expected_grant_id, now_ms } => if self.state
                == AttemptState::GrantPendingNonRunnable && (self.grant_id matches Some(g) && g.0@
                == expected_grant_id.0@) {
                Some(self.advanced(AttemptState::GrantReadyNonRunnable, self.grant_id, now_ms))
            } else {
                None
            },
            AttemptEvent::RecoverGrantFailure { now_ms } => if self.state
                == AttemptState::GrantPendingNonRunnable || self.state
                == AttemptState::GrantReadyNonRunnable {
                Some(self.advanced(AttemptState::PreparedNonRunnable, None, now_ms))
            } else {
                None
            },
            AttemptEvent::MarkDispatched { now_ms } => if self.state
                == AttemptState::GrantReadyNonRunnable && self.grant_id is Some {
                Some(self.advanced(AttemptState::Dispatched, self.grant_id, now_ms))
            } else {
                None
            },
            AttemptEvent::StartExecution { now_ms } => if self.state == AttemptState::Dispatched
                && self.grant_id is Some {
                Some(self.advanced(AttemptState::Running, self.grant_id, now_ms))
            } else {
                None
            },
            AttemptEvent::Succeed { now_ms } => if self.state == AttemptState::Running {
                Some(self.advanced(AttemptState::Succeeded, self.grant_id, now_ms))
            } else {
                None
            },
            AttemptEvent::Fail { now_ms } => if self.state == AttemptState::Running {
                Some(self.advanced(AttemptState::Failed, self.grant_id, now_ms))
            } else {
                None
            },
            AttemptEvent::Cancel { now_ms } => if !self.state.terminal() {
                Some(self.advanced(AttemptState::Cancelled, self.grant_id, now_ms))
            } else {
                None
            },
        }
    }

    /// The grant binding agrees with the state: a freshly prepared attempt has
    /// no grant, and every state from GRANT_READY through RUNNING, and the
    /// outcomes of a run, carry one.
    pub open spec fn grant_binding_consistent(self) -> bool {
        &&& self.state == AttemptState::PreparedNonRunnable ==> self.grant_id is None
        &&& (self.state == AttemptState::GrantReadyNonRunnable || self.state
            == AttemptState::Dispatched || self.state == AttemptState::Running || self.state
            == AttemptState::Succeeded || self.state == AttemptState::Failed)
            ==> self.grant_id is Some
    }

    pub fn new(
        attempt_id: AttemptId,
        project_id: String,
        orchestration_id: OrchestrationId,
        workflow_run_id: WorkflowRunId,
        work_item_id: WorkItemId,
        node_id: NodeId,
        worker_role_session_id: String,
        authorization_id: AuthorizationId,
        authorization_revision: i64,
        created_at_ms: i64,
    ) -> (r: Self)
        ensures
            r == (PreparedAttempt {
                attempt_id,
                state: AttemptState::PreparedNonRunnable,
                project_id,
                orchestration_id,
                workflow_run_id,
                work_item_id,
                node_id,
                worker_role_session_id,
                authorization_id,
                authorization_revision,
                grant_id: None,
                revision: 1,
                created_at_ms,
                updated_at_ms: created_at_ms,
            }),
            r.grant_binding_consistent(),
    {
        PreparedAttempt {
            attempt_id,
            state: AttemptState::PreparedNonRunnable,
            project_id,
            orchestration_id,
            workflow_run_id,
            work_item_id,
            node_id,
            worker_role_session_id,
            authorization_id,
            authorization_revision,
            grant_id: None,
            revision: 1,
            created_at_ms,
            updated_at_ms: created_at_ms,
        }
    }

    pub fn state(&self) -> (r: &AttemptState)
        ensures
            *r == self.state,
    {
        &self.state
    }

    pub fn is_runnable(&self) -> (b: bool)
        ensures
            b == self.state.runnable(),
    {
        self.state.is_runnable()
    }

    pub fn is_completed(&self) -> (b: bool)
        ensures
            b == self.state.terminal(),
    {
        self.state.is_terminal()
    }

    fn bump(&mut self, now_ms: i64)
        requires
            old(self).revision < i64::MAX,
        ensures
            *final(self) == old(self).advanced(old(self).state, old(self).grant_id, now_ms),
    {
        self.revision = self.revision + 1;
        self.updated_at_ms = now_ms;
    }

    /// PREPARED_NON_RUNNABLE → GRANT_PENDING_NON_RUNNABLE.
    pub fn begin_grant_binding(&mut self, now_ms: i64) -> (r: Result<(), AttemptTransitionError>)
        requires
            old(self).revision < i64::MAX,
        ensures
            r is Ok <==> old(self).state == AttemptState::PreparedNonRunnable,
            r is Ok ==> *final(self) == old(self).advanced(
                AttemptState::GrantPendingNonRunnable,
                old(self).grant_id,
                now_ms,
            ),
            r is Err ==> *final(self) == *old(self) && r->Err_0
                == (AttemptTransitionError::InvalidTransition {
                from: old(self).state,
                to: AttemptState::GrantPendingNonRunnable,
            }),
            old(self).step(AttemptEvent::BeginGrantBinding { now_ms }) == (if r is Ok {
                Some(*final(self))
            } else {
                None::<PreparedAttempt>
            }),
            old(self).grant_binding_consistent() ==> final(self).grant_binding_consistent(),
    {
        if self.state != AttemptState::PreparedNonRunnable {
            return Err(
                AttemptTransitionError::InvalidTransition {
                    from: self.state,
                    to: AttemptState::GrantPendingNonRunnable,
                },
            );
        }
        self.state = AttemptState::GrantPendingNonRunnable;
        self.bump(now_ms);
        Ok(())
    }

    /// Records a minted grant id; the attempt stays GRANT_PENDING_NON_RUNNABLE.
    pub fn attach_minted_grant(&mut self, grant_id: GrantId, now_ms: i64) -> (r: Result<
        (),
        AttemptTransitionError,
    >)
        requires
            old(self).revision < i64::MAX,
        ensures
            r is Ok <==> old(self).state == AttemptState::GrantPendingNonRunnable
                && !is_blank_seq(grant_id.0@),
            r is Ok ==> *final(self) == old(self).advanced(
                AttemptState::GrantPendingNonRunnable,
                Some(grant_id),
                now_ms,
            ),
            r is Err ==> *final(self) == *old(self),
            old(self).state != AttemptState::GrantPendingNonRunnable ==> r->Err_0
                == (AttemptTransitionError::InvalidTransition {
                from: old(self).state,
                to: AttemptState::GrantPendingNonRunnable,
            }),
            old(self).state == AttemptState::GrantPendingNonRunnable && is_blank_seq(grant_id.0@)
                ==> (r matches Err(AttemptTransitionError::InvalidGrant(reason)) && reason@
                == "empty_grant_id"@),
            old(self).step(AttemptEvent::AttachMintedGrant { grant_id, now_ms }) == (if r is Ok {
                Some(*final(self))
            } else {
                None::<PreparedAttempt>
            }),
            old(self).grant_binding_consistent() ==> final(self).grant_binding_consistent(),
    {
        if self.state != AttemptState::GrantPendingNonRunnable {
            return Err(
                AttemptTransitionError::InvalidTransition {
                    from: self.state,
                    to: AttemptState::GrantPendingNonRunnable,
                },
            );
        }
        if is_blank(grant_id.as_str()) {
            return Err(AttemptTransitionError::InvalidGrant(String::from_str("empty_grant_id")));
        }
        self.grant_id = Some(grant_id);
        self.bump(now_ms);
        Ok(())
    }

    /// After an ACTIVE grant readback: GRANT_PENDING_NON_RUNNABLE →
    /// GRANT_READY_NON_RUNNABLE, provided the bound grant is the expected one.
    pub fn confirm_grant_ready(&mut self, expected_grant_id: &GrantId, now_ms: i64) -> (r: Result<
        (),
        AttemptTransitionError,
    >)
        requires
            old(self).revision < i64::MAX,
        ensures
            r is Ok <==> (old(self).state == AttemptState::GrantPendingNonRunnable && (old(
                self,
            ).grant_id matches Some(g) && g.0@ == expected_grant_id.0@)),
            r is Ok ==> *final(self) == old(self).advanced(
                AttemptState::GrantReadyNonRunnable,
                old(self).grant_id,
                now_ms,
            ),
            r is Err ==> *final(self) == *old(self),
            old(self).state != AttemptState::GrantPendingNonRunnable ==> r->Err_0
                == (AttemptTransitionError::InvalidTransition {
                from: old(self).state,
                to: AttemptState::GrantReadyNonRunnable,
            }),
            old(self).state == AttemptState::GrantPendingNonRunnable && old(self).grant_id is None
                ==> r->Err_0 == AttemptTransitionError::MissingGrant,
            (old(self).state == AttemptState::GrantPendingNonRunnable && (old(self).grant_id matches Some(
                g,
            ) && g.0@ != expected_grant_id.0@)) ==> (r matches Err(
                AttemptTransitionError::InvalidGrant(reason),
            ) && reason@ == "grant_id_mismatch"@),
            old(self).step(AttemptEvent::ConfirmGrantReady { expected_grant_id: *expected_grant_id, now_ms }) == (if r is Ok {
                Some(*final(self))
            } else {
                None::<PreparedAttempt>
            }),
            old(self).grant_binding_consistent() ==> final(self).grant_binding_consistent(),
    {
        if self.state != AttemptState::GrantPendingNonRunnable {
            return Err(
                AttemptTransitionError::InvalidTransition {
                    from: self.state,
                    to: AttemptState::GrantReadyNonRunnable,
                },
            );
        }
        match &self.grant_id {
            Some(id) => {
                if !(id == expected_grant_id) {
                    return Err(
                        AttemptTransitionError::InvalidGrant(String::from_str("grant_id_mismatch")),
                    );
                }
            },
            None => return Err(AttemptTransitionError::MissingGrant),
        }
        self.state = AttemptState::GrantReadyNonRunnable;
        self.bump(now_ms);
        Ok(())
    }

    /// Persist or readback failed: back to PREPARED_NON_RUNNABLE, grant cleared,
    /// so that a new grant can be minted.
    pub fn recover_grant_failure(&mut self, now_ms: i64) -> (r: Result<(), AttemptTransitionError>)
        requires
            old(self).revision < i64::MAX,
        ensures
            r is Ok <==> old(self).state == AttemptState::GrantPendingNonRunnable || old(self).state
                == AttemptState::GrantReadyNonRunnable,
            r is Ok ==> *final(self) == old(self).advanced(
                AttemptState::PreparedNonRunnable,
                None,
                now_ms,
            ),
            r is Err ==> *final(self) == *old(self) && r->Err_0
                == (AttemptTransitionError::InvalidTransition {
                from: old(self).state,
                to: AttemptState::PreparedNonRunnable,
            }),
            old(self).step(AttemptEvent::RecoverGrantFailure { now_ms }) == (if r is Ok {
                Some(*final(self))
            } else {
                None::<PreparedAttempt>
            }),
            old(self).grant_binding_consistent() ==> final(self).grant_binding_consistent(),
    {
        if self.state != AttemptState::GrantPendingNonRunnable && self.state
            != AttemptState::GrantReadyNonRunnable {
            return Err(
                AttemptTransitionError::InvalidTransition {
                    from: self.state,
                    to: AttemptState::PreparedNonRunnable,
                },
            );
        }
        self.grant_id = None;
        self.state = AttemptState::PreparedNonRunnable;
        self.bump(now_ms);
        Ok(())
    }

    /// GRANT_READY_NON_RUNNABLE → DISPATCHED: only now does the attempt become runnable.
    pub fn mark_dispatched(&mut self, now_ms: i64) -> (r: Result<(), AttemptTransitionError>)
        requires
            old(self).revision < i64::MAX,
        ensures
            r is Ok <==> old(self).state == AttemptState::GrantReadyNonRunnable && old(
                self,
            ).grant_id is Some,
            r is Ok ==> *final(self) == old(self).advanced(
                AttemptState::Dispatched,
                old(self).grant_id,
                now_ms,
            ),
            r is Err ==> *final(self) == *old(self),
            old(self).state != AttemptState::GrantReadyNonRunnable ==> r->Err_0
                == (AttemptTransitionError::InvalidTransition {
                from: old(self).state,
                to: AttemptState::Dispatched,
            }),
            old(self).state == AttemptState::GrantReadyNonRunnable && old(self).grant_id is None
                ==> r->Err_0 == AttemptTransitionError::MissingGrant,
            old(self).step(AttemptEvent::MarkDispatched { now_ms }) == (if r is Ok {
                Some(*final(self))
            } else {
                None::<PreparedAttempt>
            }),
            old(self).grant_binding_consistent() ==> final(self).grant_binding_consistent(),
    {
        if self.state != AttemptState::GrantReadyNonRunnable {
            return Err(
                AttemptTransitionError::InvalidTransition {
                    from: self.state,
                    to: AttemptState::Dispatched,
                },
            );
        }
        if self.grant_id.is_none() {
            return Err(AttemptTransitionError::MissingGrant);
        }
        self.state = AttemptState::Dispatched;
        self.bump(now_ms);
        Ok(())
    }

    /// DISPATCHED → RUNNING.
    pub fn start_execution(&mut self, now_ms: i64) -> (r: Result<(), AttemptTransitionError>)
        requires
            old(self).revision < i64::MAX,
        ensures
            r is Ok <==> old(self).state == AttemptState::Dispatched && old(self).grant_id is Some,
            r is Ok ==> *final(self) == old(self).advanced(
                AttemptState::Running,
                old(self).grant_id,
                now_ms,
            ),
            r is Err ==> *final(self) == *old(self),
            old(self).state != AttemptState::Dispatched ==> r->Err_0
                == (AttemptTransitionError::InvalidTransition {
                from: old(self).state,
                to: AttemptState::Running,
            }),
            old(self).state == AttemptState::Dispatched && old(self).grant_id is None ==> r->Err_0
                == AttemptTransitionError::MissingGrant,
            old(self).step(AttemptEvent::StartExecution { now_ms }) == (if r is Ok {
                Some(*final(self))
            } else {
                None::<PreparedAttempt>
            }),
            old(self).grant_binding_consistent() ==> final(self).grant_binding_consistent(),
    {
        if self.state != AttemptState::Dispatched {
            return Err(
                AttemptTransitionError::InvalidTransition {
                    from: self.state,
                    to: AttemptState::Running,
                },
            );
        }
        if self.grant_id.is_none() {
            return Err(AttemptTransitionError::MissingGrant);
        }
        self.state = AttemptState::Running;
        self.bump(now_ms);
        Ok(())
    }

    /// RUNNING → SUCCEEDED.
    pub fn succeed(&mut self, now_ms: i64) -> (r: Result<(), AttemptTransitionError>)
        requires
            old(self).revision < i64::MAX,
        ensures
            r is Ok <==> old(self).state == AttemptState::Running,
            r is Ok ==> *final(self) == old(self).advanced(
                AttemptState::Succeeded,
                old(self).grant_id,
                now_ms,
            ),
            r is Err ==> *final(self) == *old(self) && r->Err_0
                == (AttemptTransitionError::InvalidTransition {
                from: old(self).state,
                to: AttemptState::Succeeded,
            }),
            old(self).step(AttemptEvent::Succeed { now_ms }) == (if r is Ok {
                Some(*final(self))
            } else {
                None::<PreparedAttempt>
            }),
            old(self).grant_binding_consistent() ==> final(self).grant_binding_consistent(),
    {
        if self.state != AttemptState::Running {
            return Err(
                AttemptTransitionError::InvalidTransition {
                    from: self.state,
                    to: AttemptState::Succeeded,
                },
            );
        }
        self.state = AttemptState::Succeeded;
        self.bump(now_ms);
        Ok(())
    }

    /// RUNNING → FAILED.
    pub fn fail(&mut self, now_ms: i64) -> (r: Result<(), AttemptTransitionError>)
        requires
            old(self).revision < i64::MAX,
        ensures
            r is Ok <==> old(self).state == AttemptState::Running,
            r is Ok ==> *final(self) == old(self).advanced(
                AttemptState::Failed,
                old(self).grant_id,
                now_ms,
            ),
            r is Err ==> *final(self) == *old(self) && r->Err_0
                == (AttemptTransitionError::InvalidTransition {
                from: old(self).state,
                to: AttemptState::Failed,
            }),
            old(self).step(AttemptEvent::Fail { now_ms }) == (if r is Ok {
                Some(*final(self))
            } else {
                None::<PreparedAttempt>
            }),
            old(self).grant_binding_consistent() ==> final(self).grant_binding_consistent(),
    {
        if self.state != AttemptState::Running {
            return Err(
                AttemptTransitionError::InvalidTransition {
                    from: self.state,
                    to: AttemptState::Failed,
                },
            );
        }
        self.state = AttemptState::Failed;
        self.bump(now_ms);
        Ok(())
    }

    /// Any non-terminal state → CANCELLED.
    pub fn cancel(&mut self, now_ms: i64) -> (r: Result<(), AttemptTransitionError>)
        requires
            old(self).revision < i64::MAX,
        ensures
            r is Ok <==> !old(self).state.terminal(),
            r is Ok ==> *final(self) == old(self).advanced(
                AttemptState::Cancelled,
                old(self).grant_id,
                now_ms,
            ),
            r is Err ==> *final(self) == *old(self) && r->Err_0
                == AttemptTransitionError::AlreadyCompleted,
            old(self).step(AttemptEvent::Cancel { now_ms }) == (if r is Ok {
                Some(*final(self))
            } else {
                None::<PreparedAttempt>
            }),
            old(self).grant_binding_consistent() ==> final(self).grant_binding_consistent(),
    {
        if self.is_completed() {
            return Err(AttemptTransitionError::AlreadyCompleted);
        }
        self.state = AttemptState::Cancelled;
        self.bump(now_ms);
        Ok(())
    }
}


/// The persisted name of every state parses back to that state.
pub proof fn lemma_attempt_state_name_round_trip(s: AttemptState)
    ensures
        AttemptState::from_m1_name(s.m1_name()) == Some(s),
{
    reveal_strlit("PREPARED_NON_RUNNABLE");
    reveal_strlit("GRANT_PENDING_NON_RUNNABLE");
    reveal_strlit("GRANT_READY_NON_RUNNABLE");
    reveal_strlit("DISPATCHED");
    reveal_strlit("RUNNING");
    reveal_strlit("SUCCEEDED");
    reveal_strlit("FAILED");
    reveal_strlit("CANCELLED");
    reveal_strlit("TIMED_OUT");
    reveal_strlit("UNKNOWN_READBACK");
    assert("SUCCEEDED"@[0] != "CANCELLED"@[0]);
    assert("SUCCEEDED"@[0] != "TIMED_OUT"@[0]);
    assert("CANCELLED"@[0] != "TIMED_OUT"@[0]);
    assert("PREPARED_NON_RUNNABLE"@.len() == 21);
    assert("GRANT_PENDING_NON_RUNNABLE"@.len() == 26);
    assert("GRANT_READY_NON_RUNNABLE"@.len() == 24);
    assert("DISPATCHED"@.len() == 10);
    assert("RUNNING"@.len() == 7);
    assert("SUCCEEDED"@.len() == 9);
    assert("FAILED"@.len() == 6);
    assert("CANCELLED"@.len() == 9);
    assert("TIMED_OUT"@.len() == 9);
    assert("UNKNOWN_READBACK"@.len() == 16);
}

/// Every transition keeps the grant binding consistent with the state.
pub proof fn lemma_step_keeps_grant_binding(a: PreparedAttempt, event: AttemptEvent)
    requires
        a.grant_binding_consistent(),
        a.step(event) is Some,
    ensures
        a.step(event)->0.grant_binding_consistent(),
{
}

/// A consistent attempt that is runnable has a bound grant.
pub proof fn lemma_runnable_has_bound_grant(a: PreparedAttempt)
    requires
        a.grant_binding_consistent(),
        a.state.runnable(),
    ensures
        a.grant_id is Some,
{
}

/// The only transition that turns a non-runnable attempt into a runnable one is
/// the dispatch of a GRANT_READY attempt with a bound grant.
pub proof fn lemma_only_dispatch_makes_runnable(a: PreparedAttempt, event: AttemptEvent)
    requires
        a.step(event) is Some,
        !a.state.runnable(),
        a.step(event)->0.state.runnable(),
    ensures
        event is MarkDispatched,
        a.state == AttemptState::GrantReadyNonRunnable,
        a.grant_id is Some,
{
}

/// A terminal attempt refuses every transition.
pub proof fn lemma_terminal_attempt_is_final(a: PreparedAttempt, event: AttemptEvent)
    requires
        a.state.terminal(),
    ensures
        a.step(event) is None,
{
}

/// Every accepted transition raises the revision by exactly one and keeps the
/// attempt's identity, scope and authorization.
pub proof fn lemma_step_keeps_identity(a: PreparedAttempt, event: AttemptEvent)
    requires
        a.revision < i64::MAX,
        a.step(event) is Some,
    ensures
        a.step(event)->0.revision == a.revision + 1,
        a.step(event)->0.attempt_id == a.attempt_id,
        a.step(event)->0.project_id == a.project_id,
        a.step(event)->0.orchestration_id == a.orchestration_id,
        a.step(event)->0.workflow_run_id == a.workflow_run_id,
        a.step(event)->0.work_item_id == a.work_item_id,
        a.step(event)->0.node_id == a.node_id,
        a.step(event)->0.worker_role_session_id == a.worker_role_session_id,
        a.step(event)->0.authorization_id == a.authorization_id,
        a.step(event)->0.authorization_revision == a.authorization_revision,
        a.step(event)->0.created_at_ms == a.created_at_ms,
{
}

/// The attempt that results from `events` taken in order, or `None` when
/// one of them is refused.
pub open spec fn run_events(a: PreparedAttempt, events: Seq<AttemptEvent>) -> Option<PreparedAttempt>
    decreases events.len(),
{
    if events.len() == 0 {
        Some(a)
    } else {
        match run_events(a, events.drop_last()) {
            Some(c) => c.step(events.last()),
            None => None,
        }
    }
}

/// Event `i` of `events` dispatches the attempt the events before it left
/// GRANT_READY with a bound grant.
pub open spec fn dispatched_at(a: PreparedAttempt, events: Seq<AttemptEvent>, i: int) -> bool {
    &&& events[i] is MarkDispatched
    &&& run_events(a, events.take(i)) is Some
    &&& run_events(a, events.take(i))->0.state == AttemptState::GrantReadyNonRunnable
    &&& run_events(a, events.take(i))->0.grant_id is Some
}

/// Over any sequence of accepted transitions, an attempt that was not
/// runnable becomes runnable only through the dispatch of a GRANT_READY
/// attempt with a bound grant, taken somewhere in the sequence.
pub proof fn lemma_runnable_only_after_dispatch(a: PreparedAttempt, events: Seq<AttemptEvent>)
    requires
        !a.state.runnable(),
        run_events(a, events) is Some,
        run_events(a, events)->0.state.runnable(),
    ensures
        exists|i: int| 0 <= i < events.len() && #[trigger] dispatched_at(a, events, i),
    decreases events.len(),
{
    if events.len() == 0 {
    } else {
        let prefix = events.drop_last();
        let c = run_events(a, prefix)->0;
        if c.state.runnable() {
            lemma_runnable_only_after_dispatch(a, prefix);
            let i = choose|i: int| 0 <= i < prefix.len() && #[trigger] dispatched_at(a, prefix, i);
            assert(prefix.take(i) =~= events.take(i));
            assert(events[i] == prefix[i]);
            assert(dispatched_at(a, events, i));
        } else {
            lemma_only_dispatch_makes_runnable(c, events.last());
            let i = events.len() - 1;
            assert(events.take(i) =~= prefix);
            assert(events[i] == events.last());
            assert(dispatched_at(a, events, i));
        }
    }
}

/// Over any sequence of accepted transitions, the grant binding stays
/// consistent with the state.
pub proof fn lemma_events_keep_grant_binding(a: PreparedAttempt, events: Seq<AttemptEvent>)
    requires
        a.grant_binding_consistent(),
        run_events(a, events) is Some,
    ensures
        run_events(a, events)->0.grant_binding_consistent(),
    decreases events.len(),
{
    if events.len() > 0 {
        lemma_events_keep_grant_binding(a, events.drop_last());
        lemma_step_keeps_grant_binding(run_events(a, events.drop_last())->0, events.last());
    }
}

} // verus!
