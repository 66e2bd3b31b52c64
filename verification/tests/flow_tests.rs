use productized_shell::advisory::{summary_consumer_for, M6OrgGlobalSummaryConsumerLease};
use productized_shell::consult::{
    accept_return_step, recipient_claim_refusal, recipient_effect_step, recipient_snapshot_refusal,
    secretary_snapshot_refusal, AcceptReturnAction, AcceptReturnEvent, AcceptReturnState,
    ProviderEffectState, RecipientStep,
};
use productized_shell::control::derived_receipt_notes;
use productized_shell::outside::json_quote;

#[test]
fn global_consumer_is_scoped_to_the_queried_project() {
    let lease = M6OrgGlobalSummaryConsumerLease {
        role_session_id: "session:global".into(),
        role_session_revision: 3,
        scope_kind: "organization".into(),
        consumer_expires_at_ms: 5_000,
    };
    let c = summary_consumer_for(&lease, "project-alpha");
    assert_eq!(c.role_session_id, "session:global");
    assert_eq!(c.role, "global_supervisor");
    assert_eq!(c.scope_project_id, "project-alpha");
    assert_eq!(c.expires_at_ms, 5_000);
}

#[test]
fn json_strings_are_escaped_as_serde_json_writes_them() {
    assert_eq!(json_quote("plain"), "\"plain\"");
    assert_eq!(json_quote("a\"b\\c"), "\"a\\\"b\\\\c\"");
    assert_eq!(json_quote("\n\t\r\u{8}\u{c}"), "\"\\n\\t\\r\\b\\f\"");
    assert_eq!(json_quote("\u{1}\u{1f}\u{7f}é"), "\"\\u0001\\u001f\u{7f}é\"");
}

#[test]
fn recipient_steps_follow_the_effect_state() {
    assert_eq!(recipient_effect_step(ProviderEffectState::Registered), RecipientStep::ClaimDispatch);
    assert_eq!(
        recipient_effect_step(ProviderEffectState::DispatchClaimed),
        RecipientStep::RecordProviderReceipt
    );
    assert_eq!(
        recipient_effect_step(ProviderEffectState::ProviderReceiptRecorded),
        RecipientStep::BindProviderHandle
    );
    assert_eq!(recipient_effect_step(ProviderEffectState::Other), RecipientStep::CheckSnapshot);
    assert_eq!(recipient_claim_refusal(true), Ok(()));
    assert_eq!(
        recipient_claim_refusal(false).unwrap_err(),
        "m6_org_consult_recipient_local_claim_not_granted"
    );
    assert_eq!(recipient_snapshot_refusal(true, true, 1), Ok(()));
    for (v, p, r) in [(false, true, 1), (true, false, 1), (true, true, 2)] {
        assert_eq!(
            recipient_snapshot_refusal(v, p, r).unwrap_err(),
            "m6_org_consult_recipient_binding_unavailable"
        );
    }
    assert_eq!(secretary_snapshot_refusal(true, true), Ok(()));
    assert_eq!(
        secretary_snapshot_refusal(true, false).unwrap_err(),
        "m6_org_consult_secretary_binding_unavailable"
    );
}

fn fail_code(a: AcceptReturnAction) -> String {
    match a {
        AcceptReturnAction::Fail { code } => code,
        other => panic!("unexpected {other:?}"),
    }
}

#[test]
fn accept_and_return_runs_in_order() {
    let (s, a) = accept_return_step(AcceptReturnState::Start, AcceptReturnEvent::Begin);
    assert_eq!(s, AcceptReturnState::AwaitAccept);
    assert!(matches!(a, AcceptReturnAction::Accept));
    let (s, a) = accept_return_step(
        s,
        AcceptReturnEvent::Accepted { receipt: Some(("ACCEPTED".into(), 2)) },
    );
    assert_eq!(s, AcceptReturnState::AwaitAdvisory { accepted_revision: 2 });
    assert!(matches!(a, AcceptReturnAction::RunAdvisory { accepted_revision: 2 }));
    let (s, a) = accept_return_step(s, AcceptReturnEvent::AdvisoryDone { issued: true });
    assert!(matches!(a, AcceptReturnAction::RequestReturn { expected_revision: 2 }));
    let (s, a) = accept_return_step(
        s,
        AcceptReturnEvent::ReturnRequested { receipt: Some(("RETURN_PENDING".into(), 3)) },
    );
    assert_eq!(s, AcceptReturnState::AwaitReturnRecord);
    assert!(matches!(a, AcceptReturnAction::RecordReturn { expected_revision: 3 }));
    let (s, a) = accept_return_step(s, AcceptReturnEvent::ReturnRecorded { status: "RETURNED".into() });
    assert_eq!(s, AcceptReturnState::Finished);
    assert!(matches!(a, AcceptReturnAction::ReportReturned));
}

#[test]
fn accept_and_return_fails_closed() {
    let (_, a) = accept_return_step(AcceptReturnState::AwaitAccept, AcceptReturnEvent::Accepted { receipt: None });
    assert_eq!(fail_code(a), "m6_org_consult_accepted_receipt_missing");
    let (_, a) = accept_return_step(
        AcceptReturnState::AwaitAccept,
        AcceptReturnEvent::Accepted { receipt: Some(("CREATED".into(), 1)) },
    );
    assert_eq!(fail_code(a), "m6_org_consult_accept_not_committed");
    let (s, a) = accept_return_step(
        AcceptReturnState::AwaitAdvisory { accepted_revision: 2 },
        AcceptReturnEvent::AdvisoryDone { issued: false },
    );
    assert_eq!(s, AcceptReturnState::Finished);
    assert!(matches!(a, AcceptReturnAction::ReportAccepted));
    let (_, a) = accept_return_step(
        AcceptReturnState::AwaitReturnRequest { accepted_revision: 2 },
        AcceptReturnEvent::ReturnRequested { receipt: Some(("ACCEPTED".into(), 2)) },
    );
    assert_eq!(fail_code(a), "m6_org_consult_return_request_not_committed");
    let (_, a) = accept_return_step(
        AcceptReturnState::AwaitReturnRecord,
        AcceptReturnEvent::ReturnRecorded { status: "REJECTED".into() },
    );
    assert_eq!(fail_code(a), "m6_org_consult_return_not_committed");
    let (_, a) = accept_return_step(AcceptReturnState::Start, AcceptReturnEvent::AdvisoryDone { issued: true });
    assert_eq!(fail_code(a), "m6_org_consult_step_out_of_order");
}

#[test]
fn isolated_receipt_notes_per_phase() {
    assert_eq!(
        derived_receipt_notes("scene-a", 0, 1, 0, &None, None, false, false),
        vec!["zero_grant=true".to_string(), "rejected_proposal=true".to_string()]
    );
    let join = Some((Some("c".to_string()), Some("r".to_string()), Some("f".to_string())));
    assert_eq!(
        derived_receipt_notes("scene-b", 1, 0, 1, &join, Some(true), true, true),
        vec![
            "approved_proposal=true".to_string(),
            "exact_join=true".to_string(),
            "stale_observed=true".to_string(),
            "deep_link_resolves=true".to_string(),
        ]
    );
    let partial = Some((Some("c".to_string()), None, None));
    assert_eq!(
        derived_receipt_notes("scene-b", 1, 0, 0, &partial, None, false, true),
        vec![
            "approved_proposal=false".to_string(),
            "exact_join=false".to_string(),
            "stale_observed=false".to_string(),
            "deep_link_resolves=false".to_string(),
        ]
    );
    assert_eq!(
        derived_receipt_notes("resume", 0, 0, 0, &None, None, false, true),
        vec!["binding_recovered=true".to_string()]
    );
    assert_eq!(
        derived_receipt_notes("other", 0, 0, 0, &None, None, false, false),
        vec!["phase=other".to_string()]
    );
}
