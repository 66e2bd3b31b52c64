use productized_shell::gateway::{CapabilityResult, PersistentConversationCapabilityGateway};
use productized_shell::m3_identity::classify_whitelisted_action;

#[test]
fn only_echo_is_whitelisted() {
    assert_eq!(classify_whitelisted_action("echo hello"), "echo");
    assert_eq!(classify_whitelisted_action("do not run"), "none");
    assert_eq!(classify_whitelisted_action("rm -rf /"), "none");
}

#[test]
fn conversation_capability_cannot_replace_grant() {
    let mut gateway = PersistentConversationCapabilityGateway::new();
    gateway.register_session("sess-1", true);
    assert_eq!(
        gateway.check_proposal_capability("sess-1"),
        CapabilityResult::Allowed
    );
    assert!(matches!(
        gateway.check_proposal_capability("missing"),
        CapabilityResult::Denied { .. }
    ));
}

#[test]
fn session_without_proposal_right_is_denied() {
    let mut gateway = PersistentConversationCapabilityGateway::new();
    gateway.register_session("sess-2", false);
    assert!(matches!(
        gateway.check_proposal_capability("sess-2"),
        CapabilityResult::Denied { .. }
    ));
}

#[test]
fn later_registration_wins() {
    let mut gateway = PersistentConversationCapabilityGateway::new();
    gateway.register_session("sess-3", false);
    gateway.register_session("sess-3", true);
    assert_eq!(
        gateway.check_proposal_capability("sess-3"),
        CapabilityResult::Allowed
    );
}
