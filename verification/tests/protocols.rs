use balanced_bridge::address::AccountKey;
use balanced_bridge::xcall_manager::errors::XCallManagerError;
use balanced_bridge::xcall_manager::instructions::{
    verify_inbound, verify_protocol_recovery, verify_protocols, verify_protocols_unordered,
};
use balanced_bridge::xcall_manager::states::XmState;

fn names(list: &[&str]) -> Vec<String> {
    list.iter().map(|s| s.to_string()).collect()
}

fn state(sources: &[&str], proposal: &str) -> XmState {
    XmState {
        admin: AccountKey { bytes: [1; 32] },
        xcall: AccountKey { bytes: [2; 32] },
        icon_governance: "0x1.icon/gov".to_string(),
        sources: names(sources),
        destinations: names(&[]),
        whitelisted_actions: vec![],
        proposed_protocol_to_remove: proposal.to_string(),
    }
}

#[test]
fn strict_verification_ignores_order() {
    let a = names(&["A", "B", "C"]);
    for attesting in [
        ["A", "B", "C"],
        ["A", "C", "B"],
        ["B", "A", "C"],
        ["B", "C", "A"],
        ["C", "A", "B"],
        ["C", "B", "A"],
    ] {
        assert!(verify_protocols_unordered(&a, &names(&attesting)));
        assert!(verify_protocols_unordered(&names(&attesting), &a));
    }
}

#[test]
fn strict_verification_fails_on_length_mismatch() {
    assert!(!verify_protocols_unordered(&names(&["A", "B"]), &names(&["A", "B", "C"])));
    assert!(!verify_protocols_unordered(&names(&["A", "B", "C"]), &names(&["A", "B"])));
    assert!(!verify_protocols_unordered(&names(&[]), &names(&["A"])));
    assert!(verify_protocols_unordered(&names(&[]), &names(&[])));
}

#[test]
fn strict_verification_fails_on_a_missing_protocol() {
    assert!(!verify_protocols_unordered(&names(&["A", "B", "C"]), &names(&["A", "B", "D"])));
    assert!(!verify_protocols_unordered(&names(&["A"]), &names(&["a"])));
    assert!(!verify_protocols_unordered(&names(&["A"]), &names(&[""])));
}

#[test]
fn strict_verification_compares_the_sets_both_ways() {
    assert!(!verify_protocols_unordered(&names(&["A", "A"]), &names(&["A", "B"])));
    assert!(!verify_protocols_unordered(&names(&["A", "B"]), &names(&["A", "A"])));
    assert!(!verify_protocols_unordered(&names(&["A", "B", "B"]), &names(&["A", "B", "C"])));
    // equally long and the same set: a name may stand twice on either side
    assert!(verify_protocols_unordered(&names(&["A", "A", "B"]), &names(&["B", "A", "B"])));
    assert!(verify_protocols_unordered(&names(&["A", "A"]), &names(&["A", "A"])));
}

#[test]
fn sources_with_a_repeated_name_do_not_widen_what_is_accepted() {
    let xm = state(&["A", "A"], "");
    assert!(!verify_protocols(&xm, &names(&["A", "B"])));
    assert!(!verify_inbound(&xm, &names(&["A", "B"])));
    assert!(!verify_inbound(&xm, &names(&["B", "A"])));
    assert!(verify_inbound(&xm, &names(&["A", "A"])));
}

#[test]
fn verify_protocols_uses_the_configured_sources() {
    let xm = state(&["A", "B"], "");
    assert!(verify_protocols(&xm, &names(&["B", "A"])));
    assert!(!verify_protocols(&xm, &names(&["B"])));
}

#[test]
fn recovery_fails_without_a_proposal() {
    let empty = String::new();
    assert_eq!(
        verify_protocol_recovery(&empty, &names(&["A", "B"]), &names(&["A", "B"])),
        Err(XCallManagerError::NoProposalForRemovalExists)
    );
    assert_eq!(
        verify_protocol_recovery(&empty, &names(&[]), &names(&[])),
        Err(XCallManagerError::NoProposalForRemovalExists)
    );
    assert_eq!(
        verify_protocol_recovery(&empty, &names(&["A"]), &names(&[])),
        Err(XCallManagerError::NoProposalForRemovalExists)
    );
}

#[test]
fn recovery_tolerates_exactly_the_proposed_protocol() {
    let sources = names(&["A", "B", "C"]);
    let proposal = "B".to_string();
    assert_eq!(verify_protocol_recovery(&proposal, &sources, &names(&["A", "C"])), Ok(true));
    assert_eq!(verify_protocol_recovery(&proposal, &sources, &names(&["C", "A"])), Ok(true));
    assert_eq!(
        verify_protocol_recovery(&proposal, &sources, &names(&["A", "B", "C"])),
        Err(XCallManagerError::ProtocolMismatch)
    );
    assert_eq!(
        verify_protocol_recovery(&proposal, &sources, &names(&["A"])),
        Err(XCallManagerError::ProtocolMismatch)
    );
    assert_eq!(
        verify_protocol_recovery(&proposal, &sources, &names(&["A", "B"])),
        Err(XCallManagerError::ProtocolMismatch)
    );
}

#[test]
fn recovery_removes_every_occurrence_of_the_proposal() {
    let sources = names(&["B", "A", "B"]);
    let proposal = "B".to_string();
    assert_eq!(verify_protocol_recovery(&proposal, &sources, &names(&["A"])), Ok(true));
    let absent = "Z".to_string();
    assert_eq!(verify_protocol_recovery(&absent, &names(&["A"]), &names(&["A"])), Ok(true));
}

#[test]
fn inbound_verification_is_strict_or_recovery() {
    let calm = state(&["A", "B", "C"], "");
    assert!(verify_inbound(&calm, &names(&["C", "B", "A"])));
    assert!(!verify_inbound(&calm, &names(&["A", "C"])));
    let recovering = state(&["A", "B", "C"], "B");
    assert!(verify_inbound(&recovering, &names(&["C", "B", "A"])));
    assert!(verify_inbound(&recovering, &names(&["A", "C"])));
    assert!(!verify_inbound(&recovering, &names(&["A", "B"])));
    assert!(!verify_inbound(&recovering, &names(&["A"])));
}
