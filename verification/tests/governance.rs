use balanced_bridge::address::AccountKey;
use balanced_bridge::asset_manager::structs::deposit_revert::DepositRevert;
use balanced_bridge::xcall_manager::configure_protocols::ConfigureProtocols;
use balanced_bridge::xcall_manager::errors::XCallManagerError;
use balanced_bridge::xcall_manager::helpers::{decode_handle_call_msg, decode_method};
use balanced_bridge::xcall_manager::instructions::{
    handle_call_message, initialize, propose_removal, remove_action, set_admin, set_protocols,
    whitelist_action,
};
use balanced_bridge::xcall_manager::states::XmState;

const GOVERNANCE: &str = "0x1.icon/cxgovernance";

fn names(list: &[&str]) -> Vec<String> {
    list.iter().map(|s| s.to_string()).collect()
}

fn relay() -> AccountKey {
    AccountKey { bytes: [2; 32] }
}

fn state(sources: &[&str]) -> XmState {
    XmState {
        admin: AccountKey { bytes: [1; 32] },
        xcall: relay(),
        icon_governance: GOVERNANCE.to_string(),
        sources: names(sources),
        destinations: names(&["D"]),
        whitelisted_actions: vec![],
        proposed_protocol_to_remove: String::new(),
    }
}

fn configure(sources: &[&str], destinations: &[&str]) -> Vec<u8> {
    ConfigureProtocols::create(names(sources), names(destinations)).encode()
}

#[test]
fn a_replayed_configuration_is_refused() {
    let mut xm = state(&["A", "B"]);
    let data = configure(&["X", "Y", "Z"], &["P"]);
    whitelist_action(&mut xm, data.clone());
    let from = GOVERNANCE.to_string();
    let attesting = names(&["B", "A"]);
    let first = handle_call_message(&mut xm, &relay(), &from, &data, &attesting).unwrap();
    assert!(first.success);
    assert_eq!(first.message, "Success");
    assert_eq!(xm.sources, names(&["X", "Y", "Z"]));
    assert_eq!(xm.destinations, names(&["P"]));
    assert!(xm.whitelisted_actions.is_empty());
    let second =
        handle_call_message(&mut xm, &relay(), &from, &data, &names(&["X", "Y", "Z"])).unwrap();
    assert!(!second.success);
    assert_eq!(second.message, "Action not whitelisted");
    assert_eq!(xm.sources, names(&["X", "Y", "Z"]));
}

#[test]
fn only_the_relay_may_call() {
    let mut xm = state(&["A"]);
    let data = configure(&["X"], &["Y"]);
    whitelist_action(&mut xm, data.clone());
    let stranger = AccountKey { bytes: [3; 32] };
    let r = handle_call_message(&mut xm, &stranger, &GOVERNANCE.to_string(), &data, &names(&["A"]));
    assert_eq!(r.err(), Some(XCallManagerError::OnlyXcall));
    assert_eq!(xm.whitelisted_actions.len(), 1);
    assert_eq!(xm.sources, names(&["A"]));
}

#[test]
fn refusals_are_reported_in_order_and_change_nothing() {
    let mut xm = state(&["A", "B"]);
    let data = configure(&["X"], &["Y"]);
    let from = GOVERNANCE.to_string();
    // not governance, not whitelisted, wrong protocols: the sender is reported
    let r = handle_call_message(&mut xm, &relay(), &"0x1.icon/other".to_string(), &data, &names(&[]))
        .unwrap();
    assert_eq!((r.success, r.message.as_str()), (false, "Not the Icon Governance"));
    // not whitelisted, wrong protocols: the allow-list is reported
    let r = handle_call_message(&mut xm, &relay(), &from, &data, &names(&[])).unwrap();
    assert_eq!((r.success, r.message.as_str()), (false, "Action not whitelisted"));
    whitelist_action(&mut xm, data.clone());
    let r = handle_call_message(&mut xm, &relay(), &from, &data, &names(&["A"])).unwrap();
    assert_eq!((r.success, r.message.as_str()), (false, "Protocol mismatch"));
    assert_eq!(xm.whitelisted_actions, vec![data.clone()]);
    assert_eq!(xm.sources, names(&["A", "B"]));
    assert_eq!(xm.destinations, names(&["D"]));
}

#[test]
fn recovery_admits_a_configuration_while_a_removal_is_proposed() {
    let mut xm = state(&["A", "B", "C"]);
    let data = configure(&["A", "C"], &["A", "C"]);
    whitelist_action(&mut xm, data.clone());
    let from = GOVERNANCE.to_string();
    let r = handle_call_message(&mut xm, &relay(), &from, &data, &names(&["A", "C"])).unwrap();
    assert!(!r.success);
    propose_removal(&mut xm, "B".to_string());
    assert_eq!(xm.proposed_protocol_to_remove, "B");
    let r = handle_call_message(&mut xm, &relay(), &from, &data, &names(&["C", "A"])).unwrap();
    assert!(r.success);
    assert_eq!(xm.sources, names(&["A", "C"]));
    assert_eq!(xm.proposed_protocol_to_remove, "B");
}

#[test]
fn other_messages_and_garbage_are_refused() {
    let mut xm = state(&["A"]);
    let from = GOVERNANCE.to_string();
    let other = DepositRevert::create("t".to_string(), "a".to_string(), 1).encode();
    whitelist_action(&mut xm, other.clone());
    let r = handle_call_message(&mut xm, &relay(), &from, &other, &names(&["A"])).unwrap();
    assert_eq!((r.success, r.message.as_str()), (false, "Unknown message type"));
    let garbage = vec![0x01u8, 0x02];
    whitelist_action(&mut xm, garbage.clone());
    let r = handle_call_message(&mut xm, &relay(), &from, &garbage, &names(&["A"])).unwrap();
    assert_eq!((r.success, r.message.as_str()), (false, "Decoder Error"));
    // the tag is right, the arity is not
    let mut short = vec![0xd3u8, 0x92];
    short.extend_from_slice(b"ConfigureProtocols");
    whitelist_action(&mut xm, short.clone());
    let r = handle_call_message(&mut xm, &relay(), &from, &short, &names(&["A"])).unwrap();
    assert_eq!((r.success, r.message.as_str()), (false, "Decoder Error"));
    assert_eq!(xm.whitelisted_actions.len(), 3);
    assert_eq!(xm.sources, names(&["A"]));
}

#[test]
fn a_configuration_leaves_other_entries_on_the_allow_list() {
    let mut xm = state(&["A"]);
    let data = configure(&["X"], &[]);
    let other = configure(&["Y"], &[]);
    whitelist_action(&mut xm, other.clone());
    whitelist_action(&mut xm, data.clone());
    whitelist_action(&mut xm, data.clone());
    let r = handle_call_message(&mut xm, &relay(), &GOVERNANCE.to_string(), &data, &names(&["A"]))
        .unwrap();
    assert!(r.success);
    assert_eq!(xm.whitelisted_actions, vec![other]);
    assert_eq!(xm.sources, names(&["X"]));
    assert!(xm.destinations.is_empty());
}

#[test]
fn administration_sets_what_it_names() {
    let mut xm = state(&["A"]);
    initialize(
        &mut xm,
        AccountKey { bytes: [7; 32] },
        AccountKey { bytes: [8; 32] },
        "gov".to_string(),
        names(&["S"]),
        names(&["T"]),
    );
    assert_eq!(xm.admin.bytes, [7; 32]);
    assert_eq!(xm.xcall.bytes, [8; 32]);
    assert_eq!(xm.icon_governance, "gov");
    assert_eq!(xm.sources, names(&["S"]));
    assert_eq!(xm.destinations, names(&["T"]));
    set_admin(&mut xm, AccountKey { bytes: [9; 32] });
    assert_eq!(xm.admin.bytes, [9; 32]);
    set_protocols(&mut xm, names(&["U", "V"]), names(&[]));
    assert_eq!(xm.sources, names(&["U", "V"]));
    assert!(xm.destinations.is_empty());
    whitelist_action(&mut xm, vec![1]);
    whitelist_action(&mut xm, vec![2]);
    whitelist_action(&mut xm, vec![1]);
    remove_action(&mut xm, vec![1]);
    assert_eq!(xm.whitelisted_actions, vec![vec![2u8]]);
    remove_action(&mut xm, vec![3]);
    assert_eq!(xm.whitelisted_actions, vec![vec![2u8]]);
    propose_removal(&mut xm, "U".to_string());
    assert_eq!(xm.proposed_protocol_to_remove, "U");
}

#[test]
fn helpers_read_the_configuration() {
    let data = configure(&["src1", "src2"], &["dst"]);
    assert_eq!(decode_method(&data).unwrap(), "ConfigureProtocols");
    let message = decode_handle_call_msg(&data).unwrap();
    assert_eq!(message.sources, names(&["src1", "src2"]));
    assert_eq!(message.destinations, names(&["dst"]));
    assert_eq!(decode_method(&[]).err(), Some(XCallManagerError::DecoderError));
    assert_eq!(decode_handle_call_msg(&[0xc0]).err(), Some(XCallManagerError::DecoderError));
    let mut expected = vec![0xd9u8, 0x92];
    expected.extend_from_slice(b"ConfigureProtocols");
    expected.extend_from_slice(&[0xc4, b'a', 0x82, b'b', b'c', 0xc0]);
    assert_eq!(configure(&["a", "bc"], &[]), expected);
}
