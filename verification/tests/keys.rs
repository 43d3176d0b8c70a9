use balanced_bridge::address::{AccountKey, _NATIVE_ADDRESS};
use balanced_bridge::balanced_dollar::errors::BalancedDollarError;
use balanced_bridge::balanced_dollar::instructions::account_from_network_address;
use balanced_bridge::network_address::account_part;
use solana_program::pubkey::Pubkey;

#[test]
fn the_native_address_is_the_zero_key() {
    let key = AccountKey::parse(_NATIVE_ADDRESS).unwrap();
    assert_eq!(key.bytes, [0u8; 32]);
    assert_eq!(AccountKey { bytes: [0; 32] }.to_base58(), _NATIVE_ADDRESS);
}

#[test]
fn keys_are_read_from_base58_and_written_back() {
    let text = "4u979CPSHUeJQbCYUAvoki4CQHDiG1257vt2DaJULPV9";
    let key = AccountKey::parse(text).unwrap();
    assert_ne!(key.bytes, [0u8; 32]);
    assert_eq!(key.to_base58(), text);
    let mut bytes = [0u8; 32];
    for (i, b) in bytes.iter_mut().enumerate() {
        *b = i as u8 * 7 + 1;
    }
    let written = AccountKey { bytes }.to_base58();
    assert_eq!(written, Pubkey::new_from_array(bytes).to_string());
    assert_eq!(AccountKey::parse(&written).unwrap().bytes, bytes);
}

#[test]
fn what_is_no_key_is_not_read() {
    assert!(AccountKey::parse("").is_none());
    assert!(AccountKey::parse("abc").is_none());
    assert!(AccountKey::parse("0OIl").is_none());
    assert!(AccountKey::parse("4u979CPSHUeJQbCYUAvoki4CQHDiG1257vt2DaJULPV9x").is_none());
    assert!(AccountKey::parse("hx0000000000000000000000000000000000000001").is_none());
}

#[test]
fn keys_compare_by_their_bytes() {
    let a = AccountKey { bytes: [5; 32] };
    let mut other = [5u8; 32];
    assert!(a.same_as(&AccountKey { bytes: other }));
    other[31] = 6;
    assert!(!a.same_as(&AccountKey { bytes: other }));
    other[31] = 5;
    other[0] = 4;
    assert!(!a.same_as(&AccountKey { bytes: other }));
}

#[test]
fn the_account_follows_the_one_slash() {
    assert_eq!(account_part("0x1.icon/cx123").as_deref(), Some("cx123"));
    assert_eq!(account_part("/").as_deref(), Some(""));
    assert_eq!(account_part("a/").as_deref(), Some(""));
    assert_eq!(account_part("/b").as_deref(), Some("b"));
    assert_eq!(account_part("ünï/cödé").as_deref(), Some("cödé"));
}

#[test]
fn an_address_needs_exactly_one_slash() {
    assert_eq!(account_part(""), None);
    assert_eq!(account_part("no-slash"), None);
    assert_eq!(account_part("a/b/c"), None);
    assert_eq!(account_part("//"), None);
    assert_eq!(account_part("a//"), None);
}

#[test]
fn a_malformed_address_is_its_own_error() {
    assert_eq!(account_from_network_address("net/acct".to_string()).unwrap(), "acct");
    assert_eq!(
        account_from_network_address("net".to_string()),
        Err(BalancedDollarError::InvalidNetworkAddress)
    );
    assert_eq!(
        account_from_network_address("a/b/c".to_string()),
        Err(BalancedDollarError::InvalidNetworkAddress)
    );
}
