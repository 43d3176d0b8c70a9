use balanced_bridge::asset_manager::helpers::{
    decode_deposit_revert_msg, decode_method, decode_token_address,
};
use balanced_bridge::asset_manager::errors::AssetManagerError;
use balanced_bridge::asset_manager::structs::deposit_message::DepositMessage;
use balanced_bridge::asset_manager::structs::deposit_revert::DepositRevert;
use balanced_bridge::asset_manager::structs::withdraw_message::WithdrawTo;
use balanced_bridge::balanced_dollar::structs::cross_transfer::CrossTransferMsg;
use balanced_bridge::balanced_dollar::structs::cross_transfer_revert::CrossTransferRevert;
use balanced_bridge::message::{decode, encode, peek_secondary_field, peek_tag, DecodeError, Message};
use balanced_bridge::xcall_manager::configure_protocols::ConfigureProtocols;

fn s(text: &str) -> String {
    text.to_string()
}

#[test]
fn deposit_revert_has_the_expected_bytes() {
    let message = DepositRevert::create(s("ab"), s("cd"), 1);
    let mut expected = vec![0xd5u8, 0x8d];
    expected.extend_from_slice(b"DepositRevert");
    expected.extend_from_slice(&[0x82, b'a', b'b', 0x82, b'c', b'd', 0x01]);
    assert_eq!(message.encode(), expected);
}

#[test]
fn numbers_are_written_big_endian_without_leading_zeros() {
    let message = CrossTransferRevert::create(s("a"), 0x0102);
    let mut expected = vec![0xd9u8, 0x94];
    expected.extend_from_slice(b"xCrossTransferRevert");
    expected.extend_from_slice(&[b'a', 0x82, 0x01, 0x02]);
    assert_eq!(message.encode(), expected);
    let zero = CrossTransferRevert::create(s("a"), 0);
    let bytes = zero.encode();
    assert_eq!(*bytes.last().unwrap(), 0x80);
    let small = CrossTransferRevert::create(s("a"), 0x7f);
    assert_eq!(*small.encode().last().unwrap(), 0x7f);
    let edge = CrossTransferRevert::create(s("a"), 0x80);
    let bytes = edge.encode();
    assert_eq!(&bytes[bytes.len() - 2..], &[0x81, 0x80]);
}

#[test]
fn a_long_payload_gets_a_length_prefix() {
    let data = vec![7u8; 60];
    let message = CrossTransferMsg::create(s("f"), s("t"), 5, data.clone());
    let bytes = message.encode();
    // payload: 15 (tag) + 1 + 1 + 1 + 2 + 60 = 80 bytes, so the header is 0xf8 0x50
    assert_eq!(bytes[0], 0xf8);
    assert_eq!(bytes[1], 80);
    assert_eq!(bytes.len(), 82);
    assert_eq!(&bytes[20..22], &[0xb8, 60]);
    assert_eq!(&bytes[22..], &data[..]);
}

#[test]
fn every_variant_round_trips() {
    let messages = vec![
        Message::Deposit(DepositMessage::create(s("token"), s("from"), s("to"), 12345, vec![1, 2, 3])),
        Message::Deposit(DepositMessage::null()),
        Message::DepositRevert(DepositRevert::create(s("token"), s("acct"), u64::MAX)),
        Message::WithdrawTo(WithdrawTo::create(s("token"), s("user"), u128::MAX)),
        Message::WithdrawNativeTo(WithdrawTo::create(s("11111111111111111111111111111111"), s("user"), 0)),
        Message::CrossTransfer(CrossTransferMsg::create(s("a/b"), s("c/d"), 1 << 70, vec![0x80])),
        Message::CrossTransfer(CrossTransferMsg::create(s(""), s(""), 0, vec![])),
        Message::CrossTransferRevert(CrossTransferRevert::create(s("acct"), 256)),
        Message::ConfigureProtocols(ConfigureProtocols::create(vec![s("A"), s("B")], vec![s("C")])),
        Message::ConfigureProtocols(ConfigureProtocols::null()),
    ];
    for message in messages {
        let bytes = encode(&message);
        let back = decode(&bytes).expect("what was encoded decodes");
        assert_eq!(format!("{:?}", back), format!("{:?}", message));
        assert_eq!(encode(&back), bytes);
    }
}

#[test]
fn long_fields_round_trip() {
    let messages = vec![
        Message::Deposit(DepositMessage::create(
            "t".repeat(56),
            "f".repeat(255),
            "o".repeat(256),
            1 << 40,
            vec![0xab; 70_000],
        )),
        Message::ConfigureProtocols(ConfigureProtocols::create(
            (0..40).map(|i| format!("protocol-{}-{}", i, "x".repeat(i))).collect(),
            vec!["d".repeat(300), String::new()],
        )),
        Message::CrossTransfer(CrossTransferMsg::create(
            "a".repeat(55),
            "b".repeat(57),
            u128::MAX,
            (0..=255u8).collect(),
        )),
    ];
    for message in messages {
        let bytes = encode(&message);
        assert!(bytes[0] >= 0xf8);
        let back = decode(&bytes).expect("what was encoded decodes");
        assert_eq!(format!("{:?}", back), format!("{:?}", message));
    }
}

#[test]
fn unicode_text_round_trips() {
    let message = DepositRevert::create(s("tök€n"), s("名前"), 9);
    let bytes = message.encode();
    let back = DepositRevert::decode(&bytes).unwrap();
    assert_eq!(back.token_address, "tök€n");
    assert_eq!(back.account, "名前");
    assert_eq!(back.amount, 9);
}

#[test]
fn decode_rejects_an_unknown_tag() {
    let odd = rlp_list(&[rlp_str("Unknown"), rlp_str("a"), rlp_str("b"), vec![0x01]]);
    assert_eq!(decode(&odd).err(), Some(DecodeError::UnknownOrMalformed));
}

#[test]
fn decode_rejects_a_wrong_arity() {
    let short = rlp_list(&[rlp_str("DepositRevert"), rlp_str("a"), rlp_str("b")]);
    assert_eq!(decode(&short).err(), Some(DecodeError::UnknownOrMalformed));
    let long = rlp_list(&[
        rlp_str("DepositRevert"),
        rlp_str("a"),
        rlp_str("b"),
        vec![0x01],
        vec![0x02],
    ]);
    assert_eq!(decode(&long).err(), Some(DecodeError::UnknownOrMalformed));
    assert!(DepositRevert::decode(&long).is_none());
    assert!(matches!(decode_deposit_revert_msg(&long), Err(AssetManagerError::DecoderError)));
}

#[test]
fn decode_rejects_what_is_no_list() {
    assert_eq!(decode(&[]).err(), Some(DecodeError::UnknownOrMalformed));
    assert_eq!(decode(&[0x83, b'c', b'a', b't']).err(), Some(DecodeError::UnknownOrMalformed));
    assert_eq!(peek_tag(&[]).err(), Some(DecodeError::UnknownOrMalformed));
    assert_eq!(peek_tag(&[0x01]).err(), Some(DecodeError::UnknownOrMalformed));
}

#[test]
fn peeking_does_not_panic_on_truncated_input() {
    let message = WithdrawTo::create(s("token"), s("user"), 77);
    let bytes = message.encode();
    for cut in 0..bytes.len() {
        let _ = peek_tag(&bytes[..cut]);
        let _ = peek_secondary_field(&bytes[..cut], 1);
        assert!(decode(&bytes[..cut]).is_err());
    }
    assert_eq!(peek_tag(&bytes).unwrap(), "WithdrawTo");
    assert_eq!(peek_secondary_field(&bytes, 1).unwrap(), "token");
    assert_eq!(peek_secondary_field(&bytes, 2).unwrap(), "user");
    assert!(peek_secondary_field(&bytes, 4).is_err());
}

#[test]
fn decode_rejects_a_number_with_a_leading_zero() {
    let padded = rlp_list(&[
        rlp_str("DepositRevert"),
        rlp_str("a"),
        rlp_str("b"),
        vec![0x82, 0x00, 0x01],
    ]);
    assert!(decode(&padded).is_err());
}

#[test]
fn decode_rejects_a_number_too_wide_for_its_field() {
    let wide = rlp_list(&[
        rlp_str("DepositRevert"),
        rlp_str("a"),
        rlp_str("b"),
        vec![0x89, 1, 0, 0, 0, 0, 0, 0, 0, 0],
    ]);
    assert!(decode(&wide).is_err());
}

#[test]
fn asset_manager_helpers_read_tag_and_asset() {
    let message = DepositRevert::create(s("mint"), s("acct"), 3);
    let bytes = message.encode();
    assert_eq!(decode_method(&bytes).unwrap(), "DepositRevert");
    assert_eq!(decode_token_address(&bytes).unwrap(), "mint");
    assert!(matches!(decode_method(&[0x80]), Err(AssetManagerError::DecoderError)));
    let back = decode_deposit_revert_msg(&bytes).unwrap();
    assert_eq!(back.account, "acct");
    assert_eq!(back.amount, 3);
}

#[test]
fn withdraw_decodes_under_both_tags_and_no_other() {
    let message = WithdrawTo::create(s("mint"), s("user"), 5);
    assert!(WithdrawTo::decode(&message.encode()).is_some());
    assert!(WithdrawTo::decode(&message.encode_native()).is_some());
    let other = DepositRevert::create(s("mint"), s("user"), 5).encode();
    assert!(WithdrawTo::decode(&other).is_none());
    assert!(matches!(decode(&message.encode_native()), Ok(Message::WithdrawNativeTo(_))));
    assert!(matches!(decode(&message.encode()), Ok(Message::WithdrawTo(_))));
}

#[test]
fn from_parts_needs_every_part() {
    assert!(DepositRevert::from_parts(true, Some(4), Some(s("DepositRevert")), Some(s("t")), Some(s("a")), Some(1)).is_some());
    assert!(DepositRevert::from_parts(false, Some(4), Some(s("DepositRevert")), Some(s("t")), Some(s("a")), Some(1)).is_none());
    assert!(DepositRevert::from_parts(true, Some(5), Some(s("DepositRevert")), Some(s("t")), Some(s("a")), Some(1)).is_none());
    assert!(DepositRevert::from_parts(true, None, Some(s("DepositRevert")), Some(s("t")), Some(s("a")), Some(1)).is_none());
    assert!(DepositRevert::from_parts(true, Some(4), Some(s("Deposit")), Some(s("t")), Some(s("a")), Some(1)).is_none());
    assert!(DepositRevert::from_parts(true, Some(4), Some(s("DepositRevert")), None, Some(s("a")), Some(1)).is_none());
    assert!(DepositRevert::from_parts(true, Some(4), Some(s("DepositRevert")), Some(s("t")), None, Some(1)).is_none());
    assert!(DepositRevert::from_parts(true, Some(4), Some(s("DepositRevert")), Some(s("t")), Some(s("a")), None).is_none());
}

fn rlp_str(text: &str) -> Vec<u8> {
    let bytes = text.as_bytes();
    assert!(bytes.len() <= 55);
    if bytes.len() == 1 && bytes[0] < 0x80 {
        return bytes.to_vec();
    }
    let mut out = vec![0x80 + bytes.len() as u8];
    out.extend_from_slice(bytes);
    out
}

fn rlp_list(items: &[Vec<u8>]) -> Vec<u8> {
    let payload: Vec<u8> = items.concat();
    assert!(payload.len() <= 55);
    let mut out = vec![0xc0 + payload.len() as u8];
    out.extend_from_slice(&payload);
    out
}
