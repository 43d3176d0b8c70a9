use balanced_bridge::asset_manager::structs::deposit_message::DepositMessage;
use balanced_bridge::balanced_dollar::structs::cross_transfer::CrossTransferMsg;
use balanced_bridge::message::{try_encode, Message};
use balanced_bridge::wire_len::{
    data_len, digits_of, frame_len, number_len, plus, record_len, text_len, text_list_len,
    MAX_WIRE_LEN,
};
use balanced_bridge::xcall_manager::configure_protocols::ConfigureProtocols;

#[test]
fn lengths_of_byte_strings() {
    assert_eq!(data_len(&[]), Some(1));
    assert_eq!(data_len(&[0x7f]), Some(1));
    assert_eq!(data_len(&[0x80]), Some(2));
    assert_eq!(data_len(&[0; 55]), Some(56));
    assert_eq!(data_len(&[0; 56]), Some(58));
    assert_eq!(data_len(&[0; 255]), Some(257));
    assert_eq!(data_len(&[0; 256]), Some(259));
    assert_eq!(text_len("cat"), Some(4));
    assert_eq!(text_len("é"), Some(3));
}

#[test]
fn lengths_of_numbers() {
    assert_eq!(number_len(0), 1);
    assert_eq!(number_len(1), 1);
    assert_eq!(number_len(0x7f), 1);
    assert_eq!(number_len(0x80), 2);
    assert_eq!(number_len(0xff), 2);
    assert_eq!(number_len(0x100), 3);
    assert_eq!(number_len(u64::MAX as u128), 9);
    assert_eq!(number_len(u128::MAX), 17);
}

#[test]
fn lengths_of_lists() {
    assert_eq!(digits_of(0), 0);
    assert_eq!(digits_of(255), 1);
    assert_eq!(digits_of(256), 2);
    assert_eq!(digits_of(0xffff_ffff), 4);
    assert_eq!(frame_len(Some(0)), Some(1));
    assert_eq!(frame_len(Some(55)), Some(56));
    assert_eq!(frame_len(Some(56)), Some(58));
    assert_eq!(frame_len(Some(MAX_WIRE_LEN)), None);
    assert_eq!(frame_len(Some(MAX_WIRE_LEN - 5)), Some(MAX_WIRE_LEN));
    assert_eq!(frame_len(None), None);
    assert_eq!(plus(Some(1), Some(2)), Some(3));
    assert_eq!(plus(Some(MAX_WIRE_LEN), Some(1)), None);
    assert_eq!(plus(Some(MAX_WIRE_LEN - 1), Some(1)), Some(MAX_WIRE_LEN));
    assert_eq!(plus(None, Some(1)), None);
    assert_eq!(record_len(&vec![]), Some(1));
    assert_eq!(record_len(&vec![Some(3), Some(4)]), Some(8));
    assert_eq!(record_len(&vec![Some(3), None]), None);
    assert_eq!(text_list_len(&vec![]), Some(1));
    assert_eq!(text_list_len(&vec!["a".to_string(), "bc".to_string()]), Some(5));
}

#[test]
fn the_measured_length_is_the_encoded_length() {
    let messages = vec![
        DepositMessage::create("t".repeat(70), "f".to_string(), String::new(), 300, vec![1; 300]),
        DepositMessage::null(),
    ];
    for m in messages {
        assert_eq!(m.wire_len(), Some(m.encode().len()));
        assert_eq!(m.try_encode(), Some(m.encode()));
    }
    let c = ConfigureProtocols::create(vec!["x".repeat(60), "y".to_string()], vec![]);
    assert_eq!(c.wire_len(), Some(c.encode().len()));
    let t = CrossTransferMsg::create("a".to_string(), "b".to_string(), u128::MAX, vec![0x7f]);
    assert_eq!(t.wire_len(), Some(t.encode().len()));
    assert_eq!(try_encode(&Message::CrossTransfer(t.clone())), Some(t.encode()));
}
