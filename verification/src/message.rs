//! The codec of all cross-chain messages: one tagged union, written to and read
//! from its canonical bytes.

use vstd::prelude::*;
use crate::asset_manager::structs::deposit_message::{DepositMessage, DepositMessageView, DEPOSIT};
use crate::asset_manager::structs::deposit_revert::{
    DepositRevert, DepositRevertView, DEPOSIT_REVERT,
};
use crate::asset_manager::structs::withdraw_message::{
    WithdrawTo, WithdrawToView, WITHDRAW_TO, WITHDRAW_TO_NATIVE,
};
use crate::balanced_dollar::structs::cross_transfer::{
    CrossTransferMsg, CrossTransferMsgView, CROSS_TRANSFER,
};
use crate::balanced_dollar::structs::cross_transfer_revert::{
    CrossTransferRevert, CrossTransferRevertView, CROSS_TRANSFER_REVERT,
};
use crate::rlp_wire::{
    holds_field, is_list_spec, is_record, item_count_of, rlp_string_at, string_at_of,
    text_field, Field,
};
use crate::views::{decoded, view_opt};
use crate::wire_len::MAX_WIRE_LEN;
use crate::xcall_manager::configure_protocols::{
    ConfigureProtocols, ConfigureProtocolsView, CONFIGURE_PROTOCOLS,
};

verus! {

/// A cross-chain message.
#[derive(Debug, Clone)]
pub enum Message {
    Deposit(DepositMessage),
    DepositRevert(DepositRevert),
    WithdrawTo(WithdrawTo),
    WithdrawNativeTo(WithdrawTo),
    CrossTransfer(CrossTransferMsg),
    CrossTransferRevert(CrossTransferRevert),
    ConfigureProtocols(ConfigureProtocols),
}

/// What a message says.
pub enum MessageView {
    Deposit(DepositMessageView),
    DepositRevert(DepositRevertView),
    WithdrawTo(WithdrawToView),
    WithdrawNativeTo(WithdrawToView),
    CrossTransfer(CrossTransferMsgView),
    CrossTransferRevert(CrossTransferRevertView),
    ConfigureProtocols(ConfigureProtocolsView),
}

impl View for Message {
    type V = MessageView;

    open spec fn view(&self) -> MessageView {
        match self {
            Message::Deposit(m) => MessageView::Deposit(m@),
            Message::DepositRevert(m) => MessageView::DepositRevert(m@),
            Message::WithdrawTo(m) => MessageView::WithdrawTo(m@),
            Message::WithdrawNativeTo(m) => MessageView::WithdrawNativeTo(m@),
            Message::CrossTransfer(m) => MessageView::CrossTransfer(m@),
            Message::CrossTransferRevert(m) => MessageView::CrossTransferRevert(m@),
            Message::ConfigureProtocols(m) => MessageView::ConfigureProtocols(m@),
        }
    }
}

impl MessageView {
    /// The tag under which the message travels.
    pub open spec fn tag(self) -> Seq<char> {
        match self {
            MessageView::Deposit(_) => DEPOSIT@,
            MessageView::DepositRevert(_) => DEPOSIT_REVERT@,
            MessageView::WithdrawTo(_) => WITHDRAW_TO@,
            MessageView::WithdrawNativeTo(_) => WITHDRAW_TO_NATIVE@,
            MessageView::CrossTransfer(_) => CROSS_TRANSFER@,
            MessageView::CrossTransferRevert(_) => CROSS_TRANSFER_REVERT@,
            MessageView::ConfigureProtocols(_) => CONFIGURE_PROTOCOLS@,
        }
    }

    /// The record of the message: the tag, then the fields.
    pub open spec fn fields(self) -> Seq<Field> {
        match self {
            MessageView::Deposit(m) => m.fields(),
            MessageView::DepositRevert(m) => m.fields(),
            MessageView::WithdrawTo(m) => m.fields(WITHDRAW_TO@),
            MessageView::WithdrawNativeTo(m) => m.fields(WITHDRAW_TO_NATIVE@),
            MessageView::CrossTransfer(m) => m.fields(),
            MessageView::CrossTransferRevert(m) => m.fields(),
            MessageView::ConfigureProtocols(m) => m.fields(),
        }
    }

    /// The bytes of the message.
    pub open spec fn wire(self) -> Seq<u8> {
        match self {
            MessageView::Deposit(m) => m.wire(),
            MessageView::DepositRevert(m) => m.wire(),
            MessageView::WithdrawTo(m) => m.wire(),
            MessageView::WithdrawNativeTo(m) => m.wire_native(),
            MessageView::CrossTransfer(m) => m.wire(),
            MessageView::CrossTransferRevert(m) => m.wire(),
            MessageView::ConfigureProtocols(m) => m.wire(),
        }
    }
}

/// Whether `tag` is the tag of a message.
pub open spec fn known_tag(tag: Seq<char>) -> bool {
    tag == DEPOSIT@ || tag == DEPOSIT_REVERT@ || tag == WITHDRAW_TO@ || tag == WITHDRAW_TO_NATIVE@
        || tag == CROSS_TRANSFER@ || tag == CROSS_TRANSFER_REVERT@ || tag == CONFIGURE_PROTOCOLS@
}

/// The number of items, the tag included, of a message under a known tag.
pub open spec fn arity_of(tag: Seq<char>) -> usize {
    if tag == DEPOSIT@ {
        6
    } else if tag == CROSS_TRANSFER@ {
        5
    } else if tag == CROSS_TRANSFER_REVERT@ || tag == CONFIGURE_PROTOCOLS@ {
        3
    } else {
        4
    }
}

/// Why bytes are no message.
#[derive(Debug, Clone, Copy, PartialEq, Eq, Structural)]
pub enum DecodeError {
    /// The bytes are no list, their tag is unknown, the number of items does not
    /// fit the tag, or an item does not decode as its field.
    UnknownOrMalformed,
}

/// The text read as item `index` of a list; nothing where `data` is no list.
pub open spec fn text_of_list(data: Seq<u8>, index: int) -> Option<Seq<char>> {
    if is_list_spec(data) {
        string_at_of(data, index)
    } else {
        None
    }
}

/// The message that `data` holds, if it holds one: the tag chooses the variant,
/// the variant decides on the rest.
pub open spec fn message_of_wire(data: Seq<u8>) -> Option<MessageView> {
    match text_of_list(data, 0) {
        None => None,
        Some(tag) => {
            if tag == DEPOSIT@ {
                match DepositMessageView::of_wire(data) {
                    Some(m) => Some(MessageView::Deposit(m)),
                    None => None,
                }
            } else if tag == DEPOSIT_REVERT@ {
                match DepositRevertView::of_wire(data) {
                    Some(m) => Some(MessageView::DepositRevert(m)),
                    None => None,
                }
            } else if tag == WITHDRAW_TO@ {
                match WithdrawToView::of_wire(data) {
                    Some(m) => Some(MessageView::WithdrawTo(m)),
                    None => None,
                }
            } else if tag == WITHDRAW_TO_NATIVE@ {
                match WithdrawToView::of_wire(data) {
                    Some(m) => Some(MessageView::WithdrawNativeTo(m)),
                    None => None,
                }
            } else if tag == CROSS_TRANSFER@ {
                match CrossTransferMsgView::of_wire(data) {
                    Some(m) => Some(MessageView::CrossTransfer(m)),
                    None => None,
                }
            } else if tag == CROSS_TRANSFER_REVERT@ {
                match CrossTransferRevertView::of_wire(data) {
                    Some(m) => Some(MessageView::CrossTransferRevert(m)),
                    None => None,
                }
            } else if tag == CONFIGURE_PROTOCOLS@ {
                match ConfigureProtocolsView::of_wire(data) {
                    Some(m) => Some(MessageView::ConfigureProtocols(m)),
                    None => None,
                }
            } else {
                None
            }
        },
    }
}

/// The tags differ from one another.
pub proof fn lemma_tags_differ()
    ensures
        DEPOSIT@.len() == 7,
        DEPOSIT_REVERT@.len() == 13,
        WITHDRAW_TO@.len() == 10,
        WITHDRAW_TO_NATIVE@.len() == 16,
        CROSS_TRANSFER@.len() == 14,
        CROSS_TRANSFER_REVERT@.len() == 20,
        CONFIGURE_PROTOCOLS@.len() == 18,
{
    reveal_strlit("Deposit");
    reveal_strlit("DepositRevert");
    reveal_strlit("WithdrawTo");
    reveal_strlit("WithdrawNativeTo");
    reveal_strlit("xCrossTransfer");
    reveal_strlit("xCrossTransferRevert");
    reveal_strlit("ConfigureProtocols");
}

/// A message travels as the record of its fields, the tag first.
pub proof fn lemma_record_starts_with_tag(sent: MessageView)
    ensures
        sent.wire() == crate::rlp_wire::record_wire(sent.fields()),
        sent.fields().len() == arity_of(sent.tag()),
        sent.fields()[0] == text_field(sent.tag()),
{
    lemma_tags_differ();
}

/// Reads the tag of a message without decoding the rest.
pub fn peek_tag(data: &[u8]) -> (r: Result<String, DecodeError>)
    ensures
        decoded(r) == text_of_list(data@, 0),
        forall|fields: Seq<Field>, tag: Seq<char>| #[trigger]
            holds_field(data@, fields, 0, text_field(tag)) ==> decoded(r) == Some(tag),
        forall|sent: MessageView| #[trigger] sent.wire() == data@ ==> decoded(r) == Some(sent.tag()),
{
    let r = peek_secondary_field(data, 0);
    proof {
        assert forall|sent: MessageView| #[trigger] sent.wire() == data@ implies decoded(r) == Some(
            sent.tag(),
        ) by {
            lemma_record_starts_with_tag(sent);
            assert(holds_field(data@, sent.fields(), 0, text_field(sent.tag())));
        }
    }
    r
}

/// Reads item `index` of a message as text without decoding the rest.
pub fn peek_secondary_field(data: &[u8], index: usize) -> (r: Result<String, DecodeError>)
    ensures
        decoded(r) == text_of_list(data@, index as int),
        forall|fields: Seq<Field>, text: Seq<char>| #[trigger]
            holds_field(data@, fields, index as int, text_field(text)) ==> decoded(r) == Some(text),
{
    if !is_record(data) {
        return Err(DecodeError::UnknownOrMalformed);
    }
    match rlp_string_at(data, index) {
        Ok(text) => Ok(text),
        Err(_) => Err(DecodeError::UnknownOrMalformed),
    }
}

/// Encodes a message. The encoding must fit the 32-bit lengths of the writer.
pub fn encode(message: &Message) -> (out: Vec<u8>)
    requires
        message@.wire().len() <= u32::MAX,
    ensures
        out@ == message@.wire(),
{
    match message {
        Message::Deposit(m) => m.encode(),
        Message::DepositRevert(m) => m.encode(),
        Message::WithdrawTo(m) => m.encode(),
        Message::WithdrawNativeTo(m) => m.encode_native(),
        Message::CrossTransfer(m) => m.encode(),
        Message::CrossTransferRevert(m) => m.encode(),
        Message::ConfigureProtocols(m) => m.encode(),
    }
}

/// Encodes a message, unless its encoding is too long for the writer.
pub fn try_encode(message: &Message) -> (out: Option<Vec<u8>>)
    ensures
        view_opt(out) == (if message@.wire().len() <= MAX_WIRE_LEN {
            Some(message@.wire())
        } else {
            None
        }),
{
    match message {
        Message::Deposit(m) => m.try_encode(),
        Message::DepositRevert(m) => m.try_encode(),
        Message::WithdrawTo(m) => m.try_encode(),
        Message::WithdrawNativeTo(m) => m.try_encode_native(),
        Message::CrossTransfer(m) => m.try_encode(),
        Message::CrossTransferRevert(m) => m.try_encode(),
        Message::ConfigureProtocols(m) => m.try_encode(),
    }
}

/// Decodes a message: the tag chooses the variant, the number of items must be
/// the variant's, and each item must decode as its field. What `encode` wrote
/// is read back as it was.
pub fn decode(data: &[u8]) -> (r: Result<Message, DecodeError>)
    ensures
        decoded(r) == message_of_wire(data@),
        forall|sent: MessageView| #[trigger] sent.wire() == data@ ==> decoded(r) == Some(sent),
{
    proof {
        lemma_tags_differ();
    }
    let tag = match peek_tag(data) {
        Ok(tag) => tag,
        Err(e) => {
            return Err(e);
        },
    };
    if tag == DEPOSIT.to_owned() {
        match DepositMessage::decode(data) {
            Some(m) => Ok(Message::Deposit(m)),
            None => Err(DecodeError::UnknownOrMalformed),
        }
    } else if tag == DEPOSIT_REVERT.to_owned() {
        match DepositRevert::decode(data) {
            Some(m) => Ok(Message::DepositRevert(m)),
            None => Err(DecodeError::UnknownOrMalformed),
        }
    } else if tag == WITHDRAW_TO.to_owned() {
        match WithdrawTo::decode(data) {
            Some(m) => Ok(Message::WithdrawTo(m)),
            None => Err(DecodeError::UnknownOrMalformed),
        }
    } else if tag == WITHDRAW_TO_NATIVE.to_owned() {
        match WithdrawTo::decode(data) {
            Some(m) => Ok(Message::WithdrawNativeTo(m)),
            None => Err(DecodeError::UnknownOrMalformed),
        }
    } else if tag == CROSS_TRANSFER.to_owned() {
        match CrossTransferMsg::decode(data) {
            Some(m) => Ok(Message::CrossTransfer(m)),
            None => Err(DecodeError::UnknownOrMalformed),
        }
    } else if tag == CROSS_TRANSFER_REVERT.to_owned() {
        match CrossTransferRevert::decode(data) {
            Some(m) => Ok(Message::CrossTransferRevert(m)),
            None => Err(DecodeError::UnknownOrMalformed),
        }
    } else if tag == CONFIGURE_PROTOCOLS.to_owned() {
        match ConfigureProtocols::decode(data) {
            Some(m) => Ok(Message::ConfigureProtocols(m)),
            None => Err(DecodeError::UnknownOrMalformed),
        }
    } else {
        Err(DecodeError::UnknownOrMalformed)
    }
}

/// Encodes a message and decodes the bytes again: the message comes back as
/// it was.
pub fn decode_encoded(message: &Message) -> (back: Result<Message, DecodeError>)
    requires
        message@.wire().len() <= MAX_WIRE_LEN,
    ensures
        decoded(back) == Some(message@),
{
    let bytes = encode(message);
    decode(bytes.as_slice())
}

/// Bytes whose tag is unknown, or whose number of items is not that of their
/// tag, hold no message.
pub proof fn lemma_decode_rejects(data: Seq<u8>)
    ensures
        text_of_list(data, 0) is None ==> message_of_wire(data) is None,
        text_of_list(data, 0) matches Some(tag) ==> (!known_tag(tag) ==> message_of_wire(data)
            is None),
        text_of_list(data, 0) matches Some(tag) ==> (item_count_of(data) != Some(arity_of(tag))
            ==> message_of_wire(data) is None),
{
    lemma_tags_differ();
}

} // verus!
