//! The notification of a cross-chain transfer.

use vstd::prelude::*;
use crate::rlp_wire::{
    bytes_at_of, fields_wire, holds_field, is_list_spec, is_record, item_count_of,
    lemma_field_fits, number_field, read_of, record_wire, rlp_bytes_at, rlp_item_count,
    rlp_string_at, rlp_u128_at, stream_append_bytes, stream_append_str, stream_append_u128,
    stream_items, stream_new_list, stream_out, string_at_of, text_field, text_read, u128_at_of,
    Field,
};
use crate::views::view_opt;
use crate::wire_len::{
    data_len, field_lens, fitting, number_len, record_len, text_len, MAX_WIRE_LEN,
};

verus! {

/// The tag of a cross-chain transfer.
pub const CROSS_TRANSFER: &'static str = "xCrossTransfer";

/// Moves tokens across chains: `value` goes from `from` to `to`, with `data`
/// for the recipient.
#[derive(Debug, Clone)]
pub struct CrossTransferMsg {
    pub from: String,
    pub to: String,
    pub value: u128,
    pub data: Vec<u8>,
}

/// What a `CrossTransferMsg` says.
pub struct CrossTransferMsgView {
    pub from: Seq<char>,
    pub to: Seq<char>,
    pub value: u128,
    pub data: Seq<u8>,
}

impl View for CrossTransferMsg {
    type V = CrossTransferMsgView;

    open spec fn view(&self) -> CrossTransferMsgView {
        CrossTransferMsgView {
            from: self.from@,
            to: self.to@,
            value: self.value,
            data: self.data@,
        }
    }
}

impl CrossTransferMsgView {
    /// The record of the message: the tag, then the fields.
    pub open spec fn fields(self) -> Seq<Field> {
        seq![
            text_field(CROSS_TRANSFER@),
            text_field(self.from),
            text_field(self.to),
            number_field(self.value as nat),
            Field::Data(self.data),
        ]
    }

    /// The bytes of the message.
    pub open spec fn wire(self) -> Seq<u8> {
        record_wire(self.fields())
    }

    /// The message that the parts of a list make up: five items, the first of
    /// them the tag.
    pub open spec fn of_parts(
        listed: bool,
        count: Option<usize>,
        tag: Option<Seq<char>>,
        from: Option<Seq<char>>,
        to: Option<Seq<char>>,
        value: Option<u128>,
        data: Option<Seq<u8>>,
    ) -> Option<CrossTransferMsgView> {
        if listed && count == Some(5usize) && tag == Some(CROSS_TRANSFER@) && from is Some
            && to is Some && value is Some && data is Some {
            Some(CrossTransferMsgView { from: from->0, to: to->0, value: value->0, data: data->0 })
        } else {
            None
        }
    }

    /// The message that `data` holds, if it holds one.
    pub open spec fn of_wire(data: Seq<u8>) -> Option<CrossTransferMsgView> {
        Self::of_parts(
            is_list_spec(data),
            item_count_of(data),
            string_at_of(data, 0),
            string_at_of(data, 1),
            string_at_of(data, 2),
            u128_at_of(data, 3),
            bytes_at_of(data, 4),
        )
    }
}

impl CrossTransferMsg {
    pub fn create(from: String, to: String, value: u128, data: Vec<u8>) -> (r: Self)
        ensures
            r.from == from,
            r.to == to,
            r.value == value,
            r.data == data,
    {
        Self { from, to, value, data }
    }

    /// Encodes the message. The encoding must fit the 32-bit lengths of the writer.
    pub fn encode(&self) -> (out: Vec<u8>)
        requires
            self@.wire().len() <= u32::MAX,
        ensures
            out@ == self@.wire(),
    {
        let ghost fields = self@.fields();
        proof {
            lemma_field_fits(fields, 0);
            lemma_field_fits(fields, 1);
            lemma_field_fits(fields, 2);
            lemma_field_fits(fields, 3);
            lemma_field_fits(fields, 4);
        }
        let mut s = stream_new_list(5);
        stream_append_str(&mut s, CROSS_TRANSFER);
        stream_append_str(&mut s, self.from.as_str());
        stream_append_str(&mut s, self.to.as_str());
        stream_append_u128(&mut s, self.value);
        stream_append_bytes(&mut s, &self.data);
        assert(stream_items(s) =~= fields_wire(fields));
        stream_out(s)
    }

    /// The length of the encoding, where it fits the 32-bit lengths of the writer.
    pub fn wire_len(&self) -> (len: Option<usize>)
        ensures
            len == fitting(self@.wire().len()),
    {
        let lens: Vec<Option<usize>> = vec![
            text_len(CROSS_TRANSFER),
            text_len(self.from.as_str()),
            text_len(self.to.as_str()),
            Some(number_len(self.value)),
            data_len(self.data.as_slice()),
        ];
        assert(field_lens(self@.fields()) =~= lens@);
        record_len(&lens)
    }

    /// Encodes the message, unless its encoding is too long for the writer.
    pub fn try_encode(&self) -> (out: Option<Vec<u8>>)
        ensures
            view_opt(out) == (if self@.wire().len() <= MAX_WIRE_LEN {
                Some(self@.wire())
            } else {
                None
            }),
    {
        match self.wire_len() {
            Some(_) => Some(self.encode()),
            None => None,
        }
    }

    /// Makes the message from what was read of a list.
    pub fn from_parts(
        listed: bool,
        count: Option<usize>,
        tag: Option<String>,
        from: Option<String>,
        to: Option<String>,
        value: Option<u128>,
        data: Option<Vec<u8>>,
    ) -> (r: Option<Self>)
        ensures
            view_opt(r) == CrossTransferMsgView::of_parts(
                listed,
                count,
                view_opt(tag),
                view_opt(from),
                view_opt(to),
                value,
                view_opt(data),
            ),
    {
        if !listed {
            return None;
        }
        match (count, tag, from, to, value, data) {
            (Some(count), Some(tag), Some(from), Some(to), Some(value), Some(data)) => {
                if count != 5 || tag != CROSS_TRANSFER.to_owned() {
                    return None;
                }
                Some(CrossTransferMsg { from, to, value, data })
            },
            _ => None,
        }
    }

    /// Decodes the message. What `encode` wrote is read back as it was.
    pub fn decode(data: &[u8]) -> (r: Option<Self>)
        ensures
            view_opt(r) == CrossTransferMsgView::of_wire(data@),
            forall|sent: CrossTransferMsgView| #[trigger]
                sent.wire() == data@ ==> view_opt(r) == Some(sent),
    {
        let listed = is_record(data);
        let count = rlp_item_count(data);
        let tag = rlp_string_at(data, 0);
        let from = rlp_string_at(data, 1);
        let to = rlp_string_at(data, 2);
        let value = rlp_u128_at(data, 3);
        let payload = rlp_bytes_at(data, 4);
        proof {
            assert forall|sent: CrossTransferMsgView| #[trigger] sent.wire() == data@ implies listed
                && read_of(count) == Some(5usize) && text_read(tag) == Some(CROSS_TRANSFER@)
                && text_read(from) == Some(sent.from) && text_read(to) == Some(sent.to) && read_of(
                value,
            ) == Some(sent.value) && view_opt(payload) == Some(sent.data) by {
                let fields = sent.fields();
                assert(holds_field(data@, fields, 0, text_field(CROSS_TRANSFER@)));
                assert(holds_field(data@, fields, 1, text_field(sent.from)));
                assert(holds_field(data@, fields, 2, text_field(sent.to)));
                assert(holds_field(data@, fields, 3, number_field(sent.value as nat)));
                assert(holds_field(data@, fields, 4, Field::Data(sent.data)));
            }
        }
        Self::from_parts(listed, count.ok(), tag.ok(), from.ok(), to.ok(), value.ok(), payload)
    }
}

} // verus!
