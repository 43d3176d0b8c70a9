//! The notification of a deposit.

use vstd::prelude::*;
use crate::rlp_wire::{
    bytes_at_of, fields_wire, holds_field, is_list_spec, is_record, item_count_of,
    lemma_field_fits, number_field, read_of, record_wire, rlp_bytes_at, rlp_item_count,
    rlp_string_at, rlp_u64_at, stream_append_bytes, stream_append_str, stream_append_u64,
    stream_items, stream_new_list, stream_out, string_at_of, text_field, text_read, u64_at_of,
    Field,
};
use crate::views::view_opt;
use crate::wire_len::{
    data_len, field_lens, fitting, number_len, record_len, text_len, MAX_WIRE_LEN,
};

verus! {

/// The tag of a deposit.
pub const DEPOSIT: &'static str = "Deposit";

/// Tells the remote chain of a deposit: `amount` of `token_address` came from
/// `from` and is meant for `to`, with `data` for the recipient.
#[derive(Debug, Clone)]
pub struct DepositMessage {
    pub token_address: String,
    pub from: String,
    pub to: String,
    pub amount: u64,
    pub data: Vec<u8>,
}

/// What a `DepositMessage` says.
pub struct DepositMessageView {
    pub token_address: Seq<char>,
    pub from: Seq<char>,
    pub to: Seq<char>,
    pub amount: u64,
    pub data: Seq<u8>,
}

impl View for DepositMessage {
    type V = DepositMessageView;

    open spec fn view(&self) -> DepositMessageView {
        DepositMessageView {
            token_address: self.token_address@,
            from: self.from@,
            to: self.to@,
            amount: self.amount,
            data: self.data@,
        }
    }
}

impl DepositMessageView {
    /// The record of the message: the tag, then the fields.
    pub open spec fn fields(self) -> Seq<Field> {
        seq![
            text_field(DEPOSIT@),
            text_field(self.token_address),
            text_field(self.from),
            text_field(self.to),
            number_field(self.amount as nat),
            Field::Data(self.data),
        ]
    }

    /// The bytes of the message.
    pub open spec fn wire(self) -> Seq<u8> {
        record_wire(self.fields())
    }

    /// The message that the parts of a list make up: six items, the first of
    /// them the tag.
    pub open spec fn of_parts(
        listed: bool,
        count: Option<usize>,
        tag: Option<Seq<char>>,
        token_address: Option<Seq<char>>,
        from: Option<Seq<char>>,
        to: Option<Seq<char>>,
        amount: Option<u64>,
        data: Option<Seq<u8>>,
    ) -> Option<DepositMessageView> {
        if listed && count == Some(6usize) && tag == Some(DEPOSIT@) && token_address is Some
            && from is Some && to is Some && amount is Some && data is Some {
            Some(
                DepositMessageView {
                    token_address: token_address->0,
                    from: from->0,
                    to: to->0,
                    amount: amount->0,
                    data: data->0,
                },
            )
        } else {
            None
        }
    }

    /// The message that `data` holds, if it holds one.
    pub open spec fn of_wire(data: Seq<u8>) -> Option<DepositMessageView> {
        Self::of_parts(
            is_list_spec(data),
            item_count_of(data),
            string_at_of(data, 0),
            string_at_of(data, 1),
            string_at_of(data, 2),
            string_at_of(data, 3),
            u64_at_of(data, 4),
            bytes_at_of(data, 5),
        )
    }
}

impl DepositMessage {
    pub fn create(token_address: String, from: String, to: String, amount: u64, data: Vec<u8>) -> (r:
        Self)
        ensures
            r.token_address == token_address,
            r.from == from,
            r.to == to,
            r.amount == amount,
            r.data == data,
    {
        Self { token_address, from, to, amount, data }
    }

    /// The empty deposit: no texts, no amount, no data.
    pub fn null() -> (r: Self)
        ensures
            r@ == (DepositMessageView {
                token_address: Seq::<char>::empty(),
                from: Seq::<char>::empty(),
                to: Seq::<char>::empty(),
                amount: 0,
                data: Seq::<u8>::empty(),
            }),
    {
        Self {
            token_address: String::new(),
            from: String::new(),
            to: String::new(),
            amount: 0,
            data: Vec::new(),
        }
    }

    /// Encodes the message. The encoding must fit the 32-bit lengths of the writer.
    pub fn encode(&self) -> (out: Vec<u8>)
        requires
            self@.wire().len() <= u32::MAX,
        ensures
            out@ == self@.wire(),
    {
        let ghost fields = self@.fields();
        proof {
            lemma_field_fits(fields, 0);
            lemma_field_fits(fields, 1);
            lemma_field_fits(fields, 2);
            lemma_field_fits(fields, 3);
            lemma_field_fits(fields, 4);
            lemma_field_fits(fields, 5);
        }
        let mut s = stream_new_list(6);
        stream_append_str(&mut s, DEPOSIT);
        stream_append_str(&mut s, self.token_address.as_str());
        stream_append_str(&mut s, self.from.as_str());
        stream_append_str(&mut s, self.to.as_str());
        stream_append_u64(&mut s, self.amount);
        stream_append_bytes(&mut s, &self.data);
        assert(stream_items(s) =~= fields_wire(fields));
        stream_out(s)
    }

    /// The length of the encoding, where it fits the 32-bit lengths of the writer.
    pub fn wire_len(&self) -> (len: Option<usize>)
        ensures
            len == fitting(self@.wire().len()),
    {
        let lens: Vec<Option<usize>> = vec![
            text_len(DEPOSIT),
            text_len(self.token_address.as_str()),
            text_len(self.from.as_str()),
            text_len(self.to.as_str()),
            Some(number_len(self.amount as u128)),
            data_len(self.data.as_slice()),
        ];
        assert(field_lens(self@.fields()) =~= lens@);
        record_len(&lens)
    }

    /// Encodes the message, unless its encoding is too long for the writer.
    pub fn try_encode(&self) -> (out: Option<Vec<u8>>)
        ensures
            view_opt(out) == (if self@.wire().len() <= MAX_WIRE_LEN {
                Some(self@.wire())
            } else {
                None
            }),
    {
        match self.wire_len() {
            Some(_) => Some(self.encode()),
            None => None,
        }
    }

    /// Makes the message from what was read of a list.
    pub fn from_parts(
        listed: bool,
        count: Option<usize>,
        tag: Option<String>,
        token_address: Option<String>,
        from: Option<String>,
        to: Option<String>,
        amount: Option<u64>,
        data: Option<Vec<u8>>,
    ) -> (r: Option<Self>)
        ensures
            view_opt(r) == DepositMessageView::of_parts(
                listed,
                count,
                view_opt(tag),
                view_opt(token_address),
                view_opt(from),
                view_opt(to),
                amount,
                view_opt(data),
            ),
    {
        if !listed {
            return None;
        }
        match (count, tag, token_address, from, to, amount, data) {
            (
                Some(count),
                Some(tag),
                Some(token_address),
                Some(from),
                Some(to),
                Some(amount),
                Some(data),
            ) => {
                if count != 6 || tag != DEPOSIT.to_owned() {
                    return None;
                }
                Some(DepositMessage { token_address, from, to, amount, data })
            },
            _ => None,
        }
    }

    /// Decodes the message. What `encode` wrote is read back as it was.
    pub fn decode(data: &[u8]) -> (r: Option<Self>)
        ensures
            view_opt(r) == DepositMessageView::of_wire(data@),
            forall|sent: DepositMessageView| #[trigger]
                sent.wire() == data@ ==> view_opt(r) == Some(sent),
    {
        let listed = is_record(data);
        let count = rlp_item_count(data);
        let tag = rlp_string_at(data, 0);
        let token_address = rlp_string_at(data, 1);
        let from = rlp_string_at(data, 2);
        let to = rlp_string_at(data, 3);
        let amount = rlp_u64_at(data, 4);
        let payload = rlp_bytes_at(data, 5);
        proof {
            assert forall|sent: DepositMessageView| #[trigger] sent.wire() == data@ implies listed
                && read_of(count) == Some(6usize) && text_read(tag) == Some(DEPOSIT@) && text_read(
                token_address,
            ) == Some(sent.token_address) && text_read(from) == Some(sent.from) && text_read(to)
                == Some(sent.to) && read_of(amount) == Some(sent.amount) && view_opt(payload)
                == Some(sent.data) by {
                let fields = sent.fields();
                assert(holds_field(data@, fields, 0, text_field(DEPOSIT@)));
                assert(holds_field(data@, fields, 1, text_field(sent.token_address)));
                assert(holds_field(data@, fields, 2, text_field(sent.from)));
                assert(holds_field(data@, fields, 3, text_field(sent.to)));
                assert(holds_field(data@, fields, 4, number_field(sent.amount as nat)));
                assert(holds_field(data@, fields, 5, Field::Data(sent.data)));
            }
        }
        Self::from_parts(
            listed,
            count.ok(),
            tag.ok(),
            token_address.ok(),
            from.ok(),
            to.ok(),
            amount.ok(),
            payload,
        )
    }
}

} // verus!
