//! The rollback of a cross-chain transfer.

use vstd::prelude::*;
use crate::rlp_wire::{
    fields_wire, holds_field, is_list_spec, is_record, item_count_of, lemma_field_fits,
    number_field, read_of, record_wire, rlp_item_count, rlp_string_at, rlp_u128_at,
    stream_append_str, stream_append_u128, stream_items, stream_new_list, stream_out,
    string_at_of, text_field, text_read, u128_at_of, Field,
};
use crate::views::view_opt;
use crate::wire_len::{field_lens, fitting, number_len, record_len, text_len, MAX_WIRE_LEN};

verus! {

/// The tag of a rollback of a cross-chain transfer.
pub const CROSS_TRANSFER_REVERT: &'static str = "xCrossTransferRevert";

/// Returns a cross-chain transfer: `amount` goes back to `account`.
#[derive(Debug, Clone)]
pub struct CrossTransferRevert {
    pub account: String,
    pub amount: u128,
}

/// What a `CrossTransferRevert` says.
pub struct CrossTransferRevertView {
    pub account: Seq<char>,
    pub amount: u128,
}

impl View for CrossTransferRevert {
    type V = CrossTransferRevertView;

    open spec fn view(&self) -> CrossTransferRevertView {
        CrossTransferRevertView { account: self.account@, amount: self.amount }
    }
}

impl CrossTransferRevertView {
    /// The record of the message: the tag, then the fields.
    pub open spec fn fields(self) -> Seq<Field> {
        seq![
            text_field(CROSS_TRANSFER_REVERT@),
            text_field(self.account),
            number_field(self.amount as nat),
        ]
    }

    /// The bytes of the message.
    pub open spec fn wire(self) -> Seq<u8> {
        record_wire(self.fields())
    }

    /// The message that the parts of a list make up: three items, the first of
    /// them the tag.
    pub open spec fn of_parts(
        listed: bool,
        count: Option<usize>,
        tag: Option<Seq<char>>,
        account: Option<Seq<char>>,
        amount: Option<u128>,
    ) -> Option<CrossTransferRevertView> {
        if listed && count == Some(3usize) && tag == Some(CROSS_TRANSFER_REVERT@)
            && account is Some && amount is Some {
            Some(CrossTransferRevertView { account: account->0, amount: amount->0 })
        } else {
            None
        }
    }

    /// The message that `data` holds, if it holds one.
    pub open spec fn of_wire(data: Seq<u8>) -> Option<CrossTransferRevertView> {
        Self::of_parts(
            is_list_spec(data),
            item_count_of(data),
            string_at_of(data, 0),
            string_at_of(data, 1),
            u128_at_of(data, 2),
        )
    }
}

impl CrossTransferRevert {
    pub fn create(account: String, amount: u128) -> (r: Self)
        ensures
            r.account == account,
            r.amount == amount,
    {
        Self { account, amount }
    }

    /// Encodes the message. The encoding must fit the 32-bit lengths of the writer.
    pub fn encode(&self) -> (out: Vec<u8>)
        requires
            self@.wire().len() <= u32::MAX,
        ensures
            out@ == self@.wire(),
    {
        let ghost fields = self@.fields();
        proof {
            lemma_field_fits(fields, 0);
            lemma_field_fits(fields, 1);
            lemma_field_fits(fields, 2);
        }
        let mut s = stream_new_list(3);
        stream_append_str(&mut s, CROSS_TRANSFER_REVERT);
        stream_append_str(&mut s, self.account.as_str());
        stream_append_u128(&mut s, self.amount);
        assert(stream_items(s) =~= fields_wire(fields));
        stream_out(s)
    }

    /// The length of the encoding, where it fits the 32-bit lengths of the writer.
    pub fn wire_len(&self) -> (len: Option<usize>)
        ensures
            len == fitting(self@.wire().len()),
    {
        let lens: Vec<Option<usize>> = vec![
            text_len(CROSS_TRANSFER_REVERT),
            text_len(self.account.as_str()),
            Some(number_len(self.amount)),
        ];
        assert(field_lens(self@.fields()) =~= lens@);
        record_len(&lens)
    }

    /// Encodes the message, unless its encoding is too long for the writer.
    pub fn try_encode(&self) -> (out: Option<Vec<u8>>)
        ensures
            view_opt(out) == (if self@.wire().len() <= MAX_WIRE_LEN {
                Some(self@.wire())
            } else {
                None
            }),
    {
        match self.wire_len() {
            Some(_) => Some(self.encode()),
            None => None,
        }
    }

    /// Makes the message from what was read of a list.
    pub fn from_parts(
        listed: bool,
        count: Option<usize>,
        tag: Option<String>,
        account: Option<String>,
        amount: Option<u128>,
    ) -> (r: Option<Self>)
        ensures
            view_opt(r) == CrossTransferRevertView::of_parts(
                listed,
                count,
                view_opt(tag),
                view_opt(account),
                amount,
            ),
    {
        if !listed {
            return None;
        }
        match (count, tag, account, amount) {
            (Some(count), Some(tag), Some(account), Some(amount)) => {
                if count != 3 || tag != CROSS_TRANSFER_REVERT.to_owned() {
                    return None;
                }
                Some(CrossTransferRevert { account, amount })
            },
            _ => None,
        }
    }

    /// Decodes the message. What `encode` wrote is read back as it was.
    pub fn decode(data: &[u8]) -> (r: Option<Self>)
        ensures
            view_opt(r) == CrossTransferRevertView::of_wire(data@),
            forall|sent: CrossTransferRevertView| #[trigger]
                sent.wire() == data@ ==> view_opt(r) == Some(sent),
    {
        let listed = is_record(data);
        let count = rlp_item_count(data);
        let tag = rlp_string_at(data, 0);
        let account = rlp_string_at(data, 1);
        let amount = rlp_u128_at(data, 2);
        proof {
            assert forall|sent: CrossTransferRevertView| #[trigger]
                sent.wire() == data@ implies listed && read_of(count) == Some(3usize) && text_read(
                tag,
            ) == Some(CROSS_TRANSFER_REVERT@) && text_read(account) == Some(sent.account)
                && read_of(amount) == Some(sent.amount) by {
                let fields = sent.fields();
                assert(holds_field(data@, fields, 0, text_field(CROSS_TRANSFER_REVERT@)));
                assert(holds_field(data@, fields, 1, text_field(sent.account)));
                assert(holds_field(data@, fields, 2, number_field(sent.amount as nat)));
            }
        }
        Self::from_parts(listed, count.ok(), tag.ok(), account.ok(), amount.ok())
    }
}

} // verus!
