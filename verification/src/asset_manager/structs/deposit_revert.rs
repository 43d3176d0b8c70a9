//! The rollback of a deposit.

use vstd::prelude::*;
use crate::rlp_wire::{
    fields_wire, holds_field, is_list_spec, is_record, item_count_of, lemma_field_fits,
    number_field, read_of, record_wire, rlp_item_count, rlp_string_at, rlp_u64_at,
    stream_append_str, stream_append_u64, stream_items, stream_new_list, stream_out,
    string_at_of, text_field, text_read, u64_at_of, Field,
};
use crate::views::view_opt;
use crate::wire_len::{field_lens, fitting, number_len, record_len, text_len, MAX_WIRE_LEN};

verus! {

/// The tag of a rollback of a deposit.
pub const DEPOSIT_REVERT: &'static str = "DepositRevert";

/// Returns a deposit: `amount` of `token_address` goes back to `account`.
#[derive(Debug, Clone)]
pub struct DepositRevert {
    pub token_address: String,
    pub account: String,
    pub amount: u64,
}

/// What a `DepositRevert` says.
pub struct DepositRevertView {
    pub token_address: Seq<char>,
    pub account: Seq<char>,
    pub amount: u64,
}

impl View for DepositRevert {
    type V = DepositRevertView;

    open spec fn view(&self) -> DepositRevertView {
        DepositRevertView {
            token_address: self.token_address@,
            account: self.account@,
            amount: self.amount,
        }
    }
}

impl DepositRevertView {
    /// The record of the message: the tag, then the fields.
    pub open spec fn fields(self) -> Seq<Field> {
        seq![
            text_field(DEPOSIT_REVERT@),
            text_field(self.token_address),
            text_field(self.account),
            number_field(self.amount as nat),
        ]
    }

    /// The bytes of the message.
    pub open spec fn wire(self) -> Seq<u8> {
        record_wire(self.fields())
    }

    /// The message that the parts of a list make up: four items, the first of
    /// them the tag.
    pub open spec fn of_parts(
        listed: bool,
        count: Option<usize>,
        tag: Option<Seq<char>>,
        token_address: Option<Seq<char>>,
        account: Option<Seq<char>>,
        amount: Option<u64>,
    ) -> Option<DepositRevertView> {
        if listed && count == Some(4usize) && tag == Some(DEPOSIT_REVERT@) && token_address is Some
            && account is Some && amount is Some {
            Some(
                DepositRevertView {
                    token_address: token_address->0,
                    account: account->0,
                    amount: amount->0,
                },
            )
        } else {
            None
        }
    }

    /// The message that `data` holds, if it holds one.
    pub open spec fn of_wire(data: Seq<u8>) -> Option<DepositRevertView> {
        Self::of_parts(
            is_list_spec(data),
            item_count_of(data),
            string_at_of(data, 0),
            string_at_of(data, 1),
            string_at_of(data, 2),
            u64_at_of(data, 3),
        )
    }
}

impl DepositRevert {
    pub fn create(token_address: String, account: String, amount: u64) -> (r: Self)
        ensures
            r.token_address == token_address,
            r.account == account,
            r.amount == amount,
    {
        Self { token_address, account, amount }
    }

    /// Encodes the message. The encoding must fit the 32-bit lengths of the writer.
    pub fn encode(&self) -> (out: Vec<u8>)
        requires
            self@.wire().len() <= u32::MAX,
        ensures
            out@ == self@.wire(),
    {
        let ghost fields = self@.fields();
        proof {
            lemma_field_fits(fields, 0);
            lemma_field_fits(fields, 1);
            lemma_field_fits(fields, 2);
            lemma_field_fits(fields, 3);
        }
        let mut s = stream_new_list(4);
        stream_append_str(&mut s, DEPOSIT_REVERT);
        stream_append_str(&mut s, self.token_address.as_str());
        stream_append_str(&mut s, self.account.as_str());
        stream_append_u64(&mut s, self.amount);
        assert(stream_items(s) =~= fields_wire(fields));
        stream_out(s)
    }

    /// The length of the encoding, where it fits the 32-bit lengths of the writer.
    pub fn wire_len(&self) -> (len: Option<usize>)
        ensures
            len == fitting(self@.wire().len()),
    {
        let lens: Vec<Option<usize>> = vec![
            text_len(DEPOSIT_REVERT),
            text_len(self.token_address.as_str()),
            text_len(self.account.as_str()),
            Some(number_len(self.amount as u128)),
        ];
        assert(field_lens(self@.fields()) =~= lens@);
        record_len(&lens)
    }

    /// Encodes the message, unless its encoding is too long for the writer.
    pub fn try_encode(&self) -> (out: Option<Vec<u8>>)
        ensures
            view_opt(out) == (if self@.wire().len() <= MAX_WIRE_LEN {
                Some(self@.wire())
            } else {
                None
            }),
    {
        match self.wire_len() {
            Some(_) => Some(self.encode()),
            None => None,
        }
    }

    /// Makes the message from what was read of a list.
    pub fn from_parts(
        listed: bool,
        count: Option<usize>,
        tag: Option<String>,
        token_address: Option<String>,
        account: Option<String>,
        amount: Option<u64>,
    ) -> (r: Option<Self>)
        ensures
            view_opt(r) == DepositRevertView::of_parts(
                listed,
                count,
                view_opt(tag),
                view_opt(token_address),
                view_opt(account),
                amount,
            ),
    {
        if !listed {
            return None;
        }
        match (count, tag, token_address, account, amount) {
            (Some(count), Some(tag), Some(token_address), Some(account), Some(amount)) => {
                if count != 4 || tag != DEPOSIT_REVERT.to_owned() {
                    return None;
                }
                Some(DepositRevert { token_address, account, amount })
            },
            _ => None,
        }
    }

    /// Decodes the message. What `encode` wrote is read back as it was.
    pub fn decode(data: &[u8]) -> (r: Option<Self>)
        ensures
            view_opt(r) == DepositRevertView::of_wire(data@),
            forall|sent: DepositRevertView| #[trigger]
                sent.wire() == data@ ==> view_opt(r) == Some(sent),
    {
        let listed = is_record(data);
        let count = rlp_item_count(data);
        let tag = rlp_string_at(data, 0);
        let token_address = rlp_string_at(data, 1);
        let account = rlp_string_at(data, 2);
        let amount = rlp_u64_at(data, 3);
        proof {
            assert forall|sent: DepositRevertView| #[trigger] sent.wire() == data@ implies listed
                && read_of(count) == Some(4usize) && text_read(tag) == Some(DEPOSIT_REVERT@)
                && text_read(token_address) == Some(sent.token_address) && text_read(account)
                == Some(sent.account) && read_of(amount) == Some(sent.amount) by {
                let fields = sent.fields();
                assert(holds_field(data@, fields, 0, text_field(DEPOSIT_REVERT@)));
                assert(holds_field(data@, fields, 1, text_field(sent.token_address)));
                assert(holds_field(data@, fields, 2, text_field(sent.account)));
                assert(holds_field(data@, fields, 3, number_field(sent.amount as nat)));
            }
        }
        Self::from_parts(
            listed,
            count.ok(),
            tag.ok(),
            token_address.ok(),
            account.ok(),
            amount.ok(),
        )
    }
}

} // verus!
