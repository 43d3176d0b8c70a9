//! The instruction to release funds from the vault.

use vstd::prelude::*;
use crate::rlp_wire::{
    fields_wire, holds_field, is_list_spec, is_record, item_count_of, lemma_field_fits,
    number_field, read_of, record_wire, rlp_item_count, rlp_string_at, rlp_u128_at,
    stream_append_str, stream_append_u128, stream_items, stream_new_list, stream_out,
    string_at_of, text_field, text_read, u128_at_of, Field,
};
use crate::views::view_opt;
use crate::wire_len::{field_lens, fitting, number_len, record_len, text_len, MAX_WIRE_LEN};

verus! {

/// The tag of a withdrawal of a token.
pub const WITHDRAW_TO: &'static str = "WithdrawTo";

/// The tag of a withdrawal of the native asset.
pub const WITHDRAW_TO_NATIVE: &'static str = "WithdrawNativeTo";

/// Releases funds: `amount` of `token_address` goes to `user_address`.
#[derive(Debug, Clone)]
pub struct WithdrawTo {
    pub token_address: String,
    pub user_address: String,
    pub amount: u128,
}

/// What a `WithdrawTo` says.
pub struct WithdrawToView {
    pub token_address: Seq<char>,
    pub user_address: Seq<char>,
    pub amount: u128,
}

impl View for WithdrawTo {
    type V = WithdrawToView;

    open spec fn view(&self) -> WithdrawToView {
        WithdrawToView {
            token_address: self.token_address@,
            user_address: self.user_address@,
            amount: self.amount,
        }
    }
}

impl WithdrawToView {
    /// The record of the message under `tag`: the tag, then the fields.
    pub open spec fn fields(self, tag: Seq<char>) -> Seq<Field> {
        seq![
            text_field(tag),
            text_field(self.token_address),
            text_field(self.user_address),
            number_field(self.amount as nat),
        ]
    }

    /// The bytes of the message as a withdrawal of a token.
    pub open spec fn wire(self) -> Seq<u8> {
        record_wire(self.fields(WITHDRAW_TO@))
    }

    /// The bytes of the message as a withdrawal of the native asset.
    pub open spec fn wire_native(self) -> Seq<u8> {
        record_wire(self.fields(WITHDRAW_TO_NATIVE@))
    }

    /// The message that the parts of a list make up: four items, the first of
    /// them one of the two withdrawal tags.
    pub open spec fn of_parts(
        listed: bool,
        count: Option<usize>,
        tag: Option<Seq<char>>,
        token_address: Option<Seq<char>>,
        user_address: Option<Seq<char>>,
        amount: Option<u128>,
    ) -> Option<WithdrawToView> {
        if listed && count == Some(4usize) && (tag == Some(WITHDRAW_TO@) || tag == Some(
            WITHDRAW_TO_NATIVE@,
        )) && token_address is Some && user_address is Some && amount is Some {
            Some(
                WithdrawToView {
                    token_address: token_address->0,
                    user_address: user_address->0,
                    amount: amount->0,
                },
            )
        } else {
            None
        }
    }

    /// The message that `data` holds, if it holds one.
    pub open spec fn of_wire(data: Seq<u8>) -> Option<WithdrawToView> {
        Self::of_parts(
            is_list_spec(data),
            item_count_of(data),
            string_at_of(data, 0),
            string_at_of(data, 1),
            string_at_of(data, 2),
            u128_at_of(data, 3),
        )
    }
}

impl WithdrawTo {
    pub fn create(token_address: String, user_address: String, amount: u128) -> (r: Self)
        ensures
            r.token_address == token_address,
            r.user_address == user_address,
            r.amount == amount,
    {
        Self { token_address, user_address, amount }
    }

    fn encode_as(&self, tag: &str) -> (out: Vec<u8>)
        requires
            record_wire(self@.fields(tag@)).len() <= u32::MAX,
        ensures
            out@ == record_wire(self@.fields(tag@)),
    {
        let ghost fields = self@.fields(tag@);
        proof {
            lemma_field_fits(fields, 0);
            lemma_field_fits(fields, 1);
            lemma_field_fits(fields, 2);
            lemma_field_fits(fields, 3);
        }
        let mut s = stream_new_list(4);
        stream_append_str(&mut s, tag);
        stream_append_str(&mut s, self.token_address.as_str());
        stream_append_str(&mut s, self.user_address.as_str());
        stream_append_u128(&mut s, self.amount);
        assert(stream_items(s) =~= fields_wire(fields));
        stream_out(s)
    }

    /// Encodes the message as a withdrawal of a token. The encoding must fit the
    /// 32-bit lengths of the writer.
    pub fn encode(&self) -> (out: Vec<u8>)
        requires
            self@.wire().len() <= u32::MAX,
        ensures
            out@ == self@.wire(),
    {
        self.encode_as(WITHDRAW_TO)
    }

    /// Encodes the message as a withdrawal of the native asset. The encoding
    /// must fit the 32-bit lengths of the writer.
    pub fn encode_native(&self) -> (out: Vec<u8>)
        requires
            self@.wire_native().len() <= u32::MAX,
        ensures
            out@ == self@.wire_native(),
    {
        self.encode_as(WITHDRAW_TO_NATIVE)
    }

    fn wire_len_as(&self, tag: &str) -> (len: Option<usize>)
        ensures
            len == fitting(record_wire(self@.fields(tag@)).len()),
    {
        let lens: Vec<Option<usize>> = vec![
            text_len(tag),
            text_len(self.token_address.as_str()),
            text_len(self.user_address.as_str()),
            Some(number_len(self.amount)),
        ];
        assert(field_lens(self@.fields(tag@)) =~= lens@);
        record_len(&lens)
    }

    /// Encodes the message as a withdrawal of a token, unless its encoding is
    /// too long for the writer.
    pub fn try_encode(&self) -> (out: Option<Vec<u8>>)
        ensures
            view_opt(out) == (if self@.wire().len() <= MAX_WIRE_LEN {
                Some(self@.wire())
            } else {
                None
            }),
    {
        match self.wire_len_as(WITHDRAW_TO) {
            Some(_) => Some(self.encode()),
            None => None,
        }
    }

    /// Encodes the message as a withdrawal of the native asset, unless its
    /// encoding is too long for the writer.
    pub fn try_encode_native(&self) -> (out: Option<Vec<u8>>)
        ensures
            view_opt(out) == (if self@.wire_native().len() <= MAX_WIRE_LEN {
                Some(self@.wire_native())
            } else {
                None
            }),
    {
        match self.wire_len_as(WITHDRAW_TO_NATIVE) {
            Some(_) => Some(self.encode_native()),
            None => None,
        }
    }

    /// Makes the message from what was read of a list.
    pub fn from_parts(
        listed: bool,
        count: Option<usize>,
        tag: Option<String>,
        token_address: Option<String>,
        user_address: Option<String>,
        amount: Option<u128>,
    ) -> (r: Option<Self>)
        ensures
            view_opt(r) == WithdrawToView::of_parts(
                listed,
                count,
                view_opt(tag),
                view_opt(token_address),
                view_opt(user_address),
                amount,
            ),
    {
        if !listed {
            return None;
        }
        match (count, tag, token_address, user_address, amount) {
            (Some(count), Some(tag), Some(token_address), Some(user_address), Some(amount)) => {
                if count != 4 || (tag != WITHDRAW_TO.to_owned() && tag
                    != WITHDRAW_TO_NATIVE.to_owned()) {
                    return None;
                }
                Some(WithdrawTo { token_address, user_address, amount })
            },
            _ => None,
        }
    }

    /// Decodes the message under either tag. What `encode` or `encode_native`
    /// wrote is read back as it was.
    pub fn decode(data: &[u8]) -> (r: Option<Self>)
        ensures
            view_opt(r) == WithdrawToView::of_wire(data@),
            forall|sent: WithdrawToView| #[trigger] sent.wire() == data@ ==> view_opt(r) == Some(sent),
            forall|sent: WithdrawToView| #[trigger]
                sent.wire_native() == data@ ==> view_opt(r) == Some(sent),
    {
        let listed = is_record(data);
        let count = rlp_item_count(data);
        let tag = rlp_string_at(data, 0);
        let token_address = rlp_string_at(data, 1);
        let user_address = rlp_string_at(data, 2);
        let amount = rlp_u128_at(data, 3);
        proof {
            assert forall|sent: WithdrawToView, name: Seq<char>| #[trigger]
                record_wire(sent.fields(name)) == data@ implies listed && read_of(count) == Some(
                4usize,
            ) && text_read(tag) == Some(name) && text_read(token_address) == Some(
                sent.token_address,
            ) && text_read(user_address) == Some(sent.user_address) && read_of(amount) == Some(
                sent.amount,
            ) by {
                let fields = sent.fields(name);
                assert(holds_field(data@, fields, 0, text_field(name)));
                assert(holds_field(data@, fields, 1, text_field(sent.token_address)));
                assert(holds_field(data@, fields, 2, text_field(sent.user_address)));
                assert(holds_field(data@, fields, 3, number_field(sent.amount as nat)));
            }
        }
        Self::from_parts(
            listed,
            count.ok(),
            tag.ok(),
            token_address.ok(),
            user_address.ok(),
            amount.ok(),
        )
    }
}

} // verus!
