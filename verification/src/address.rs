//! Account keys: 32 bytes, written in base58.

use vstd::prelude::*;
use core::str::FromStr;
use solana_program::pubkey::Pubkey;
use crate::views::view_opt;

verus! {

/// The base58 text of the key that stands for the native asset: 32 zero bytes.
pub const _NATIVE_ADDRESS: &'static str = "11111111111111111111111111111111";

/// The key of an account or a program.
#[derive(Debug, Clone, Copy)]
pub struct AccountKey {
    pub bytes: [u8; 32],
}

impl View for AccountKey {
    type V = Seq<u8>;

    open spec fn view(&self) -> Seq<u8> {
        self.bytes@
    }
}

/// The key that `Pubkey::from_str` reads from a text; `None` where it reads none.
pub uninterp spec fn key_of_text(text: Seq<char>) -> Option<Seq<u8>>;

/// `Pubkey::from_str`: the 32 bytes that a base58 text of at most 44 characters
/// stands for; an error for any other text.
#[verifier::external_body]
pub(crate) fn parse_key(text: &str) -> (r: Option<AccountKey>)
    ensures
        view_opt(r) == key_of_text(text@),
{
    match Pubkey::from_str(text) {
        Ok(key) => Some(AccountKey { bytes: key.to_bytes() }),
        Err(_) => None,
    }
}

/// The base58 text that `Pubkey::to_string` writes for a key.
pub uninterp spec fn text_of_key(key: Seq<u8>) -> Seq<char>;

/// `Pubkey::to_string`: the base58 text of the 32 bytes.
#[verifier::external_body]
pub(crate) fn key_text(key: &AccountKey) -> (r: String)
    ensures
        r@ == text_of_key(key@),
{
    Pubkey::new_from_array(key.bytes).to_string()
}

impl AccountKey {
    /// Reads a key from its base58 text.
    pub fn parse(text: &str) -> (r: Option<AccountKey>)
        ensures
            view_opt(r) == key_of_text(text@),
    {
        parse_key(text)
    }

    /// Writes the key as base58 text.
    pub fn to_base58(&self) -> (r: String)
        ensures
            r@ == text_of_key(self@),
    {
        key_text(self)
    }

    /// The bytes of the key.
    pub fn to_vec(&self) -> (bytes: Vec<u8>)
        ensures
            bytes@ == self@,
    {
        let mut bytes: Vec<u8> = Vec::new();
        let mut i: usize = 0;
        while i < 32
            invariant
                i <= 32,
                bytes@ == self.bytes@.take(i as int),
            decreases 32 - i,
        {
            bytes.push(self.bytes[i]);
            assert(self.bytes@.take(i + 1) =~= self.bytes@.take(i as int).push(self.bytes@[i as int]));
            i += 1;
        }
        assert(self.bytes@.take(32) =~= self.bytes@);
        bytes
    }

    /// Whether two keys hold the same bytes.
    pub fn same_as(&self, other: &AccountKey) -> (same: bool)
        ensures
            same == (self@ == other@),
    {
        let mut i: usize = 0;
        while i < 32
            invariant
                i <= 32,
                forall|k: int| 0 <= k < i ==> self.bytes@[k] == other.bytes@[k],
            decreases 32 - i,
        {
            if self.bytes[i] != other.bytes[i] {
                return false;
            }
            i += 1;
        }
        assert(self.bytes@ =~= other.bytes@);
        true
    }
}

} // verus!
