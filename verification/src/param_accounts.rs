//! The accounts that the handling of a message will need, told to the relay
//! ahead of the call, and the derivation of the addresses among them.

use vstd::prelude::*;
use vstd::string::StrSliceExecFns;
use vstd::utf8::*;
use solana_program::pubkey::Pubkey;
use crate::address::AccountKey;
use crate::views::view_opt;

verus! {

/// One account of a call: its key, and how the call uses it.
#[derive(Debug, Clone, Copy)]
pub struct ParamAccountProps {
    pub pubkey: AccountKey,
    pub is_writable: bool,
    pub is_signer: bool,
}

/// What a `ParamAccountProps` says.
pub struct ParamAccountView {
    pub pubkey: Seq<u8>,
    pub is_writable: bool,
    pub is_signer: bool,
}

impl View for ParamAccountProps {
    type V = ParamAccountView;

    open spec fn view(&self) -> ParamAccountView {
        ParamAccountView {
            pubkey: self.pubkey@,
            is_writable: self.is_writable,
            is_signer: self.is_signer,
        }
    }
}

/// An account that the call may write to and that does not sign.
pub open spec fn writable(pubkey: Seq<u8>) -> ParamAccountView {
    ParamAccountView { pubkey, is_writable: true, is_signer: false }
}

/// An account that the call only reads and that does not sign.
pub open spec fn readonly(pubkey: Seq<u8>) -> ParamAccountView {
    ParamAccountView { pubkey, is_writable: false, is_signer: false }
}

impl ParamAccountProps {
    /// An account that the call may write to.
    pub fn new(pubkey: AccountKey, is_signer: bool) -> (r: Self)
        ensures
            r@ == (ParamAccountView { pubkey: pubkey@, is_writable: true, is_signer }),
    {
        Self { pubkey, is_signer, is_writable: true }
    }

    /// An account that the call only reads.
    pub fn new_readonly(pubkey: AccountKey, is_signer: bool) -> (r: Self)
        ensures
            r@ == (ParamAccountView { pubkey: pubkey@, is_writable: false, is_signer }),
    {
        Self { pubkey, is_signer, is_writable: false }
    }
}

/// The accounts of a call, in the order in which the call takes them.
#[derive(Debug, Clone)]
pub struct ParamAccounts {
    pub accounts: Vec<ParamAccountProps>,
}

/// What a list of accounts says.
pub open spec fn views(accounts: Seq<ParamAccountProps>) -> Seq<ParamAccountView> {
    Seq::new(accounts.len(), |i: int| accounts[i]@)
}

/// Where a program asks about its accounts: its own address and that of its
/// state.
#[derive(Debug, Clone, Copy)]
pub struct ParamsContext {
    pub program_id: AccountKey,
    pub state_key: AccountKey,
}

/// The token program.
pub fn token_program_id() -> (key: AccountKey)
    ensures
        key@ == TOKEN_PROGRAM_ID@,
{
    AccountKey { bytes: TOKEN_PROGRAM_ID }
}

/// The associated token program.
pub fn associated_token_program_id() -> (key: AccountKey)
    ensures
        key@ == ASSOCIATED_TOKEN_PROGRAM_ID@,
{
    AccountKey { bytes: ASSOCIATED_TOKEN_PROGRAM_ID }
}

/// The system program.
pub fn system_program_id() -> (key: AccountKey)
    ensures
        key@ == SYSTEM_PROGRAM_ID@,
{
    AccountKey { bytes: SYSTEM_PROGRAM_ID }
}

/// The bytes of the address of the token program.
pub const TOKEN_PROGRAM_ID: [u8; 32] = [
    6, 221, 246, 225, 215, 101, 161, 147, 217, 203, 225, 70, 206, 235, 121, 172, 28, 180, 133,
    237, 95, 91, 55, 145, 58, 140, 245, 133, 126, 255, 0, 169,
];

/// The bytes of the address of the associated token program.
pub const ASSOCIATED_TOKEN_PROGRAM_ID: [u8; 32] = [
    140, 151, 37, 143, 78, 36, 137, 241, 187, 61, 16, 41, 20, 142, 13, 131, 11, 90, 19, 153,
    218, 255, 16, 132, 4, 142, 123, 216, 219, 233, 248, 89,
];

/// The bytes of the address of the system program.
pub const SYSTEM_PROGRAM_ID: [u8; 32] = [
    0, 0, 0, 0, 0, 0, 0, 0, 0, 0, 0, 0, 0, 0, 0, 0, 0, 0, 0, 0, 0, 0, 0, 0, 0, 0, 0, 0, 0, 0, 0, 0,
];

/// The address and the bump that `Pubkey::try_find_program_address` derives
/// from seeds for a program; `None` where it derives none.
pub uninterp spec fn program_address_of(seeds: Seq<Seq<u8>>, program: Seq<u8>) -> Option<
    (Seq<u8>, u8),
>;

/// The address among what was derived.
pub open spec fn address_in(derived: Option<(AccountKey, u8)>) -> Option<(Seq<u8>, u8)> {
    match derived {
        Some((key, bump)) => Some((key@, bump)),
        None => None,
    }
}

/// `Pubkey::try_find_program_address`: the address off the curve that the
/// seeds and the highest fitting bump give for the program.
#[verifier::external_body]
pub(crate) fn try_find_program_address(seeds: &Vec<Vec<u8>>, program: &AccountKey) -> (r: Option<
    (AccountKey, u8),
>)
    ensures
        address_in(r) == program_address_of(crate::views::blobs(seeds@), program@),
{
    let refs: Vec<&[u8]> = seeds.iter().map(|seed| seed.as_slice()).collect();
    match Pubkey::try_find_program_address(&refs, &Pubkey::new_from_array(program.bytes)) {
        Some((key, bump)) => Some((AccountKey { bytes: key.to_bytes() }, bump)),
        None => None,
    }
}

/// The address that a program derives from one text seed, and from a key
/// where there is one.
pub open spec fn seeded_address(seed: Seq<char>, key: Option<Seq<u8>>, program: Seq<u8>) -> Option<
    (Seq<u8>, u8),
> {
    match key {
        Some(key) => program_address_of(seq![encode_utf8(seed), key], program),
        None => program_address_of(seq![encode_utf8(seed)], program),
    }
}

/// Derives the address of a program for a text seed, and a key where there is
/// one.
pub fn find_seeded_address(seed: &str, key: Option<&AccountKey>, program: &AccountKey) -> (r:
    Option<(AccountKey, u8)>)
    ensures
        address_in(r) == seeded_address(seed@, view_opt(key), program@),
{
    let mut seeds: Vec<Vec<u8>> = Vec::new();
    seeds.push(seed.as_bytes_vec());
    match key {
        Some(key) => {
            seeds.push(key.to_vec());
            assert(crate::views::blobs(seeds@) =~= seq![encode_utf8(seed@), key@]);
        },
        None => {
            assert(crate::views::blobs(seeds@) =~= seq![encode_utf8(seed@)]);
        },
    }
    try_find_program_address(&seeds, program)
}

/// The address of the token account that belongs to a wallet and a mint: the
/// address that the associated token program derives from the wallet, the
/// token program and the mint.
pub open spec fn associated_token_address_of(wallet: Seq<u8>, mint: Seq<u8>) -> Option<Seq<u8>> {
    match program_address_of(
        seq![wallet, TOKEN_PROGRAM_ID@, mint],
        ASSOCIATED_TOKEN_PROGRAM_ID@,
    ) {
        Some(derived) => Some(derived.0),
        None => None,
    }
}

/// Derives the address of the token account that belongs to a wallet and a
/// mint.
pub fn get_associated_token_address(wallet: &AccountKey, mint: &AccountKey) -> (r: Option<
    AccountKey,
>)
    ensures
        view_opt(r) == associated_token_address_of(wallet@, mint@),
{
    let mut seeds: Vec<Vec<u8>> = Vec::new();
    seeds.push(wallet.to_vec());
    seeds.push(token_program_id().to_vec());
    seeds.push(mint.to_vec());
    assert(crate::views::blobs(seeds@) =~= seq![wallet@, TOKEN_PROGRAM_ID@, mint@]);
    match try_find_program_address(&seeds, &associated_token_program_id()) {
        Some((key, _)) => Some(key),
        None => None,
    }
}

} // verus!
