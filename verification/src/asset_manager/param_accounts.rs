//! The accounts that the asset manager needs to handle a message.

use vstd::prelude::*;
use crate::address::{key_of_text, AccountKey, _NATIVE_ADDRESS};
use crate::asset_manager::errors::AssetManagerError;
use crate::asset_manager::helpers::{
    decode_deposit_revert_msg, decode_method, decode_token_address, decode_withdraw_to_msg,
};
use crate::asset_manager::states::State;
use crate::asset_manager::structs::deposit_revert::{DepositRevertView, DEPOSIT_REVERT};
use crate::asset_manager::structs::withdraw_message::{
    WithdrawToView, WITHDRAW_TO, WITHDRAW_TO_NATIVE,
};
use crate::message::text_of_list;
use crate::param_accounts::{
    associated_token_address_of, associated_token_program_id,
    find_seeded_address, get_associated_token_address, readonly, seeded_address,
    system_program_id, token_program_id, views, writable, ParamAccountProps, ParamAccountView,
    ParamAccounts, ParamsContext, ASSOCIATED_TOKEN_PROGRAM_ID, SYSTEM_PROGRAM_ID,
    TOKEN_PROGRAM_ID,
};
use crate::views::view_opt;

verus! {

/// The seed of the state of the program.
pub const STATE_SEED: &'static str = "state";

/// The seed of the limit of a token.
pub const TOKEN_STATE_SEED: &'static str = "token_state";

/// The seed of the authority over the vault of a token.
pub const VAULT_SEED: &'static str = "vault";

/// The seed of the native vault.
pub const VAULT_NATIVE_SEED: &'static str = "vault_native";

/// The seed of the record of what a token account costs.
pub const TOKEN_CREATION_ACCOUNT_SEED: &'static str = "token_creation";

/// What a derivation came to, as contracts read it: no address is an error.
pub open spec fn derived(address: Option<(Seq<u8>, u8)>) -> Result<
    (Seq<u8>, u8),
    AssetManagerError,
> {
    match address {
        Some(found) => Ok(found),
        None => Err(AssetManagerError::NotAnAddress),
    }
}

/// What a derivation returned, as contracts read it.
pub open spec fn derivation_of(r: Result<(AccountKey, u8), AssetManagerError>) -> Result<
    (Seq<u8>, u8),
    AssetManagerError,
> {
    match r {
        Ok((key, bump)) => Ok((key@, bump)),
        Err(error) => Err(error),
    }
}

fn derive(seed: &str, key: Option<&AccountKey>, program_id: &AccountKey) -> (r: Result<
    (AccountKey, u8),
    AssetManagerError,
>)
    ensures
        derivation_of(r) == derived(seeded_address(seed@, view_opt(key), program_id@)),
{
    match find_seeded_address(seed, key, program_id) {
        Some(found) => Ok(found),
        None => Err(AssetManagerError::NotAnAddress),
    }
}

/// The authority over the vault of a token.
pub fn get_vault_pda(program_id: &AccountKey, mint: AccountKey) -> (r: Result<
    (AccountKey, u8),
    AssetManagerError,
>)
    ensures
        derivation_of(r) == derived(seeded_address(VAULT_SEED@, Some(mint@), program_id@)),
{
    derive(VAULT_SEED, Some(&mint), program_id)
}

/// The native vault.
pub fn get_native_vault_pda(program_id: &AccountKey) -> (r: Result<
    (AccountKey, u8),
    AssetManagerError,
>)
    ensures
        derivation_of(r) == derived(seeded_address(VAULT_NATIVE_SEED@, None, program_id@)),
{
    derive(VAULT_NATIVE_SEED, None, program_id)
}

/// The account that holds the limit of a token.
pub fn get_token_state_pda(program_id: &AccountKey, mint: AccountKey) -> (r: Result<
    (AccountKey, u8),
    AssetManagerError,
>)
    ensures
        derivation_of(r) == derived(seeded_address(TOKEN_STATE_SEED@, Some(mint@), program_id@)),
{
    derive(TOKEN_STATE_SEED, Some(&mint), program_id)
}

/// The token account of a wallet for a mint; no address is an error.
fn token_account(wallet: &AccountKey, mint: &AccountKey) -> (r: Result<
    AccountKey,
    AssetManagerError,
>)
    ensures
        match r {
            Ok(key) => associated_token_address_of(wallet@, mint@) == Some(key@),
            Err(error) => error == AssetManagerError::NotAnAddress && associated_token_address_of(
                wallet@,
                mint@,
            ) is None,
        },
{
    match get_associated_token_address(wallet, mint) {
        Some(key) => Ok(key),
        None => Err(AssetManagerError::NotAnAddress),
    }
}

/// The addresses that belong to a token: the limit of the token, the
/// authority over its vault and the vault itself.
pub struct TokenAddresses {
    pub token_state: Seq<u8>,
    pub vault_authority: Seq<u8>,
    pub vault: Seq<u8>,
}

/// The addresses that a program derives for a token, where it derives all.
pub open spec fn token_addresses(program_id: Seq<u8>, mint: Seq<u8>) -> Option<TokenAddresses> {
    match (
        seeded_address(TOKEN_STATE_SEED@, Some(mint), program_id),
        seeded_address(VAULT_SEED@, Some(mint), program_id),
    ) {
        (Some(token_state), Some(authority)) => match associated_token_address_of(
            authority.0,
            mint,
        ) {
            Some(vault) => Some(
                TokenAddresses { token_state: token_state.0, vault_authority: authority.0, vault },
            ),
            None => None,
        },
        _ => None,
    }
}

/// The accounts of a withdrawal of a token to `user`, where all addresses
/// derive.
pub open spec fn spl_token_withdraw_to_list(
    ctx: ParamsContext,
    state: State,
    user: Seq<u8>,
    mint: Seq<u8>,
) -> Option<Seq<ParamAccountView>> {
    match (
        token_addresses(ctx.program_id@, mint),
        associated_token_address_of(user, mint),
        associated_token_address_of(state.admin@, mint),
        seeded_address(TOKEN_CREATION_ACCOUNT_SEED@, Some(mint), ctx.program_id@),
    ) {
        (Some(token), Some(user_token), Some(admin_token), Some(creation)) => Some(
            seq![
                writable(user_token),
                writable(user),
                readonly(ctx.state_key@),
                writable(token.token_state),
                writable(token.vault),
                readonly(ctx.program_id@),
                writable(mint),
                writable(token.vault_authority),
                writable(TOKEN_PROGRAM_ID@),
                readonly(ASSOCIATED_TOKEN_PROGRAM_ID@),
                readonly(state.xcall_manager@),
                readonly(state.xcall_manager_state@),
                writable(SYSTEM_PROGRAM_ID@),
                writable(admin_token),
                writable(creation.0),
            ],
        ),
        _ => None,
    }
}

/// The accounts of a rollback of a deposit of a token to `user`, where all
/// addresses derive.
pub open spec fn spl_token_deposit_revert_list(
    ctx: ParamsContext,
    state: State,
    user: Seq<u8>,
    mint: Seq<u8>,
) -> Option<Seq<ParamAccountView>> {
    match (token_addresses(ctx.program_id@, mint), associated_token_address_of(user, mint)) {
        (Some(token), Some(user_token)) => Some(
            seq![
                writable(user_token),
                writable(user),
                readonly(ctx.state_key@),
                writable(token.token_state),
                writable(token.vault),
                readonly(ctx.program_id@),
                writable(mint),
                writable(token.vault_authority),
                writable(TOKEN_PROGRAM_ID@),
                readonly(ASSOCIATED_TOKEN_PROGRAM_ID@),
                readonly(state.xcall_manager@),
                readonly(state.xcall_manager_state@),
                writable(SYSTEM_PROGRAM_ID@),
                writable(ctx.program_id@),
                readonly(ctx.program_id@),
            ],
        ),
        _ => None,
    }
}

/// The accounts of a message for the native asset to `user`, where all
/// addresses derive. The program itself stands where a token would need an
/// account; `first_writable` tells how it stands in the first place.
pub open spec fn native_token_list(
    ctx: ParamsContext,
    state: State,
    user: Seq<u8>,
    first_writable: bool,
) -> Option<Seq<ParamAccountView>> {
    match key_of_text(_NATIVE_ADDRESS@) {
        None => None,
        Some(native_mint) => match (
            seeded_address(TOKEN_STATE_SEED@, Some(native_mint), ctx.program_id@),
            seeded_address(VAULT_NATIVE_SEED@, None, ctx.program_id@),
        ) {
            (Some(token_state), Some(vault)) => Some(
                seq![
                    if first_writable {
                        writable(ctx.program_id@)
                    } else {
                        readonly(ctx.program_id@)
                    },
                    writable(user),
                    readonly(ctx.state_key@),
                    writable(token_state.0),
                    readonly(ctx.program_id@),
                    writable(vault.0),
                    readonly(ctx.program_id@),
                    readonly(ctx.program_id@),
                    readonly(ctx.program_id@),
                    readonly(ctx.program_id@),
                    readonly(state.xcall_manager@),
                    readonly(state.xcall_manager_state@),
                    writable(SYSTEM_PROGRAM_ID@),
                    writable(ctx.program_id@),
                    readonly(ctx.program_id@),
                ],
            ),
            _ => None,
        },
    }
}

/// The accounts for funds that go to the user a message names: the user and
/// the asset must be keys, and every address must derive.
pub open spec fn listed_for(
    user: Option<Seq<u8>>,
    mint: Option<Seq<u8>>,
    list: spec_fn(Seq<u8>, Seq<u8>) -> Option<Seq<ParamAccountView>>,
) -> Result<Seq<ParamAccountView>, AssetManagerError> {
    match (user, mint) {
        (Some(user), Some(mint)) => match list(user, mint) {
            Some(accounts) => Ok(accounts),
            None => Err(AssetManagerError::NotAnAddress),
        },
        _ => Err(AssetManagerError::NotAnAddress),
    }
}

/// What a list came to, as contracts read it.
pub open spec fn list_of(r: Result<Vec<ParamAccountProps>, AssetManagerError>) -> Result<
    Seq<ParamAccountView>,
    AssetManagerError,
> {
    match r {
        Ok(accounts) => Ok(views(accounts@)),
        Err(error) => Err(error),
    }
}

/// The accounts of the withdrawal of a token in `data`.
pub open spec fn spl_token_withdraw_to_accounts(ctx: ParamsContext, state: State, data: Seq<u8>)
    -> Result<Seq<ParamAccountView>, AssetManagerError> {
    match WithdrawToView::of_wire(data) {
        None => Err(AssetManagerError::DecoderError),
        Some(message) => listed_for(
            key_of_text(message.user_address),
            key_of_text(message.token_address),
            |user: Seq<u8>, mint: Seq<u8>| spl_token_withdraw_to_list(ctx, state, user, mint),
        ),
    }
}

/// The accounts of the rollback of a deposit of a token in `data`.
pub open spec fn spl_token_deposit_revert_accounts(ctx: ParamsContext, state: State, data: Seq<u8>)
    -> Result<Seq<ParamAccountView>, AssetManagerError> {
    match DepositRevertView::of_wire(data) {
        None => Err(AssetManagerError::DecoderError),
        Some(message) => listed_for(
            key_of_text(message.account),
            key_of_text(message.token_address),
            |user: Seq<u8>, mint: Seq<u8>| spl_token_deposit_revert_list(ctx, state, user, mint),
        ),
    }
}

/// The accounts of the withdrawal of the native asset in `data`.
pub open spec fn native_token_withdraw_to_accounts(ctx: ParamsContext, state: State, data: Seq<u8>)
    -> Result<Seq<ParamAccountView>, AssetManagerError> {
    match WithdrawToView::of_wire(data) {
        None => Err(AssetManagerError::DecoderError),
        Some(message) => listed_for(
            key_of_text(message.user_address),
            key_of_text(_NATIVE_ADDRESS@),
            |user: Seq<u8>, mint: Seq<u8>| native_token_list(ctx, state, user, true),
        ),
    }
}

/// The accounts of the rollback of a deposit of the native asset in `data`.
pub open spec fn native_token_deposit_revert_accounts(
    ctx: ParamsContext,
    state: State,
    data: Seq<u8>,
) -> Result<Seq<ParamAccountView>, AssetManagerError> {
    match DepositRevertView::of_wire(data) {
        None => Err(AssetManagerError::DecoderError),
        Some(message) => listed_for(
            key_of_text(message.account),
            key_of_text(_NATIVE_ADDRESS@),
            |user: Seq<u8>, mint: Seq<u8>| native_token_list(ctx, state, user, false),
        ),
    }
}

/// Reads a key from its text; no key is an error.
fn key_from(text: &String) -> (r: Result<AccountKey, AssetManagerError>)
    ensures
        match r {
            Ok(key) => key_of_text(text@) == Some(key@),
            Err(error) => error == AssetManagerError::NotAnAddress && key_of_text(text@) is None,
        },
{
    match AccountKey::parse(text.as_str()) {
        Some(key) => Ok(key),
        None => Err(AssetManagerError::NotAnAddress),
    }
}

/// The addresses that belong to a token, as keys.
struct TokenKeys {
    token_state: AccountKey,
    vault_authority: AccountKey,
    vault: AccountKey,
}

/// Derives the addresses that belong to a token; no address is an error.
fn token_keys(program_id: &AccountKey, mint: AccountKey) -> (r: Result<TokenKeys, AssetManagerError>)
    ensures
        match r {
            Ok(keys) => token_addresses(program_id@, mint@) == Some(
                TokenAddresses {
                    token_state: keys.token_state@,
                    vault_authority: keys.vault_authority@,
                    vault: keys.vault@,
                },
            ),
            Err(error) => error == AssetManagerError::NotAnAddress && token_addresses(
                program_id@,
                mint@,
            ) is None,
        },
{
    let token_state = get_token_state_pda(program_id, mint)?.0;
    let vault_authority = get_vault_pda(program_id, mint)?.0;
    let vault = token_account(&vault_authority, &mint)?;
    Ok(TokenKeys { token_state, vault_authority, vault })
}

/// Lists the accounts of a withdrawal of a token.
pub fn get_spl_token_withdraw_to_accounts(ctx: &ParamsContext, state: &State, data: &[u8]) -> (r:
    Result<Vec<ParamAccountProps>, AssetManagerError>)
    ensures
        list_of(r) == spl_token_withdraw_to_accounts(*ctx, *state, data@),
{
    let message = decode_withdraw_to_msg(data)?;
    let user_address = key_from(&message.user_address)?;
    let mint = key_from(&message.token_address)?;
    let token = token_keys(&ctx.program_id, mint)?;
    let user_token_address = token_account(&user_address, &mint)?;
    let admin_token_address = token_account(&state.admin, &mint)?;
    let token_account_creation_pda =
        derive(TOKEN_CREATION_ACCOUNT_SEED, Some(&mint), &ctx.program_id)?.0;
    let accounts: Vec<ParamAccountProps> = vec![
        ParamAccountProps::new(user_token_address, false),
        ParamAccountProps::new(user_address, false),
        ParamAccountProps::new_readonly(ctx.state_key, false),
        ParamAccountProps::new(token.token_state, false),
        ParamAccountProps::new(token.vault, false),
        ParamAccountProps::new_readonly(ctx.program_id, false),
        ParamAccountProps::new(mint, false),
        ParamAccountProps::new(token.vault_authority, false),
        ParamAccountProps::new(token_program_id(), false),
        ParamAccountProps::new_readonly(associated_token_program_id(), false),
        ParamAccountProps::new_readonly(state.xcall_manager, false),
        ParamAccountProps::new_readonly(state.xcall_manager_state, false),
        ParamAccountProps::new(system_program_id(), false),
        ParamAccountProps::new(admin_token_address, false),
        ParamAccountProps::new(token_account_creation_pda, false),
    ];
    assert(views(accounts@) =~= spl_token_withdraw_to_list(*ctx, *state, user_address@, mint@)->0);
    Ok(accounts)
}

/// Lists the accounts of a rollback of a deposit of a token.
pub fn get_spl_token_deposit_revert_accounts(ctx: &ParamsContext, state: &State, data: &[u8]) -> (r:
    Result<Vec<ParamAccountProps>, AssetManagerError>)
    ensures
        list_of(r) == spl_token_deposit_revert_accounts(*ctx, *state, data@),
{
    let message = decode_deposit_revert_msg(data)?;
    let user_address = key_from(&message.account)?;
    let mint = key_from(&message.token_address)?;
    let token = token_keys(&ctx.program_id, mint)?;
    let user_token_address = token_account(&user_address, &mint)?;
    let accounts: Vec<ParamAccountProps> = vec![
        ParamAccountProps::new(user_token_address, false),
        ParamAccountProps::new(user_address, false),
        ParamAccountProps::new_readonly(ctx.state_key, false),
        ParamAccountProps::new(token.token_state, false),
        ParamAccountProps::new(token.vault, false),
        ParamAccountProps::new_readonly(ctx.program_id, false),
        ParamAccountProps::new(mint, false),
        ParamAccountProps::new(token.vault_authority, false),
        ParamAccountProps::new(token_program_id(), false),
        ParamAccountProps::new_readonly(associated_token_program_id(), false),
        ParamAccountProps::new_readonly(state.xcall_manager, false),
        ParamAccountProps::new_readonly(state.xcall_manager_state, false),
        ParamAccountProps::new(system_program_id(), false),
        ParamAccountProps::new(ctx.program_id, false),
        ParamAccountProps::new_readonly(ctx.program_id, false),
    ];
    assert(views(accounts@) =~= spl_token_deposit_revert_list(
        *ctx,
        *state,
        user_address@,
        mint@,
    )->0);
    Ok(accounts)
}

/// The accounts of a message for the native asset.
fn native_accounts(ctx: &ParamsContext, state: &State, user: AccountKey, first_writable: bool) -> (r:
    Result<Vec<ParamAccountProps>, AssetManagerError>)
    ensures
        list_of(r) == listed_for(
            Some(user@),
            key_of_text(_NATIVE_ADDRESS@),
            |user: Seq<u8>, mint: Seq<u8>| native_token_list(*ctx, *state, user, first_writable),
        ),
{
    let native_mint = match AccountKey::parse(_NATIVE_ADDRESS) {
        Some(key) => key,
        None => {
            return Err(AssetManagerError::NotAnAddress);
        },
    };
    let token_state = get_token_state_pda(&ctx.program_id, native_mint)?.0;
    let vault = get_native_vault_pda(&ctx.program_id)?.0;
    let first = if first_writable {
        ParamAccountProps::new(ctx.program_id, false)
    } else {
        ParamAccountProps::new_readonly(ctx.program_id, false)
    };
    let accounts: Vec<ParamAccountProps> = vec![
        first,
        ParamAccountProps::new(user, false),
        ParamAccountProps::new_readonly(ctx.state_key, false),
        ParamAccountProps::new(token_state, false),
        ParamAccountProps::new_readonly(ctx.program_id, false),
        ParamAccountProps::new(vault, false),
        ParamAccountProps::new_readonly(ctx.program_id, false),
        ParamAccountProps::new_readonly(ctx.program_id, false),
        ParamAccountProps::new_readonly(ctx.program_id, false),
        ParamAccountProps::new_readonly(ctx.program_id, false),
        ParamAccountProps::new_readonly(state.xcall_manager, false),
        ParamAccountProps::new_readonly(state.xcall_manager_state, false),
        ParamAccountProps::new(system_program_id(), false),
        ParamAccountProps::new(ctx.program_id, false),
        ParamAccountProps::new_readonly(ctx.program_id, false),
    ];
    assert(views(accounts@) =~= native_token_list(*ctx, *state, user@, first_writable)->0);
    Ok(accounts)
}

/// Lists the accounts of a withdrawal of the native asset.
pub fn get_native_token_withdraw_to_accounts(ctx: &ParamsContext, state: &State, data: &[u8]) -> (r:
    Result<Vec<ParamAccountProps>, AssetManagerError>)
    ensures
        list_of(r) == native_token_withdraw_to_accounts(*ctx, *state, data@),
{
    let message = decode_withdraw_to_msg(data)?;
    let user_address = key_from(&message.user_address)?;
    native_accounts(ctx, state, user_address, true)
}

/// Lists the accounts of a rollback of a deposit of the native asset.
pub fn get_native_token_deposit_revert_accounts(
    ctx: &ParamsContext,
    state: &State,
    data: &[u8],
) -> (r: Result<Vec<ParamAccountProps>, AssetManagerError>)
    ensures
        list_of(r) == native_token_deposit_revert_accounts(*ctx, *state, data@),
{
    let message = decode_deposit_revert_msg(data)?;
    let user_address = key_from(&message.account)?;
    native_accounts(ctx, state, user_address, false)
}

/// The accounts that a withdrawal of a token names ahead of the call, where
/// the vault derives: the relay, the protocol manager and its state, the
/// user, the mint and the authority over the vault.
pub open spec fn withdraw_to_token_list(
    ctx: ParamsContext,
    state: State,
    user: Seq<u8>,
    mint: Seq<u8>,
) -> Option<Seq<ParamAccountView>> {
    match seeded_address(VAULT_SEED@, Some(mint), ctx.program_id@) {
        None => None,
        Some(vault) => Some(
            seq![
                readonly(state.xcall@),
                readonly(state.xcall_manager@),
                readonly(state.xcall_manager_state@),
                writable(user),
                writable(mint),
                writable(vault.0),
            ],
        ),
    }
}

/// Lists the accounts that the withdrawal of a token in `data` names ahead of
/// the call.
pub fn get_withdraw_to_token_param(ctx: &ParamsContext, state: &State, data: &[u8]) -> (r: Result<
    Vec<ParamAccountProps>,
    AssetManagerError,
>)
    ensures
        list_of(r) == (match WithdrawToView::of_wire(data@) {
            None => Err(AssetManagerError::DecoderError),
            Some(message) => listed_for(
                key_of_text(message.user_address),
                key_of_text(message.token_address),
                |user: Seq<u8>, mint: Seq<u8>| withdraw_to_token_list(*ctx, *state, user, mint),
            ),
        }),
{
    let message = decode_withdraw_to_msg(data)?;
    let user_address = key_from(&message.user_address)?;
    let mint = key_from(&message.token_address)?;
    let vault = get_vault_pda(&ctx.program_id, mint)?.0;
    let accounts: Vec<ParamAccountProps> = vec![
        ParamAccountProps::new_readonly(state.xcall, false),
        ParamAccountProps::new_readonly(state.xcall_manager, false),
        ParamAccountProps::new_readonly(state.xcall_manager_state, false),
        ParamAccountProps::new(user_address, false),
        ParamAccountProps::new(mint, false),
        ParamAccountProps::new(vault, false),
    ];
    assert(views(accounts@) =~= withdraw_to_token_list(*ctx, *state, user_address@, mint@)->0);
    Ok(accounts)
}

/// The accounts a message asks for: its asset and its tag choose the list. A
/// withdrawal under the tag of the other kind of asset, and any message that
/// moves no funds, asks for none.
pub open spec fn handle_call_message_accounts(ctx: ParamsContext, state: State, data: Seq<u8>)
    -> Result<Seq<ParamAccountView>, AssetManagerError> {
    match (text_of_list(data, 1), text_of_list(data, 0)) {
        (Some(asset), Some(method)) => {
            let native = asset == _NATIVE_ADDRESS@;
            if !native && method == WITHDRAW_TO@ {
                spl_token_withdraw_to_accounts(ctx, state, data)
            } else if !native && method == DEPOSIT_REVERT@ {
                spl_token_deposit_revert_accounts(ctx, state, data)
            } else if native && method == WITHDRAW_TO_NATIVE@ {
                native_token_withdraw_to_accounts(ctx, state, data)
            } else if native && method == DEPOSIT_REVERT@ {
                native_token_deposit_revert_accounts(ctx, state, data)
            } else {
                Ok(Seq::empty())
            }
        },
        _ => Err(AssetManagerError::DecoderError),
    }
}

/// Tells which accounts the handling of a message will need.
pub fn get_handle_call_message_accounts(ctx: &ParamsContext, state: &State, data: &[u8]) -> (r:
    Result<ParamAccounts, AssetManagerError>)
    ensures
        match r {
            Ok(listed) => handle_call_message_accounts(*ctx, *state, data@) == Ok::<
                Seq<ParamAccountView>,
                AssetManagerError,
            >(views(listed.accounts@)),
            Err(error) => handle_call_message_accounts(*ctx, *state, data@) == Err::<
                Seq<ParamAccountView>,
                AssetManagerError,
            >(error),
        },
{
    let token_address = decode_token_address(data)?;
    let method = decode_method(data)?;
    let native = token_address == _NATIVE_ADDRESS.to_owned();
    let accounts = if !native && method == WITHDRAW_TO.to_owned() {
        get_spl_token_withdraw_to_accounts(ctx, state, data)?
    } else if !native && method == DEPOSIT_REVERT.to_owned() {
        get_spl_token_deposit_revert_accounts(ctx, state, data)?
    } else if native && method == WITHDRAW_TO_NATIVE.to_owned() {
        get_native_token_withdraw_to_accounts(ctx, state, data)?
    } else if native && method == DEPOSIT_REVERT.to_owned() {
        get_native_token_deposit_revert_accounts(ctx, state, data)?
    } else {
        let none: Vec<ParamAccountProps> = Vec::new();
        assert(views(none@) =~= Seq::<ParamAccountView>::empty());
        none
    };
    Ok(ParamAccounts { accounts })
}

} // verus!
