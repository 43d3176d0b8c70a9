//! The accounts that the bridged dollar needs to handle a message.

use vstd::prelude::*;
use crate::address::{key_of_text, AccountKey};
use crate::balanced_dollar::errors::BalancedDollarError;
use crate::balanced_dollar::helpers::{
    decode_cross_transfer, decode_cross_transfer_revert, decode_method,
};
use crate::balanced_dollar::instructions::account_from_network_address;
use crate::balanced_dollar::states::State;
use crate::balanced_dollar::structs::cross_transfer::{CrossTransferMsgView, CROSS_TRANSFER};
use crate::balanced_dollar::structs::cross_transfer_revert::{
    CrossTransferRevertView, CROSS_TRANSFER_REVERT,
};
use crate::message::text_of_list;
use crate::network_address::account_of;
use crate::param_accounts::{
    address_in, associated_token_address_of, associated_token_program_id,
    find_seeded_address, get_associated_token_address, readonly, seeded_address,
    system_program_id, token_program_id, views, writable, ParamAccountProps, ParamAccountView,
    ParamAccounts, ParamsContext, ASSOCIATED_TOKEN_PROGRAM_ID, SYSTEM_PROGRAM_ID,
    TOKEN_PROGRAM_ID,
};

verus! {

/// The seed of the state of the program.
pub const STATE_SEED: &'static str = "state";

/// The seed of the authority that mints.
pub const AUTHORITY_SEED: &'static str = "bnusd_authority";

/// The authority that mints: its address and its bump, where they derive.
pub fn mint_authority(program_id: &AccountKey) -> (r: Option<(AccountKey, u8)>)
    ensures
        address_in(r) == seeded_address(AUTHORITY_SEED@, None, program_id@),
{
    find_seeded_address(AUTHORITY_SEED, None, program_id)
}

/// The accounts of a mint for `to_authority` into the token account `to`,
/// where the authority derives.
pub open spec fn accounts_list(
    ctx: ParamsContext,
    state: State,
    to_authority: Seq<u8>,
    to: Seq<u8>,
) -> Option<Seq<ParamAccountView>> {
    match seeded_address(AUTHORITY_SEED@, None, ctx.program_id@) {
        None => None,
        Some(authority) => Some(
            seq![
                writable(ctx.state_key@),
                writable(to),
                readonly(to_authority),
                writable(state.bn_usd_token@),
                writable(authority.0),
                writable(TOKEN_PROGRAM_ID@),
                readonly(ASSOCIATED_TOKEN_PROGRAM_ID@),
                readonly(state.xcall_manager@),
                readonly(state.xcall@),
                writable(state.xcall_manager_state@),
                readonly(SYSTEM_PROGRAM_ID@),
            ],
        ),
    }
}

/// What a list came to, as contracts read it.
pub open spec fn list_of(r: Result<Vec<ParamAccountProps>, BalancedDollarError>) -> Result<
    Seq<ParamAccountView>,
    BalancedDollarError,
> {
    match r {
        Ok(accounts) => Ok(views(accounts@)),
        Err(error) => Err(error),
    }
}

/// A list, where there is one; no address is an error.
pub open spec fn listed(list: Option<Seq<ParamAccountView>>) -> Result<
    Seq<ParamAccountView>,
    BalancedDollarError,
> {
    match list {
        Some(accounts) => Ok(accounts),
        None => Err(BalancedDollarError::NotAnAddress),
    }
}

/// Lists the accounts of a mint for `to_authority` into the token account `to`.
pub fn get_accounts(ctx: &ParamsContext, state: &State, to_authority: AccountKey, to: AccountKey)
    -> (r: Result<Vec<ParamAccountProps>, BalancedDollarError>)
    ensures
        list_of(r) == listed(accounts_list(*ctx, *state, to_authority@, to@)),
{
    let authority = match mint_authority(&ctx.program_id) {
        Some((key, _)) => key,
        None => {
            return Err(BalancedDollarError::NotAnAddress);
        },
    };
    let accounts: Vec<ParamAccountProps> = vec![
        ParamAccountProps::new(ctx.state_key, false),
        ParamAccountProps::new(to, false),
        ParamAccountProps::new_readonly(to_authority, false),
        ParamAccountProps::new(state.bn_usd_token, false),
        ParamAccountProps::new(authority, false),
        ParamAccountProps::new(token_program_id(), false),
        ParamAccountProps::new_readonly(associated_token_program_id(), false),
        ParamAccountProps::new_readonly(state.xcall_manager, false),
        ParamAccountProps::new_readonly(state.xcall, false),
        ParamAccountProps::new(state.xcall_manager_state, false),
        ParamAccountProps::new_readonly(system_program_id(), false),
    ];
    assert(views(accounts@) =~= accounts_list(*ctx, *state, to_authority@, to@)->0);
    Ok(accounts)
}

/// The accounts of a mint for the user a message names: the user must be a
/// key, and the user's token account and the authority must derive.
pub open spec fn accounts_for(ctx: ParamsContext, state: State, user: Option<Seq<u8>>) -> Result<
    Seq<ParamAccountView>,
    BalancedDollarError,
> {
    match user {
        None => Err(BalancedDollarError::NotAnAddress),
        Some(user) => match associated_token_address_of(user, state.bn_usd_token@) {
            None => Err(BalancedDollarError::NotAnAddress),
            Some(token_account) => listed(accounts_list(ctx, state, user, token_account)),
        },
    }
}

/// The accounts a message asks for: those of a mint for the recipient of a
/// transfer or of a rollback, none for any other message.
pub open spec fn handle_call_message_accounts(ctx: ParamsContext, state: State, data: Seq<u8>)
    -> Result<Seq<ParamAccountView>, BalancedDollarError> {
    match text_of_list(data, 0) {
        None => Err(BalancedDollarError::DecoderError),
        Some(method) => if method == CROSS_TRANSFER@ {
            match CrossTransferMsgView::of_wire(data) {
                None => Err(BalancedDollarError::DecoderError),
                Some(message) => match account_of(message.to) {
                    None => Err(BalancedDollarError::InvalidNetworkAddress),
                    Some(account) => accounts_for(ctx, state, key_of_text(account)),
                },
            }
        } else if method == CROSS_TRANSFER_REVERT@ {
            match CrossTransferRevertView::of_wire(data) {
                None => Err(BalancedDollarError::DecoderError),
                Some(message) => accounts_for(ctx, state, key_of_text(message.account)),
            }
        } else {
            Ok(Seq::empty())
        },
    }
}

/// Lists the accounts of a mint for the user with this address.
fn accounts_of_user(ctx: &ParamsContext, state: &State, address: &str) -> (r: Result<
    Vec<ParamAccountProps>,
    BalancedDollarError,
>)
    ensures
        list_of(r) == accounts_for(*ctx, *state, key_of_text(address@)),
{
    let user_address = match AccountKey::parse(address) {
        Some(key) => key,
        None => {
            return Err(BalancedDollarError::NotAnAddress);
        },
    };
    let user_token_address = match get_associated_token_address(
        &user_address,
        &state.bn_usd_token,
    ) {
        Some(key) => key,
        None => {
            return Err(BalancedDollarError::NotAnAddress);
        },
    };
    get_accounts(ctx, state, user_address, user_token_address)
}

/// Tells which accounts the handling of a message will need.
pub fn get_handle_call_message_accounts(ctx: &ParamsContext, state: &State, data: &[u8]) -> (r:
    Result<ParamAccounts, BalancedDollarError>)
    ensures
        match r {
            Ok(listed) => handle_call_message_accounts(*ctx, *state, data@) == Ok::<
                Seq<ParamAccountView>,
                BalancedDollarError,
            >(views(listed.accounts@)),
            Err(error) => handle_call_message_accounts(*ctx, *state, data@) == Err::<
                Seq<ParamAccountView>,
                BalancedDollarError,
            >(error),
        },
{
    let method = decode_method(data)?;
    let accounts = if method == CROSS_TRANSFER.to_owned() {
        let message = decode_cross_transfer(data)?;
        let account = account_from_network_address(message.to)?;
        accounts_of_user(ctx, state, account.as_str())?
    } else if method == CROSS_TRANSFER_REVERT.to_owned() {
        let message = decode_cross_transfer_revert(data)?;
        accounts_of_user(ctx, state, message.account.as_str())?
    } else {
        let none: Vec<ParamAccountProps> = Vec::new();
        assert(views(none@) =~= Seq::<ParamAccountView>::empty());
        none
    };
    Ok(ParamAccounts { accounts })
}

} // verus!
