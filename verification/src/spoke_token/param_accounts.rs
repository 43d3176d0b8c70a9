//! The accounts that a spoke token needs to handle a message.

use vstd::prelude::*;
use crate::address::AccountKey;
use crate::param_accounts::{
    address_in, associated_token_program_id, find_seeded_address, readonly, seeded_address,
    system_program_id, token_program_id, views, writable, ParamAccountProps, ParamAccountView,
    ParamsContext, ASSOCIATED_TOKEN_PROGRAM_ID, SYSTEM_PROGRAM_ID, TOKEN_PROGRAM_ID,
};
use crate::spoke_token::errors::ContractError;
use crate::spoke_token::states::State;

verus! {

/// The seed of the state of the program.
pub const STATE_SEED: &'static str = "state";

/// The seed of the authority that mints.
pub const AUTHORITY_SEED: &'static str = "bnusd_authority";

/// The seed of the record of what a token account costs.
pub const TOKEN_CREATION_ACCOUNT_SEED: &'static str = "token_creation";

/// The authority that mints: its address and its bump, where they derive.
pub fn mint_authority(program_id: &AccountKey) -> (r: Option<(AccountKey, u8)>)
    ensures
        address_in(r) == seeded_address(AUTHORITY_SEED@, None, program_id@),
{
    find_seeded_address(AUTHORITY_SEED, None, program_id)
}

/// The accounts of a mint for `to_authority` into the token account `to`,
/// where the addresses derive.
pub open spec fn accounts_list(
    ctx: ParamsContext,
    state: State,
    to_authority: Seq<u8>,
    to: Seq<u8>,
) -> Option<Seq<ParamAccountView>> {
    match (
        seeded_address(TOKEN_CREATION_ACCOUNT_SEED@, None, ctx.program_id@),
        seeded_address(AUTHORITY_SEED@, None, ctx.program_id@),
    ) {
        (Some(creation), Some(authority)) => Some(
            seq![
                writable(ctx.state_key@),
                writable(to),
                readonly(to_authority),
                writable(state.spoke_token_addr@),
                writable(authority.0),
                writable(TOKEN_PROGRAM_ID@),
                readonly(ASSOCIATED_TOKEN_PROGRAM_ID@),
                readonly(state.xcall_manager@),
                readonly(state.xcall@),
                writable(state.xcall_manager_state@),
                readonly(SYSTEM_PROGRAM_ID@),
                writable(state.admin@),
                writable(creation.0),
            ],
        ),
        _ => None,
    }
}

/// Lists the accounts of a mint for `to_authority` into the token account
/// `to`. An address that does not derive is an error.
pub fn get_accounts(ctx: &ParamsContext, state: &State, to_authority: AccountKey, to: AccountKey)
    -> (r: Result<Vec<ParamAccountProps>, ContractError>)
    ensures
        match r {
            Ok(accounts) => accounts_list(*ctx, *state, to_authority@, to@) == Some(
                views(accounts@),
            ),
            Err(error) => error == ContractError::NotAnAddress && accounts_list(
                *ctx,
                *state,
                to_authority@,
                to@,
            ) is None,
        },
{
    let token_account_creation_pda = match find_seeded_address(
        TOKEN_CREATION_ACCOUNT_SEED,
        None,
        &ctx.program_id,
    ) {
        Some((key, _)) => key,
        None => {
            return Err(ContractError::NotAnAddress);
        },
    };
    let authority = match mint_authority(&ctx.program_id) {
        Some((key, _)) => key,
        None => {
            return Err(ContractError::NotAnAddress);
        },
    };
    let accounts: Vec<ParamAccountProps> = vec![
        ParamAccountProps::new(ctx.state_key, false),
        ParamAccountProps::new(to, false),
        ParamAccountProps::new_readonly(to_authority, false),
        ParamAccountProps::new(state.spoke_token_addr, false),
        ParamAccountProps::new(authority, false),
        ParamAccountProps::new(token_program_id(), false),
        ParamAccountProps::new_readonly(associated_token_program_id(), false),
        ParamAccountProps::new_readonly(state.xcall_manager, false),
        ParamAccountProps::new_readonly(state.xcall, false),
        ParamAccountProps::new(state.xcall_manager_state, false),
        ParamAccountProps::new_readonly(system_program_id(), false),
        ParamAccountProps::new(state.admin, false),
        ParamAccountProps::new(token_account_creation_pda, false),
    ];
    assert(views(accounts@) =~= accounts_list(*ctx, *state, to_authority@, to@)->0);
    Ok(accounts)
}

} // verus!
