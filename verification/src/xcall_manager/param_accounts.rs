//! The accounts that the protocol manager needs to handle a message.

use vstd::prelude::*;
use crate::param_accounts::{
    readonly, views, writable, ParamAccountProps, ParamAccounts, ParamsContext,
};
use crate::xcall_manager::states::XmState;

verus! {

/// Tells which accounts the handling of a message will need: the state.
pub fn get_handle_call_message_accounts(ctx: &ParamsContext) -> (r: ParamAccounts)
    ensures
        views(r.accounts@) == seq![writable(ctx.state_key@)],
{
    let accounts: Vec<ParamAccountProps> = vec![ParamAccountProps::new(ctx.state_key, false)];
    assert(views(accounts@) =~= seq![writable(ctx.state_key@)]);
    ParamAccounts { accounts }
}

/// The accounts that a change of the protocol set names: the relay.
pub fn get_configure_protocols_param(state: &XmState) -> (r: Vec<ParamAccountProps>)
    ensures
        views(r@) == seq![readonly(state.xcall@)],
{
    let accounts: Vec<ParamAccountProps> = vec![ParamAccountProps::new_readonly(state.xcall, false)];
    assert(views(accounts@) =~= seq![readonly(state.xcall@)]);
    accounts
}

} // verus!
