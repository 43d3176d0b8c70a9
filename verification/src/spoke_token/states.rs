//! The records a spoke token keeps between calls.

use vstd::prelude::*;
use crate::address::AccountKey;

verus! {

/// The configuration of a spoke token.
#[derive(Debug, Clone)]
pub struct State {
    /// The relay program: the only caller whose messages are handled.
    pub xcall: AccountKey,
    /// Who may call the administrative operations.
    pub admin: AccountKey,
    /// The network address of the token contract on the hub chain.
    pub icon_hub_addr: String,
    /// The protocol manager program.
    pub xcall_manager: AccountKey,
    /// The mint of the spoke token.
    pub spoke_token_addr: AccountKey,
    /// The account that holds the protocol manager's state.
    pub xcall_manager_state: AccountKey,
}

/// What creating a recipient's token account costs.
#[derive(Debug, Clone, Copy)]
pub struct TokenAccountCreationFee {
    pub token_account_creation_fee: u64,
}

/// The seed of the authority a program signs its relay calls with.
#[derive(Debug, Clone, Copy)]
pub struct Authority {
    pub bump: u8,
}

} // verus!
