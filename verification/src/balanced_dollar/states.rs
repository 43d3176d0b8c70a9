//! The records the bridged dollar keeps between calls, and what a call brings
//! along.

use vstd::prelude::*;
use crate::address::AccountKey;

verus! {

/// The configuration of the bridged dollar.
#[derive(Debug, Clone)]
pub struct State {
    /// The relay program: the only caller whose messages are handled.
    pub xcall: AccountKey,
    /// Who may call the administrative operations.
    pub admin: AccountKey,
    /// The network address of the dollar contract on the remote chain.
    pub icon_bn_usd: String,
    /// The protocol manager program.
    pub xcall_manager: AccountKey,
    /// The mint of the bridged dollar.
    pub bn_usd_token: AccountKey,
    /// The account that holds the protocol manager's state.
    pub xcall_manager_state: AccountKey,
}

/// The accounts that come with an outbound transfer.
#[derive(Debug, Clone, Copy)]
pub struct CrossTransferAccounts {
    /// The balance of the token account that is debited.
    pub from_balance: u64,
    /// The signer who sends.
    pub from_authority: AccountKey,
    /// The mint of the token account that is debited.
    pub mint: AccountKey,
}

/// Tokens that are burnt, and what is handed to the relay for them.
#[derive(Debug, Clone)]
pub struct CrossTransferCall {
    /// How much is burnt, in units of the local token.
    pub burn: u64,
    /// The message for the remote chain.
    pub data: Vec<u8>,
    /// The message that comes back if the remote chain fails.
    pub rollback: Vec<u8>,
}

/// Tokens that are minted.
#[derive(Debug, Clone, Copy)]
pub struct Mint {
    /// The owner of the token account that is credited.
    pub recipient: AccountKey,
    /// How much is minted, in units of the local token.
    pub amount: u64,
}

/// The seed of the authority a program signs its relay calls with.
#[derive(Debug, Clone, Copy)]
pub struct Authority {
    pub bump: u8,
}

} // verus!
