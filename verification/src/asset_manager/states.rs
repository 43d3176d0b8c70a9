//! The records the asset manager keeps between calls, and the accounts a call
//! brings along.

use vstd::prelude::*;
use crate::address::AccountKey;

verus! {

/// Basis points in a whole: a percentage of `POINTS` reserves the entire balance.
pub const POINTS: u64 = 10000;

/// The configuration of the asset manager.
#[derive(Debug, Clone)]
pub struct State {
    /// The relay program: the only caller whose messages are handled.
    pub xcall: AccountKey,
    /// The network address of the asset manager on the remote chain.
    pub icon_asset_manager: String,
    /// The protocol manager program.
    pub xcall_manager: AccountKey,
    /// The account that holds the protocol manager's state.
    pub xcall_manager_state: AccountKey,
    /// Who may call the administrative operations.
    pub admin: AccountKey,
}

/// What creating a recipient's token account costs, per token.
#[derive(Debug, Clone, Copy)]
pub struct TokenAccountCreationFee {
    pub token: AccountKey,
    pub token_account_creation_fee: u64,
}

/// The rate limit of one asset: how much of the vault must stay, and how fast
/// the locked part is released.
#[derive(Debug, Clone, Copy)]
pub struct TokenState {
    /// The asset this limit belongs to.
    pub token: AccountKey,
    /// Seconds after which everything above the reserve is released again.
    /// Zero switches the limit off.
    pub period: u64,
    /// The share of the balance, in basis points, that may never leave.
    pub percentage: u64,
    /// When the watermark was last written, in seconds.
    pub last_update: i64,
    /// The watermark: the floor that held at `last_update`.
    pub current_limit: u64,
}

impl TokenState {
    /// A limit is well formed when its percentage is at most the whole.
    pub open spec fn wf(&self) -> bool {
        self.percentage <= POINTS
    }
}

/// The accounts that come with an inbound message for a token: each is present
/// or missing, and the vault has a balance.
#[derive(Debug, Clone, Copy)]
pub struct TokenCallAccounts {
    /// The token account that the transaction designates as recipient.
    pub to: Option<AccountKey>,
    /// The mint that the transaction designates as asset.
    pub mint: Option<AccountKey>,
    /// Whether the token program came along.
    pub token_program: bool,
    /// The balance of the vault's token account, where the account came along.
    pub vault_token_balance: Option<u64>,
    /// Whether the authority of the vault came along.
    pub vault_authority: bool,
}

/// The accounts that come with an inbound message for the native asset.
#[derive(Debug, Clone, Copy)]
pub struct NativeCallAccounts {
    /// The account that the transaction designates as recipient.
    pub to_native: Option<AccountKey>,
    /// The balance of the native vault, where the vault came along.
    pub vault_native_balance: Option<u64>,
}

/// Funds that leave the vault.
#[derive(Debug, Clone, Copy)]
pub struct Withdrawal {
    /// The asset; `None` for the native asset.
    pub asset: Option<AccountKey>,
    /// The account that receives the funds.
    pub recipient: AccountKey,
    /// How much leaves.
    pub amount: u64,
}

/// A token account: its own key and the mint of the token it holds.
#[derive(Debug, Clone, Copy)]
pub struct TokenAccountRef {
    pub key: AccountKey,
    pub mint: AccountKey,
}

/// The accounts that come with a deposit.
#[derive(Debug, Clone, Copy)]
pub struct DepositAccounts {
    /// The token account the deposit is taken from, for a deposit of a token.
    pub from: Option<TokenAccountRef>,
    /// The signer who deposits.
    pub from_authority: AccountKey,
    /// Whether the vault's token account came along.
    pub vault_token_account: bool,
    /// Whether the native vault came along.
    pub vault_native_account: bool,
    /// Whether the token program came along.
    pub token_program: bool,
}

/// What is handed to the relay: a message for the remote chain, and the
/// message that comes back if the remote chain fails.
#[derive(Debug, Clone)]
pub struct CallMessageWithRollback {
    pub data: Vec<u8>,
    pub rollback: Vec<u8>,
}

/// The seed of the authority a program signs its relay calls with.
#[derive(Debug, Clone, Copy)]
pub struct Authority {
    pub bump: u8,
}

} // verus!
