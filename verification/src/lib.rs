//! The logic of a cross-chain token bridge.
//!
//! Value moves between a local ledger and a remote chain through a relay, and
//! several independent relay protocols attest each message. This crate holds
//! what the bridge decides, proved against contracts:
//!
//! - [`message`] and [`rlp_wire`]: the tagged messages and their canonical
//!   bytes, written and read through the `rlp` crate;
//! - [`asset_manager`]: the vault with its withdrawal rate limit, and the
//!   handling of withdrawals and rollbacks;
//! - [`balanced_dollar`] and [`spoke_token`]: tokens that are burnt on the way
//!   out and minted on the way in;
//! - [`xcall_manager`]: the set of relay protocols, its verification and the
//!   governance message that replaces it;
//! - [`address`], [`network_address`], [`param_accounts`]: keys, network
//!   addresses and the accounts a call names;
//! - [`wire_len`], [`views`], [`response`]: what the others share.
//!
//! Nothing here moves funds or talks to the relay: each function returns what
//! is to be done, and the caller does it.

pub mod address;
pub mod asset_manager;
pub mod balanced_dollar;
pub mod message;
pub mod network_address;
pub mod param_accounts;
pub mod response;
pub mod rlp_wire;
pub mod spoke_token;
pub mod views;
pub mod wire_len;
pub mod xcall_manager;
