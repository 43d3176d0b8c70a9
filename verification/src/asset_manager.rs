//! The asset manager: custody of deposited assets, rate-limited release.

pub mod errors;
pub mod helpers;
pub mod instructions;
pub mod param_accounts;
pub mod states;
pub mod structs;
