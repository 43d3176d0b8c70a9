//! A spoke token: the pattern of the bridged dollar, for any hub token.

pub mod errors;
pub mod helpers;
pub mod param_accounts;
pub mod states;
