//! The bridged dollar: burnt on the way out, minted on the way in.

pub mod errors;
pub mod helpers;
pub mod instructions;
pub mod param_accounts;
pub mod states;
pub mod structs;
