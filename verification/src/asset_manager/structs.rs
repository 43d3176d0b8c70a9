//! The messages the asset manager exchanges with its remote counterpart.

pub mod deposit_message;
pub mod deposit_revert;
pub mod withdraw_message;
