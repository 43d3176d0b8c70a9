//! The messages the token programs exchange with their remote counterpart.

pub mod cross_transfer;
pub mod cross_transfer_revert;
