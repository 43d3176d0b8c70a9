//! The protocol manager: which relay protocols attest a message, and how
//! governance replaces them.

pub mod configure_protocols;
pub mod errors;
pub mod helpers;
pub mod instructions;
pub mod param_accounts;
pub mod states;
