//! The failures the bridged dollar reports.

use vstd::prelude::*;
use vstd::std_specs::convert::FromSpecImpl;
use rlp::DecoderError;

verus! {

/// Why an operation on the bridged dollar was refused.
#[derive(Debug, Clone, Copy, PartialEq, Eq, Structural)]
pub enum BalancedDollarError {
    InvalidAmount,
    InvalidProtocols,
    InvalidSender,
    UnknownMessageType,
    DecoderError,
    NotBalancedDollar,
    NotXcall,
    InsufficientBalance,
    NotAnAddress,
    InvalidNetworkAddress,
    OnlyXcall,
    OnlyAdmin,
    InvalidXcallManagerState,
    InvalidToAddress,
}

impl BalancedDollarError {
    /// The text that describes the failure.
    pub open spec fn message_text(self) -> Seq<char> {
        match self {
            BalancedDollarError::InvalidAmount => "Invalid amount"@,
            BalancedDollarError::InvalidProtocols => "Invalid protocols"@,
            BalancedDollarError::InvalidSender => "Invalid sender"@,
            BalancedDollarError::UnknownMessageType => "Unknown message type"@,
            BalancedDollarError::DecoderError => "Method Decode Error"@,
            BalancedDollarError::NotBalancedDollar => "Not Balanced Dollar"@,
            BalancedDollarError::NotXcall => "Not the xcall program"@,
            BalancedDollarError::InsufficientBalance => "Insufficient Balance"@,
            BalancedDollarError::NotAnAddress => "Not an address"@,
            BalancedDollarError::InvalidNetworkAddress => "Invalid Network Address"@,
            BalancedDollarError::OnlyXcall => "Only Xcall"@,
            BalancedDollarError::OnlyAdmin => "Only Admin"@,
            BalancedDollarError::InvalidXcallManagerState => "Invalid xcall manager state"@,
            BalancedDollarError::InvalidToAddress => "Invalid to address"@,
        }
    }

    /// The text that describes the failure.
    pub fn message(&self) -> (text: String)
        ensures
            text@ == self.message_text(),
    {
        match self {
            BalancedDollarError::InvalidAmount => "Invalid amount".to_owned(),
            BalancedDollarError::InvalidProtocols => "Invalid protocols".to_owned(),
            BalancedDollarError::InvalidSender => "Invalid sender".to_owned(),
            BalancedDollarError::UnknownMessageType => "Unknown message type".to_owned(),
            BalancedDollarError::DecoderError => "Method Decode Error".to_owned(),
            BalancedDollarError::NotBalancedDollar => "Not Balanced Dollar".to_owned(),
            BalancedDollarError::NotXcall => "Not the xcall program".to_owned(),
            BalancedDollarError::InsufficientBalance => "Insufficient Balance".to_owned(),
            BalancedDollarError::NotAnAddress => "Not an address".to_owned(),
            BalancedDollarError::InvalidNetworkAddress => "Invalid Network Address".to_owned(),
            BalancedDollarError::OnlyXcall => "Only Xcall".to_owned(),
            BalancedDollarError::OnlyAdmin => "Only Admin".to_owned(),
            BalancedDollarError::InvalidXcallManagerState => "Invalid xcall manager state".to_owned(),
            BalancedDollarError::InvalidToAddress => "Invalid to address".to_owned(),
        }
    }

    /// The number of the failure: 6000 and its place in the list.
    pub open spec fn code_of(self) -> u32 {
        match self {
            BalancedDollarError::InvalidAmount => 6000,
            BalancedDollarError::InvalidProtocols => 6001,
            BalancedDollarError::InvalidSender => 6002,
            BalancedDollarError::UnknownMessageType => 6003,
            BalancedDollarError::DecoderError => 6004,
            BalancedDollarError::NotBalancedDollar => 6005,
            BalancedDollarError::NotXcall => 6006,
            BalancedDollarError::InsufficientBalance => 6007,
            BalancedDollarError::NotAnAddress => 6008,
            BalancedDollarError::InvalidNetworkAddress => 6009,
            BalancedDollarError::OnlyXcall => 6010,
            BalancedDollarError::OnlyAdmin => 6011,
            BalancedDollarError::InvalidXcallManagerState => 6012,
            BalancedDollarError::InvalidToAddress => 6013,
        }
    }

    /// The number of the failure.
    pub fn code(&self) -> (number: u32)
        ensures
            number == self.code_of(),
            6000 <= number < 6000 + 14,
    {
        match self {
            BalancedDollarError::InvalidAmount => 6000,
            BalancedDollarError::InvalidProtocols => 6001,
            BalancedDollarError::InvalidSender => 6002,
            BalancedDollarError::UnknownMessageType => 6003,
            BalancedDollarError::DecoderError => 6004,
            BalancedDollarError::NotBalancedDollar => 6005,
            BalancedDollarError::NotXcall => 6006,
            BalancedDollarError::InsufficientBalance => 6007,
            BalancedDollarError::NotAnAddress => 6008,
            BalancedDollarError::InvalidNetworkAddress => 6009,
            BalancedDollarError::OnlyXcall => 6010,
            BalancedDollarError::OnlyAdmin => 6011,
            BalancedDollarError::InvalidXcallManagerState => 6012,
            BalancedDollarError::InvalidToAddress => 6013,
        }
    }
}

/// Every failure of the decoder is reported as `DecoderError`.
impl From<DecoderError> for BalancedDollarError {
    fn from(_err: DecoderError) -> (r: Self) {
        BalancedDollarError::DecoderError
    }
}

impl FromSpecImpl<DecoderError> for BalancedDollarError {
    open spec fn obeys_from_spec() -> bool {
        true
    }

    open spec fn from_spec(_err: DecoderError) -> Self {
        BalancedDollarError::DecoderError
    }
}

} // verus!
