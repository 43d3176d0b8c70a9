//! The failures a spoke token reports.

use vstd::prelude::*;
use vstd::std_specs::convert::FromSpecImpl;
use rlp::DecoderError;

verus! {

/// Why an operation on a spoke token was refused.
#[derive(Debug, Clone, Copy, PartialEq, Eq, Structural)]
pub enum ContractError {
    InvalidAmount,
    InvalidProtocols,
    InvalidSender,
    UnknownMessageType,
    DecoderError,
    NotSpokeToken,
    NotXcall,
    InsufficientBalance,
    NotAnAddress,
    InvalidNetworkAddress,
    OnlyXcall,
    OnlyAdmin,
    InvalidXcallManagerState,
    InvalidToAddress,
    InvalidAdmin,
    MintAmountLessThanTokenCreationFee,
}

impl ContractError {
    /// The text that describes the failure.
    pub open spec fn message_text(self) -> Seq<char> {
        match self {
            ContractError::InvalidAmount => "Invalid amount"@,
            ContractError::InvalidProtocols => "Invalid protocols"@,
            ContractError::InvalidSender => "Invalid sender"@,
            ContractError::UnknownMessageType => "Unknown message type"@,
            ContractError::DecoderError => "Method Decode Error"@,
            ContractError::NotSpokeToken => "Not Spoke Token"@,
            ContractError::NotXcall => "Not the xcall program"@,
            ContractError::InsufficientBalance => "Insufficient Balance"@,
            ContractError::NotAnAddress => "Not an address"@,
            ContractError::InvalidNetworkAddress => "Invalid Network Address"@,
            ContractError::OnlyXcall => "Only Xcall"@,
            ContractError::OnlyAdmin => "Only Admin"@,
            ContractError::InvalidXcallManagerState => "Invalid xcall manager state"@,
            ContractError::InvalidToAddress => "Invalid to address"@,
            ContractError::InvalidAdmin => "Invalid Admin"@,
            ContractError::MintAmountLessThanTokenCreationFee => "Mint Amount Less than Token Creation Fee"@,
        }
    }

    /// The text that describes the failure.
    pub fn message(&self) -> (text: String)
        ensures
            text@ == self.message_text(),
    {
        match self {
            ContractError::InvalidAmount => "Invalid amount".to_owned(),
            ContractError::InvalidProtocols => "Invalid protocols".to_owned(),
            ContractError::InvalidSender => "Invalid sender".to_owned(),
            ContractError::UnknownMessageType => "Unknown message type".to_owned(),
            ContractError::DecoderError => "Method Decode Error".to_owned(),
            ContractError::NotSpokeToken => "Not Spoke Token".to_owned(),
            ContractError::NotXcall => "Not the xcall program".to_owned(),
            ContractError::InsufficientBalance => "Insufficient Balance".to_owned(),
            ContractError::NotAnAddress => "Not an address".to_owned(),
            ContractError::InvalidNetworkAddress => "Invalid Network Address".to_owned(),
            ContractError::OnlyXcall => "Only Xcall".to_owned(),
            ContractError::OnlyAdmin => "Only Admin".to_owned(),
            ContractError::InvalidXcallManagerState => "Invalid xcall manager state".to_owned(),
            ContractError::InvalidToAddress => "Invalid to address".to_owned(),
            ContractError::InvalidAdmin => "Invalid Admin".to_owned(),
            ContractError::MintAmountLessThanTokenCreationFee => "Mint Amount Less than Token Creation Fee".to_owned(),
        }
    }

    /// The number of the failure: 6000 and its place in the list.
    pub open spec fn code_of(self) -> u32 {
        match self {
            ContractError::InvalidAmount => 6000,
            ContractError::InvalidProtocols => 6001,
            ContractError::InvalidSender => 6002,
            ContractError::UnknownMessageType => 6003,
            ContractError::DecoderError => 6004,
            ContractError::NotSpokeToken => 6005,
            ContractError::NotXcall => 6006,
            ContractError::InsufficientBalance => 6007,
            ContractError::NotAnAddress => 6008,
            ContractError::InvalidNetworkAddress => 6009,
            ContractError::OnlyXcall => 6010,
            ContractError::OnlyAdmin => 6011,
            ContractError::InvalidXcallManagerState => 6012,
            ContractError::InvalidToAddress => 6013,
            ContractError::InvalidAdmin => 6014,
            ContractError::MintAmountLessThanTokenCreationFee => 6015,
        }
    }

    /// The number of the failure.
    pub fn code(&self) -> (number: u32)
        ensures
            number == self.code_of(),
            6000 <= number < 6000 + 16,
    {
        match self {
            ContractError::InvalidAmount => 6000,
            ContractError::InvalidProtocols => 6001,
            ContractError::InvalidSender => 6002,
            ContractError::UnknownMessageType => 6003,
            ContractError::DecoderError => 6004,
            ContractError::NotSpokeToken => 6005,
            ContractError::NotXcall => 6006,
            ContractError::InsufficientBalance => 6007,
            ContractError::NotAnAddress => 6008,
            ContractError::InvalidNetworkAddress => 6009,
            ContractError::OnlyXcall => 6010,
            ContractError::OnlyAdmin => 6011,
            ContractError::InvalidXcallManagerState => 6012,
            ContractError::InvalidToAddress => 6013,
            ContractError::InvalidAdmin => 6014,
            ContractError::MintAmountLessThanTokenCreationFee => 6015,
        }
    }
}

/// Every failure of the decoder is reported as `DecoderError`.
impl From<DecoderError> for ContractError {
    fn from(_err: DecoderError) -> (r: Self) {
        ContractError::DecoderError
    }
}

impl FromSpecImpl<DecoderError> for ContractError {
    open spec fn obeys_from_spec() -> bool {
        true
    }

    open spec fn from_spec(_err: DecoderError) -> Self {
        ContractError::DecoderError
    }
}

} // verus!
