//! The failures the asset manager reports.

use vstd::prelude::*;
use vstd::std_specs::convert::FromSpecImpl;
use rlp::DecoderError;

verus! {

/// Why an asset manager operation was refused.
#[derive(Debug, Clone, Copy, PartialEq, Eq, Structural)]
pub enum AssetManagerError {
    AmountLessThanMinimum,
    ExceedsWithdrawLimit,
    TokenTransferFailed,
    PercentageTooHigh,
    UnauthorizedCaller,
    InvalidAmount,
    UnknownMethod,
    DecoderError,
    InvalidInstruction,
    TokenNotConfigured,
    XcallManagerRequired,
    NotIconAssetManager,
    ProtocolMismatch,
    UnknownMessage,
    InsufficientBalance,
    NotAssetManager,
    TestError,
    InvalidToAddress,
    InvalidFromAddress,
    MintIsRequired,
    TokenProgramIsRequired,
    ValultTokenAccountIsRequired,
    ValultAuthorityIsRequired,
    NotAnAddress,
    OnlyXcall,
    InvalidProgram,
    InvalidXcallManagerState,
    InvalidValultTokenAccount,
    InvalidValutAuthority,
    InvalidValutNativeAuthority,
}

impl AssetManagerError {
    /// The text that describes the failure.
    pub open spec fn message_text(self) -> Seq<char> {
        match self {
            AssetManagerError::AmountLessThanMinimum => "Amount less than minimum amount"@,
            AssetManagerError::ExceedsWithdrawLimit => "Exceeds withdraw limit"@,
            AssetManagerError::TokenTransferFailed => "Failed to send tokens"@,
            AssetManagerError::PercentageTooHigh => "Percentage should be less than or equal to 10000"@,
            AssetManagerError::UnauthorizedCaller => "Unauthorized caller"@,
            AssetManagerError::InvalidAmount => "Invalid Amount"@,
            AssetManagerError::UnknownMethod => "Unknown Method"@,
            AssetManagerError::DecoderError => "Method Decode Error"@,
            AssetManagerError::InvalidInstruction => "Invalid Instruction"@,
            AssetManagerError::TokenNotConfigured => "Token not configured"@,
            AssetManagerError::XcallManagerRequired => "Xcall manager required"@,
            AssetManagerError::NotIconAssetManager => "Not the icon asset manager"@,
            AssetManagerError::ProtocolMismatch => "Protocol Mismatch"@,
            AssetManagerError::UnknownMessage => "Unknown Message"@,
            AssetManagerError::InsufficientBalance => "Insufficient Balance"@,
            AssetManagerError::NotAssetManager => "Not the asset manager key"@,
            AssetManagerError::TestError => "test error"@,
            AssetManagerError::InvalidToAddress => "invalid to address"@,
            AssetManagerError::InvalidFromAddress => "invalid from address"@,
            AssetManagerError::MintIsRequired => "Mint is required"@,
            AssetManagerError::TokenProgramIsRequired => "Token program is required"@,
            AssetManagerError::ValultTokenAccountIsRequired => "Vault Token Program is required"@,
            AssetManagerError::ValultAuthorityIsRequired => "Vault authority is required"@,
            AssetManagerError::NotAnAddress => "Not an address"@,
            AssetManagerError::OnlyXcall => "Only Xcall"@,
            AssetManagerError::InvalidProgram => "Invalid Program"@,
            AssetManagerError::InvalidXcallManagerState => "Invalid Xcall Manager State"@,
            AssetManagerError::InvalidValultTokenAccount => "Invalid Vault Token Account"@,
            AssetManagerError::InvalidValutAuthority => "Invalid Vault Authority"@,
            AssetManagerError::InvalidValutNativeAuthority => "Invalid Vault Native Authority"@,
        }
    }

    /// The text that describes the failure.
    pub fn message(&self) -> (text: String)
        ensures
            text@ == self.message_text(),
    {
        match self {
            AssetManagerError::AmountLessThanMinimum => "Amount less than minimum amount".to_owned(),
            AssetManagerError::ExceedsWithdrawLimit => "Exceeds withdraw limit".to_owned(),
            AssetManagerError::TokenTransferFailed => "Failed to send tokens".to_owned(),
            AssetManagerError::PercentageTooHigh => "Percentage should be less than or equal to 10000".to_owned(),
            AssetManagerError::UnauthorizedCaller => "Unauthorized caller".to_owned(),
            AssetManagerError::InvalidAmount => "Invalid Amount".to_owned(),
            AssetManagerError::UnknownMethod => "Unknown Method".to_owned(),
            AssetManagerError::DecoderError => "Method Decode Error".to_owned(),
            AssetManagerError::InvalidInstruction => "Invalid Instruction".to_owned(),
            AssetManagerError::TokenNotConfigured => "Token not configured".to_owned(),
            AssetManagerError::XcallManagerRequired => "Xcall manager required".to_owned(),
            AssetManagerError::NotIconAssetManager => "Not the icon asset manager".to_owned(),
            AssetManagerError::ProtocolMismatch => "Protocol Mismatch".to_owned(),
            AssetManagerError::UnknownMessage => "Unknown Message".to_owned(),
            AssetManagerError::InsufficientBalance => "Insufficient Balance".to_owned(),
            AssetManagerError::NotAssetManager => "Not the asset manager key".to_owned(),
            AssetManagerError::TestError => "test error".to_owned(),
            AssetManagerError::InvalidToAddress => "invalid to address".to_owned(),
            AssetManagerError::InvalidFromAddress => "invalid from address".to_owned(),
            AssetManagerError::MintIsRequired => "Mint is required".to_owned(),
            AssetManagerError::TokenProgramIsRequired => "Token program is required".to_owned(),
            AssetManagerError::ValultTokenAccountIsRequired => "Vault Token Program is required".to_owned(),
            AssetManagerError::ValultAuthorityIsRequired => "Vault authority is required".to_owned(),
            AssetManagerError::NotAnAddress => "Not an address".to_owned(),
            AssetManagerError::OnlyXcall => "Only Xcall".to_owned(),
            AssetManagerError::InvalidProgram => "Invalid Program".to_owned(),
            AssetManagerError::InvalidXcallManagerState => "Invalid Xcall Manager State".to_owned(),
            AssetManagerError::InvalidValultTokenAccount => "Invalid Vault Token Account".to_owned(),
            AssetManagerError::InvalidValutAuthority => "Invalid Vault Authority".to_owned(),
            AssetManagerError::InvalidValutNativeAuthority => "Invalid Vault Native Authority".to_owned(),
        }
    }

    /// The number of the failure: 6000 and its place in the list.
    pub open spec fn code_of(self) -> u32 {
        match self {
            AssetManagerError::AmountLessThanMinimum => 6000,
            AssetManagerError::ExceedsWithdrawLimit => 6001,
            AssetManagerError::TokenTransferFailed => 6002,
            AssetManagerError::PercentageTooHigh => 6003,
            AssetManagerError::UnauthorizedCaller => 6004,
            AssetManagerError::InvalidAmount => 6005,
            AssetManagerError::UnknownMethod => 6006,
            AssetManagerError::DecoderError => 6007,
            AssetManagerError::InvalidInstruction => 6008,
            AssetManagerError::TokenNotConfigured => 6009,
            AssetManagerError::XcallManagerRequired => 6010,
            AssetManagerError::NotIconAssetManager => 6011,
            AssetManagerError::ProtocolMismatch => 6012,
            AssetManagerError::UnknownMessage => 6013,
            AssetManagerError::InsufficientBalance => 6014,
            AssetManagerError::NotAssetManager => 6015,
            AssetManagerError::TestError => 6016,
            AssetManagerError::InvalidToAddress => 6017,
            AssetManagerError::InvalidFromAddress => 6018,
            AssetManagerError::MintIsRequired => 6019,
            AssetManagerError::TokenProgramIsRequired => 6020,
            AssetManagerError::ValultTokenAccountIsRequired => 6021,
            AssetManagerError::ValultAuthorityIsRequired => 6022,
            AssetManagerError::NotAnAddress => 6023,
            AssetManagerError::OnlyXcall => 6024,
            AssetManagerError::InvalidProgram => 6025,
            AssetManagerError::InvalidXcallManagerState => 6026,
            AssetManagerError::InvalidValultTokenAccount => 6027,
            AssetManagerError::InvalidValutAuthority => 6028,
            AssetManagerError::InvalidValutNativeAuthority => 6029,
        }
    }

    /// The number of the failure.
    pub fn code(&self) -> (number: u32)
        ensures
            number == self.code_of(),
            6000 <= number < 6000 + 30,
    {
        match self {
            AssetManagerError::AmountLessThanMinimum => 6000,
            AssetManagerError::ExceedsWithdrawLimit => 6001,
            AssetManagerError::TokenTransferFailed => 6002,
            AssetManagerError::PercentageTooHigh => 6003,
            AssetManagerError::UnauthorizedCaller => 6004,
            AssetManagerError::InvalidAmount => 6005,
            AssetManagerError::UnknownMethod => 6006,
            AssetManagerError::DecoderError => 6007,
            AssetManagerError::InvalidInstruction => 6008,
            AssetManagerError::TokenNotConfigured => 6009,
            AssetManagerError::XcallManagerRequired => 6010,
            AssetManagerError::NotIconAssetManager => 6011,
            AssetManagerError::ProtocolMismatch => 6012,
            AssetManagerError::UnknownMessage => 6013,
            AssetManagerError::InsufficientBalance => 6014,
            AssetManagerError::NotAssetManager => 6015,
            AssetManagerError::TestError => 6016,
            AssetManagerError::InvalidToAddress => 6017,
            AssetManagerError::InvalidFromAddress => 6018,
            AssetManagerError::MintIsRequired => 6019,
            AssetManagerError::TokenProgramIsRequired => 6020,
            AssetManagerError::ValultTokenAccountIsRequired => 6021,
            AssetManagerError::ValultAuthorityIsRequired => 6022,
            AssetManagerError::NotAnAddress => 6023,
            AssetManagerError::OnlyXcall => 6024,
            AssetManagerError::InvalidProgram => 6025,
            AssetManagerError::InvalidXcallManagerState => 6026,
            AssetManagerError::InvalidValultTokenAccount => 6027,
            AssetManagerError::InvalidValutAuthority => 6028,
            AssetManagerError::InvalidValutNativeAuthority => 6029,
        }
    }
}

/// Every failure of the decoder is reported as `DecoderError`.
impl From<DecoderError> for AssetManagerError {
    fn from(_err: DecoderError) -> (r: Self) {
        AssetManagerError::DecoderError
    }
}

impl FromSpecImpl<DecoderError> for AssetManagerError {
    open spec fn obeys_from_spec() -> bool {
        true
    }

    open spec fn from_spec(_err: DecoderError) -> Self {
        AssetManagerError::DecoderError
    }
}

} // verus!
