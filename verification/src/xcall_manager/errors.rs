//! The failures the protocol manager reports.

use vstd::prelude::*;
use vstd::std_specs::convert::FromSpecImpl;
use rlp::DecoderError;

verus! {

/// Why a protocol manager operation was refused.
#[derive(Debug, Clone, Copy, PartialEq, Eq, Structural)]
pub enum XCallManagerError {
    ExecutionFailed,
    UnauthorizedCaller,
    ProtocolMismatch,
    ActionNotWhitelisted,
    UnknownMessageType,
    InvalidInstruction,
    Unauthorized,
    DecoderError,
    NoProposalForRemovalExists,
    InvalidSender,
    NotTheIconGovernance,
    OnlyXcall,
    InvalidProgram,
}

impl XCallManagerError {
    /// The text that describes the failure.
    pub open spec fn message_text(self) -> Seq<char> {
        match self {
            XCallManagerError::ExecutionFailed => "Execution failed"@,
            XCallManagerError::UnauthorizedCaller => "Unauthorized caller"@,
            XCallManagerError::ProtocolMismatch => "Protocol mismatch"@,
            XCallManagerError::ActionNotWhitelisted => "Action not whitelisted"@,
            XCallManagerError::UnknownMessageType => "Unknown message type"@,
            XCallManagerError::InvalidInstruction => "Invalid instruction"@,
            XCallManagerError::Unauthorized => "Unauthorized"@,
            XCallManagerError::DecoderError => "Decoder Error"@,
            XCallManagerError::NoProposalForRemovalExists => "No proposal for removal exists"@,
            XCallManagerError::InvalidSender => "Invalid Sender"@,
            XCallManagerError::NotTheIconGovernance => "Not the Icon Governance"@,
            XCallManagerError::OnlyXcall => "Only Xcall"@,
            XCallManagerError::InvalidProgram => "Invalid Program"@,
        }
    }

    /// The text that describes the failure.
    pub fn message(&self) -> (text: String)
        ensures
            text@ == self.message_text(),
    {
        match self {
            XCallManagerError::ExecutionFailed => "Execution failed".to_owned(),
            XCallManagerError::UnauthorizedCaller => "Unauthorized caller".to_owned(),
            XCallManagerError::ProtocolMismatch => "Protocol mismatch".to_owned(),
            XCallManagerError::ActionNotWhitelisted => "Action not whitelisted".to_owned(),
            XCallManagerError::UnknownMessageType => "Unknown message type".to_owned(),
            XCallManagerError::InvalidInstruction => "Invalid instruction".to_owned(),
            XCallManagerError::Unauthorized => "Unauthorized".to_owned(),
            XCallManagerError::DecoderError => "Decoder Error".to_owned(),
            XCallManagerError::NoProposalForRemovalExists => "No proposal for removal exists".to_owned(),
            XCallManagerError::InvalidSender => "Invalid Sender".to_owned(),
            XCallManagerError::NotTheIconGovernance => "Not the Icon Governance".to_owned(),
            XCallManagerError::OnlyXcall => "Only Xcall".to_owned(),
            XCallManagerError::InvalidProgram => "Invalid Program".to_owned(),
        }
    }

    /// The number of the failure: 6000 and its place in the list.
    pub open spec fn code_of(self) -> u32 {
        match self {
            XCallManagerError::ExecutionFailed => 6000,
            XCallManagerError::UnauthorizedCaller => 6001,
            XCallManagerError::ProtocolMismatch => 6002,
            XCallManagerError::ActionNotWhitelisted => 6003,
            XCallManagerError::UnknownMessageType => 6004,
            XCallManagerError::InvalidInstruction => 6005,
            XCallManagerError::Unauthorized => 6006,
            XCallManagerError::DecoderError => 6007,
            XCallManagerError::NoProposalForRemovalExists => 6008,
            XCallManagerError::InvalidSender => 6009,
            XCallManagerError::NotTheIconGovernance => 6010,
            XCallManagerError::OnlyXcall => 6011,
            XCallManagerError::InvalidProgram => 6012,
        }
    }

    /// The number of the failure.
    pub fn code(&self) -> (number: u32)
        ensures
            number == self.code_of(),
            6000 <= number < 6000 + 13,
    {
        match self {
            XCallManagerError::ExecutionFailed => 6000,
            XCallManagerError::UnauthorizedCaller => 6001,
            XCallManagerError::ProtocolMismatch => 6002,
            XCallManagerError::ActionNotWhitelisted => 6003,
            XCallManagerError::UnknownMessageType => 6004,
            XCallManagerError::InvalidInstruction => 6005,
            XCallManagerError::Unauthorized => 6006,
            XCallManagerError::DecoderError => 6007,
            XCallManagerError::NoProposalForRemovalExists => 6008,
            XCallManagerError::InvalidSender => 6009,
            XCallManagerError::NotTheIconGovernance => 6010,
            XCallManagerError::OnlyXcall => 6011,
            XCallManagerError::InvalidProgram => 6012,
        }
    }
}

/// Every failure of the decoder is reported as `DecoderError`.
impl From<DecoderError> for XCallManagerError {
    fn from(_err: DecoderError) -> (r: Self) {
        XCallManagerError::DecoderError
    }
}

impl FromSpecImpl<DecoderError> for XCallManagerError {
    open spec fn obeys_from_spec() -> bool {
        true
    }

    open spec fn from_spec(_err: DecoderError) -> Self {
        XCallManagerError::DecoderError
    }
}

} // verus!
