//! Reading the spoke token's messages from their bytes.

use vstd::prelude::*;
use crate::spoke_token::errors::ContractError;
use crate::balanced_dollar::structs::cross_transfer::{CrossTransferMsg, CrossTransferMsgView};
use crate::balanced_dollar::structs::cross_transfer_revert::{
    CrossTransferRevert, CrossTransferRevertView,
};
use crate::message::text_of_list;
use crate::rlp_wire::{holds_field, is_record, rlp_string_at, text_field, Field};
use crate::views::decoded;

verus! {

/// Reads the tag of a message: the first item of the list.
pub fn decode_method(data: &[u8]) -> (r: Result<String, ContractError>)
    ensures
        decoded(r) == text_of_list(data@, 0),
        r matches Err(e) ==> e == ContractError::DecoderError,
        forall|fields: Seq<Field>, tag: Seq<char>| #[trigger]
            holds_field(data@, fields, 0, text_field(tag)) ==> decoded(r) == Some(tag),
{
    if !is_record(data) {
        return Err(ContractError::DecoderError);
    }
    match rlp_string_at(data, 0) {
        Ok(method) => Ok(method),
        Err(_) => Err(ContractError::DecoderError),
    }
}

/// Decodes a cross-chain transfer.
pub fn decode_cross_transfer(data: &[u8]) -> (r: Result<CrossTransferMsg, ContractError>)
    ensures
        decoded(r) == CrossTransferMsgView::of_wire(data@),
        r matches Err(e) ==> e == ContractError::DecoderError,
        forall|sent: CrossTransferMsgView| #[trigger]
            sent.wire() == data@ ==> decoded(r) == Some(sent),
{
    match CrossTransferMsg::decode(data) {
        Some(message) => Ok(message),
        None => Err(ContractError::DecoderError),
    }
}

/// Decodes the rollback of a cross-chain transfer.
pub fn decode_cross_transfer_revert(data: &[u8]) -> (r: Result<
    CrossTransferRevert,
    ContractError,
>)
    ensures
        decoded(r) == CrossTransferRevertView::of_wire(data@),
        r matches Err(e) ==> e == ContractError::DecoderError,
        forall|sent: CrossTransferRevertView| #[trigger]
            sent.wire() == data@ ==> decoded(r) == Some(sent),
{
    match CrossTransferRevert::decode(data) {
        Some(message) => Ok(message),
        None => Err(ContractError::DecoderError),
    }
}

} // verus!
