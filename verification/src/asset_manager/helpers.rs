//! Reading the asset manager's messages from their bytes.

use vstd::prelude::*;
use crate::asset_manager::errors::AssetManagerError;
use crate::asset_manager::structs::deposit_message::{DepositMessage, DepositMessageView};
use crate::asset_manager::structs::deposit_revert::{DepositRevert, DepositRevertView};
use crate::asset_manager::structs::withdraw_message::{WithdrawTo, WithdrawToView};
use crate::message::text_of_list;
use crate::rlp_wire::{holds_field, is_record, rlp_string_at, text_field, Field};
use crate::views::decoded;

verus! {

/// Reads the tag of a message: the first item of the list.
pub fn decode_method(data: &[u8]) -> (r: Result<String, AssetManagerError>)
    ensures
        decoded(r) == text_of_list(data@, 0),
        r matches Err(e) ==> e == AssetManagerError::DecoderError,
        forall|fields: Seq<Field>, tag: Seq<char>| #[trigger]
            holds_field(data@, fields, 0, text_field(tag)) ==> decoded(r) == Some(tag),
{
    if !is_record(data) {
        return Err(AssetManagerError::DecoderError);
    }
    match rlp_string_at(data, 0) {
        Ok(method) => Ok(method),
        Err(_) => Err(AssetManagerError::DecoderError),
    }
}

/// Reads the asset of a message: the second item of the list.
pub fn decode_token_address(data: &[u8]) -> (r: Result<String, AssetManagerError>)
    ensures
        decoded(r) == text_of_list(data@, 1),
        r matches Err(e) ==> e == AssetManagerError::DecoderError,
        forall|fields: Seq<Field>, asset: Seq<char>| #[trigger]
            holds_field(data@, fields, 1, text_field(asset)) ==> decoded(r) == Some(asset),
{
    if !is_record(data) {
        return Err(AssetManagerError::DecoderError);
    }
    match rlp_string_at(data, 1) {
        Ok(token) => Ok(token),
        Err(_) => Err(AssetManagerError::DecoderError),
    }
}

/// Decodes the rollback of a deposit.
pub fn decode_deposit_revert_msg(data: &[u8]) -> (r: Result<DepositRevert, AssetManagerError>)
    ensures
        decoded(r) == DepositRevertView::of_wire(data@),
        r matches Err(e) ==> e == AssetManagerError::DecoderError,
        forall|sent: DepositRevertView| #[trigger] sent.wire() == data@ ==> decoded(r) == Some(sent),
{
    match DepositRevert::decode(data) {
        Some(message) => Ok(message),
        None => Err(AssetManagerError::DecoderError),
    }
}

/// Decodes a withdrawal, of a token or of the native asset.
pub fn decode_withdraw_to_msg(data: &[u8]) -> (r: Result<WithdrawTo, AssetManagerError>)
    ensures
        decoded(r) == WithdrawToView::of_wire(data@),
        r matches Err(e) ==> e == AssetManagerError::DecoderError,
        forall|sent: WithdrawToView| #[trigger] sent.wire() == data@ ==> decoded(r) == Some(sent),
        forall|sent: WithdrawToView| #[trigger]
            sent.wire_native() == data@ ==> decoded(r) == Some(sent),
{
    match WithdrawTo::decode(data) {
        Some(message) => Ok(message),
        None => Err(AssetManagerError::DecoderError),
    }
}

/// Decodes the notification of a deposit.
pub fn decode_deposit_msg(data: &[u8]) -> (r: Result<DepositMessage, AssetManagerError>)
    ensures
        decoded(r) == DepositMessageView::of_wire(data@),
        r matches Err(e) ==> e == AssetManagerError::DecoderError,
        forall|sent: DepositMessageView| #[trigger] sent.wire() == data@ ==> decoded(r) == Some(sent),
{
    match DepositMessage::decode(data) {
        Some(message) => Ok(message),
        None => Err(AssetManagerError::DecoderError),
    }
}

} // verus!
