//! Reading the protocol manager's messages from their bytes.

use vstd::prelude::*;
use crate::message::text_of_list;
use crate::rlp_wire::{holds_field, is_record, rlp_string_at, text_field, Field};
use crate::views::decoded;
use crate::xcall_manager::configure_protocols::{ConfigureProtocols, ConfigureProtocolsView};
use crate::xcall_manager::errors::XCallManagerError;

verus! {

/// Reads the tag of a message: the first item of the list.
pub fn decode_method(data: &[u8]) -> (r: Result<String, XCallManagerError>)
    ensures
        decoded(r) == text_of_list(data@, 0),
        r matches Err(e) ==> e == XCallManagerError::DecoderError,
        forall|fields: Seq<Field>, tag: Seq<char>| #[trigger]
            holds_field(data@, fields, 0, text_field(tag)) ==> decoded(r) == Some(tag),
{
    if !is_record(data) {
        return Err(XCallManagerError::DecoderError);
    }
    match rlp_string_at(data, 0) {
        Ok(method) => Ok(method),
        Err(_) => Err(XCallManagerError::DecoderError),
    }
}

/// Decodes the message that replaces the protocol set.
pub fn decode_handle_call_msg(data: &[u8]) -> (r: Result<ConfigureProtocols, XCallManagerError>)
    ensures
        decoded(r) == ConfigureProtocolsView::of_wire(data@),
        r matches Err(e) ==> e == XCallManagerError::DecoderError,
        forall|sent: ConfigureProtocolsView| #[trigger]
            sent.wire() == data@ ==> decoded(r) == Some(sent),
{
    match ConfigureProtocols::decode(data) {
        Some(message) => Ok(message),
        None => Err(XCallManagerError::DecoderError),
    }
}

} // verus!
