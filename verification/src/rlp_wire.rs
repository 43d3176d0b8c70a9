//! The wire encoding shared by every cross-chain message, and the calls into the
//! `rlp` crate that write and read it.
//!
//! A message travels as one RLP list, a record: its first item is the tag, the
//! others are the fields. This module states, as spec functions, the bytes of an
//! RLP byte string and of an RLP list, and wraps the `rlp` calls that the codec
//! makes. The wrappers are the only unverified code of the codec: Verus believes
//! their contracts.
//!
//! A writer's contract gives the exact bytes. A reader's contract names its
//! result, since the crate's handling of malformed input is long to state, and
//! adds what the reader returns on a well-formed record.

use vstd::prelude::*;
use vstd::utf8::*;
use rlp::{DecoderError, Rlp, RlpStream};
use crate::views::{texts, view_opt};

verus! {

/// The big-endian digits of `n` in base 256, without leading zeros. Zero has no digits.
pub open spec fn be_bytes(n: nat) -> Seq<u8>
    decreases n,
{
    if n == 0 {
        Seq::empty()
    } else {
        be_bytes(n / 256).push((n % 256) as u8)
    }
}

/// The RLP encoding of a byte string.
///
/// A single byte below `0x80` stands for itself. Up to 55 bytes follow a header
/// byte `0x80 + len`. A longer string follows `0xb7 + k` and the `k` big-endian
/// digits of its length.
pub open spec fn rlp_data(payload: Seq<u8>) -> Seq<u8> {
    if payload.len() == 1 && payload[0] < 0x80 {
        payload
    } else if payload.len() <= 55 {
        seq![(0x80 + payload.len()) as u8] + payload
    } else {
        let digits = be_bytes(payload.len());
        seq![(0xb7 + digits.len()) as u8] + digits + payload
    }
}

/// The RLP list header followed by `payload`, the concatenated encodings of the items.
///
/// Up to 55 bytes follow a header byte `0xc0 + len`. A longer payload follows
/// `0xf7 + k` and the `k` big-endian digits of its length.
pub open spec fn rlp_frame(payload: Seq<u8>) -> Seq<u8> {
    if payload.len() <= 55 {
        seq![(0xc0 + payload.len()) as u8] + payload
    } else {
        let digits = be_bytes(payload.len());
        seq![(0xf7 + digits.len()) as u8] + digits + payload
    }
}

/// The RLP encoding of a list whose items are already encoded.
pub open spec fn rlp_list(items: Seq<Seq<u8>>) -> Seq<u8> {
    rlp_frame(items.flatten())
}

/// Whether `data` starts with an RLP list header.
pub open spec fn is_list_spec(data: Seq<u8>) -> bool {
    data.len() > 0 && data[0] >= 0xc0
}

/// The UTF-8 bytes of each text of a list.
pub open spec fn utf8_all(names: Seq<Seq<char>>) -> Seq<Seq<u8>> {
    Seq::new(names.len(), |i: int| encode_utf8(names[i]))
}

/// Each byte string of a list as an RLP byte string.
pub open spec fn rlp_data_all(payloads: Seq<Seq<u8>>) -> Seq<Seq<u8>> {
    Seq::new(payloads.len(), |i: int| rlp_data(payloads[i]))
}

/// One field of a record: a byte string, or a list of byte strings.
pub enum Field {
    Data(Seq<u8>),
    List(Seq<Seq<u8>>),
}

/// The encoding of one field.
pub open spec fn field_wire(field: Field) -> Seq<u8> {
    match field {
        Field::Data(payload) => rlp_data(payload),
        Field::List(payloads) => rlp_list(rlp_data_all(payloads)),
    }
}

/// The encodings of the fields of a record, in order.
pub open spec fn fields_wire(fields: Seq<Field>) -> Seq<Seq<u8>> {
    Seq::new(fields.len(), |i: int| field_wire(fields[i]))
}

/// The encoding of a record: the list of its fields.
pub open spec fn record_wire(fields: Seq<Field>) -> Seq<u8> {
    rlp_list(fields_wire(fields))
}

/// A text field.
pub open spec fn text_field(text: Seq<char>) -> Field {
    Field::Data(encode_utf8(text))
}

/// A number field: its big-endian digits without leading zeros.
pub open spec fn number_field(value: nat) -> Field {
    Field::Data(be_bytes(value))
}

/// A field that lists texts.
pub open spec fn text_list_field(names: Seq<Seq<char>>) -> Field {
    Field::List(utf8_all(names))
}

/// The least number that needs more than `digits` digits in base 256.
pub open spec fn digit_limit(digits: nat) -> nat
    decreases digits,
{
    if digits == 0 {
        1
    } else {
        256 * digit_limit((digits - 1) as nat)
    }
}

/// A number below the limit of `digits` digits has at most that many digits.
pub proof fn lemma_be_bytes_len(n: nat, digits: nat)
    requires
        n < digit_limit(digits),
    ensures
        be_bytes(n).len() <= digits,
    decreases digits,
{
    if n != 0 {
        lemma_be_bytes_len(n / 256, (digits - 1) as nat);
    }
}

/// A length that fits in 64 bits is written in at most eight digits.
pub proof fn lemma_length_digits(n: nat)
    requires
        n <= u64::MAX,
    ensures
        be_bytes(n).len() <= 8,
{
    assert(digit_limit(8) == 0x1_0000_0000_0000_0000) by {
        reveal_with_fuel(digit_limit, 9);
    }
    lemma_be_bytes_len(n, 8);
}

/// An encoded byte string is at least as long as the byte string.
pub proof fn lemma_rlp_data_len(payload: Seq<u8>)
    ensures
        payload.len() <= rlp_data(payload).len(),
        rlp_data(payload).len() >= 1,
{
}

/// A list is longer than its payload.
pub proof fn lemma_rlp_frame_len(payload: Seq<u8>)
    ensures
        payload.len() < rlp_frame(payload).len(),
{
}

/// A list of at most `u64::MAX` bytes starts with a list header.
pub proof fn lemma_frame_is_list(payload: Seq<u8>)
    requires
        rlp_frame(payload).len() <= u64::MAX,
    ensures
        is_list_spec(rlp_frame(payload)),
{
    lemma_rlp_frame_len(payload);
    lemma_length_digits(payload.len());
}

/// Each item of a list is at most as long as the concatenation of all.
pub proof fn lemma_item_in_flatten(items: Seq<Seq<u8>>, k: int)
    requires
        0 <= k < items.len(),
    ensures
        items[k].len() <= items.flatten().len(),
{
    items.lemma_flatten_length_ge_single_element_length(k);
    items.lemma_flatten_and_flatten_alt_are_equivalent();
}

/// Each field of a record, and what it holds, is shorter than the record.
pub proof fn lemma_field_fits(fields: Seq<Field>, k: int)
    requires
        0 <= k < fields.len(),
    ensures
        field_wire(fields[k]).len() < record_wire(fields).len(),
        fields_wire(fields).flatten().len() < record_wire(fields).len(),
        fields[k] matches Field::Data(payload) ==> payload.len() < record_wire(fields).len(),
{
    lemma_item_in_flatten(fields_wire(fields), k);
    lemma_rlp_frame_len(fields_wire(fields).flatten());
    match fields[k] {
        Field::Data(payload) => {
            lemma_rlp_data_len(payload);
        },
        Field::List(_) => {},
    }
}

#[verifier::external_type_specification]
#[verifier::external_body]
pub struct ExRlpStream(rlp::RlpStream);

#[verifier::external_type_specification]
#[verifier::external_body]
pub struct ExDecoderError(rlp::DecoderError);

/// The encoded items appended so far to the list that a stream is building.
pub uninterp spec fn stream_items(s: RlpStream) -> Seq<Seq<u8>>;

/// The number of items that the list of a stream was opened for.
pub uninterp spec fn stream_expected(s: RlpStream) -> nat;

/// `RlpStream::new_list`: a stream that builds one list of `len` items, none
/// appended yet.
#[verifier::external_body]
pub(crate) fn stream_new_list(len: usize) -> (s: RlpStream)
    ensures
        stream_expected(s) == len,
        stream_items(s) == Seq::<Seq<u8>>::empty(),
{
    RlpStream::new_list(len)
}

/// `RlpStream::append` of a `&str`: the next item is the RLP byte string of the
/// text's UTF-8 bytes. The crate panics on an item beyond the declared count,
/// and it writes a length as a 32-bit number.
#[verifier::external_body]
pub(crate) fn stream_append_str(s: &mut RlpStream, value: &str)
    requires
        stream_items(*old(s)).len() < stream_expected(*old(s)),
        encode_utf8(value@).len() <= u32::MAX,
    ensures
        stream_expected(*final(s)) == stream_expected(*old(s)),
        stream_items(*final(s)) == stream_items(*old(s)).push(field_wire(text_field(value@))),
{
    s.append(&value);
}

/// `RlpStream::append` of a `u64`: the next item is the RLP byte string of the
/// number's big-endian digits without leading zeros. The crate panics on an item
/// beyond the declared count.
#[verifier::external_body]
pub(crate) fn stream_append_u64(s: &mut RlpStream, value: u64)
    requires
        stream_items(*old(s)).len() < stream_expected(*old(s)),
    ensures
        stream_expected(*final(s)) == stream_expected(*old(s)),
        stream_items(*final(s)) == stream_items(*old(s)).push(
            field_wire(number_field(value as nat)),
        ),
{
    s.append(&value);
}

/// `RlpStream::append` of a `u128`: as for a `u64`.
#[verifier::external_body]
pub(crate) fn stream_append_u128(s: &mut RlpStream, value: u128)
    requires
        stream_items(*old(s)).len() < stream_expected(*old(s)),
    ensures
        stream_expected(*final(s)) == stream_expected(*old(s)),
        stream_items(*final(s)) == stream_items(*old(s)).push(
            field_wire(number_field(value as nat)),
        ),
{
    s.append(&value);
}

/// `RlpStream::append` of a `Vec<u8>`: the next item is the RLP byte string of
/// the bytes. The crate panics on an item beyond the declared count, and it
/// writes a length as a 32-bit number.
#[verifier::external_body]
pub(crate) fn stream_append_bytes(s: &mut RlpStream, value: &Vec<u8>)
    requires
        stream_items(*old(s)).len() < stream_expected(*old(s)),
        value@.len() <= u32::MAX,
    ensures
        stream_expected(*final(s)) == stream_expected(*old(s)),
        stream_items(*final(s)) == stream_items(*old(s)).push(field_wire(Field::Data(value@))),
{
    s.append(value);
}

/// `RlpStream::append_list` of strings: the next item is the RLP list of the
/// texts, each as the RLP byte string of its UTF-8 bytes. The crate panics on an
/// item beyond the declared count, and it writes a length as a 32-bit number.
#[verifier::external_body]
pub(crate) fn stream_append_string_list(s: &mut RlpStream, values: &Vec<String>)
    requires
        stream_items(*old(s)).len() < stream_expected(*old(s)),
        field_wire(text_list_field(texts(values@))).len()
            <= u32::MAX,
    ensures
        stream_expected(*final(s)) == stream_expected(*old(s)),
        stream_items(*final(s)) == stream_items(*old(s)).push(
            field_wire(text_list_field(texts(values@))),
        ),
{
    s.append_list::<String, String>(values);
}

/// `RlpStream::out`: the bytes of the finished list. The crate panics while
/// items are missing, and it writes a length as a 32-bit number.
#[verifier::external_body]
pub(crate) fn stream_out(s: RlpStream) -> (out: Vec<u8>)
    requires
        stream_items(s).len() == stream_expected(s),
        stream_items(s).flatten().len() <= u32::MAX,
    ensures
        out@ == rlp_list(stream_items(s)),
{
    s.out().to_vec()
}

/// `data` is a well-formed record whose field `index` is `field`.
pub open spec fn holds_field(data: Seq<u8>, fields: Seq<Field>, index: int, field: Field) -> bool {
    record_wire(fields) == data && 0 <= index < fields.len() && fields[index] == field
}

/// What a reader returned, without the kind of its error.
pub open spec fn read_of<T>(r: Result<T, DecoderError>) -> Option<T> {
    match r {
        Ok(value) => Some(value),
        Err(_) => None,
    }
}

/// The text that a reader returned.
pub open spec fn text_read(r: Result<String, DecoderError>) -> Option<Seq<char>> {
    match r {
        Ok(text) => Some(text@),
        Err(_) => None,
    }
}

/// The bytes that a reader returned.
pub open spec fn bytes_read(r: Result<Vec<u8>, DecoderError>) -> Option<Seq<u8>> {
    match r {
        Ok(bytes) => Some(bytes@),
        Err(_) => None,
    }
}

/// The texts that a reader returned.
pub open spec fn texts_read(r: Result<Vec<String>, DecoderError>) -> Option<Seq<Seq<char>>> {
    match r {
        Ok(names) => Some(texts(names@)),
        Err(_) => None,
    }
}

/// The number of items that `Rlp::item_count` finds in `data`; `None` for an error.
pub uninterp spec fn item_count_of(data: Seq<u8>) -> Option<usize>;

/// `Rlp::item_count`: an error exactly when the data is no list; otherwise the
/// number of items found, which for a well-formed record is the number of its
/// fields.
#[verifier::external_body]
pub(crate) fn rlp_item_count(data: &[u8]) -> (r: Result<usize, DecoderError>)
    ensures
        read_of(r) == item_count_of(data@),
        r is Ok <==> is_list_spec(data@),
        forall|fields: Seq<Field>| #[trigger]
            record_wire(fields) == data@ ==> read_of(r) == Some(fields.len() as usize),
{
    Rlp::new(data).item_count()
}

/// What `Rlp::val_at::<String>` reads as item `index` of `data`; `None` for an error.
pub uninterp spec fn string_at_of(data: Seq<u8>, index: int) -> Option<Seq<char>>;

/// `Rlp::val_at::<String>`: item `index` of the list, decoded as UTF-8 text. On
/// a well-formed record it returns the text of a text field.
#[verifier::external_body]
pub(crate) fn rlp_string_at(data: &[u8], index: usize) -> (r: Result<String, DecoderError>)
    ensures
        text_read(r) == string_at_of(data@, index as int),
        forall|fields: Seq<Field>, text: Seq<char>| #[trigger]
            holds_field(data@, fields, index as int, text_field(text)) ==> text_read(r) == Some(
                text,
            ),
{
    Rlp::new(data).val_at::<String>(index)
}

/// What `Rlp::val_at::<u64>` reads as item `index` of `data`; `None` for an error.
pub uninterp spec fn u64_at_of(data: Seq<u8>, index: int) -> Option<u64>;

/// `Rlp::val_at::<u64>`: item `index` of the list, decoded as a big-endian
/// number without leading zeros. On a well-formed record it returns the value of
/// a number field that fits.
#[verifier::external_body]
pub(crate) fn rlp_u64_at(data: &[u8], index: usize) -> (r: Result<u64, DecoderError>)
    ensures
        read_of(r) == u64_at_of(data@, index as int),
        forall|fields: Seq<Field>, value: u64| #[trigger]
            holds_field(data@, fields, index as int, number_field(value as nat)) ==> read_of(r)
                == Some(value),
{
    Rlp::new(data).val_at::<u64>(index)
}

/// What `Rlp::val_at::<u128>` reads as item `index` of `data`; `None` for an error.
pub uninterp spec fn u128_at_of(data: Seq<u8>, index: int) -> Option<u128>;

/// `Rlp::val_at::<u128>`: item `index` of the list, decoded as a big-endian
/// number without leading zeros. On a well-formed record it returns the value of
/// a number field that fits.
#[verifier::external_body]
pub(crate) fn rlp_u128_at(data: &[u8], index: usize) -> (r: Result<u128, DecoderError>)
    ensures
        read_of(r) == u128_at_of(data@, index as int),
        forall|fields: Seq<Field>, value: u128| #[trigger]
            holds_field(data@, fields, index as int, number_field(value as nat)) ==> read_of(r)
                == Some(value),
{
    Rlp::new(data).val_at::<u128>(index)
}

/// The encoded item that `Rlp::at` finds at `index` of `data`; `None` for an error.
pub uninterp spec fn item_at_of(data: Seq<u8>, index: int) -> Option<Seq<u8>>;

/// `Rlp::at`: the encoding of item `index` of the list, header included. On a
/// well-formed record it returns the encoding of that field.
#[verifier::external_body]
pub(crate) fn rlp_at(data: &[u8], index: usize) -> (r: Result<Vec<u8>, DecoderError>)
    ensures
        bytes_read(r) == item_at_of(data@, index as int),
        forall|fields: Seq<Field>, field: Field| #[trigger]
            holds_field(data@, fields, index as int, field) ==> bytes_read(r) == Some(
                field_wire(field),
            ),
{
    match Rlp::new(data).at(index) {
        Ok(item) => Ok(item.as_raw().to_vec()),
        Err(e) => Err(e),
    }
}

/// The payload that `Rlp::data` finds behind the header of `item`; `None` for an error.
pub uninterp spec fn payload_of(item: Seq<u8>) -> Option<Seq<u8>>;

/// `Rlp::data`: the bytes behind the item's header. On the encoding of a byte
/// string it returns that byte string.
#[verifier::external_body]
pub(crate) fn rlp_payload(item: &[u8]) -> (r: Result<Vec<u8>, DecoderError>)
    ensures
        bytes_read(r) == payload_of(item@),
        forall|payload: Seq<u8>| #[trigger]
            rlp_data(payload) == item@ ==> bytes_read(r) == Some(payload),
{
    match Rlp::new(item).data() {
        Ok(payload) => Ok(payload.to_vec()),
        Err(e) => Err(e),
    }
}

/// What `Rlp::list_at::<String>` reads as item `index` of `data`; `None` for an error.
pub uninterp spec fn string_list_at_of(data: Seq<u8>, index: int) -> Option<Seq<Seq<char>>>;

/// `Rlp::list_at::<String>`: item `index` of the list, itself a list, each of
/// its items decoded as UTF-8 text. On a well-formed record it returns the texts
/// of a field that lists texts.
#[verifier::external_body]
pub(crate) fn rlp_string_list_at(data: &[u8], index: usize) -> (r: Result<
    Vec<String>,
    DecoderError,
>)
    ensures
        texts_read(r) == string_list_at_of(data@, index as int),
        forall|fields: Seq<Field>, names: Seq<Seq<char>>| #[trigger]
            holds_field(data@, fields, index as int, text_list_field(names)) ==> texts_read(r)
                == Some(names),
{
    Rlp::new(data).list_at::<String>(index)
}

/// The bytes read as the payload of item `index` of `data`: the item, then
/// what lies behind its header.
pub open spec fn bytes_at_of(data: Seq<u8>, index: int) -> Option<Seq<u8>> {
    match item_at_of(data, index) {
        Some(item) => payload_of(item),
        None => None,
    }
}

/// Reads the payload of item `index` of a list. On a well-formed record it
/// returns the bytes of a byte-string field.
pub fn rlp_bytes_at(data: &[u8], index: usize) -> (r: Option<Vec<u8>>)
    ensures
        view_opt(r) == bytes_at_of(data@, index as int),
        forall|fields: Seq<Field>, payload: Seq<u8>| #[trigger]
            holds_field(data@, fields, index as int, Field::Data(payload)) ==> view_opt(r)
                == Some(payload),
{
    match rlp_at(data, index) {
        Ok(item) => {
            let read = rlp_payload(item.as_slice());
            proof {
                assert forall|fields: Seq<Field>, payload: Seq<u8>| #[trigger]
                    holds_field(
                        data@,
                        fields,
                        index as int,
                        Field::Data(payload),
                    ) implies bytes_read(read) == Some(payload) by {
                    assert(rlp_data(payload) == item@);
                }
            }
            match read {
                Ok(payload) => Some(payload),
                Err(_) => None,
            }
        },
        Err(_) => None,
    }
}

/// Whether `data` is a list: it is not empty and its first byte is a list
/// header. A well-formed record is one.
pub fn is_record(data: &[u8]) -> (listed: bool)
    ensures
        listed == is_list_spec(data@),
        forall|fields: Seq<Field>| #[trigger] record_wire(fields) == data@ ==> listed,
{
    let size = data.len();
    proof {
        // the length of a slice fits the machine, so that of its header does too
        assert(data@.len() == size);
        assert forall|fields: Seq<Field>| #[trigger] record_wire(fields) == data@ implies is_list_spec(
            data@,
        ) by {
            lemma_frame_is_list(fields_wire(fields).flatten());
        }
    }
    size > 0 && data[0] >= 0xc0
}

} // verus!
