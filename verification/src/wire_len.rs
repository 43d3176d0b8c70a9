//! The length of an encoding, computed without encoding: the writer takes
//! nothing that does not fit a 32-bit length, so a caller measures first.

use vstd::prelude::*;
use vstd::utf8::*;
use crate::rlp_wire::{
    be_bytes, field_wire, fields_wire, number_field, record_wire, rlp_data, rlp_data_all,
    rlp_frame, text_field, text_list_field, utf8_all, Field,
};
use crate::views::texts;

verus! {

/// The greatest length that the writer takes.
pub const MAX_WIRE_LEN: usize = 0xffff_ffff;

/// A length, where it is at most `MAX_WIRE_LEN`.
pub open spec fn fitting(len: nat) -> Option<usize> {
    if len <= MAX_WIRE_LEN {
        Some(len as usize)
    } else {
        None
    }
}

/// The sum of two lengths, where it fits.
pub fn plus(a: Option<usize>, b: Option<usize>) -> (sum: Option<usize>)
    requires
        a matches Some(x) ==> x <= MAX_WIRE_LEN,
        b matches Some(y) ==> y <= MAX_WIRE_LEN,
    ensures
        a is Some && b is Some ==> sum == fitting((a->0 + b->0) as nat),
        a is None || b is None ==> sum is None,
{
    match (a, b) {
        (Some(x), Some(y)) => {
            if x > MAX_WIRE_LEN - y {
                None
            } else {
                Some(x + y)
            }
        },
        _ => None,
    }
}

/// The number of base-256 digits of a length.
pub fn digits_of(n: usize) -> (digits: usize)
    ensures
        digits == be_bytes(n as nat).len(),
        digits <= 8,
{
    let mut rest = n;
    let mut digits: usize = 0;
    proof {
        crate::rlp_wire::lemma_length_digits(n as nat);
    }
    while rest > 0
        invariant
            digits + be_bytes(rest as nat).len() == be_bytes(n as nat).len(),
            be_bytes(n as nat).len() <= 8,
        decreases rest,
    {
        rest = rest / 256;
        digits += 1;
    }
    digits
}

/// The length of the encoding of a byte string.
pub fn data_len(payload: &[u8]) -> (len: Option<usize>)
    ensures
        len == fitting(rlp_data(payload@).len()),
{
    let n = payload.len();
    if n == 1 && payload[0] < 0x80 {
        Some(1)
    } else if n <= 55 {
        Some(n + 1)
    } else if n > MAX_WIRE_LEN {
        None
    } else {
        let digits = digits_of(n);
        plus(Some(n), Some(digits + 1))
    }
}

/// The length of the encoding of a text.
pub fn text_len(text: &str) -> (len: Option<usize>)
    ensures
        len == fitting(field_wire(text_field(text@)).len()),
{
    data_len(text.as_bytes())
}

/// A number below 128 is its own single digit, unless it is zero.
proof fn lemma_small_number(value: nat)
    requires
        0 < value < 256,
    ensures
        be_bytes(value) =~= seq![value as u8],
{
    assert(be_bytes(value / 256) =~= Seq::<u8>::empty());
}

/// A number of 256 or more has at least two digits.
proof fn lemma_large_number(value: nat)
    requires
        256 <= value,
    ensures
        be_bytes(value).len() >= 2,
{
    assert(be_bytes(value / 256).len() >= 1);
}

/// The length of the encoding of a number.
pub fn number_len(value: u128) -> (len: usize)
    ensures
        len == field_wire(number_field(value as nat)).len(),
        len <= 17,
{
    if value == 0 {
        1
    } else if value < 0x80 {
        proof {
            lemma_small_number(value as nat);
        }
        1
    } else {
        let mut rest = value;
        let mut digits: usize = 0;
        proof {
            assert(crate::rlp_wire::digit_limit(16) == 0x1_0000_0000_0000_0000_0000_0000_0000_0000)
                by {
                reveal_with_fuel(crate::rlp_wire::digit_limit, 17);
            }
            crate::rlp_wire::lemma_be_bytes_len(value as nat, 16);
            if value < 256 {
                lemma_small_number(value as nat);
            } else {
                lemma_large_number(value as nat);
            }
        }
        while rest > 0
            invariant
                digits + be_bytes(rest as nat).len() == be_bytes(value as nat).len(),
                be_bytes(value as nat).len() <= 16,
            decreases rest,
        {
            rest = rest / 256;
            digits += 1;
        }
        digits + 1
    }
}

/// The length of a list around a payload of `payload_len` bytes.
pub fn frame_len(payload_len: Option<usize>) -> (len: Option<usize>)
    requires
        payload_len matches Some(n) ==> n <= MAX_WIRE_LEN,
    ensures
        forall|payload: Seq<u8>| #[trigger]
            fitting(payload.len()) == payload_len ==> len == fitting(rlp_frame(payload).len()),
{
    match payload_len {
        None => None,
        Some(n) => {
            if n <= 55 {
                Some(n + 1)
            } else {
                let digits = digits_of(n);
                plus(Some(n), Some(digits + 1))
            }
        },
    }
}

/// The encodings of the texts of a list, one item each.
pub open spec fn text_items(names: Seq<Seq<char>>) -> Seq<Seq<u8>> {
    rlp_data_all(utf8_all(names))
}

/// One more item lengthens the concatenation by its own length.
proof fn lemma_next_item(names: Seq<Seq<char>>, i: int)
    requires
        0 <= i < names.len(),
    ensures
        text_items(names).len() == names.len(),
        text_items(names)[i] == field_wire(text_field(names[i])),
        text_items(names).take(i + 1).flatten().len() == text_items(names).take(i).flatten().len()
            + text_items(names)[i].len(),
{
    let items = text_items(names);
    assert(items.take(i + 1) =~= items.take(i).push(items[i]));
    items.take(i).lemma_flatten_push(items[i]);
}

/// The length of the encoding of a list of texts.
pub fn text_list_len(names: &Vec<String>) -> (len: Option<usize>)
    ensures
        len == fitting(field_wire(text_list_field(texts(names@))).len()),
{
    let ghost items = text_items(texts(names@));
    let mut total: Option<usize> = Some(0);
    let mut i: usize = 0;
    proof {
        assert(items.take(0) =~= Seq::<Seq<u8>>::empty());
        assert(items.len() == names.len());
    }
    while i < names.len()
        invariant
            i <= names.len(),
            items == text_items(texts(names@)),
            items.len() == names.len(),
            total == fitting(items.take(i as int).flatten().len()),
        decreases names.len() - i,
    {
        let item = text_len(names[i].as_str());
        proof {
            lemma_next_item(texts(names@), i as int);
        }
        total = plus(total, item);
        i += 1;
    }
    proof {
        assert(items.take(names.len() as int) =~= items);
        assert(fitting(items.flatten().len()) == total);
    }
    frame_len(total)
}

/// The lengths of the encodings of the fields of a record, each where it fits.
pub open spec fn field_lens(fields: Seq<Field>) -> Seq<Option<usize>> {
    Seq::new(fields.len(), |i: int| fitting(field_wire(fields[i]).len()))
}

/// One more field lengthens the concatenation by its own length.
proof fn lemma_next_field(fields: Seq<Field>, i: int)
    requires
        0 <= i < fields.len(),
    ensures
        fields_wire(fields).take(i + 1).flatten().len() == fields_wire(fields).take(
            i,
        ).flatten().len() + field_wire(fields[i]).len(),
{
    let items = fields_wire(fields);
    assert(items.take(i + 1) =~= items.take(i).push(items[i]));
    items.take(i).lemma_flatten_push(items[i]);
}

/// The length of the encoding of a record whose fields have the lengths `lens`.
pub fn record_len(lens: &Vec<Option<usize>>) -> (len: Option<usize>)
    requires
        forall|i: int| 0 <= i < lens.len() ==> (#[trigger] lens[i] matches Some(n) ==> n
            <= MAX_WIRE_LEN),
    ensures
        forall|fields: Seq<Field>| #[trigger]
            field_lens(fields) == lens@ ==> len == fitting(record_wire(fields).len()),
{
    let mut total: Option<usize> = Some(0);
    let mut i: usize = 0;
    proof {
        assert forall|fields: Seq<Field>| #[trigger] field_lens(fields) == lens@ implies total
            == fitting(fields_wire(fields).take(0).flatten().len()) by {
            assert(fields_wire(fields).take(0) =~= Seq::<Seq<u8>>::empty());
        }
    }
    while i < lens.len()
        invariant
            i <= lens.len(),
            total matches Some(n) ==> n <= MAX_WIRE_LEN,
            forall|k: int| 0 <= k < lens.len() ==> (#[trigger] lens[k] matches Some(n) ==> n
                <= MAX_WIRE_LEN),
            forall|fields: Seq<Field>| #[trigger]
                field_lens(fields) == lens@ ==> total == fitting(
                    fields_wire(fields).take(i as int).flatten().len(),
                ),
        decreases lens.len() - i,
    {
        let ghost before = total;
        total = plus(total, lens[i]);
        proof {
            assert forall|fields: Seq<Field>| #[trigger] field_lens(fields) == lens@ implies total
                == fitting(fields_wire(fields).take(i + 1).flatten().len()) by {
                assert(fields.len() == lens.len());
                lemma_next_field(fields, i as int);
                assert(field_lens(fields)[i as int] == lens[i as int]);
            }
        }
        i += 1;
    }
    proof {
        assert forall|fields: Seq<Field>| #[trigger] field_lens(fields) == lens@ implies total
            == fitting(fields_wire(fields).flatten().len()) by {
            assert(fields.len() == lens.len());
            assert(fields_wire(fields).take(lens.len() as int) =~= fields_wire(fields));
        }
    }
    let len = frame_len(total);
    proof {
        assert forall|fields: Seq<Field>| #[trigger] field_lens(fields) == lens@ implies len
            == fitting(record_wire(fields).len()) by {
            assert(fitting(fields_wire(fields).flatten().len()) == total);
        }
    }
    len
}

} // verus!
