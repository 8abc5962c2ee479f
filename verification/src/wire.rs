//! Protobuf wire primitives: varints, field keys and the two field kinds
//! that the storage network's messages are made of.

use vstd::prelude::*;
use vstd::utf8::encode_utf8;

verus! {

/// Smallest field number that protobuf admits.
pub const MIN_TAG: u32 = 1;

/// Largest field number that protobuf admits: 2^29 - 1.
pub const MAX_TAG: u32 = 536870911;

/// Wire type of a varint field.
pub const WIRE_VARINT: u32 = 0;

/// Wire type of a length-delimited field.
pub const WIRE_LENGTH_DELIMITED: u32 = 2;

/// A field number that a message may use.
pub open spec fn valid_tag(tag: u32) -> bool {
    MIN_TAG <= tag <= MAX_TAG
}

/// The base-128 varint of `value`: seven bits per byte, least significant
/// group first, the high bit set on every byte but the last.
pub open spec fn varint(value: nat) -> Seq<u8>
    decreases value,
{
    if value < 128 {
        seq![value as u8]
    } else {
        seq![(value % 128 + 128) as u8] + varint(value / 128)
    }
}

/// The key that opens a field: its number and wire type in one varint.
pub open spec fn field_key(tag: u32, wire_type: u32) -> Seq<u8> {
    varint((tag * 8 + wire_type) as nat)
}

/// A length-delimited string field: key, byte length, UTF-8 bytes.
pub open spec fn string_field(tag: u32, value: Seq<char>) -> Seq<u8> {
    field_key(tag, WIRE_LENGTH_DELIMITED) + varint(encode_utf8(value).len()) + encode_utf8(value)
}

/// A varint field holding an unsigned 64-bit number: key, then the number.
pub open spec fn uint64_field(tag: u32, value: u64) -> Seq<u8> {
    field_key(tag, WIRE_VARINT) + varint(value as nat)
}

/// What a proto3 string field contributes to its message: nothing when the
/// string is empty, the field otherwise.
pub open spec fn plain_string(tag: u32, value: Seq<char>) -> Seq<u8> {
    if value.len() == 0 {
        Seq::<u8>::empty()
    } else {
        string_field(tag, value)
    }
}

/// What a proto3 uint64 field contributes to its message: nothing when the
/// number is zero, the field otherwise.
pub open spec fn plain_uint64(tag: u32, value: u64) -> Seq<u8> {
    if value == 0 {
        Seq::<u8>::empty()
    } else {
        uint64_field(tag, value)
    }
}

/// Calls `prost::encoding::string::encode` on a byte vector. Trusted: the
/// call appends the key of a length-delimited field numbered `tag`, the
/// string's byte length as a varint, and the string's UTF-8 bytes, and
/// leaves what the buffer held before in place.
#[verifier::external_body]
fn encode_string(tag: u32, value: &String, buf: &mut Vec<u8>)
    requires
        valid_tag(tag),
    ensures
        final(buf)@ == old(buf)@ + string_field(tag, value@),
{
    prost::encoding::string::encode(tag, value, buf)
}

/// Calls `prost::encoding::uint64::encode` on a byte vector. Trusted: the
/// call appends the key of a varint field numbered `tag` and the number as a
/// varint, and leaves what the buffer held before in place.
#[verifier::external_body]
fn encode_uint64(tag: u32, value: u64, buf: &mut Vec<u8>)
    requires
        valid_tag(tag),
    ensures
        final(buf)@ == old(buf)@ + uint64_field(tag, value),
{
    prost::encoding::uint64::encode(tag, &value, buf)
}

/// Appends a proto3 string field to `buf`; an empty string is left out.
pub fn put_string(tag: u32, value: &String, buf: &mut Vec<u8>)
    requires
        valid_tag(tag),
    ensures
        final(buf)@ == old(buf)@ + plain_string(tag, value@),
{
    if !value.as_str().is_empty() {
        encode_string(tag, value, buf);
    }
}

/// Appends a proto3 uint64 field to `buf`; zero is left out.
pub fn put_uint64(tag: u32, value: u64, buf: &mut Vec<u8>)
    requires
        valid_tag(tag),
    ensures
        final(buf)@ == old(buf)@ + plain_uint64(tag, value),
{
    if value != 0 {
        encode_uint64(tag, value, buf);
    }
}

} // verus!
