//! Little-endian fields and C strings inside a byte image.

use object::{LittleEndian, U16, U32, U64};
use vstd::prelude::*;

verus! {

/// The 16-bit value whose little-endian encoding is `b0 b1`.
pub open spec fn le_u16(b0: u8, b1: u8) -> u16 {
    (b0 as int + 0x100 * (b1 as int)) as u16
}

/// The 32-bit value whose little-endian encoding is `b0 b1 b2 b3`.
pub open spec fn le_u32(b0: u8, b1: u8, b2: u8, b3: u8) -> u32 {
    (b0 as int + 0x100 * (b1 as int) + 0x1_0000 * (b2 as int) + 0x100_0000 * (b3 as int)) as u32
}

/// The 64-bit value whose little-endian encoding is `b0 .. b7`.
pub open spec fn le_u64(b0: u8, b1: u8, b2: u8, b3: u8, b4: u8, b5: u8, b6: u8, b7: u8) -> u64 {
    (b0 as int + 0x100 * (b1 as int) + 0x1_0000 * (b2 as int) + 0x100_0000 * (b3 as int)
        + 0x1_0000_0000 * (b4 as int) + 0x100_0000_0000 * (b5 as int) + 0x1_0000_0000_0000 * (
    b6 as int) + 0x100_0000_0000_0000 * (b7 as int)) as u64
}

/// The 16-bit little-endian field that starts at `offset`.
pub open spec fn u16_at(image: Seq<u8>, offset: int) -> u16 {
    le_u16(image[offset], image[offset + 1])
}

/// The 32-bit little-endian field that starts at `offset`.
pub open spec fn u32_at(image: Seq<u8>, offset: int) -> u32 {
    le_u32(image[offset], image[offset + 1], image[offset + 2], image[offset + 3])
}

/// The 64-bit little-endian field that starts at `offset`.
pub open spec fn u64_at(image: Seq<u8>, offset: int) -> u64 {
    le_u64(
        image[offset],
        image[offset + 1],
        image[offset + 2],
        image[offset + 3],
        image[offset + 4],
        image[offset + 5],
        image[offset + 6],
        image[offset + 7],
    )
}

/// The little-endian encoding of a 16-bit value.
pub open spec fn u16_bytes(value: u16) -> Seq<u8> {
    seq![(value % 0x100) as u8, (value / 0x100) as u8]
}

/// The little-endian encoding of a 32-bit value.
pub open spec fn u32_bytes(value: u32) -> Seq<u8> {
    seq![
        (value % 0x100) as u8,
        (value / 0x100 % 0x100) as u8,
        (value / 0x1_0000 % 0x100) as u8,
        (value / 0x100_0000) as u8,
    ]
}

/// The little-endian encoding of a 64-bit value.
pub open spec fn u64_bytes(value: u64) -> Seq<u8> {
    seq![
        (value % 0x100) as u8,
        (value / 0x100 % 0x100) as u8,
        (value / 0x1_0000 % 0x100) as u8,
        (value / 0x100_0000 % 0x100) as u8,
        (value / 0x1_0000_0000 % 0x100) as u8,
        (value / 0x100_0000_0000 % 0x100) as u8,
        (value / 0x1_0000_0000_0000 % 0x100) as u8,
        (value / 0x100_0000_0000_0000) as u8,
    ]
}

/// Whether the image holds `bytes` from `offset` on.
pub open spec fn holds_at(image: Seq<u8>, offset: int, bytes: Seq<u8>) -> bool {
    &&& 0 <= offset
    &&& offset + bytes.len() <= image.len()
    &&& image.subrange(offset, offset + bytes.len()) == bytes
}

/// Whether `count` records of `size` bytes each, the first at `offset`, lie
/// inside an image of `len` bytes.
pub open spec fn fits(len: nat, offset: int, size: int, count: int) -> bool {
    0 <= offset && 0 <= count && offset + size * count <= len
}

/// Number of records in an array that fills `size` bytes and ends with a
/// terminating record, which is not counted. Negative if `size` has no room
/// for the terminator.
pub open spec fn record_count(size: nat, record_size: nat) -> int {
    size as int / record_size as int - 1
}

/// The array of `count` 16-bit fields whose first byte is at `offset`.
pub open spec fn u16_array_at(image: Seq<u8>, offset: int, count: nat) -> Seq<u16> {
    Seq::new(count, |i: int| u16_at(image, offset + 2 * i))
}

/// The array of `count` 32-bit fields whose first byte is at `offset`.
pub open spec fn u32_array_at(image: Seq<u8>, offset: int, count: nat) -> Seq<u32> {
    Seq::new(count, |i: int| u32_at(image, offset + 4 * i))
}

/// Whether a zero byte lies at or after `offset` inside the image, so that a
/// C string starts at `offset`.
pub open spec fn has_c_string_at(image: Seq<u8>, offset: int) -> bool {
    exists|end: int| 0 <= offset <= end < image.len() && image[end] == 0
}

/// Whether `text` is the C string that starts at `offset`: the bytes from
/// `offset` up to the first zero byte, which is not part of it.
pub open spec fn is_c_string_at(image: Seq<u8>, offset: int, text: Seq<u8>) -> bool {
    &&& 0 <= offset
    &&& offset + text.len() < image.len()
    &&& image[offset + text.len()] == 0
    &&& forall|i: int| 0 <= i < text.len() ==> text[i] == image[offset + i] && text[i] != 0
}

/// Decodes a 16-bit field with `object::endian::U16::<LittleEndian>::get`,
/// called on the value that `U16::from_bytes` makes of the two bytes.
///
/// Not proved here, but taken from that crate: `get` returns
/// `u16::from_le_bytes` of the bytes, the integer whose low byte comes first.
#[verifier::external_body]
fn decode_u16(b0: u8, b1: u8) -> (value: u16)
    ensures
        value == le_u16(b0, b1),
{
    U16::<LittleEndian>::from_bytes([b0, b1]).get(LittleEndian)
}

/// Decodes a 32-bit field with `object::endian::U32::<LittleEndian>::get`,
/// called on the value that `U32::from_bytes` makes of the four bytes.
///
/// Not proved here, but taken from that crate: `get` returns
/// `u32::from_le_bytes` of the bytes, the integer whose lowest byte comes
/// first.
#[verifier::external_body]
fn decode_u32(b0: u8, b1: u8, b2: u8, b3: u8) -> (value: u32)
    ensures
        value == le_u32(b0, b1, b2, b3),
{
    U32::<LittleEndian>::from_bytes([b0, b1, b2, b3]).get(LittleEndian)
}

/// Decodes a 64-bit field with `object::endian::U64::<LittleEndian>::get`,
/// called on the value that `U64::from_bytes` makes of the eight bytes.
///
/// Not proved here, but taken from that crate: `get` returns
/// `u64::from_le_bytes` of the bytes, the integer whose lowest byte comes
/// first.
#[verifier::external_body]
fn decode_u64(b0: u8, b1: u8, b2: u8, b3: u8, b4: u8, b5: u8, b6: u8, b7: u8) -> (value: u64)
    ensures
        value == le_u64(b0, b1, b2, b3, b4, b5, b6, b7),
{
    U64::<LittleEndian>::from_bytes([b0, b1, b2, b3, b4, b5, b6, b7]).get(LittleEndian)
}

/// Reads the byte at `offset`.
pub(crate) fn read_u8(image: &[u8], offset: usize) -> (value: u8)
    requires
        offset < image.len(),
    ensures
        value == image@[offset as int],
{
    image[offset]
}

/// Reads the 16-bit field at `offset`.
pub(crate) fn read_u16(image: &[u8], offset: usize) -> (value: u16)
    requires
        offset + 2 <= image.len(),
    ensures
        value == u16_at(image@, offset as int),
{
    decode_u16(image[offset], image[offset + 1])
}

/// Reads the 32-bit field at `offset`.
pub(crate) fn read_u32(image: &[u8], offset: usize) -> (value: u32)
    requires
        offset + 4 <= image.len(),
    ensures
        value == u32_at(image@, offset as int),
{
    decode_u32(image[offset], image[offset + 1], image[offset + 2], image[offset + 3])
}

/// Reads the 64-bit field at `offset`.
pub(crate) fn read_u64(image: &[u8], offset: usize) -> (value: u64)
    requires
        offset + 8 <= image.len(),
    ensures
        value == u64_at(image@, offset as int),
{
    decode_u64(
        image[offset],
        image[offset + 1],
        image[offset + 2],
        image[offset + 3],
        image[offset + 4],
        image[offset + 5],
        image[offset + 6],
        image[offset + 7],
    )
}

/// Tells whether `count` records of `size` bytes each, the first at `offset`,
/// lie inside an image of `len` bytes.
pub(crate) fn array_fits(len: usize, offset: usize, size: usize, count: usize) -> (inside: bool)
    requires
        size > 0,
    ensures
        inside == fits(len as nat, offset as int, size as int, count as int),
{
    if offset > len {
        return false;
    }
    let room: usize = (len - offset) / size;
    assert(count <= room <==> size * count <= len - offset) by (nonlinear_arith)
        requires
            size > 0,
            room == (len - offset) / (size as int),
            offset <= len,
    ;
    count <= room
}

/// Reads `count` 16-bit fields, the first at `offset`.
pub(crate) fn read_u16_array(image: &[u8], offset: usize, count: usize) -> (values: Vec<u16>)
    requires
        offset + 2 * count <= image.len(),
    ensures
        values@ == u16_array_at(image@, offset as int, count as nat),
{
    let mut values: Vec<u16> = Vec::new();
    let mut i: usize = 0;
    while i < count
        invariant
            i <= count,
            offset + 2 * count <= image.len(),
            values@.len() == i,
            forall|k: int| 0 <= k < i ==> values@[k] == u16_at(image@, offset + 2 * k),
        decreases count - i,
    {
        values.push(read_u16(image, offset + 2 * i));
        i += 1;
    }
    assert(values@ =~= u16_array_at(image@, offset as int, count as nat));
    values
}

/// Reads `count` 32-bit fields, the first at `offset`.
pub(crate) fn read_u32_array(image: &[u8], offset: usize, count: usize) -> (values: Vec<u32>)
    requires
        offset + 4 * count <= image.len(),
    ensures
        values@ == u32_array_at(image@, offset as int, count as nat),
{
    let mut values: Vec<u32> = Vec::new();
    let mut i: usize = 0;
    while i < count
        invariant
            i <= count,
            offset + 4 * count <= image.len(),
            values@.len() == i,
            forall|k: int| 0 <= k < i ==> values@[k] == u32_at(image@, offset + 4 * k),
        decreases count - i,
    {
        values.push(read_u32(image, offset + 4 * i));
        i += 1;
    }
    assert(values@ =~= u32_array_at(image@, offset as int, count as nat));
    values
}

/// Reads the C string that starts at `offset`, without its terminator, or
/// nothing if the image ends before a zero byte is found.
pub(crate) fn read_c_string(image: &[u8], offset: usize) -> (text: Option<Vec<u8>>)
    ensures
        match text {
            Some(text) => is_c_string_at(image@, offset as int, text@),
            None => !has_c_string_at(image@, offset as int),
        },
{
    let mut text: Vec<u8> = Vec::new();
    let mut i: usize = offset;
    while i < image.len()
        invariant
            offset <= i,
            text@.len() == i - offset,
            forall|k: int|
                0 <= k < text@.len() ==> text@[k] == image@[offset + k] && text@[k] != 0,
        decreases image.len() - i,
    {
        let byte: u8 = image[i];
        if byte == 0 {
            return Some(text);
        }
        text.push(byte);
        i += 1;
    }
    assert forall|end: int| 0 <= offset <= end < image@.len() implies image@[end] != 0 by {
        assert(image@[end] == text@[end - offset]);
    }
    None
}

/// A 16-bit field reads back the value whose encoding lies there.
pub proof fn lemma_u16_at_encoded(image: Seq<u8>, offset: int, value: u16)
    requires
        holds_at(image, offset, u16_bytes(value)),
    ensures
        u16_at(image, offset) == value,
{
    let field = image.subrange(offset, offset + 2);
    assert(image[offset] == field[0] && image[offset + 1] == field[1]);
}

/// A 32-bit field reads back the value whose encoding lies there.
pub proof fn lemma_u32_at_encoded(image: Seq<u8>, offset: int, value: u32)
    requires
        holds_at(image, offset, u32_bytes(value)),
    ensures
        u32_at(image, offset) == value,
{
    let field = image.subrange(offset, offset + 4);
    assert(image[offset] == field[0] && image[offset + 1] == field[1]);
    assert(image[offset + 2] == field[2] && image[offset + 3] == field[3]);
}

/// A 64-bit field reads back the value whose encoding lies there.
pub proof fn lemma_u64_at_encoded(image: Seq<u8>, offset: int, value: u64)
    requires
        holds_at(image, offset, u64_bytes(value)),
    ensures
        u64_at(image, offset) == value,
{
    let field = image.subrange(offset, offset + 8);
    assert(image[offset] == field[0] && image[offset + 1] == field[1]);
    assert(image[offset + 2] == field[2] && image[offset + 3] == field[3]);
    assert(image[offset + 4] == field[4] && image[offset + 5] == field[5]);
    assert(image[offset + 6] == field[6] && image[offset + 7] == field[7]);
    let b0: u64 = value % 0x100;
    let b1: u64 = value / 0x100 % 0x100;
    let b2: u64 = value / 0x1_0000 % 0x100;
    let b3: u64 = value / 0x100_0000 % 0x100;
    let b4: u64 = value / 0x1_0000_0000 % 0x100;
    let b5: u64 = value / 0x100_0000_0000 % 0x100;
    let b6: u64 = value / 0x1_0000_0000_0000 % 0x100;
    let b7: u64 = value / 0x100_0000_0000_0000;
    assert(b0 < 0x100 && b1 < 0x100 && b2 < 0x100 && b3 < 0x100 && b4 < 0x100 && b5 < 0x100 && b6
        < 0x100 && b7 < 0x100 && value == b0 + 0x100 * b1 + 0x1_0000 * b2 + 0x100_0000 * b3
        + 0x1_0000_0000 * b4 + 0x100_0000_0000 * b5 + 0x1_0000_0000_0000 * b6
        + 0x100_0000_0000_0000 * b7) by (bit_vector)
        requires
            b0 == value % 0x100,
            b1 == value / 0x100 % 0x100,
            b2 == value / 0x1_0000 % 0x100,
            b3 == value / 0x100_0000 % 0x100,
            b4 == value / 0x1_0000_0000 % 0x100,
            b5 == value / 0x100_0000_0000 % 0x100,
            b6 == value / 0x1_0000_0000_0000 % 0x100,
            b7 == value / 0x100_0000_0000_0000,
    ;
}

} // verus!
