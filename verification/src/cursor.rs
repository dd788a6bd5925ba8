//! The byte cursor the decoders read from: a `bytes::Bytes` buffer walked
//! through the `bytes::Buf` interface of `std::io::Cursor`.
//!
//! The cursor is opaque to the verifier. Everything the decoders know about
//! it is stated here, over the sequence of bytes that have not been read yet.

use bytes::Buf;
use vstd::prelude::*;

verus! {

/// `bytes::Bytes`, the buffer that a cursor walks. Nothing is known of its
/// inside.
#[verifier::external_type_specification]
#[verifier::external_body]
pub struct ExBytes(bytes::Bytes);

/// `std::io::Cursor`, a buffer with a reading position. Nothing is known of
/// its inside.
#[verifier::external_type_specification]
#[verifier::external_body]
#[verifier::reject_recursive_types(T)]
pub struct ExCursor<T>(std::io::Cursor<T>);

/// The bytes between the cursor's current position and the end of its
/// buffer, in reading order. Empty when the position lies at or past the end.
pub uninterp spec fn unread(data: std::io::Cursor<bytes::Bytes>) -> Seq<u8>;

/// The two bytes of `bytes` that start at `at`, as a big-endian integer.
pub open spec fn be_u16(bytes: Seq<u8>, at: int) -> u16
    recommends
        0 <= at,
        at + 2 <= bytes.len(),
{
    (bytes[at] as int * 0x100 + bytes[at + 1] as int) as u16
}

/// The four bytes of `bytes` that start at `at`, as a big-endian integer.
pub open spec fn be_u32(bytes: Seq<u8>, at: int) -> u32
    recommends
        0 <= at,
        at + 4 <= bytes.len(),
{
    (bytes[at] as int * 0x100_0000 + bytes[at + 1] as int * 0x1_0000 + bytes[at + 2] as int * 0x100
        + bytes[at + 3] as int) as u32
}

/// The eight bytes of `bytes` that start at `at`, as a big-endian integer.
pub open spec fn be_u64(bytes: Seq<u8>, at: int) -> u64
    recommends
        0 <= at,
        at + 8 <= bytes.len(),
{
    (be_u32(bytes, at) as int * 0x1_0000_0000 + be_u32(bytes, at + 4) as int) as u64
}

/// `Buf::remaining` on a cursor: the number of bytes not read yet.
#[verifier::external_body]
pub(crate) fn remaining(data: &std::io::Cursor<bytes::Bytes>) -> (count: usize)
    ensures
        count == unread(*data).len(),
{
    data.remaining()
}

/// `Buf::get_u8`: hands out the next byte and moves one byte forward.
/// It panics on an exhausted cursor, which the precondition rules out.
#[verifier::external_body]
pub(crate) fn get_u8(data: &mut std::io::Cursor<bytes::Bytes>) -> (byte: u8)
    requires
        unread(*old(data)).len() >= 1,
    ensures
        byte == unread(*old(data))[0],
        unread(*final(data)) == unread(*old(data)).skip(1),
{
    data.get_u8()
}

/// `Buf::get_u16_be`: reads the next two bytes as a big-endian integer and
/// moves two bytes forward. It panics when fewer than two bytes are left.
#[verifier::external_body]
pub(crate) fn get_u16_be(data: &mut std::io::Cursor<bytes::Bytes>) -> (value: u16)
    requires
        unread(*old(data)).len() >= 2,
    ensures
        value == be_u16(unread(*old(data)), 0),
        unread(*final(data)) == unread(*old(data)).skip(2),
{
    data.get_u16_be()
}

/// `Buf::get_u32_be`: reads the next four bytes as a big-endian integer and
/// moves four bytes forward. It panics when fewer than four bytes are left.
#[verifier::external_body]
pub(crate) fn get_u32_be(data: &mut std::io::Cursor<bytes::Bytes>) -> (value: u32)
    requires
        unread(*old(data)).len() >= 4,
    ensures
        value == be_u32(unread(*old(data)), 0),
        unread(*final(data)) == unread(*old(data)).skip(4),
{
    data.get_u32_be()
}

/// `Buf::get_u64_be`: reads the next eight bytes as a big-endian integer and
/// moves eight bytes forward. It panics when fewer than eight bytes are left.
#[verifier::external_body]
pub(crate) fn get_u64_be(data: &mut std::io::Cursor<bytes::Bytes>) -> (value: u64)
    requires
        unread(*old(data)).len() >= 8,
    ensures
        value == be_u64(unread(*old(data)), 0),
        unread(*final(data)) == unread(*old(data)).skip(8),
{
    data.get_u64_be()
}

/// `Buf::copy_to_slice`: fills `dst` with the next `dst.len()` bytes and
/// moves as many bytes forward. It panics when fewer bytes are left than
/// `dst` holds.
#[verifier::external_body]
pub(crate) fn copy_to_slice(data: &mut std::io::Cursor<bytes::Bytes>, dst: &mut [u8])
    requires
        unread(*old(data)).len() >= old(dst)@.len(),
    ensures
        final(dst)@ == unread(*old(data)).take(old(dst)@.len() as int),
        unread(*final(data)) == unread(*old(data)).skip(old(dst)@.len() as int),
{
    data.copy_to_slice(dst)
}

} // verus!
