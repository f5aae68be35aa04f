//! The byte views of half-word, word and double-word slices, as `zerocopy`
//! gives them. These views are in the byte order of the machine that runs the
//! code, which the contracts name through vstd's `endianness()`: one order
//! for every call, little-endian or big-endian.
use vstd::prelude::*;
use zerocopy::IntoBytes;
use crate::model::{be_bytes_of_u16s, be_bytes_of_u32s, be_bytes_of_u64s, le_bytes_of_u16s, le_bytes_of_u32s, le_bytes_of_u64s, host_bytes_of_u16s, host_bytes_of_u32s, host_bytes_of_u64s};

verus! {

/// Calls `zerocopy::IntoBytes::as_bytes` on a `[u16]` and copies the view.
/// The view holds the two bytes of each element in the machine's byte order;
/// which order that is, little- or big-endian, is vstd's `endianness()`.
#[verifier::external_body]
pub(crate) fn u16s_as_bytes(data: &[u16]) -> (bytes: Vec<u8>)
    ensures
        bytes@ == host_bytes_of_u16s(data@),
        bytes@ == le_bytes_of_u16s(data@) || bytes@ == be_bytes_of_u16s(data@),
{
    data.as_bytes().to_vec()
}

/// Calls `zerocopy::IntoBytes::as_bytes` on a `[u32]` and copies the view.
/// The view holds the four bytes of each element in the machine's byte order;
/// which order that is, little- or big-endian, is vstd's `endianness()`.
#[verifier::external_body]
pub(crate) fn u32s_as_bytes(data: &[u32]) -> (bytes: Vec<u8>)
    ensures
        bytes@ == host_bytes_of_u32s(data@),
        bytes@ == le_bytes_of_u32s(data@) || bytes@ == be_bytes_of_u32s(data@),
{
    data.as_bytes().to_vec()
}

/// Calls `zerocopy::IntoBytes::as_bytes` on a `[u64]` and copies the view.
/// The view holds the eight bytes of each element in the machine's byte
/// order; which order that is, little- or big-endian, is vstd's `endianness()`.
#[verifier::external_body]
pub(crate) fn u64s_as_bytes(data: &[u64]) -> (bytes: Vec<u8>)
    ensures
        bytes@ == host_bytes_of_u64s(data@),
        bytes@ == le_bytes_of_u64s(data@) || bytes@ == be_bytes_of_u64s(data@),
{
    data.as_bytes().to_vec()
}

/// Calls `zerocopy::IntoBytes::as_mut_bytes` on a `[u16]` and copies `bytes`
/// into that view, so that the elements hold `bytes` in the machine's byte
/// order (vstd's `endianness()`).
#[verifier::external_body]
pub(crate) fn fill_u16s(data: &mut [u16], bytes: &[u8])
    requires
        bytes@.len() == 2 * old(data)@.len(),
    ensures
        final(data)@.len() == old(data)@.len(),
        host_bytes_of_u16s(final(data)@) == bytes@,
        le_bytes_of_u16s(final(data)@) == bytes@ || be_bytes_of_u16s(final(data)@) == bytes@,
{
    data.as_mut_bytes().copy_from_slice(bytes)
}

/// Calls `zerocopy::IntoBytes::as_mut_bytes` on a `[u32]` and copies `bytes`
/// into that view, so that the elements hold `bytes` in the machine's byte
/// order (vstd's `endianness()`).
#[verifier::external_body]
pub(crate) fn fill_u32s(data: &mut [u32], bytes: &[u8])
    requires
        bytes@.len() == 4 * old(data)@.len(),
    ensures
        final(data)@.len() == old(data)@.len(),
        host_bytes_of_u32s(final(data)@) == bytes@,
        le_bytes_of_u32s(final(data)@) == bytes@ || be_bytes_of_u32s(final(data)@) == bytes@,
{
    data.as_mut_bytes().copy_from_slice(bytes)
}

/// Calls `zerocopy::IntoBytes::as_mut_bytes` on a `[u64]` and copies `bytes`
/// into that view, so that the elements hold `bytes` in the machine's byte
/// order (vstd's `endianness()`).
#[verifier::external_body]
pub(crate) fn fill_u64s(data: &mut [u64], bytes: &[u8])
    requires
        bytes@.len() == 8 * old(data)@.len(),
    ensures
        final(data)@.len() == old(data)@.len(),
        host_bytes_of_u64s(final(data)@) == bytes@,
        le_bytes_of_u64s(final(data)@) == bytes@ || be_bytes_of_u64s(final(data)@) == bytes@,
{
    data.as_mut_bytes().copy_from_slice(bytes)
}

} // verus!
