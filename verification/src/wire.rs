//! Little-endian wire primitives shared by the security-record codecs:
//! one-byte booleans and multi-byte integers read at an offset in a buffer.

use crate::error::CodecError;
use vstd::bytes::{
    spec_u16_from_le_bytes, spec_u32_from_le_bytes, spec_u64_from_le_bytes, u16_from_le_bytes,
    u32_from_le_bytes, u64_from_le_bytes,
};
use vstd::prelude::*;
use vstd::slice::slice_subrange;

verus! {

/// The canonical one-byte encoding of a boolean: `0x01` for true, `0x00` for
/// false.
pub open spec fn spec_bool_byte(b: bool) -> u8 {
    if b {
        1
    } else {
        0
    }
}

/// Reads a one-byte boolean back; only the canonical values `0x00` and
/// `0x01` are accepted, any other byte is rejected as a bad discriminant.
pub open spec fn spec_byte_bool(v: u8) -> Result<bool, CodecError> {
    if v == 0 {
        Ok(false)
    } else if v == 1 {
        Ok(true)
    } else {
        Err(CodecError::InvalidDiscriminant(v))
    }
}

/// Encodes a boolean as its canonical wire byte.
pub fn bool_byte(b: bool) -> (v: u8)
    ensures
        v == spec_bool_byte(b),
{
    if b {
        1
    } else {
        0
    }
}

/// Decodes a canonical boolean byte, rejecting every other value.
pub fn byte_bool(v: u8) -> (r: Result<bool, CodecError>)
    ensures
        r == spec_byte_bool(v),
{
    if v == 0 {
        Ok(false)
    } else if v == 1 {
        Ok(true)
    } else {
        Err(CodecError::InvalidDiscriminant(v))
    }
}

/// Reads the little-endian `u16` that starts at `off`.
pub fn get_u16(bytes: &[u8], off: usize) -> (v: u16)
    requires
        off + 2 <= bytes@.len(),
    ensures
        v == spec_u16_from_le_bytes(bytes@.subrange(off as int, off as int + 2)),
{
    // ties bytes@.len() to the usize-valued slice length, so off + k fits
    let _n: usize = bytes.len();
    u16_from_le_bytes(slice_subrange(bytes, off, off + 2))
}

/// Reads the little-endian `u32` that starts at `off`.
pub fn get_u32(bytes: &[u8], off: usize) -> (v: u32)
    requires
        off + 4 <= bytes@.len(),
    ensures
        v == spec_u32_from_le_bytes(bytes@.subrange(off as int, off as int + 4)),
{
    // ties bytes@.len() to the usize-valued slice length, so off + k fits
    let _n: usize = bytes.len();
    u32_from_le_bytes(slice_subrange(bytes, off, off + 4))
}

/// Reads the little-endian `u64` that starts at `off`.
pub fn get_u64(bytes: &[u8], off: usize) -> (v: u64)
    requires
        off + 8 <= bytes@.len(),
    ensures
        v == spec_u64_from_le_bytes(bytes@.subrange(off as int, off as int + 8)),
{
    // ties bytes@.len() to the usize-valued slice length, so off + k fits
    let _n: usize = bytes.len();
    u64_from_le_bytes(slice_subrange(bytes, off, off + 8))
}

/// Copies the sixteen-byte blob that starts at `off` out of the buffer.
pub fn get_bytes16(bytes: &[u8], off: usize) -> (v: [u8; 16])
    requires
        off + 16 <= bytes@.len(),
    ensures
        v@ == bytes@.subrange(off as int, off as int + 16),
{
    // ties bytes@.len() to the usize-valued slice length, so off + i fits
    let n: usize = bytes.len();
    let mut data: [u8; 16] = [0u8; 16];
    let mut i: usize = 0;
    while i < 16
        invariant
            i <= 16,
            off + 16 <= bytes@.len(),
            bytes@.len() == n,
            data@.len() == 16,
            forall|j: int| 0 <= j < i ==> data@[j] == bytes@[off + j],
        decreases 16 - i,
    {
        data[i] = bytes[off + i];
        i = i + 1;
    }
    proof {
        assert(data@ =~= bytes@.subrange(off as int, off as int + 16));
    }
    data
}

} // verus!
