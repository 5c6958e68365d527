//! The key data passed into security-manager operations.

use vstd::prelude::*;
use vstd::slice::slice_to_vec;

verus! {

/// A fixed 16-byte opaque key blob.
///
/// The bytes are never interpreted here — no cryptographic operation lives
/// in this library — they are only carried through the record codec, on the
/// wire in buffer order.
#[derive(Clone, Copy, Debug, Eq, Hash, PartialEq)]
pub struct Key(pub [u8; 16]);

impl Key {
    /// Wraps sixteen raw key bytes.
    pub fn new(bytes: [u8; 16]) -> (r: Key)
        ensures
            r.0 == bytes,
    {
        Key(bytes)
    }

    /// The raw key bytes.
    pub fn bytes(&self) -> (r: &[u8; 16])
        ensures
            r == self.0,
    {
        &self.0
    }

    /// The sixteen wire bytes of the key, in buffer order.
    pub open spec fn spec_to_le_bytes(self) -> Seq<u8> {
        self.0@
    }

    /// Emits the key as exactly sixteen bytes, in order.
    pub fn to_le_bytes(&self) -> (r: Vec<u8>)
        ensures
            r@ == self.spec_to_le_bytes(),
            r@.len() == 16,
    {
        slice_to_vec(self.0.as_slice())
    }

    /// The key whose wire bytes start at `off` in the buffer.
    pub fn from_le_bytes_at(bytes: &[u8], off: usize) -> (r: Key)
        requires
            off + 16 <= bytes@.len(),
        ensures
            r.0@ == bytes@.subrange(off as int, off as int + 16),
    {
        Key(crate::wire::get_bytes16(bytes, off))
    }
}

} // verus!
