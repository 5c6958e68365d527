//! The 64-bit extended unique identifier of a device.

use crate::wire::get_u64;
use vstd::bytes::{spec_u64_from_le_bytes, spec_u64_to_le_bytes, u64_to_le_bytes};
use vstd::prelude::*;

verus! {

/// An EUI-64 device address, held as the plain 64-bit value its eight wire
/// bytes spell in little-endian order.
///
/// The address is an opaque identifier to this library: nothing here
/// interprets it beyond carrying it through the record codec. Callers that
/// work with a richer address representation convert at the boundary.
#[derive(Clone, Copy, Debug, Eq, Hash, PartialEq, Ord, PartialOrd, Structural)]
pub struct Eui64(pub u64);

impl Eui64 {
    /// Wraps a raw 64-bit address value.
    pub fn new(value: u64) -> (r: Eui64)
        ensures
            r.0 == value,
    {
        Eui64(value)
    }

    /// The raw 64-bit address value.
    pub fn value(&self) -> (v: u64)
        ensures
            v == self.0,
    {
        self.0
    }

    /// The eight wire bytes of the address, least significant first.
    pub open spec fn spec_to_le_bytes(self) -> Seq<u8> {
        spec_u64_to_le_bytes(self.0)
    }

    /// Emits the address as exactly eight little-endian bytes.
    pub fn to_le_bytes(&self) -> (r: Vec<u8>)
        ensures
            r@ == self.spec_to_le_bytes(),
            r@.len() == 8,
    {
        u64_to_le_bytes(self.0)
    }

    /// The address whose wire bytes start at `off` in the buffer.
    pub fn from_le_bytes_at(bytes: &[u8], off: usize) -> (r: Eui64)
        requires
            off + 8 <= bytes@.len(),
        ensures
            r.0 == spec_u64_from_le_bytes(bytes@.subrange(off as int, off as int + 8)),
    {
        Eui64(get_u64(bytes, off))
    }

    /// The eight wire bytes pin the address down exactly.
    pub proof fn lemma_le_round_trip(self)
        ensures
            spec_u64_from_le_bytes(self.spec_to_le_bytes()) == self.0,
            self.spec_to_le_bytes().len() == 8,
    {
        vstd::bytes::lemma_auto_spec_u64_to_from_le_bytes();
    }
}

} // verus!
