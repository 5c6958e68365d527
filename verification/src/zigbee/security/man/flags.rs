//! Security Manager context flags.

use crate::render::{spec_hex_u8_lower, spec_hex_u8_upper, hex_u8_lower, hex_u8_upper};
use vstd::prelude::*;

verus! {

/// No flags are set.
pub const NONE: u8 = 0x00;

/// For export APIs, this flag indicates the key-index field of the context
/// is valid: the caller sets it when intending to search for a key by index.
/// It has no significance for import APIs.
pub const KEY_INDEX_IS_VALID: u8 = 0x01;

/// For export APIs, this flag indicates the EUI64 field of the context is
/// valid: the caller sets it when intending to search for a key by EUI64,
/// and it is also set when a search by index finds an entry. It has no
/// significance for import APIs.
pub const EUI_IS_VALID: u8 = 0x02;

/// Internal use only: the transient key being added is an unconfirmed,
/// updated key, awaiting a Verify Key Confirm message.
pub const UNCONFIRMED_TRANSIENT_KEY: u8 = 0x04;

/// Security Manager context flags, a true bitmask: several flags may be set
/// at once, combination is bitwise or, membership test is bitwise and.
///
/// The bitmask is its own wire encoding — the codec reads and writes the raw
/// underlying byte directly, with no separate mapping step.
#[derive(Clone, Copy, Debug, Eq, Hash, PartialEq, Ord, PartialOrd, Structural)]
pub struct Flags(pub u8);

impl Flags {
    /// Wraps a raw flag byte, every bit kept as given.
    pub fn from_bits(bits: u8) -> (f: Flags)
        ensures
            f.0 == bits,
    {
        Flags(bits)
    }

    /// The raw underlying byte.
    pub fn bits(&self) -> (bits: u8)
        ensures
            bits == self.0,
    {
        self.0
    }

    /// Whether every flag of `other` is also set in `self`.
    pub fn contains(&self, other: Flags) -> (r: bool)
        ensures
            r == (self.0 & other.0 == other.0),
    {
        self.0 & other.0 == other.0
    }

    /// The combination of the two flag sets: bitwise or.
    pub fn union(&self, other: Flags) -> (r: Flags)
        ensures
            r.0 == self.0 | other.0,
    {
        Flags(self.0 | other.0)
    }

    /// Renders the raw flag byte as zero-padded, two-digit lower-case
    /// hexadecimal.
    pub fn hex_lower(&self) -> (s: String)
        ensures
            s@ == spec_hex_u8_lower(self.0),
            s@.len() == 4,
    {
        hex_u8_lower(self.0)
    }

    /// Renders the raw flag byte as zero-padded, two-digit upper-case
    /// hexadecimal.
    pub fn hex_upper(&self) -> (s: String)
        ensures
            s@ == spec_hex_u8_upper(self.0),
            s@.len() == 4,
    {
        hex_u8_upper(self.0)
    }

    /// A combination contains each of its two parts.
    pub proof fn lemma_union_contains(self, other: Flags)
        ensures
            (self.0 | other.0) & self.0 == self.0,
            (self.0 | other.0) & other.0 == other.0,
    {
        let a = self.0;
        let b = other.0;
        assert((a | b) & a == a) by (bit_vector);
        assert((a | b) & b == b) by (bit_vector);
    }
}

} // verus!
