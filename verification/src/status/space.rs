//! The coarse namespace carried in the high bits of certain codes.

use crate::error::Error;
use crate::render::{spec_hex_u32_lower, spec_hex_u32_upper, hex_u32_lower, hex_u32_upper};
use vstd::prelude::*;

verus! {

/// Space codes common across all platforms.
///
/// A space classifies which subsystem namespace a raw code's upper byte
/// selects. It labels a different protocol-header field than [`Status`] does,
/// so the two registries stay separate even though they share the same
/// encode/decode/error contract.
///
/// [`Status`]: crate::Status
#[derive(Clone, Copy, Debug, Eq, Hash, PartialEq, Ord, PartialOrd, Structural)]
pub enum Space {
    /// Generic space.
    Generic,
    /// Wi-Fi space.
    Wifi,
    /// Mask space.
    Mask,
}

impl Space {
    /// The fixed 32-bit value owned by the variant.
    pub open spec fn spec_code(self) -> u32 {
        match self {
            Space::Generic => 0x0000,
            Space::Wifi => 0x0B00,
            Space::Mask => 0xFF00,
        }
    }

    /// The variant, if any, that owns the given value.
    pub open spec fn spec_decode(code: u32) -> Option<Space> {
        if code == 0x0000 {
            Some(Space::Generic)
        } else if code == 0x0B00 {
            Some(Space::Wifi)
        } else if code == 0xFF00 {
            Some(Space::Mask)
        } else {
            None
        }
    }

    /// Returns the space's fixed numeric value; total, never fails.
    pub fn encode(self) -> (code: u32)
        ensures
            code == self.spec_code(),
    {
        match self {
            Space::Generic => 0x0000,
            Space::Wifi => 0x0B00,
            Space::Mask => 0xFF00,
        }
    }

    /// Classifies a raw value as one of the three defined spaces; any other
    /// value is rejected with the offending value preserved.
    pub fn decode(code: u32) -> (r: Result<Space, Error>)
        ensures
            match r {
                Ok(sp) => Space::spec_decode(code) == Some(sp),
                Err(e) => Space::spec_decode(code) is None && e == Error::InvalidSpace(code),
            },
    {
        match code {
            0x0000 => Ok(Space::Generic),
            0x0B00 => Ok(Space::Wifi),
            0xFF00 => Ok(Space::Mask),
            _ => Err(Error::InvalidSpace(code)),
        }
    }

    /// Every defined space decodes back from its own value.
    pub proof fn lemma_code_round_trip(self)
        ensures
            Space::spec_decode(self.spec_code()) == Some(self),
    {
    }

    /// A value the registry accepts decodes to the space that owns it.
    pub proof fn lemma_decode_sound(code: u32)
        ensures
            Space::spec_decode(code) matches Some(sp) ==> sp.spec_code() == code,
    {
    }

    /// No two spaces own the same value.
    pub proof fn lemma_code_injective(self, other: Space)
        ensures
            self.spec_code() == other.spec_code() ==> self == other,
    {
    }

    /// Renders the space's value as zero-padded, eight-digit lower-case
    /// hexadecimal.
    pub fn hex_lower(&self) -> (s: String)
        ensures
            s@ == spec_hex_u32_lower(self.spec_code()),
            s@.len() == 10,
    {
        hex_u32_lower(self.encode())
    }

    /// Renders the space's value as zero-padded, eight-digit upper-case
    /// hexadecimal.
    pub fn hex_upper(&self) -> (s: String)
        ensures
            s@ == spec_hex_u32_upper(self.spec_code()),
            s@.len() == 10,
    {
        hex_u32_upper(self.encode())
    }

    /// The human-readable name, the space tag prefixed: e.g. `SlSpaceGeneric`.
    pub fn name(&self) -> (s: &'static str)
        ensures
            s@ == self.spec_name(),
    {
        proof {
            reveal_strlit("SlSpaceGeneric");
            reveal_strlit("SlSpaceWifi");
            reveal_strlit("SlSpaceMask");
        }
        match self {
            Space::Generic => "SlSpaceGeneric",
            Space::Wifi => "SlSpaceWifi",
            Space::Mask => "SlSpaceMask",
        }
    }

    /// The human-readable name of the variant.
    pub open spec fn spec_name(self) -> Seq<char> {
        match self {
            Space::Generic => "SlSpaceGeneric"@,
            Space::Wifi => "SlSpaceWifi"@,
            Space::Mask => "SlSpaceMask"@,
        }
    }
}

} // verus!
