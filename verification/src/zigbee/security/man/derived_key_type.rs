//! Derived keys calculated when performing Zigbee crypto operations.

use crate::render::{spec_hex_u16_lower, spec_hex_u16_upper, hex_u16_lower, hex_u16_upper};
use vstd::prelude::*;

verus! {

/// A key derivation the stack performs before using a key.
///
/// The discriminants are powers of two: firmware callers may or-combine two
/// derivations where applicable (the key-transport, key-load or verify-key
/// hashes on the TC Swap Out or TC Hashed Link keys). This registry decodes
/// only the single named values; combined masks live with the caller.
#[derive(Clone, Copy, Debug, Eq, Hash, PartialEq, Ord, PartialOrd, Structural)]
pub enum DerivedKeyType {
    /// Perform no derivation; use the key as is.
    NoDerivation,
    /// Perform the Key-Transport-Key hash.
    TransportKey,
    /// Perform the Key-Load-Key hash.
    LoadKey,
    /// Perform the Verify Key hash.
    VerifyKey,
    /// Perform a simple AES hash of the key for TC backup.
    TcSwapOutKey,
    /// For a TC using hashed link keys, hash the root key against the
    /// supplied EUI in context.
    TcHashedLinkKey,
}

impl DerivedKeyType {
    /// The fixed 16-bit discriminant of the variant, a power of two for
    /// every real derivation.
    pub open spec fn spec_value(self) -> u16 {
        match self {
            DerivedKeyType::NoDerivation => 0x0000,
            DerivedKeyType::TransportKey => 0x0001,
            DerivedKeyType::LoadKey => 0x0002,
            DerivedKeyType::VerifyKey => 0x0004,
            DerivedKeyType::TcSwapOutKey => 0x0008,
            DerivedKeyType::TcHashedLinkKey => 0x0010,
        }
    }

    /// The variant, if any, with the given discriminant.
    pub open spec fn spec_from_value(value: u16) -> Option<DerivedKeyType> {
        if value == 0x0000 {
            Some(DerivedKeyType::NoDerivation)
        } else if value == 0x0001 {
            Some(DerivedKeyType::TransportKey)
        } else if value == 0x0002 {
            Some(DerivedKeyType::LoadKey)
        } else if value == 0x0004 {
            Some(DerivedKeyType::VerifyKey)
        } else if value == 0x0008 {
            Some(DerivedKeyType::TcSwapOutKey)
        } else if value == 0x0010 {
            Some(DerivedKeyType::TcHashedLinkKey)
        } else {
            None
        }
    }

    /// Returns the variant's 16-bit discriminant; total, never fails.
    pub fn to_u16(self) -> (value: u16)
        ensures
            value == self.spec_value(),
    {
        match self {
            DerivedKeyType::NoDerivation => 0x0000,
            DerivedKeyType::TransportKey => 0x0001,
            DerivedKeyType::LoadKey => 0x0002,
            DerivedKeyType::VerifyKey => 0x0004,
            DerivedKeyType::TcSwapOutKey => 0x0008,
            DerivedKeyType::TcHashedLinkKey => 0x0010,
        }
    }

    /// Looks a raw 16-bit discriminant up in the defined set; any other
    /// value yields `None` rather than a guessed or clamped variant.
    pub fn from_u16(value: u16) -> (r: Option<DerivedKeyType>)
        ensures
            r == DerivedKeyType::spec_from_value(value),
    {
        match value {
            0x0000 => Some(DerivedKeyType::NoDerivation),
            0x0001 => Some(DerivedKeyType::TransportKey),
            0x0002 => Some(DerivedKeyType::LoadKey),
            0x0004 => Some(DerivedKeyType::VerifyKey),
            0x0008 => Some(DerivedKeyType::TcSwapOutKey),
            0x0010 => Some(DerivedKeyType::TcHashedLinkKey),
            _ => None,
        }
    }

    /// Looks a one-byte discriminant up, as record fields store it.
    pub fn from_u8(value: u8) -> (r: Option<DerivedKeyType>)
        ensures
            r == DerivedKeyType::spec_from_value(value as u16),
    {
        DerivedKeyType::from_u16(value as u16)
    }

    /// Every defined derivation decodes back from its own discriminant.
    pub proof fn lemma_value_round_trip(self)
        ensures
            DerivedKeyType::spec_from_value(self.spec_value()) == Some(self),
    {
    }

    /// A discriminant the registry accepts decodes to the variant that owns
    /// it.
    pub proof fn lemma_from_value_sound(value: u16)
        ensures
            DerivedKeyType::spec_from_value(value) matches Some(d) ==> d.spec_value() == value,
    {
    }

    /// The human-readable name of the variant, as the derivation listing
    /// spells it.
    pub open spec fn spec_name(self) -> Seq<char> {
        match self {
            DerivedKeyType::NoDerivation => "None"@,
            DerivedKeyType::TransportKey => "TransportKey"@,
            DerivedKeyType::LoadKey => "LoadKey"@,
            DerivedKeyType::VerifyKey => "VerifyKey"@,
            DerivedKeyType::TcSwapOutKey => "TcSwapOutKey"@,
            DerivedKeyType::TcHashedLinkKey => "TcHashedLinkKey"@,
        }
    }

    /// Returns the human-readable name of the variant.
    pub fn name(&self) -> (s: &'static str)
        ensures
            s@ == self.spec_name(),
    {
        match self {
            DerivedKeyType::NoDerivation => "None",
            DerivedKeyType::TransportKey => "TransportKey",
            DerivedKeyType::LoadKey => "LoadKey",
            DerivedKeyType::VerifyKey => "VerifyKey",
            DerivedKeyType::TcSwapOutKey => "TcSwapOutKey",
            DerivedKeyType::TcHashedLinkKey => "TcHashedLinkKey",
        }
    }

    /// Renders the discriminant as zero-padded, four-digit lower-case
    /// hexadecimal.
    pub fn hex_lower(&self) -> (s: String)
        ensures
            s@ == spec_hex_u16_lower(self.spec_value()),
            s@.len() == 6,
    {
        hex_u16_lower(self.to_u16())
    }

    /// Renders the discriminant as zero-padded, four-digit upper-case
    /// hexadecimal.
    pub fn hex_upper(&self) -> (s: String)
        ensures
            s@ == spec_hex_u16_upper(self.spec_value()),
            s@.len() == 6,
    {
        hex_u16_upper(self.to_u16())
    }
}

} // verus!
