//! The list of supported key types used by the Zigbee Security Manager.

use crate::render::{spec_hex_u8_lower, spec_hex_u8_upper, hex_u8_lower, hex_u8_upper};
use vstd::prelude::*;

verus! {

/// How a stored key is to be interpreted. A closed enumeration over one-byte
/// discriminants; any raw byte outside the defined set is rejected with the
/// offending value preserved.
#[derive(Clone, Copy, Debug, Eq, Hash, PartialEq, Ord, PartialOrd, Structural)]
pub enum KeyType {
    /// No key type.
    NoKey,
    /// The network key, used for encrypting and decrypting network payloads.
    /// There is only one of these keys in storage.
    Network,
    /// The Trust Center Link Key: on the joining device, the APS key used to
    /// communicate with the trust center; on the trust center, usable as a
    /// root key for APS encryption and decryption with joining devices.
    /// There is only one of these keys in storage.
    TcLink,
    /// A Trust Center Link Key that times out. Set on trust centers who wish
    /// to open joining with a temporary, transient APS key; joiners may set
    /// several before attempting to join. Indexed, bounded by available RAM.
    TcLinkWithTimeout,
    /// An Application link key, used by both sides in APS encryption and
    /// decryption when communicating with a joining device. An indexed key
    /// table, bounded by nonvolatile storage.
    AppLink,
    /// The ZLL encryption key for use by algorithms that require it.
    ZllEncryptionKey,
    /// For ZLL, the pre-configured link key used during classical
    /// commissioning.
    ZllPreconfiguredKey,
    /// A Green Power Device key used on a Proxy device.
    GreenPowerProxyTableKey,
    /// A Green Power Device key used on a Sink device.
    GreenPowerSinkTableKey,
    /// A generic key type intended to be loaded for one-time hashing or
    /// crypto operations; not persisted. Intended for use by the stack.
    Internal,
}

impl KeyType {
    /// The fixed one-byte discriminant of the variant.
    pub open spec fn spec_value(self) -> u8 {
        match self {
            KeyType::NoKey => 0x00,
            KeyType::Network => 0x01,
            KeyType::TcLink => 0x02,
            KeyType::TcLinkWithTimeout => 0x03,
            KeyType::AppLink => 0x04,
            KeyType::ZllEncryptionKey => 0x05,
            KeyType::ZllPreconfiguredKey => 0x06,
            KeyType::GreenPowerProxyTableKey => 0x07,
            KeyType::GreenPowerSinkTableKey => 0x08,
            KeyType::Internal => 0x09,
        }
    }

    /// The variant, if any, with the given discriminant.
    pub open spec fn spec_from_value(value: u8) -> Option<KeyType> {
        if value == 0x00 {
            Some(KeyType::NoKey)
        } else if value == 0x01 {
            Some(KeyType::Network)
        } else if value == 0x02 {
            Some(KeyType::TcLink)
        } else if value == 0x03 {
            Some(KeyType::TcLinkWithTimeout)
        } else if value == 0x04 {
            Some(KeyType::AppLink)
        } else if value == 0x05 {
            Some(KeyType::ZllEncryptionKey)
        } else if value == 0x06 {
            Some(KeyType::ZllPreconfiguredKey)
        } else if value == 0x07 {
            Some(KeyType::GreenPowerProxyTableKey)
        } else if value == 0x08 {
            Some(KeyType::GreenPowerSinkTableKey)
        } else if value == 0x09 {
            Some(KeyType::Internal)
        } else {
            None
        }
    }

    /// Returns the variant's one-byte discriminant; total, never fails.
    pub fn to_u8(self) -> (value: u8)
        ensures
            value == self.spec_value(),
    {
        match self {
            KeyType::NoKey => 0x00,
            KeyType::Network => 0x01,
            KeyType::TcLink => 0x02,
            KeyType::TcLinkWithTimeout => 0x03,
            KeyType::AppLink => 0x04,
            KeyType::ZllEncryptionKey => 0x05,
            KeyType::ZllPreconfiguredKey => 0x06,
            KeyType::GreenPowerProxyTableKey => 0x07,
            KeyType::GreenPowerSinkTableKey => 0x08,
            KeyType::Internal => 0x09,
        }
    }

    /// Looks a raw discriminant up in the defined set; any other value
    /// yields `None` rather than a guessed or clamped variant.
    pub fn from_u8(value: u8) -> (r: Option<KeyType>)
        ensures
            r == KeyType::spec_from_value(value),
    {
        match value {
            0x00 => Some(KeyType::NoKey),
            0x01 => Some(KeyType::Network),
            0x02 => Some(KeyType::TcLink),
            0x03 => Some(KeyType::TcLinkWithTimeout),
            0x04 => Some(KeyType::AppLink),
            0x05 => Some(KeyType::ZllEncryptionKey),
            0x06 => Some(KeyType::ZllPreconfiguredKey),
            0x07 => Some(KeyType::GreenPowerProxyTableKey),
            0x08 => Some(KeyType::GreenPowerSinkTableKey),
            0x09 => Some(KeyType::Internal),
            _ => None,
        }
    }

    /// Every defined key type decodes back from its own discriminant.
    pub proof fn lemma_value_round_trip(self)
        ensures
            KeyType::spec_from_value(self.spec_value()) == Some(self),
    {
    }

    /// A discriminant the registry accepts decodes to the variant that owns
    /// it.
    pub proof fn lemma_from_value_sound(value: u8)
        ensures
            KeyType::spec_from_value(value) matches Some(k) ==> k.spec_value() == value,
    {
    }

    /// The human-readable name of the variant, as the key-type listing
    /// spells it.
    pub open spec fn spec_name(self) -> Seq<char> {
        match self {
            KeyType::NoKey => "None"@,
            KeyType::Network => "Network"@,
            KeyType::TcLink => "TcLink"@,
            KeyType::TcLinkWithTimeout => "TcLinkWithTimeout"@,
            KeyType::AppLink => "AppLink"@,
            KeyType::ZllEncryptionKey => "ZllEncryptionKey"@,
            KeyType::ZllPreconfiguredKey => "ZllPreconfiguredKey"@,
            KeyType::GreenPowerProxyTableKey => "GreenPowerProxyTableKey"@,
            KeyType::GreenPowerSinkTableKey => "GreenPowerSinkTableKey"@,
            KeyType::Internal => "Internal"@,
        }
    }

    /// Returns the human-readable name of the variant.
    pub fn name(&self) -> (s: &'static str)
        ensures
            s@ == self.spec_name(),
    {
        match self {
            KeyType::NoKey => "None",
            KeyType::Network => "Network",
            KeyType::TcLink => "TcLink",
            KeyType::TcLinkWithTimeout => "TcLinkWithTimeout",
            KeyType::AppLink => "AppLink",
            KeyType::ZllEncryptionKey => "ZllEncryptionKey",
            KeyType::ZllPreconfiguredKey => "ZllPreconfiguredKey",
            KeyType::GreenPowerProxyTableKey => "GreenPowerProxyTableKey",
            KeyType::GreenPowerSinkTableKey => "GreenPowerSinkTableKey",
            KeyType::Internal => "Internal",
        }
    }

    /// Renders the discriminant as zero-padded, two-digit lower-case
    /// hexadecimal.
    pub fn hex_lower(&self) -> (s: String)
        ensures
            s@ == spec_hex_u8_lower(self.spec_value()),
            s@.len() == 4,
    {
        hex_u8_lower(self.to_u8())
    }

    /// Renders the discriminant as zero-padded, two-digit upper-case
    /// hexadecimal.
    pub fn hex_upper(&self) -> (s: String)
        ensures
            s@ == spec_hex_u8_upper(self.spec_value()),
            s@.len() == 4,
    {
        hex_u8_upper(self.to_u8())
    }
}

} // verus!
