//! Behavioural tests of the flag bitmask and the small key-type registries.

use silizium::zigbee::security::man::flags::{
    EUI_IS_VALID, KEY_INDEX_IS_VALID, NONE, UNCONFIRMED_TRANSIENT_KEY,
};
use silizium::zigbee::security::man::{DerivedKeyType, Flags, KeyType};
use silizium::zigbee::security::{ManFlags, ManKeyType};

/// Combining two flags yields the raw byte 0x03, and the combination
/// contains each part.
#[test]
fn flags_combination_and_membership() {
    let combined = Flags::from_bits(KEY_INDEX_IS_VALID | EUI_IS_VALID);
    assert_eq!(combined.bits(), 0x03);
    assert!(combined.contains(Flags::from_bits(KEY_INDEX_IS_VALID)));
    assert!(combined.contains(Flags::from_bits(EUI_IS_VALID)));
    assert!(!combined.contains(Flags::from_bits(UNCONFIRMED_TRANSIENT_KEY)));
    assert_eq!(
        Flags::from_bits(KEY_INDEX_IS_VALID).union(Flags::from_bits(EUI_IS_VALID)),
        combined
    );
}

#[test]
fn flags_none_is_empty() {
    let none = Flags::from_bits(NONE);
    assert_eq!(none.bits(), 0x00);
    let combined = none.union(Flags::from_bits(UNCONFIRMED_TRANSIENT_KEY));
    assert_eq!(combined.bits(), 0x04);
    // every flag set contains the empty set
    assert!(none.contains(none));
    assert!(combined.contains(none));
}

#[test]
fn key_type_round_trip() {
    let all = [
        KeyType::NoKey,
        KeyType::Network,
        KeyType::TcLink,
        KeyType::TcLinkWithTimeout,
        KeyType::AppLink,
        KeyType::ZllEncryptionKey,
        KeyType::ZllPreconfiguredKey,
        KeyType::GreenPowerProxyTableKey,
        KeyType::GreenPowerSinkTableKey,
        KeyType::Internal,
    ];
    for (i, kt) in all.iter().enumerate() {
        assert_eq!(kt.to_u8(), i as u8);
        assert_eq!(KeyType::from_u8(i as u8), Some(*kt));
    }
    assert_eq!(KeyType::from_u8(0x0A), None);
    assert_eq!(KeyType::from_u8(0xFF), None);
}

#[test]
fn key_type_hex() {
    assert_eq!(KeyType::Internal.hex_lower(), "0x09");
    assert_eq!(KeyType::NoKey.hex_upper(), "0x00");
    assert_eq!(KeyType::GreenPowerSinkTableKey.hex_lower(), "0x08");
}

#[test]
fn derived_key_type_round_trip() {
    let all = [
        (DerivedKeyType::NoDerivation, 0x0000u16),
        (DerivedKeyType::TransportKey, 0x0001),
        (DerivedKeyType::LoadKey, 0x0002),
        (DerivedKeyType::VerifyKey, 0x0004),
        (DerivedKeyType::TcSwapOutKey, 0x0008),
        (DerivedKeyType::TcHashedLinkKey, 0x0010),
    ];
    for (dkt, value) in all {
        assert_eq!(dkt.to_u16(), value);
        assert_eq!(DerivedKeyType::from_u16(value), Some(dkt));
    }
    // a combined mask is not a single named derivation
    assert_eq!(DerivedKeyType::from_u16(0x0003), None);
    assert_eq!(DerivedKeyType::from_u16(0x0020), None);
    assert_eq!(DerivedKeyType::from_u8(0x10), Some(DerivedKeyType::TcHashedLinkKey));
    assert_eq!(DerivedKeyType::from_u8(0x11), None);
}

#[test]
fn derived_key_type_hex() {
    assert_eq!(DerivedKeyType::TcHashedLinkKey.hex_lower(), "0x0010");
    assert_eq!(DerivedKeyType::VerifyKey.hex_upper(), "0x0004");
}

#[test]
fn man_flags_round_trip() {
    let all = [
        (ManFlags::NoFlags, 0x00u8),
        (ManFlags::KeyIndexIsValid, 0x01),
        (ManFlags::EuiIsValid, 0x02),
        (ManFlags::UnconfirmedTransientKey, 0x04),
    ];
    for (flag, value) in all {
        assert_eq!(flag.to_u8(), value);
        assert_eq!(ManFlags::from_u8(value), Some(flag));
    }
    assert_eq!(ManFlags::from_u8(0x03), None);
    assert_eq!(ManFlags::from_u8(0x08), None);
}

#[test]
fn man_key_type_round_trip() {
    for value in 0u8..10 {
        let kt = ManKeyType::from_u8(value).unwrap();
        assert_eq!(kt.to_u8(), value);
    }
    assert_eq!(ManKeyType::from_u8(10), None);
    assert_eq!(ManKeyType::from_u8(0x80), None);
}

#[test]
fn key_type_names() {
    assert_eq!(KeyType::NoKey.name(), "None");
    assert_eq!(KeyType::Network.name(), "Network");
    assert_eq!(KeyType::GreenPowerProxyTableKey.name(), "GreenPowerProxyTableKey");
}

#[test]
fn derived_key_type_names() {
    assert_eq!(DerivedKeyType::NoDerivation.name(), "None");
    assert_eq!(DerivedKeyType::LoadKey.name(), "LoadKey");
    assert_eq!(DerivedKeyType::TcHashedLinkKey.name(), "TcHashedLinkKey");
}

#[test]
fn flags_hex_rendering() {
    assert_eq!(Flags::from_bits(KEY_INDEX_IS_VALID | EUI_IS_VALID).hex_lower(), "0x03");
    assert_eq!(Flags::from_bits(0xAB).hex_lower(), "0xab");
    assert_eq!(Flags::from_bits(0xAB).hex_upper(), "0xAB");
    assert_eq!(Flags::from_bits(NONE).hex_lower(), "0x00");
}
