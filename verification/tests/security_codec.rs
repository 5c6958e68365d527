//! Behavioural tests of the security-manager record codec.

use core::time::Duration;
use silizium::error::CodecError;
use silizium::zigbee::security::man::flags::{EUI_IS_VALID, KEY_INDEX_IS_VALID};
use silizium::zigbee::security::man::{
    ApsKeyMetadata, Context, DerivedKeyType, Eui64, Flags, Key, KeyType, NetworkKeyInfo,
};
use silizium::zigbee::security::{ManApsKeyMetadata, ManContext, ManNetworkKeyInfo};

#[test]
fn network_key_info_encodes_little_endian() {
    let info = NetworkKeyInfo::new(true, false, 3, 7, 42);
    assert_eq!(
        info.to_le_bytes(),
        vec![0x01, 0x00, 0x03, 0x07, 0x2A, 0x00, 0x00, 0x00]
    );
}

#[test]
fn network_key_info_round_trip() {
    let info = NetworkKeyInfo::new(true, false, 3, 7, 42);
    assert_eq!(NetworkKeyInfo::from_le_bytes(&info.to_le_bytes()), Ok(info));
    let full = NetworkKeyInfo::new(true, true, 0xFF, 0x00, u32::MAX);
    assert_eq!(NetworkKeyInfo::from_le_bytes(&full.to_le_bytes()), Ok(full));
}

#[test]
fn network_key_info_underrun() {
    let info = NetworkKeyInfo::new(true, false, 3, 7, 42);
    let mut encoded = info.to_le_bytes();
    encoded.pop();
    assert_eq!(
        NetworkKeyInfo::from_le_bytes(&encoded),
        Err(CodecError::BufferTooShort)
    );
    assert_eq!(
        NetworkKeyInfo::from_le_bytes(&[]),
        Err(CodecError::BufferTooShort)
    );
}

#[test]
fn network_key_info_rejects_non_canonical_booleans() {
    assert_eq!(
        NetworkKeyInfo::from_le_bytes(&[0x02, 0x00, 0, 0, 0, 0, 0, 0]),
        Err(CodecError::InvalidDiscriminant(0x02))
    );
    // the first offending byte wins
    assert_eq!(
        NetworkKeyInfo::from_le_bytes(&[0x05, 0xFF, 0, 0, 0, 0, 0, 0]),
        Err(CodecError::InvalidDiscriminant(0x05))
    );
    assert_eq!(
        NetworkKeyInfo::from_le_bytes(&[0x01, 0xFF, 0, 0, 0, 0, 0, 0]),
        Err(CodecError::InvalidDiscriminant(0xFF))
    );
}

#[test]
fn network_key_info_ignores_trailing_bytes() {
    let info = NetworkKeyInfo::new(false, true, 1, 2, 0x0A0B0C0D);
    let mut encoded = info.to_le_bytes();
    encoded.push(0xEE);
    assert_eq!(NetworkKeyInfo::from_le_bytes(&encoded), Ok(info));
}

#[test]
fn network_key_info_accessors() {
    let info = NetworkKeyInfo::new(true, false, 3, 7, 42);
    assert!(info.network_key_set());
    assert!(!info.alternate_network_key_set());
    assert_eq!(info.network_key_sequence_number(), 3);
    assert_eq!(info.alt_network_key_sequence_number(), 7);
    assert_eq!(info.network_key_frame_counter(), 42);
}

#[test]
fn aps_key_metadata_encodes_little_endian() {
    let meta = ApsKeyMetadata::new(0x0102, 0x03040506, 0x0708090A, 0x0B0C);
    assert_eq!(
        meta.to_le_bytes(),
        vec![0x02, 0x01, 0x06, 0x05, 0x04, 0x03, 0x0A, 0x09, 0x08, 0x07, 0x0C, 0x0B]
    );
}

#[test]
fn aps_key_metadata_round_trip() {
    let meta = ApsKeyMetadata::new(0xFFFF, u32::MAX, 0, 1);
    assert_eq!(ApsKeyMetadata::from_le_bytes(&meta.to_le_bytes()), Ok(meta));
}

#[test]
fn aps_key_metadata_underrun() {
    let meta = ApsKeyMetadata::new(1, 2, 3, 4);
    let mut encoded = meta.to_le_bytes();
    encoded.pop();
    assert_eq!(
        ApsKeyMetadata::from_le_bytes(&encoded),
        Err(CodecError::BufferTooShort)
    );
}

#[test]
fn aps_key_metadata_ttl() {
    let meta = ApsKeyMetadata::new(0, 0, 0, 300);
    assert_eq!(meta.ttl_in_seconds(), 300);
    assert_eq!(meta.ttl(), Duration::from_secs(300));
}

#[test]
fn context_round_trip_with_combined_flags() {
    let flags = Flags::from_bits(KEY_INDEX_IS_VALID | EUI_IS_VALID);
    let context = Context::new(
        KeyType::Network,
        5,
        DerivedKeyType::TransportKey,
        Eui64::new(0x1122334455667788),
        2,
        flags,
        0xA1B2C3D4,
    );
    let encoded = context.to_le_bytes();
    assert_eq!(encoded.len(), 17);
    // the flag byte travels raw: both set bits land in one byte
    assert_eq!(encoded[12], 0x03);
    assert_eq!(Context::from_le_bytes(&encoded), Ok(context));
}

#[test]
fn context_wire_layout() {
    let context = Context::new(
        KeyType::TcLink,
        0x0A,
        DerivedKeyType::LoadKey,
        Eui64::new(0x0807060504030201),
        0x0B,
        Flags::from_bits(0x01),
        0x11223344,
    );
    assert_eq!(
        context.to_le_bytes(),
        vec![
            0x02, // key-type tag
            0x0A, // key index
            0x02, // derived-type tag
            0x01, 0x02, 0x03, 0x04, 0x05, 0x06, 0x07, 0x08, // EUI64, little-endian
            0x0B, // multi-network index
            0x01, // flags
            0x44, 0x33, 0x22, 0x11, // PSA permission, little-endian
        ]
    );
}

#[test]
fn context_underrun() {
    let context = Context::new(
        KeyType::NoKey,
        0,
        DerivedKeyType::NoDerivation,
        Eui64::new(0),
        0,
        Flags::from_bits(0),
        0,
    );
    let mut encoded = context.to_le_bytes();
    encoded.pop();
    assert_eq!(
        Context::from_le_bytes(&encoded),
        Err(CodecError::BufferTooShort)
    );
}

#[test]
fn context_accessors_decode_tags() {
    let context = Context::new(
        KeyType::AppLink,
        1,
        DerivedKeyType::VerifyKey,
        Eui64::new(9),
        0,
        Flags::from_bits(0),
        7,
    );
    assert_eq!(context.core_key_type(), Ok(KeyType::AppLink));
    assert_eq!(context.derived_type(), Ok(DerivedKeyType::VerifyKey));
    assert_eq!(context.key_index(), 1);
    assert_eq!(context.eui64(), Eui64::new(9));
    assert_eq!(context.multi_network_index(), 0);
    assert_eq!(context.flags(), Flags::from_bits(0));
    assert_eq!(context.psa_key_alg_permission(), 7);
}

#[test]
fn context_accessors_report_unknown_tags() {
    // decode a buffer whose tag bytes lie outside both defined sets
    let mut bytes = vec![0u8; 17];
    bytes[0] = 0x0A; // not a key type
    bytes[2] = 0x03; // not a single derivation (0x03 is a combined mask)
    let context = Context::from_le_bytes(&bytes).unwrap();
    assert_eq!(context.core_key_type(), Err(0x0A));
    assert_eq!(context.derived_type(), Err(0x03));
}

#[test]
fn key_round_trip() {
    let key = Key::new([
        0x00, 0x11, 0x22, 0x33, 0x44, 0x55, 0x66, 0x77, 0x88, 0x99, 0xAA, 0xBB, 0xCC, 0xDD, 0xEE,
        0xFF,
    ]);
    let encoded = key.to_le_bytes();
    assert_eq!(encoded.len(), 16);
    assert_eq!(Key::from_le_bytes_at(&encoded, 0), key);
    assert_eq!(key.bytes()[0], 0x00);
    assert_eq!(key.bytes()[15], 0xFF);
}

#[test]
fn eui64_little_endian() {
    let eui = Eui64::new(0x1122334455667788);
    assert_eq!(
        eui.to_le_bytes(),
        vec![0x88, 0x77, 0x66, 0x55, 0x44, 0x33, 0x22, 0x11]
    );
    assert_eq!(Eui64::from_le_bytes_at(&eui.to_le_bytes(), 0), eui);
    assert_eq!(eui.value(), 0x1122334455667788);
}

#[test]
fn man_context_round_trip() {
    let context = ManContext::new(
        [0xA5; 16],
        3,
        0x08,
        Eui64::new(0x0102030405060708),
        1,
        0x05,
        0xDEADBEEF,
    );
    let encoded = context.to_le_bytes();
    assert_eq!(encoded.len(), 32);
    assert_eq!(&encoded[0..16], &[0xA5; 16]);
    assert_eq!(encoded[16], 3);
    assert_eq!(encoded[17], 0x08);
    assert_eq!(
        &encoded[18..26],
        &[0x08, 0x07, 0x06, 0x05, 0x04, 0x03, 0x02, 0x01]
    );
    assert_eq!(encoded[26], 1);
    assert_eq!(encoded[27], 0x05);
    assert_eq!(&encoded[28..32], &[0xEF, 0xBE, 0xAD, 0xDE]);
    assert_eq!(ManContext::from_le_bytes(&encoded), Ok(context));
}

#[test]
fn man_context_underrun() {
    let context = ManContext::new([0; 16], 0, 0, Eui64::new(0), 0, 0, 0);
    let mut encoded = context.to_le_bytes();
    encoded.pop();
    assert_eq!(
        ManContext::from_le_bytes(&encoded),
        Err(CodecError::BufferTooShort)
    );
}

#[test]
fn man_context_accessors() {
    let context = ManContext::new([7u8; 16], 1, 2, Eui64::new(3), 4, 5, 6);
    assert_eq!(context.core_key_type(), &[7u8; 16]);
    assert_eq!(context.key_index(), 1);
    assert_eq!(context.derived_type(), 2);
    assert_eq!(context.eui64(), Eui64::new(3));
    assert_eq!(context.multi_network_index(), 4);
    assert_eq!(context.flags(), 5);
    assert_eq!(context.psa_key_alg_permission(), 6);
}

#[test]
fn man_network_key_info_round_trip() {
    let info = ManNetworkKeyInfo::new(false, true, 9, 8, 0x01020304);
    assert_eq!(
        info.to_le_bytes(),
        vec![0x00, 0x01, 0x09, 0x08, 0x04, 0x03, 0x02, 0x01]
    );
    assert_eq!(ManNetworkKeyInfo::from_le_bytes(&info.to_le_bytes()), Ok(info));
    assert_eq!(
        ManNetworkKeyInfo::from_le_bytes(&[0x00]),
        Err(CodecError::BufferTooShort)
    );
    assert_eq!(
        ManNetworkKeyInfo::from_le_bytes(&[0x00, 0x07, 0, 0, 0, 0, 0, 0]),
        Err(CodecError::InvalidDiscriminant(0x07))
    );
}

#[test]
fn man_aps_key_metadata_round_trip() {
    let meta: ManApsKeyMetadata<u16> = ManApsKeyMetadata::new(0xBEEF, 1, 2, 3);
    assert_eq!(meta.bitmask(), 0xBEEF);
    assert_eq!(meta.outgoing_frame_counter(), 1);
    assert_eq!(meta.incoming_frame_counter(), 2);
    assert_eq!(meta.ttl_in_seconds(), 3);
    assert_eq!(meta.ttl(), Duration::from_secs(3));
    let encoded = meta.to_le_bytes();
    assert_eq!(encoded.len(), 12);
    assert_eq!(ManApsKeyMetadata::from_le_bytes(&encoded), Ok(meta));
    assert_eq!(
        ManApsKeyMetadata::from_le_bytes(&encoded[..11]),
        Err(CodecError::BufferTooShort)
    );
}

/// A generic bitmask representation carries through untouched.
#[test]
fn man_aps_key_metadata_generic_bitmask() {
    let meta: ManApsKeyMetadata<[u8; 2]> = ManApsKeyMetadata::new([1, 2], 3, 4, 5);
    assert_eq!(meta.bitmask(), [1, 2]);
}
