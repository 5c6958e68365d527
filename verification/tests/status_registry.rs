//! Behavioural tests of the status and space registries.

use silizium::error::Error;
use silizium::status::{Alloc, Cli, Command, Eeprom, Flash, Io, Mac, Param, Security, State, Wifi};
use silizium::{Space, Status};

/// Every code of the full 16-bit low region plus the Wi-Fi region that
/// decodes must encode back to itself, and every code that fails must carry
/// itself in the error.
#[test]
fn decode_encode_round_trip_over_code_space() {
    let mut decoded: u32 = 0;
    for code in 0u32..0x1_0000 {
        match Status::decode(code) {
            Ok(status) => {
                assert_eq!(status.encode(), code);
                decoded += 1;
            }
            Err(err) => assert_eq!(err, Error::InvalidStatus(code)),
        }
    }
    // 2 flat + 23 state + 8 alloc + 13 param + 10 io + 2 eeprom + 4 flash
    // + 6 mac + 1 cli + 2 security + 3 command + 21 wifi
    assert_eq!(decoded, 95);
}

#[test]
fn decode_flat_values() {
    assert_eq!(Status::decode(0x0000), Ok(Status::Okay));
    assert_eq!(Status::decode(0x0001), Ok(Status::Fail));
}

#[test]
fn decode_dispatches_to_categories() {
    assert_eq!(Status::decode(0x0002), Ok(Status::State(State::Invalid)));
    assert_eq!(Status::decode(0x0018), Ok(Status::State(State::NoBeacons)));
    assert_eq!(
        Status::decode(0x0019),
        Ok(Status::Alloc(Alloc::AllocationFailed))
    );
    assert_eq!(Status::decode(0x0020), Ok(Status::Alloc(Alloc::IsOwner)));
    assert_eq!(
        Status::decode(0x0021),
        Ok(Status::Param(Param::InvalidParameter))
    );
    assert_eq!(
        Status::decode(0x002D),
        Ok(Status::Param(Param::AlreadyExists))
    );
    assert_eq!(Status::decode(0x002E), Ok(Status::Io(Io::GenericFailure)));
    assert_eq!(Status::decode(0x0037), Ok(Status::Io(Io::MessageTooLong)));
    assert_eq!(
        Status::decode(0x0038),
        Ok(Status::Eeprom(Eeprom::MfgVersionMismatch))
    );
    assert_eq!(
        Status::decode(0x003A),
        Ok(Status::Flash(Flash::WriteInhibited))
    );
    assert_eq!(Status::decode(0x003E), Ok(Status::Mac(Mac::NoData)));
    assert_eq!(
        Status::decode(0x0044),
        Ok(Status::Cli(Cli::StorageNvmOpenError))
    );
    assert_eq!(
        Status::decode(0x0045),
        Ok(Status::Security(Security::ImageChecksumError))
    );
    assert_eq!(
        Status::decode(0x0047),
        Ok(Status::Command(Command::IsInvalid))
    );
    assert_eq!(Status::decode(0x0B01), Ok(Status::Wifi(Wifi::InvalidKey)));
    assert_eq!(
        Status::decode(0x0B20),
        Ok(Status::Wifi(Wifi::TxLifetimeExceeded))
    );
}

/// Codes just past the last low-region range and just past the Wi-Fi range
/// are rejected with the offending value preserved.
#[test]
fn unknown_codes_are_rejected_with_value() {
    assert_eq!(Status::decode(0x004A), Err(Error::InvalidStatus(0x004A)));
    assert_eq!(Status::decode(0x0B21), Err(Error::InvalidStatus(0x0B21)));
}

/// The Wi-Fi range is sparse: the gaps inside `0x0B01..=0x0B20` are invalid.
#[test]
fn wifi_gaps_are_rejected() {
    for code in [0x0B06u32, 0x0B07, 0x0B0A, 0x0B0F, 0x0B15, 0x0B17] {
        assert_eq!(Status::decode(code), Err(Error::InvalidStatus(code)));
    }
    assert_eq!(Status::decode(0x0B16), Err(Error::InvalidStatus(0x0B16)));
}

#[test]
fn category_decoders_reject_foreign_codes() {
    assert_eq!(State::decode(0x0019), Err(Error::InvalidStatus(0x0019)));
    assert_eq!(Alloc::decode(0x0002), Err(Error::InvalidStatus(0x0002)));
    assert_eq!(Wifi::decode(0x0B06), Err(Error::InvalidStatus(0x0B06)));
    assert_eq!(Cli::decode(0x0045), Err(Error::InvalidStatus(0x0045)));
}

#[test]
fn category_encode_matches_table() {
    assert_eq!(State::Invalid.encode(), 0x0002);
    assert_eq!(Alloc::StatusEmpty.encode(), 0x001B);
    assert_eq!(Param::NotFound.encode(), 0x002C);
    assert_eq!(Io::Timeout.encode(), 0x002F);
    assert_eq!(Eeprom::StackVersionMismatch.encode(), 0x0039);
    assert_eq!(Flash::EraseFailed.encode(), 0x003D);
    assert_eq!(Mac::CommandTransmitFailure.encode(), 0x0043);
    assert_eq!(Cli::StorageNvmOpenError.encode(), 0x0044);
    assert_eq!(Security::DecryptError.encode(), 0x0046);
    assert_eq!(Command::Incomplete.encode(), 0x0049);
    assert_eq!(Wifi::FirmwareDownloadTimeout.encode(), 0x0B02);
}

/// Hex rendering is always `0x` plus eight digits, whatever the magnitude.
#[test]
fn status_hex_rendering() {
    assert_eq!(Status::Okay.hex_lower(), "0x00000000");
    assert_eq!(Status::Fail.hex_lower(), "0x00000001");
    assert_eq!(Status::Fail.hex_upper(), "0x00000001");
    assert_eq!(Status::Wifi(Wifi::NoMatchingAp).hex_lower(), "0x00000b1a");
    assert_eq!(Status::Wifi(Wifi::NoMatchingAp).hex_upper(), "0x00000B1A");
    assert_eq!(Status::Okay.hex_lower().len(), 10);
    assert_eq!(Status::Wifi(Wifi::TxLifetimeExceeded).hex_lower().len(), 10);
}

#[test]
fn space_round_trip() {
    for space in [Space::Generic, Space::Wifi, Space::Mask] {
        assert_eq!(Space::decode(space.encode()), Ok(space));
    }
}

#[test]
fn space_encode_values() {
    assert_eq!(Space::Generic.encode(), 0x0000);
    assert_eq!(Space::Wifi.encode(), 0x0B00);
    assert_eq!(Space::Mask.encode(), 0xFF00);
}

#[test]
fn space_rejects_unknown_values() {
    assert_eq!(Space::decode(0x0001), Err(Error::InvalidSpace(0x0001)));
    assert_eq!(Space::decode(0x0B01), Err(Error::InvalidSpace(0x0B01)));
    assert_eq!(Space::decode(0xFFFF), Err(Error::InvalidSpace(0xFFFF)));
}

#[test]
fn space_rendering() {
    assert_eq!(Space::Wifi.hex_lower(), "0x00000b00");
    assert_eq!(Space::Mask.hex_upper(), "0x0000FF00");
    assert_eq!(Space::Generic.name(), "SlSpaceGeneric");
    assert_eq!(Space::Wifi.name(), "SlSpaceWifi");
    assert_eq!(Space::Mask.name(), "SlSpaceMask");
}

#[test]
fn error_messages_carry_the_code() {
    assert_eq!(
        Error::InvalidStatus(0x004A).message(),
        "invalid status: 74"
    );
    assert_eq!(Error::InvalidSpace(0).message(), "invalid space: 0");
    assert_eq!(
        Error::InvalidStatus(u32::MAX).message(),
        "invalid status: 4294967295"
    );
}

/// Diagnostic names carry the `Sl` tag and the flat listing's spelling.
#[test]
fn status_names() {
    assert_eq!(Status::Okay.name(), "SlOk");
    assert_eq!(Status::Fail.name(), "SlFail");
    assert_eq!(Status::State(State::Invalid).name(), "SlInvalidState");
    assert_eq!(Status::State(State::Busy).name(), "SlBusy");
    assert_eq!(Status::Alloc(Alloc::IsOwner).name(), "SlIsOwner");
    assert_eq!(Status::Param(Param::NotFound).name(), "SlNotFound");
    assert_eq!(Status::Io(Io::GenericFailure).name(), "SlIo");
    assert_eq!(Status::Io(Io::Timeout).name(), "SlIoTimeout");
    assert_eq!(Status::Mac(Mac::NoData).name(), "SlMacNoData");
    assert_eq!(Status::Command(Command::Incomplete).name(), "SlCommandIncomplete");
    assert_eq!(
        Status::Wifi(Wifi::TxLifetimeExceeded).name(),
        "SlWifiTxLifetimeExceeded"
    );
    assert_eq!(State::NoBeacons.name(), "SlNoBeacons");
}
