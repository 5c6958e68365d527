//! Wi-Fi subsystem errors.

use crate::error::Error;
use vstd::prelude::*;

verus! {

/// Wi-Fi subsystem errors. The claimed range is sparse: several codes inside it belong to no variant and are rejected.
///
/// Each variant owns one fixed code inside the category's claimed range
/// `0x0B01..=0x0B20` of the status table.
#[derive(Clone, Copy, Debug, Eq, Hash, PartialEq, Ord, PartialOrd, Structural)]
pub enum Wifi {
    /// Invalid firmware key set.
    InvalidKey,
    /// The firmware download took too long.
    FirmwareDownloadTimeout,
    /// Unknown request ID or wrong interface ID used.
    UnsupportedMessageId,
    /// The request is successful but some parameters have been ignored.
    Warning,
    /// No packets waiting to be received.
    NoPacketToReceive,
    /// The sleep mode is granted.
    SleepGranted,
    /// The device does not go back to sleep.
    SleepNotGranted,
    /// The secure link MAC key was not found.
    SecureLinkMacKeyError,
    /// The secure link MAC key is already installed in OTP.
    SecureLinkMacKeyAlreadyBurned,
    /// The secure link MAC key cannot be installed in RAM.
    SecureLinkRamModeNotAllowed,
    /// The secure link MAC key installation failed.
    SecureLinkFailedUnknownMode,
    /// Secure link key (re)negotiation failed.
    SecureLinkExchangeFailed,
    /// The device is in an inappropriate state to perform the request.
    WrongState,
    /// The request failed due to regulatory limitations.
    ChannelNotAllowed,
    /// The connection request failed because no suitable AP was found.
    NoMatchingAp,
    /// The connection request was aborted by host.
    ConnectionAborted,
    /// The connection request failed because of a timeout.
    ConnectionTimeout,
    /// The connection request failed because the AP rejected the device.
    ConnectionRejectedByAp,
    /// The connection request failed because the WPA handshake did not complete successfully.
    ConnectionAuthFailure,
    /// The request failed because the retry limit was exceeded.
    RetryExceeded,
    /// The request failed because the MSDU lifetime was exceeded.
    TxLifetimeExceeded,
}

impl Wifi {
    /// The fixed 32-bit code owned by the variant.
    pub open spec fn spec_code(self) -> u32 {
        match self {
            Wifi::InvalidKey => 0x0B01,
            Wifi::FirmwareDownloadTimeout => 0x0B02,
            Wifi::UnsupportedMessageId => 0x0B03,
            Wifi::Warning => 0x0B04,
            Wifi::NoPacketToReceive => 0x0B05,
            Wifi::SleepGranted => 0x0B08,
            Wifi::SleepNotGranted => 0x0B09,
            Wifi::SecureLinkMacKeyError => 0x0B10,
            Wifi::SecureLinkMacKeyAlreadyBurned => 0x0B11,
            Wifi::SecureLinkRamModeNotAllowed => 0x0B12,
            Wifi::SecureLinkFailedUnknownMode => 0x0B13,
            Wifi::SecureLinkExchangeFailed => 0x0B14,
            Wifi::WrongState => 0x0B18,
            Wifi::ChannelNotAllowed => 0x0B19,
            Wifi::NoMatchingAp => 0x0B1A,
            Wifi::ConnectionAborted => 0x0B1B,
            Wifi::ConnectionTimeout => 0x0B1C,
            Wifi::ConnectionRejectedByAp => 0x0B1D,
            Wifi::ConnectionAuthFailure => 0x0B1E,
            Wifi::RetryExceeded => 0x0B1F,
            Wifi::TxLifetimeExceeded => 0x0B20,
        }
    }

    /// The variant, if any, that owns the given code.
    pub open spec fn spec_decode(code: u32) -> Option<Wifi> {
        if code == 0x0B01 {
            Some(Wifi::InvalidKey)
        } else if code == 0x0B02 {
            Some(Wifi::FirmwareDownloadTimeout)
        } else if code == 0x0B03 {
            Some(Wifi::UnsupportedMessageId)
        } else if code == 0x0B04 {
            Some(Wifi::Warning)
        } else if code == 0x0B05 {
            Some(Wifi::NoPacketToReceive)
        } else if code == 0x0B08 {
            Some(Wifi::SleepGranted)
        } else if code == 0x0B09 {
            Some(Wifi::SleepNotGranted)
        } else if code == 0x0B10 {
            Some(Wifi::SecureLinkMacKeyError)
        } else if code == 0x0B11 {
            Some(Wifi::SecureLinkMacKeyAlreadyBurned)
        } else if code == 0x0B12 {
            Some(Wifi::SecureLinkRamModeNotAllowed)
        } else if code == 0x0B13 {
            Some(Wifi::SecureLinkFailedUnknownMode)
        } else if code == 0x0B14 {
            Some(Wifi::SecureLinkExchangeFailed)
        } else if code == 0x0B18 {
            Some(Wifi::WrongState)
        } else if code == 0x0B19 {
            Some(Wifi::ChannelNotAllowed)
        } else if code == 0x0B1A {
            Some(Wifi::NoMatchingAp)
        } else if code == 0x0B1B {
            Some(Wifi::ConnectionAborted)
        } else if code == 0x0B1C {
            Some(Wifi::ConnectionTimeout)
        } else if code == 0x0B1D {
            Some(Wifi::ConnectionRejectedByAp)
        } else if code == 0x0B1E {
            Some(Wifi::ConnectionAuthFailure)
        } else if code == 0x0B1F {
            Some(Wifi::RetryExceeded)
        } else if code == 0x0B20 {
            Some(Wifi::TxLifetimeExceeded)
        } else {
            None
        }
    }

    /// Returns the variant's fixed numeric code; total, never fails.
    pub fn encode(self) -> (code: u32)
        ensures
            code == self.spec_code(),
    {
        match self {
            Wifi::InvalidKey => 0x0B01,
            Wifi::FirmwareDownloadTimeout => 0x0B02,
            Wifi::UnsupportedMessageId => 0x0B03,
            Wifi::Warning => 0x0B04,
            Wifi::NoPacketToReceive => 0x0B05,
            Wifi::SleepGranted => 0x0B08,
            Wifi::SleepNotGranted => 0x0B09,
            Wifi::SecureLinkMacKeyError => 0x0B10,
            Wifi::SecureLinkMacKeyAlreadyBurned => 0x0B11,
            Wifi::SecureLinkRamModeNotAllowed => 0x0B12,
            Wifi::SecureLinkFailedUnknownMode => 0x0B13,
            Wifi::SecureLinkExchangeFailed => 0x0B14,
            Wifi::WrongState => 0x0B18,
            Wifi::ChannelNotAllowed => 0x0B19,
            Wifi::NoMatchingAp => 0x0B1A,
            Wifi::ConnectionAborted => 0x0B1B,
            Wifi::ConnectionTimeout => 0x0B1C,
            Wifi::ConnectionRejectedByAp => 0x0B1D,
            Wifi::ConnectionAuthFailure => 0x0B1E,
            Wifi::RetryExceeded => 0x0B1F,
            Wifi::TxLifetimeExceeded => 0x0B20,
        }
    }

    /// Looks the code up in this category; codes the category does not
    /// define are rejected with the offending value preserved.
    pub fn decode(code: u32) -> (r: Result<Wifi, Error>)
        ensures
            match r {
                Ok(s) => Wifi::spec_decode(code) == Some(s),
                Err(e) => Wifi::spec_decode(code) is None && e == Error::InvalidStatus(code),
            },
    {
        match code {
            0x0B01 => Ok(Wifi::InvalidKey),
            0x0B02 => Ok(Wifi::FirmwareDownloadTimeout),
            0x0B03 => Ok(Wifi::UnsupportedMessageId),
            0x0B04 => Ok(Wifi::Warning),
            0x0B05 => Ok(Wifi::NoPacketToReceive),
            0x0B08 => Ok(Wifi::SleepGranted),
            0x0B09 => Ok(Wifi::SleepNotGranted),
            0x0B10 => Ok(Wifi::SecureLinkMacKeyError),
            0x0B11 => Ok(Wifi::SecureLinkMacKeyAlreadyBurned),
            0x0B12 => Ok(Wifi::SecureLinkRamModeNotAllowed),
            0x0B13 => Ok(Wifi::SecureLinkFailedUnknownMode),
            0x0B14 => Ok(Wifi::SecureLinkExchangeFailed),
            0x0B18 => Ok(Wifi::WrongState),
            0x0B19 => Ok(Wifi::ChannelNotAllowed),
            0x0B1A => Ok(Wifi::NoMatchingAp),
            0x0B1B => Ok(Wifi::ConnectionAborted),
            0x0B1C => Ok(Wifi::ConnectionTimeout),
            0x0B1D => Ok(Wifi::ConnectionRejectedByAp),
            0x0B1E => Ok(Wifi::ConnectionAuthFailure),
            0x0B1F => Ok(Wifi::RetryExceeded),
            0x0B20 => Ok(Wifi::TxLifetimeExceeded),
            _ => Err(Error::InvalidStatus(code)),
        }
    }

    /// Every defined variant decodes back from its own code.
    pub proof fn lemma_code_round_trip(self)
        ensures
            Wifi::spec_decode(self.spec_code()) == Some(self),
    {
    }

    /// Every code of this category lies inside its claimed range entry.
    pub proof fn lemma_code_in_range(self)
        ensures
            0x0B01 <= self.spec_code() <= 0x0B20,
    {
    }

    /// A code this category accepts decodes to the variant that owns it.
    pub proof fn lemma_decode_sound(code: u32)
        ensures
            Wifi::spec_decode(code) matches Some(s) ==> s.spec_code() == code,
    {
    }
    /// The diagnostic name of the variant's status value, the `Sl` tag
    /// prefixed, as the flat status listing spells it.
    pub open spec fn spec_name(self) -> Seq<char> {
        match self {
            Wifi::InvalidKey => "SlWifiInvalidKey"@,
            Wifi::FirmwareDownloadTimeout => "SlWifiFirmwareDownloadTimeout"@,
            Wifi::UnsupportedMessageId => "SlWifiUnsupportedMessageId"@,
            Wifi::Warning => "SlWifiWarning"@,
            Wifi::NoPacketToReceive => "SlWifiNoPacketToReceive"@,
            Wifi::SleepGranted => "SlWifiSleepGranted"@,
            Wifi::SleepNotGranted => "SlWifiSleepNotGranted"@,
            Wifi::SecureLinkMacKeyError => "SlWifiSecureLinkMacKeyError"@,
            Wifi::SecureLinkMacKeyAlreadyBurned => "SlWifiSecureLinkMacKeyAlreadyBurned"@,
            Wifi::SecureLinkRamModeNotAllowed => "SlWifiSecureLinkRamModeNotAllowed"@,
            Wifi::SecureLinkFailedUnknownMode => "SlWifiSecureLinkFailedUnknownMode"@,
            Wifi::SecureLinkExchangeFailed => "SlWifiSecureLinkExchangeFailed"@,
            Wifi::WrongState => "SlWifiWrongState"@,
            Wifi::ChannelNotAllowed => "SlWifiChannelNotAllowed"@,
            Wifi::NoMatchingAp => "SlWifiNoMatchingAp"@,
            Wifi::ConnectionAborted => "SlWifiConnectionAborted"@,
            Wifi::ConnectionTimeout => "SlWifiConnectionTimeout"@,
            Wifi::ConnectionRejectedByAp => "SlWifiConnectionRejectedByAp"@,
            Wifi::ConnectionAuthFailure => "SlWifiConnectionAuthFailure"@,
            Wifi::RetryExceeded => "SlWifiRetryExceeded"@,
            Wifi::TxLifetimeExceeded => "SlWifiTxLifetimeExceeded"@,
        }
    }

    /// Returns the diagnostic name of the variant's status value.
    pub fn name(&self) -> (s: &'static str)
        ensures
            s@ == self.spec_name(),
    {
        match self {
            Wifi::InvalidKey => "SlWifiInvalidKey",
            Wifi::FirmwareDownloadTimeout => "SlWifiFirmwareDownloadTimeout",
            Wifi::UnsupportedMessageId => "SlWifiUnsupportedMessageId",
            Wifi::Warning => "SlWifiWarning",
            Wifi::NoPacketToReceive => "SlWifiNoPacketToReceive",
            Wifi::SleepGranted => "SlWifiSleepGranted",
            Wifi::SleepNotGranted => "SlWifiSleepNotGranted",
            Wifi::SecureLinkMacKeyError => "SlWifiSecureLinkMacKeyError",
            Wifi::SecureLinkMacKeyAlreadyBurned => "SlWifiSecureLinkMacKeyAlreadyBurned",
            Wifi::SecureLinkRamModeNotAllowed => "SlWifiSecureLinkRamModeNotAllowed",
            Wifi::SecureLinkFailedUnknownMode => "SlWifiSecureLinkFailedUnknownMode",
            Wifi::SecureLinkExchangeFailed => "SlWifiSecureLinkExchangeFailed",
            Wifi::WrongState => "SlWifiWrongState",
            Wifi::ChannelNotAllowed => "SlWifiChannelNotAllowed",
            Wifi::NoMatchingAp => "SlWifiNoMatchingAp",
            Wifi::ConnectionAborted => "SlWifiConnectionAborted",
            Wifi::ConnectionTimeout => "SlWifiConnectionTimeout",
            Wifi::ConnectionRejectedByAp => "SlWifiConnectionRejectedByAp",
            Wifi::ConnectionAuthFailure => "SlWifiConnectionAuthFailure",
            Wifi::RetryExceeded => "SlWifiRetryExceeded",
            Wifi::TxLifetimeExceeded => "SlWifiTxLifetimeExceeded",
        }
    }
}

} // verus!
