//! MAC layer errors.

use crate::error::Error;
use vstd::prelude::*;

verus! {

/// MAC layer errors.
///
/// Each variant owns one fixed code inside the category's claimed range
/// `0x003E..=0x0043` of the status table.
#[derive(Clone, Copy, Debug, Eq, Hash, PartialEq, Ord, PartialOrd, Structural)]
pub enum Mac {
    /// No data received.
    NoData,
    /// No ACK received.
    NoAckReceived,
    /// Indirect timeout.
    IndirectTimeout,
    /// Unknown header type.
    UnknownHeaderType,
    /// ACK header type.
    AckHeaderType,
    /// Command transmit failure.
    CommandTransmitFailure,
}

impl Mac {
    /// The fixed 32-bit code owned by the variant.
    pub open spec fn spec_code(self) -> u32 {
        match self {
            Mac::NoData => 0x003E,
            Mac::NoAckReceived => 0x003F,
            Mac::IndirectTimeout => 0x0040,
            Mac::UnknownHeaderType => 0x0041,
            Mac::AckHeaderType => 0x0042,
            Mac::CommandTransmitFailure => 0x0043,
        }
    }

    /// The variant, if any, that owns the given code.
    pub open spec fn spec_decode(code: u32) -> Option<Mac> {
        if code == 0x003E {
            Some(Mac::NoData)
        } else if code == 0x003F {
            Some(Mac::NoAckReceived)
        } else if code == 0x0040 {
            Some(Mac::IndirectTimeout)
        } else if code == 0x0041 {
            Some(Mac::UnknownHeaderType)
        } else if code == 0x0042 {
            Some(Mac::AckHeaderType)
        } else if code == 0x0043 {
            Some(Mac::CommandTransmitFailure)
        } else {
            None
        }
    }

    /// Returns the variant's fixed numeric code; total, never fails.
    pub fn encode(self) -> (code: u32)
        ensures
            code == self.spec_code(),
    {
        match self {
            Mac::NoData => 0x003E,
            Mac::NoAckReceived => 0x003F,
            Mac::IndirectTimeout => 0x0040,
            Mac::UnknownHeaderType => 0x0041,
            Mac::AckHeaderType => 0x0042,
            Mac::CommandTransmitFailure => 0x0043,
        }
    }

    /// Looks the code up in this category; codes the category does not
    /// define are rejected with the offending value preserved.
    pub fn decode(code: u32) -> (r: Result<Mac, Error>)
        ensures
            match r {
                Ok(s) => Mac::spec_decode(code) == Some(s),
                Err(e) => Mac::spec_decode(code) is None && e == Error::InvalidStatus(code),
            },
    {
        match code {
            0x003E => Ok(Mac::NoData),
            0x003F => Ok(Mac::NoAckReceived),
            0x0040 => Ok(Mac::IndirectTimeout),
            0x0041 => Ok(Mac::UnknownHeaderType),
            0x0042 => Ok(Mac::AckHeaderType),
            0x0043 => Ok(Mac::CommandTransmitFailure),
            _ => Err(Error::InvalidStatus(code)),
        }
    }

    /// Every defined variant decodes back from its own code.
    pub proof fn lemma_code_round_trip(self)
        ensures
            Mac::spec_decode(self.spec_code()) == Some(self),
    {
    }

    /// Every code of this category lies inside its claimed range entry.
    pub proof fn lemma_code_in_range(self)
        ensures
            0x003E <= self.spec_code() <= 0x0043,
    {
    }

    /// A code this category accepts decodes to the variant that owns it.
    pub proof fn lemma_decode_sound(code: u32)
        ensures
            Mac::spec_decode(code) matches Some(s) ==> s.spec_code() == code,
    {
    }
    /// The diagnostic name of the variant's status value, the `Sl` tag
    /// prefixed, as the flat status listing spells it.
    pub open spec fn spec_name(self) -> Seq<char> {
        match self {
            Mac::NoData => "SlMacNoData"@,
            Mac::NoAckReceived => "SlMacNoAckReceived"@,
            Mac::IndirectTimeout => "SlMacIndirectTimeout"@,
            Mac::UnknownHeaderType => "SlMacUnknownHeaderType"@,
            Mac::AckHeaderType => "SlMacAckHeaderType"@,
            Mac::CommandTransmitFailure => "SlCommandTransmitFailure"@,
        }
    }

    /// Returns the diagnostic name of the variant's status value.
    pub fn name(&self) -> (s: &'static str)
        ensures
            s@ == self.spec_name(),
    {
        match self {
            Mac::NoData => "SlMacNoData",
            Mac::NoAckReceived => "SlMacNoAckReceived",
            Mac::IndirectTimeout => "SlMacIndirectTimeout",
            Mac::UnknownHeaderType => "SlMacUnknownHeaderType",
            Mac::AckHeaderType => "SlMacAckHeaderType",
            Mac::CommandTransmitFailure => "SlCommandTransmitFailure",
        }
    }
}

} // verus!
