//! Input/output failures.

use crate::error::Error;
use vstd::prelude::*;

verus! {

/// Input/output failures.
///
/// Each variant owns one fixed code inside the category's claimed range
/// `0x002E..=0x0037` of the status table.
#[derive(Clone, Copy, Debug, Eq, Hash, PartialEq, Ord, PartialOrd, Structural)]
pub enum Io {
    /// Generic I/O failure.
    GenericFailure,
    /// I/O failure due to timeout.
    Timeout,
    /// Generic transmission error.
    Transmit,
    /// Transmit underflow occurred.
    TransmitUnderflow,
    /// Transmit is incomplete.
    TransmitIncomplete,
    /// Transmit is busy.
    TransmitBusy,
    /// Generic reception error.
    Receive,
    /// Failed to read on/via given object.
    ObjectRead,
    /// Failed to write on/via given object.
    ObjectWrite,
    /// Message is too long.
    MessageTooLong,
}

impl Io {
    /// The fixed 32-bit code owned by the variant.
    pub open spec fn spec_code(self) -> u32 {
        match self {
            Io::GenericFailure => 0x002E,
            Io::Timeout => 0x002F,
            Io::Transmit => 0x0030,
            Io::TransmitUnderflow => 0x0031,
            Io::TransmitIncomplete => 0x0032,
            Io::TransmitBusy => 0x0033,
            Io::Receive => 0x0034,
            Io::ObjectRead => 0x0035,
            Io::ObjectWrite => 0x0036,
            Io::MessageTooLong => 0x0037,
        }
    }

    /// The variant, if any, that owns the given code.
    pub open spec fn spec_decode(code: u32) -> Option<Io> {
        if code == 0x002E {
            Some(Io::GenericFailure)
        } else if code == 0x002F {
            Some(Io::Timeout)
        } else if code == 0x0030 {
            Some(Io::Transmit)
        } else if code == 0x0031 {
            Some(Io::TransmitUnderflow)
        } else if code == 0x0032 {
            Some(Io::TransmitIncomplete)
        } else if code == 0x0033 {
            Some(Io::TransmitBusy)
        } else if code == 0x0034 {
            Some(Io::Receive)
        } else if code == 0x0035 {
            Some(Io::ObjectRead)
        } else if code == 0x0036 {
            Some(Io::ObjectWrite)
        } else if code == 0x0037 {
            Some(Io::MessageTooLong)
        } else {
            None
        }
    }

    /// Returns the variant's fixed numeric code; total, never fails.
    pub fn encode(self) -> (code: u32)
        ensures
            code == self.spec_code(),
    {
        match self {
            Io::GenericFailure => 0x002E,
            Io::Timeout => 0x002F,
            Io::Transmit => 0x0030,
            Io::TransmitUnderflow => 0x0031,
            Io::TransmitIncomplete => 0x0032,
            Io::TransmitBusy => 0x0033,
            Io::Receive => 0x0034,
            Io::ObjectRead => 0x0035,
            Io::ObjectWrite => 0x0036,
            Io::MessageTooLong => 0x0037,
        }
    }

    /// Looks the code up in this category; codes the category does not
    /// define are rejected with the offending value preserved.
    pub fn decode(code: u32) -> (r: Result<Io, Error>)
        ensures
            match r {
                Ok(s) => Io::spec_decode(code) == Some(s),
                Err(e) => Io::spec_decode(code) is None && e == Error::InvalidStatus(code),
            },
    {
        match code {
            0x002E => Ok(Io::GenericFailure),
            0x002F => Ok(Io::Timeout),
            0x0030 => Ok(Io::Transmit),
            0x0031 => Ok(Io::TransmitUnderflow),
            0x0032 => Ok(Io::TransmitIncomplete),
            0x0033 => Ok(Io::TransmitBusy),
            0x0034 => Ok(Io::Receive),
            0x0035 => Ok(Io::ObjectRead),
            0x0036 => Ok(Io::ObjectWrite),
            0x0037 => Ok(Io::MessageTooLong),
            _ => Err(Error::InvalidStatus(code)),
        }
    }

    /// Every defined variant decodes back from its own code.
    pub proof fn lemma_code_round_trip(self)
        ensures
            Io::spec_decode(self.spec_code()) == Some(self),
    {
    }

    /// Every code of this category lies inside its claimed range entry.
    pub proof fn lemma_code_in_range(self)
        ensures
            0x002E <= self.spec_code() <= 0x0037,
    {
    }

    /// A code this category accepts decodes to the variant that owns it.
    pub proof fn lemma_decode_sound(code: u32)
        ensures
            Io::spec_decode(code) matches Some(s) ==> s.spec_code() == code,
    {
    }
    /// The diagnostic name of the variant's status value, the `Sl` tag
    /// prefixed, as the flat status listing spells it.
    pub open spec fn spec_name(self) -> Seq<char> {
        match self {
            Io::GenericFailure => "SlIo"@,
            Io::Timeout => "SlIoTimeout"@,
            Io::Transmit => "SlTransmit"@,
            Io::TransmitUnderflow => "SlTransmitUnderflow"@,
            Io::TransmitIncomplete => "SlTransmitIncomplete"@,
            Io::TransmitBusy => "SlTransmitBusy"@,
            Io::Receive => "SlReceive"@,
            Io::ObjectRead => "SlObjectRead"@,
            Io::ObjectWrite => "SlObjectWrite"@,
            Io::MessageTooLong => "SlMessageTooLong"@,
        }
    }

    /// Returns the diagnostic name of the variant's status value.
    pub fn name(&self) -> (s: &'static str)
        ensures
            s@ == self.spec_name(),
    {
        match self {
            Io::GenericFailure => "SlIo",
            Io::Timeout => "SlIoTimeout",
            Io::Transmit => "SlTransmit",
            Io::TransmitUnderflow => "SlTransmitUnderflow",
            Io::TransmitIncomplete => "SlTransmitIncomplete",
            Io::TransmitBusy => "SlTransmitBusy",
            Io::Receive => "SlReceive",
            Io::ObjectRead => "SlObjectRead",
            Io::ObjectWrite => "SlObjectWrite",
            Io::MessageTooLong => "SlMessageTooLong",
        }
    }
}

} // verus!
