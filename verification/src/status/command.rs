//! Command-processing errors.

use crate::error::Error;
use vstd::prelude::*;

verus! {

/// Command-processing errors.
///
/// Each variant owns one fixed code inside the category's claimed range
/// `0x0047..=0x0049` of the status table.
#[derive(Clone, Copy, Debug, Eq, Hash, PartialEq, Ord, PartialOrd, Structural)]
pub enum Command {
    /// Command was not recognized.
    IsInvalid,
    /// Command maximum length exceeded.
    TooLong,
    /// Data received does not form a complete command.
    Incomplete,
}

impl Command {
    /// The fixed 32-bit code owned by the variant.
    pub open spec fn spec_code(self) -> u32 {
        match self {
            Command::IsInvalid => 0x0047,
            Command::TooLong => 0x0048,
            Command::Incomplete => 0x0049,
        }
    }

    /// The variant, if any, that owns the given code.
    pub open spec fn spec_decode(code: u32) -> Option<Command> {
        if code == 0x0047 {
            Some(Command::IsInvalid)
        } else if code == 0x0048 {
            Some(Command::TooLong)
        } else if code == 0x0049 {
            Some(Command::Incomplete)
        } else {
            None
        }
    }

    /// Returns the variant's fixed numeric code; total, never fails.
    pub fn encode(self) -> (code: u32)
        ensures
            code == self.spec_code(),
    {
        match self {
            Command::IsInvalid => 0x0047,
            Command::TooLong => 0x0048,
            Command::Incomplete => 0x0049,
        }
    }

    /// Looks the code up in this category; codes the category does not
    /// define are rejected with the offending value preserved.
    pub fn decode(code: u32) -> (r: Result<Command, Error>)
        ensures
            match r {
                Ok(s) => Command::spec_decode(code) == Some(s),
                Err(e) => Command::spec_decode(code) is None && e == Error::InvalidStatus(code),
            },
    {
        match code {
            0x0047 => Ok(Command::IsInvalid),
            0x0048 => Ok(Command::TooLong),
            0x0049 => Ok(Command::Incomplete),
            _ => Err(Error::InvalidStatus(code)),
        }
    }

    /// Every defined variant decodes back from its own code.
    pub proof fn lemma_code_round_trip(self)
        ensures
            Command::spec_decode(self.spec_code()) == Some(self),
    {
    }

    /// Every code of this category lies inside its claimed range entry.
    pub proof fn lemma_code_in_range(self)
        ensures
            0x0047 <= self.spec_code() <= 0x0049,
    {
    }

    /// A code this category accepts decodes to the variant that owns it.
    pub proof fn lemma_decode_sound(code: u32)
        ensures
            Command::spec_decode(code) matches Some(s) ==> s.spec_code() == code,
    {
    }
    /// The diagnostic name of the variant's status value, the `Sl` tag
    /// prefixed, as the flat status listing spells it.
    pub open spec fn spec_name(self) -> Seq<char> {
        match self {
            Command::IsInvalid => "SlIsInvalid"@,
            Command::TooLong => "SlTooLong"@,
            Command::Incomplete => "SlCommandIncomplete"@,
        }
    }

    /// Returns the diagnostic name of the variant's status value.
    pub fn name(&self) -> (s: &'static str)
        ensures
            s@ == self.spec_name(),
    {
        match self {
            Command::IsInvalid => "SlIsInvalid",
            Command::TooLong => "SlTooLong",
            Command::Incomplete => "SlCommandIncomplete",
        }
    }
}

} // verus!
