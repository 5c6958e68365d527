//! Flash subsystem errors.

use crate::error::Error;
use vstd::prelude::*;

verus! {

/// Flash subsystem errors.
///
/// Each variant owns one fixed code inside the category's claimed range
/// `0x003A..=0x003D` of the status table.
#[derive(Clone, Copy, Debug, Eq, Hash, PartialEq, Ord, PartialOrd, Structural)]
pub enum Flash {
    /// Flash write is inhibited.
    WriteInhibited,
    /// Flash verification failed.
    VerifyFailed,
    /// Flash programming failed.
    ProgramFailed,
    /// Flash erase failed.
    EraseFailed,
}

impl Flash {
    /// The fixed 32-bit code owned by the variant.
    pub open spec fn spec_code(self) -> u32 {
        match self {
            Flash::WriteInhibited => 0x003A,
            Flash::VerifyFailed => 0x003B,
            Flash::ProgramFailed => 0x003C,
            Flash::EraseFailed => 0x003D,
        }
    }

    /// The variant, if any, that owns the given code.
    pub open spec fn spec_decode(code: u32) -> Option<Flash> {
        if code == 0x003A {
            Some(Flash::WriteInhibited)
        } else if code == 0x003B {
            Some(Flash::VerifyFailed)
        } else if code == 0x003C {
            Some(Flash::ProgramFailed)
        } else if code == 0x003D {
            Some(Flash::EraseFailed)
        } else {
            None
        }
    }

    /// Returns the variant's fixed numeric code; total, never fails.
    pub fn encode(self) -> (code: u32)
        ensures
            code == self.spec_code(),
    {
        match self {
            Flash::WriteInhibited => 0x003A,
            Flash::VerifyFailed => 0x003B,
            Flash::ProgramFailed => 0x003C,
            Flash::EraseFailed => 0x003D,
        }
    }

    /// Looks the code up in this category; codes the category does not
    /// define are rejected with the offending value preserved.
    pub fn decode(code: u32) -> (r: Result<Flash, Error>)
        ensures
            match r {
                Ok(s) => Flash::spec_decode(code) == Some(s),
                Err(e) => Flash::spec_decode(code) is None && e == Error::InvalidStatus(code),
            },
    {
        match code {
            0x003A => Ok(Flash::WriteInhibited),
            0x003B => Ok(Flash::VerifyFailed),
            0x003C => Ok(Flash::ProgramFailed),
            0x003D => Ok(Flash::EraseFailed),
            _ => Err(Error::InvalidStatus(code)),
        }
    }

    /// Every defined variant decodes back from its own code.
    pub proof fn lemma_code_round_trip(self)
        ensures
            Flash::spec_decode(self.spec_code()) == Some(self),
    {
    }

    /// Every code of this category lies inside its claimed range entry.
    pub proof fn lemma_code_in_range(self)
        ensures
            0x003A <= self.spec_code() <= 0x003D,
    {
    }

    /// A code this category accepts decodes to the variant that owns it.
    pub proof fn lemma_decode_sound(code: u32)
        ensures
            Flash::spec_decode(code) matches Some(s) ==> s.spec_code() == code,
    {
    }
    /// The diagnostic name of the variant's status value, the `Sl` tag
    /// prefixed, as the flat status listing spells it.
    pub open spec fn spec_name(self) -> Seq<char> {
        match self {
            Flash::WriteInhibited => "SlWriteInhibited"@,
            Flash::VerifyFailed => "SlVerifyFailed"@,
            Flash::ProgramFailed => "SlProgramFailed"@,
            Flash::EraseFailed => "SlEraseFailed"@,
        }
    }

    /// Returns the diagnostic name of the variant's status value.
    pub fn name(&self) -> (s: &'static str)
        ensures
            s@ == self.spec_name(),
    {
        match self {
            Flash::WriteInhibited => "SlWriteInhibited",
            Flash::VerifyFailed => "SlVerifyFailed",
            Flash::ProgramFailed => "SlProgramFailed",
            Flash::EraseFailed => "SlEraseFailed",
        }
    }
}

} // verus!
