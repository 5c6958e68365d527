//! Invalid-parameter errors.

use crate::error::Error;
use vstd::prelude::*;

verus! {

/// Invalid-parameter errors.
///
/// Each variant owns one fixed code inside the category's claimed range
/// `0x0021..=0x002D` of the status table.
#[derive(Clone, Copy, Debug, Eq, Hash, PartialEq, Ord, PartialOrd, Structural)]
pub enum Param {
    /// Generic invalid argument or consequence of invalid argument.
    InvalidParameter,
    /// Invalid null pointer received as argument.
    NullPointer,
    /// Invalid configuration provided.
    InvalidConfiguration,
    /// Invalid mode.
    InvalidMode,
    /// Invalid handle.
    InvalidHandle,
    /// Invalid type for operation.
    InvalidType,
    /// Invalid index.
    InvalidIndex,
    /// Invalid range.
    InvalidRange,
    /// Invalid key.
    InvalidKey,
    /// Invalid credentials.
    InvalidCredentials,
    /// Invalid count.
    InvalidCount,
    /// Item could not be found.
    NotFound,
    /// Item already exists.
    AlreadyExists,
}

impl Param {
    /// The fixed 32-bit code owned by the variant.
    pub open spec fn spec_code(self) -> u32 {
        match self {
            Param::InvalidParameter => 0x0021,
            Param::NullPointer => 0x0022,
            Param::InvalidConfiguration => 0x0023,
            Param::InvalidMode => 0x0024,
            Param::InvalidHandle => 0x0025,
            Param::InvalidType => 0x0026,
            Param::InvalidIndex => 0x0027,
            Param::InvalidRange => 0x0028,
            Param::InvalidKey => 0x0029,
            Param::InvalidCredentials => 0x002A,
            Param::InvalidCount => 0x002B,
            Param::NotFound => 0x002C,
            Param::AlreadyExists => 0x002D,
        }
    }

    /// The variant, if any, that owns the given code.
    pub open spec fn spec_decode(code: u32) -> Option<Param> {
        if code == 0x0021 {
            Some(Param::InvalidParameter)
        } else if code == 0x0022 {
            Some(Param::NullPointer)
        } else if code == 0x0023 {
            Some(Param::InvalidConfiguration)
        } else if code == 0x0024 {
            Some(Param::InvalidMode)
        } else if code == 0x0025 {
            Some(Param::InvalidHandle)
        } else if code == 0x0026 {
            Some(Param::InvalidType)
        } else if code == 0x0027 {
            Some(Param::InvalidIndex)
        } else if code == 0x0028 {
            Some(Param::InvalidRange)
        } else if code == 0x0029 {
            Some(Param::InvalidKey)
        } else if code == 0x002A {
            Some(Param::InvalidCredentials)
        } else if code == 0x002B {
            Some(Param::InvalidCount)
        } else if code == 0x002C {
            Some(Param::NotFound)
        } else if code == 0x002D {
            Some(Param::AlreadyExists)
        } else {
            None
        }
    }

    /// Returns the variant's fixed numeric code; total, never fails.
    pub fn encode(self) -> (code: u32)
        ensures
            code == self.spec_code(),
    {
        match self {
            Param::InvalidParameter => 0x0021,
            Param::NullPointer => 0x0022,
            Param::InvalidConfiguration => 0x0023,
            Param::InvalidMode => 0x0024,
            Param::InvalidHandle => 0x0025,
            Param::InvalidType => 0x0026,
            Param::InvalidIndex => 0x0027,
            Param::InvalidRange => 0x0028,
            Param::InvalidKey => 0x0029,
            Param::InvalidCredentials => 0x002A,
            Param::InvalidCount => 0x002B,
            Param::NotFound => 0x002C,
            Param::AlreadyExists => 0x002D,
        }
    }

    /// Looks the code up in this category; codes the category does not
    /// define are rejected with the offending value preserved.
    pub fn decode(code: u32) -> (r: Result<Param, Error>)
        ensures
            match r {
                Ok(s) => Param::spec_decode(code) == Some(s),
                Err(e) => Param::spec_decode(code) is None && e == Error::InvalidStatus(code),
            },
    {
        match code {
            0x0021 => Ok(Param::InvalidParameter),
            0x0022 => Ok(Param::NullPointer),
            0x0023 => Ok(Param::InvalidConfiguration),
            0x0024 => Ok(Param::InvalidMode),
            0x0025 => Ok(Param::InvalidHandle),
            0x0026 => Ok(Param::InvalidType),
            0x0027 => Ok(Param::InvalidIndex),
            0x0028 => Ok(Param::InvalidRange),
            0x0029 => Ok(Param::InvalidKey),
            0x002A => Ok(Param::InvalidCredentials),
            0x002B => Ok(Param::InvalidCount),
            0x002C => Ok(Param::NotFound),
            0x002D => Ok(Param::AlreadyExists),
            _ => Err(Error::InvalidStatus(code)),
        }
    }

    /// Every defined variant decodes back from its own code.
    pub proof fn lemma_code_round_trip(self)
        ensures
            Param::spec_decode(self.spec_code()) == Some(self),
    {
    }

    /// Every code of this category lies inside its claimed range entry.
    pub proof fn lemma_code_in_range(self)
        ensures
            0x0021 <= self.spec_code() <= 0x002D,
    {
    }

    /// A code this category accepts decodes to the variant that owns it.
    pub proof fn lemma_decode_sound(code: u32)
        ensures
            Param::spec_decode(code) matches Some(s) ==> s.spec_code() == code,
    {
    }
    /// The diagnostic name of the variant's status value, the `Sl` tag
    /// prefixed, as the flat status listing spells it.
    pub open spec fn spec_name(self) -> Seq<char> {
        match self {
            Param::InvalidParameter => "SlInvalidParameter"@,
            Param::NullPointer => "SlNullPointer"@,
            Param::InvalidConfiguration => "SlInvalidConfiguration"@,
            Param::InvalidMode => "SlInvalidMode"@,
            Param::InvalidHandle => "SlInvalidHandle"@,
            Param::InvalidType => "SlInvalidType"@,
            Param::InvalidIndex => "SlInvalidIndex"@,
            Param::InvalidRange => "SlInvalidRange"@,
            Param::InvalidKey => "SlInvalidKey"@,
            Param::InvalidCredentials => "SlInvalidCredentials"@,
            Param::InvalidCount => "SlInvalidCount"@,
            Param::NotFound => "SlNotFound"@,
            Param::AlreadyExists => "SlAlreadyExists"@,
        }
    }

    /// Returns the diagnostic name of the variant's status value.
    pub fn name(&self) -> (s: &'static str)
        ensures
            s@ == self.spec_name(),
    {
        match self {
            Param::InvalidParameter => "SlInvalidParameter",
            Param::NullPointer => "SlNullPointer",
            Param::InvalidConfiguration => "SlInvalidConfiguration",
            Param::InvalidMode => "SlInvalidMode",
            Param::InvalidHandle => "SlInvalidHandle",
            Param::InvalidType => "SlInvalidType",
            Param::InvalidIndex => "SlInvalidIndex",
            Param::InvalidRange => "SlInvalidRange",
            Param::InvalidKey => "SlInvalidKey",
            Param::InvalidCredentials => "SlInvalidCredentials",
            Param::InvalidCount => "SlInvalidCount",
            Param::NotFound => "SlNotFound",
            Param::AlreadyExists => "SlAlreadyExists",
        }
    }
}

} // verus!
