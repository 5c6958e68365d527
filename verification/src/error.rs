//! The error taxonomy shared by the status/space registries and the
//! security-record codec. Every fault is reported as a returned value that
//! preserves the offending raw input; nothing here panics.

use crate::render::{spec_dec_nat, dec_u32};
use vstd::prelude::*;

verus! {

/// A raw 32-bit code that matches no defined `Status` or `Space` value.
///
/// The offending code is carried along so diagnostic tooling can display it.
#[derive(Clone, Copy, Debug, Eq, PartialEq, Structural)]
pub enum Error {
    /// The code lies outside every range of the status table.
    InvalidStatus(u32),
    /// The code is none of the three defined space values.
    InvalidSpace(u32),
}

/// A fixed-width security record could not be read back from raw bytes.
///
/// Both variants are recoverable: an underrun signals a framing bug upstream,
/// a bad discriminant a corrupted or foreign byte.
#[derive(Clone, Copy, Debug, Eq, PartialEq, Structural)]
pub enum CodecError {
    /// The buffer is shorter than the record's fixed width.
    BufferTooShort,
    /// A one-byte field holds a value outside its defined set; the raw byte
    /// is carried along.
    InvalidDiscriminant(u8),
}

impl Error {
    /// The human-readable rendering of the error, offending code included.
    pub open spec fn spec_message(self) -> Seq<char> {
        match self {
            Error::InvalidStatus(code) => "invalid status: "@ + spec_dec_nat(code as nat),
            Error::InvalidSpace(code) => "invalid space: "@ + spec_dec_nat(code as nat),
        }
    }

    /// Renders the error for diagnostics, e.g. `invalid status: 74`.
    pub fn message(&self) -> (s: String)
        ensures
            s@ == self.spec_message(),
    {
        match self {
            Error::InvalidStatus(code) => {
                let mut s = String::from_str("invalid status: ");
                s.append(dec_u32(*code).as_str());
                s
            },
            Error::InvalidSpace(code) => {
                let mut s = String::from_str("invalid space: ");
                s.append(dec_u32(*code).as_str());
                s
            },
        }
    }
}

} // verus!
