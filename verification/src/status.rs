//! Status codes common across all platforms, and the range dispatch that maps
//! the flat 32-bit code space onto the category taxonomy.

pub use allocation::Alloc;
pub use cli::Cli;
pub use command::Command;
pub use eeprom::Eeprom;
pub use flash::Flash;
pub use io::Io;
pub use mac::Mac;
pub use param::Param;
pub use security::Security;
pub use space::Space;
pub use state::State;
pub use wifi::Wifi;

pub mod allocation;
pub mod cli;
pub mod command;
pub mod eeprom;
pub mod flash;
pub mod io;
pub mod mac;
pub mod param;
pub mod security;
pub mod space;
pub mod state;
pub mod wifi;

use crate::error::Error;
use crate::render::{spec_hex_u32_lower, spec_hex_u32_upper, hex_u32_lower, hex_u32_upper};
use vstd::prelude::*;

verus! {

/// A status code reported by firmware: two flat outcomes plus one variant per
/// sub-category, each sub-category a closed enumeration of named codes.
///
/// Every constructible value owns exactly one 32-bit code, so
/// [`encode`](Status::encode) is total and [`decode`](Status::decode) is its
/// partial inverse: it rejects codes outside every claimed range as well as
/// the sparse gaps inside the Wi-Fi range.
#[derive(Clone, Copy, Debug, Eq, Hash, PartialEq, Ord, PartialOrd, Structural)]
pub enum Status {
    /// No error.
    Okay,
    /// Generic error.
    Fail,
    /// Invalid-state errors, `0x0002..=0x0018`.
    State(State),
    /// Allocation errors, `0x0019..=0x0020`.
    Alloc(Alloc),
    /// Invalid-parameter errors, `0x0021..=0x002D`.
    Param(Param),
    /// I/O errors, `0x002E..=0x0037`.
    Io(Io),
    /// EEPROM errors, `0x0038..=0x0039`.
    Eeprom(Eeprom),
    /// Flash errors, `0x003A..=0x003D`.
    Flash(Flash),
    /// MAC errors, `0x003E..=0x0043`.
    Mac(Mac),
    /// CLI errors, `0x0044`.
    Cli(Cli),
    /// Security errors, `0x0045..=0x0046`.
    Security(Security),
    /// Command errors, `0x0047..=0x0049`.
    Command(Command),
    /// Wi-Fi errors, `0x0B01..=0x0B20` (sparse).
    Wifi(Wifi),
}

impl Status {
    /// The fixed 32-bit code owned by the status value.
    pub open spec fn spec_code(self) -> u32 {
        match self {
            Status::Okay => 0x0000,
            Status::Fail => 0x0001,
            Status::State(s) => s.spec_code(),
            Status::Alloc(s) => s.spec_code(),
            Status::Param(s) => s.spec_code(),
            Status::Io(s) => s.spec_code(),
            Status::Eeprom(s) => s.spec_code(),
            Status::Flash(s) => s.spec_code(),
            Status::Mac(s) => s.spec_code(),
            Status::Cli(s) => s.spec_code(),
            Status::Security(s) => s.spec_code(),
            Status::Command(s) => s.spec_code(),
            Status::Wifi(s) => s.spec_code(),
        }
    }

    /// The status value, if any, that owns the given code: the ordered range
    /// table, one entry per category, consulted first match wins.
    pub open spec fn spec_decode(code: u32) -> Option<Status> {
        if code == 0x0000 {
            Some(Status::Okay)
        } else if code == 0x0001 {
            Some(Status::Fail)
        } else if 0x0002 <= code && code <= 0x0018 {
            match State::spec_decode(code) {
                Some(s) => Some(Status::State(s)),
                None => None,
            }
        } else if 0x0019 <= code && code <= 0x0020 {
            match Alloc::spec_decode(code) {
                Some(s) => Some(Status::Alloc(s)),
                None => None,
            }
        } else if 0x0021 <= code && code <= 0x002D {
            match Param::spec_decode(code) {
                Some(s) => Some(Status::Param(s)),
                None => None,
            }
        } else if 0x002E <= code && code <= 0x0037 {
            match Io::spec_decode(code) {
                Some(s) => Some(Status::Io(s)),
                None => None,
            }
        } else if 0x0038 <= code && code <= 0x0039 {
            match Eeprom::spec_decode(code) {
                Some(s) => Some(Status::Eeprom(s)),
                None => None,
            }
        } else if 0x003A <= code && code <= 0x003D {
            match Flash::spec_decode(code) {
                Some(s) => Some(Status::Flash(s)),
                None => None,
            }
        } else if 0x003E <= code && code <= 0x0043 {
            match Mac::spec_decode(code) {
                Some(s) => Some(Status::Mac(s)),
                None => None,
            }
        } else if code == 0x0044 {
            match Cli::spec_decode(code) {
                Some(s) => Some(Status::Cli(s)),
                None => None,
            }
        } else if 0x0045 <= code && code <= 0x0046 {
            match Security::spec_decode(code) {
                Some(s) => Some(Status::Security(s)),
                None => None,
            }
        } else if 0x0047 <= code && code <= 0x0049 {
            match Command::spec_decode(code) {
                Some(s) => Some(Status::Command(s)),
                None => None,
            }
        } else if 0x0B01 <= code && code <= 0x0B20 {
            match Wifi::spec_decode(code) {
                Some(s) => Some(Status::Wifi(s)),
                None => None,
            }
        } else {
            None
        }
    }

    /// Returns the status value's fixed numeric code; total, never fails.
    pub fn encode(self) -> (code: u32)
        ensures
            code == self.spec_code(),
    {
        match self {
            Status::Okay => 0x0000,
            Status::Fail => 0x0001,
            Status::State(s) => s.encode(),
            Status::Alloc(s) => s.encode(),
            Status::Param(s) => s.encode(),
            Status::Io(s) => s.encode(),
            Status::Eeprom(s) => s.encode(),
            Status::Flash(s) => s.encode(),
            Status::Mac(s) => s.encode(),
            Status::Cli(s) => s.encode(),
            Status::Security(s) => s.encode(),
            Status::Command(s) => s.encode(),
            Status::Wifi(s) => s.encode(),
        }
    }

    /// Dispatches a raw code through the range table and delegates to the
    /// matching category's own decoder. A code outside every claimed range,
    /// or inside a range but rejected by its category (the sparse Wi-Fi
    /// gaps), is reported back unchanged as invalid.
    pub fn decode(code: u32) -> (r: Result<Status, Error>)
        ensures
            match r {
                Ok(s) => Status::spec_decode(code) == Some(s),
                Err(e) => Status::spec_decode(code) is None && e == Error::InvalidStatus(code),
            },
    {
        if code == 0x0000 {
            Ok(Status::Okay)
        } else if code == 0x0001 {
            Ok(Status::Fail)
        } else if 0x0002 <= code && code <= 0x0018 {
            match State::decode(code) {
                Ok(s) => Ok(Status::State(s)),
                Err(e) => Err(e),
            }
        } else if 0x0019 <= code && code <= 0x0020 {
            match Alloc::decode(code) {
                Ok(s) => Ok(Status::Alloc(s)),
                Err(e) => Err(e),
            }
        } else if 0x0021 <= code && code <= 0x002D {
            match Param::decode(code) {
                Ok(s) => Ok(Status::Param(s)),
                Err(e) => Err(e),
            }
        } else if 0x002E <= code && code <= 0x0037 {
            match Io::decode(code) {
                Ok(s) => Ok(Status::Io(s)),
                Err(e) => Err(e),
            }
        } else if 0x0038 <= code && code <= 0x0039 {
            match Eeprom::decode(code) {
                Ok(s) => Ok(Status::Eeprom(s)),
                Err(e) => Err(e),
            }
        } else if 0x003A <= code && code <= 0x003D {
            match Flash::decode(code) {
                Ok(s) => Ok(Status::Flash(s)),
                Err(e) => Err(e),
            }
        } else if 0x003E <= code && code <= 0x0043 {
            match Mac::decode(code) {
                Ok(s) => Ok(Status::Mac(s)),
                Err(e) => Err(e),
            }
        } else if code == 0x0044 {
            match Cli::decode(code) {
                Ok(s) => Ok(Status::Cli(s)),
                Err(e) => Err(e),
            }
        } else if 0x0045 <= code && code <= 0x0046 {
            match Security::decode(code) {
                Ok(s) => Ok(Status::Security(s)),
                Err(e) => Err(e),
            }
        } else if 0x0047 <= code && code <= 0x0049 {
            match Command::decode(code) {
                Ok(s) => Ok(Status::Command(s)),
                Err(e) => Err(e),
            }
        } else if 0x0B01 <= code && code <= 0x0B20 {
            match Wifi::decode(code) {
                Ok(s) => Ok(Status::Wifi(s)),
                Err(e) => Err(e),
            }
        } else {
            Err(Error::InvalidStatus(code))
        }
    }

    /// Round trip: every defined status value decodes back from its own code.
    pub proof fn lemma_code_round_trip(self)
        ensures
            Status::spec_decode(self.spec_code()) == Some(self),
    {
        match self {
            Status::Okay => {},
            Status::Fail => {},
            Status::State(s) => {
                s.lemma_code_in_range();
                s.lemma_code_round_trip();
            },
            Status::Alloc(s) => {
                s.lemma_code_in_range();
                s.lemma_code_round_trip();
            },
            Status::Param(s) => {
                s.lemma_code_in_range();
                s.lemma_code_round_trip();
            },
            Status::Io(s) => {
                s.lemma_code_in_range();
                s.lemma_code_round_trip();
            },
            Status::Eeprom(s) => {
                s.lemma_code_in_range();
                s.lemma_code_round_trip();
            },
            Status::Flash(s) => {
                s.lemma_code_in_range();
                s.lemma_code_round_trip();
            },
            Status::Mac(s) => {
                s.lemma_code_in_range();
                s.lemma_code_round_trip();
            },
            Status::Cli(s) => {
                s.lemma_code_in_range();
                s.lemma_code_round_trip();
            },
            Status::Security(s) => {
                s.lemma_code_in_range();
                s.lemma_code_round_trip();
            },
            Status::Command(s) => {
                s.lemma_code_in_range();
                s.lemma_code_round_trip();
            },
            Status::Wifi(s) => {
                s.lemma_code_in_range();
                s.lemma_code_round_trip();
            },
        }
    }

    /// Soundness of the range dispatch: whatever the table decodes owns
    /// exactly the code it was decoded from.
    pub proof fn lemma_decode_sound(code: u32)
        ensures
            Status::spec_decode(code) matches Some(s) ==> s.spec_code() == code,
    {
        State::lemma_decode_sound(code);
        Alloc::lemma_decode_sound(code);
        Param::lemma_decode_sound(code);
        Io::lemma_decode_sound(code);
        Eeprom::lemma_decode_sound(code);
        Flash::lemma_decode_sound(code);
        Mac::lemma_decode_sound(code);
        Cli::lemma_decode_sound(code);
        Security::lemma_decode_sound(code);
        Command::lemma_decode_sound(code);
        Wifi::lemma_decode_sound(code);
    }

    /// The range table partitions the 32-bit code space: no two status
    /// values — in particular no two sub-categories — claim the same code.
    pub proof fn lemma_code_injective(self, other: Status)
        ensures
            self.spec_code() == other.spec_code() ==> self == other,
    {
        self.lemma_code_round_trip();
        other.lemma_code_round_trip();
    }

    /// Renders the status code as zero-padded, eight-digit lower-case
    /// hexadecimal.
    pub fn hex_lower(&self) -> (s: String)
        ensures
            s@ == spec_hex_u32_lower(self.spec_code()),
            s@.len() == 10,
    {
        hex_u32_lower(self.encode())
    }

    /// Renders the status code as zero-padded, eight-digit upper-case
    /// hexadecimal.
    pub fn hex_upper(&self) -> (s: String)
        ensures
            s@ == spec_hex_u32_upper(self.spec_code()),
            s@.len() == 10,
    {
        hex_u32_upper(self.encode())
    }
    /// The diagnostic name of the status value, the `Sl` tag prefixed, as
    /// the flat status listing spells it: `SlOk`, `SlFail`,
    /// `SlInvalidState`, and so on.
    pub open spec fn spec_name(self) -> Seq<char> {
        match self {
            Status::Okay => "SlOk"@,
            Status::Fail => "SlFail"@,
            Status::State(s) => s.spec_name(),
            Status::Alloc(s) => s.spec_name(),
            Status::Param(s) => s.spec_name(),
            Status::Io(s) => s.spec_name(),
            Status::Eeprom(s) => s.spec_name(),
            Status::Flash(s) => s.spec_name(),
            Status::Mac(s) => s.spec_name(),
            Status::Cli(s) => s.spec_name(),
            Status::Security(s) => s.spec_name(),
            Status::Command(s) => s.spec_name(),
            Status::Wifi(s) => s.spec_name(),
        }
    }

    /// Returns the diagnostic name of the status value.
    pub fn name(&self) -> (s: &'static str)
        ensures
            s@ == self.spec_name(),
    {
        match self {
            Status::Okay => "SlOk",
            Status::Fail => "SlFail",
            Status::State(s) => s.name(),
            Status::Alloc(s) => s.name(),
            Status::Param(s) => s.name(),
            Status::Io(s) => s.name(),
            Status::Eeprom(s) => s.name(),
            Status::Flash(s) => s.name(),
            Status::Mac(s) => s.name(),
            Status::Cli(s) => s.name(),
            Status::Security(s) => s.name(),
            Status::Command(s) => s.name(),
            Status::Wifi(s) => s.name(),
        }
    }
}

} // verus!
