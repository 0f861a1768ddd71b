//! The failures that validating an invocation can end in.

use vstd::prelude::*;

verus! {

/// Why an invocation was turned down before any layout was computed.
#[derive(Copy, Clone, Debug, PartialEq, Eq, Hash, Structural)]
pub enum Error {
    /// A firmware-top address was given without the image mode.
    Usage,
    /// An address literal is malformed or does not fit in 64 bits.
    Parse,
    /// The firmware-top address lies above 4 GiB.
    Range,
    /// The firmware-top address is not a multiple of 4 KiB.
    Alignment,
}

impl Error {
    /// The diagnostic that describes this failure.
    pub open spec fn diagnostic(self) -> Seq<char> {
        match self {
            Error::Usage => "fw_top only valid with image mode"@,
            Error::Parse => "address literal invalid"@,
            Error::Range => "fw_top exceeds 4GB ceiling"@,
            Error::Alignment => "fw_top not 4KB-aligned"@,
        }
    }

    /// The diagnostic as an owned string, ready to be printed.
    pub fn message(&self) -> (text: String)
        ensures
            text@ == self.diagnostic(),
    {
        match self {
            Error::Usage => "fw_top only valid with image mode".to_owned(),
            Error::Parse => "address literal invalid".to_owned(),
            Error::Range => "fw_top exceeds 4GB ceiling".to_owned(),
            Error::Alignment => "fw_top not 4KB-aligned".to_owned(),
        }
    }
}

} // verus!
