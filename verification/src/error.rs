//! The failures the library reports.

use vstd::prelude::*;

verus! {

/// Why a lighting state could not be encoded or a keyboard could not be found.
#[derive(Debug, Clone, Copy, PartialEq, Eq, Structural)]
pub enum Error {
    /// None of the attached devices is a supported keyboard.
    DeviceNotFound,
    /// The animation speed lies outside 1..=4.
    SpeedOutOfRange,
    /// The brightness lies outside 1..=2.
    BrightnessOutOfRange,
}

impl Error {
    /// A sentence for the user that tells the failures apart.
    pub fn message(&self) -> (text: &'static str)
        ensures
            *self == Error::DeviceNotFound ==> text@ == "No compatible keyboard is attached"@,
            *self == Error::SpeedOutOfRange ==> text@ == "Speed is outside valid range (1-4)"@,
            *self == Error::BrightnessOutOfRange ==> text@
                == "Brightness is outside valid range (1-2)"@,
    {
        match self {
            Error::DeviceNotFound => "No compatible keyboard is attached",
            Error::SpeedOutOfRange => "Speed is outside valid range (1-4)",
            Error::BrightnessOutOfRange => "Brightness is outside valid range (1-2)",
        }
    }
}

} // verus!
