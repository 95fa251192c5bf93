use vstd::prelude::*;
use vstd::string::StringExecFns;

verus! {

/// Why bringing up the rendering context cannot go on. None of these is
/// retried: the environment offers no alternative to fall back to.
#[derive(Clone, Copy, Debug, PartialEq, Eq, Structural)]
pub enum SetupError {
    /// Validation was requested and a required layer is not installed.
    MissingValidationLayer,
    /// No enumerated device passed all three suitability predicates.
    NoSuitableDevice,
    /// The surface advertises no format.
    NoSurfaceFormat,
    /// The surface advertises no present mode.
    NoPresentMode,
    /// A handle was offered that is not the next in the acquisition order.
    OutOfOrder,
}

impl SetupError {
    /// The text of the error, as seen through its view.
    pub open spec fn message_text(self) -> Seq<char> {
        match self {
            SetupError::MissingValidationLayer => "Validation layers requested, but not available!"@,
            SetupError::NoSuitableDevice => "No suitable supported device found"@,
            SetupError::NoSurfaceFormat => "Surface reports no supported format"@,
            SetupError::NoPresentMode => "Surface reports no supported present mode"@,
            SetupError::OutOfOrder => "Resource acquired out of order"@,
        }
    }

    /// A line fit for the end user.
    pub fn message(&self) -> (text: String)
        ensures
            text@ == self.message_text(),
    {
        match self {
            SetupError::MissingValidationLayer => String::from_str(
                "Validation layers requested, but not available!",
            ),
            SetupError::NoSuitableDevice => String::from_str("No suitable supported device found"),
            SetupError::NoSurfaceFormat => String::from_str("Surface reports no supported format"),
            SetupError::NoPresentMode => String::from_str(
                "Surface reports no supported present mode",
            ),
            SetupError::OutOfOrder => String::from_str("Resource acquired out of order"),
        }
    }
}

} // verus!
