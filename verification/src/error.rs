//! Why a debug callback could not be registered.

use vstd::prelude::*;

verus! {

/// Error that can happen when creating a debug callback.
///
/// Only a missing extension is reported this way. A failure of the driver
/// while it creates the messenger is not a condition a caller can recover
/// from, and has no variant here.
#[derive(Copy, Clone, Debug, PartialEq, Eq, Structural)]
pub enum DebugCallbackCreationError {
    /// The `EXT_debug_utils` extension was not enabled.
    MissingExtension,
}

impl DebugCallbackCreationError {
    /// The fixed text that describes the error.
    pub open spec fn text(self) -> Seq<char> {
        match self {
            DebugCallbackCreationError::MissingExtension => {
                "the `EXT_debug_report` extension was not enabled"@
            },
        }
    }

    /// Renders the error for a human reader.
    pub fn to_string(&self) -> (rendered: String)
        ensures
            rendered@ == self.text(),
    {
        match *self {
            DebugCallbackCreationError::MissingExtension => {
                "the `EXT_debug_report` extension was not enabled".to_owned()
            },
        }
    }
}

} // verus!
