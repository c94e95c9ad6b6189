//! The error taxonomy of the bootstrap. None of these is ever recovered
//! from: the shell reports the description and terminates the process.

use vstd::prelude::*;
use vstd::string::StringExecFns;

use crate::capability::MissingCapability;
use crate::device::NoSuitableDevice;

verus! {

/// Everything that can end a bootstrap run early.
pub enum BootstrapError {
    /// A required layer or extension is absent.
    Capability(MissingCapability),
    /// No physical device satisfies the selection constraints.
    NoDevice(NoSuitableDevice),
    /// A creation or query call returned the given driver error code.
    Backend(i32),
    /// The windowing collaborator handed over an unusable display or
    /// window handle.
    HandleConversion,
}

impl BootstrapError {
    /// The description reported for each error.
    pub open spec fn describe_view(self) -> Seq<char> {
        match self {
            BootstrapError::Capability(_) => "required capability not supported"@,
            BootstrapError::NoDevice(_) => "no suitable physical device"@,
            BootstrapError::Backend(_) => "graphics backend call failed"@,
            BootstrapError::HandleConversion => "invalid display or window handle"@,
        }
    }

    /// A short description of what failed, for the terminal message.
    pub fn describe(&self) -> (r: String)
        ensures
            r@ == self.describe_view(),
    {
        match self {
            BootstrapError::Capability(_) => String::from_str("required capability not supported"),
            BootstrapError::NoDevice(_) => String::from_str("no suitable physical device"),
            BootstrapError::Backend(_) => String::from_str("graphics backend call failed"),
            BootstrapError::HandleConversion => String::from_str(
                "invalid display or window handle",
            ),
        }
    }
}

} // verus!
