//! The errors of the OBS integration.

use vstd::prelude::*;
use vstd::string::StringExecFns;

verus! {

/// Everything an OBS operation can fail with.
#[derive(Clone, Copy, Debug, PartialEq, Eq, Structural)]
pub enum ObsError {
    /// OBS has no installer for this platform: it comes from the package
    /// manager.
    UnsupportedPlatform,
    /// The operation needs a connection to OBS, and there is none.
    NotConnected,
    /// The output of the disk-image tool names no mount point.
    MountPointNotFound,
    /// No filter preset has the name asked for.
    UnknownPreset,
}

/// The text of an error, as shown to the user.
pub open spec fn obs_message_spec(error: ObsError) -> Seq<char> {
    match error {
        ObsError::UnsupportedPlatform => "Linux users should install OBS via package manager: sudo apt install obs-studio"@,
        ObsError::NotConnected => "Not connected to OBS"@,
        ObsError::MountPointNotFound => "Could not find mount point"@,
        ObsError::UnknownPreset => "Unknown preset"@,
    }
}

impl ObsError {
    /// The text of the error, as shown to the user.
    pub fn message(&self) -> (text: String)
        ensures
            text@ == obs_message_spec(*self),
    {
        let text: &str = match self {
            ObsError::UnsupportedPlatform => "Linux users should install OBS via package manager: sudo apt install obs-studio",
            ObsError::NotConnected => "Not connected to OBS",
            ObsError::MountPointNotFound => "Could not find mount point",
            ObsError::UnknownPreset => "Unknown preset",
        };
        String::from_str(text)
    }
}

} // verus!
