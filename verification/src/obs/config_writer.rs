//! The configuration that the application writes for OBS Studio.
//!
//! Reading and writing the files is the caller's part. The text that goes
//! into them is made here.

use vstd::prelude::*;
use vstd::string::StringExecFns;
use crate::obs::error::ObsError;
use crate::platform::Platform;
use crate::text::{
    chars_of, contains_chars, contains_seq, replace_chars, replaced, string_from_chars,
};

verus! {

/// Writes the OBS configuration for the application.
pub struct OBSConfigWriter;

/// The section appended to a global configuration that has no WebSocket
/// section yet.
pub open spec fn websocket_section() -> Seq<char> {
    "\n[OBSWebSocket]\nServerEnabled=true\nServerPort=4455\nAuthRequired=false\nServerPassword=\nAlertsEnabled=true\n"@
}

/// The global configuration with the WebSocket server enabled.
///
/// A configuration without a WebSocket section gets one appended. In one
/// that has the section, a disabled server is enabled, and the port is set
/// under the section header where no port is set anywhere.
pub open spec fn websocket_config_spec(existing: Seq<char>) -> Seq<char> {
    if !contains_seq(existing, "[OBSWebSocket]"@) {
        existing + websocket_section()
    } else {
        let enabled = replaced(existing, "ServerEnabled=false"@, "ServerEnabled=true"@);
        if !contains_seq(enabled, "ServerPort="@) {
            replaced(enabled, "[OBSWebSocket]"@, "[OBSWebSocket]\nServerPort=4455"@)
        } else {
            enabled
        }
    }
}

/// The profile configuration: simple output to `<home>/Movies` as MKV, audio
/// at 48 kHz stereo and 192 kbit/s, video at 1920x1080 and 30 frames a
/// second.
pub open spec fn recording_settings_spec(home: Seq<char>) -> Seq<char> {
    "[Output]\nMode=Simple\n\n[SimpleOutput]\nFilePath="@ + home
        + "/Movies\nRecFormat=mkv\nRecEncoder=x264\nRecQuality=Small\nRecAudioBitrate=192\n\n[Audio]\nSampleRate=48000\nChannelSetup=Stereo\n\n[Video]\nBaseCX=1920\nBaseCY=1080\nOutputCX=1920\nOutputCY=1080\nFPSType=0\nFPSCommon=30\n"@
}

/// The OBS configuration directory, given the value of the platform's base
/// variable: the home directory on macOS and Linux, the application data
/// directory on Windows.
pub open spec fn config_dir_spec(platform: Platform, base: Seq<char>) -> Option<Seq<char>> {
    match platform {
        Platform::MacOs => Some(base + "/Library/Application Support/obs-studio"@),
        Platform::Windows => Some(base + "\\obs-studio"@),
        Platform::Linux => Some(base + "/.config/obs-studio"@),
        Platform::Other => None,
    }
}

impl OBSConfigWriter {
    /// The environment variable that holds the base of the configuration
    /// directory on this platform.
    pub fn base_variable(platform: Platform) -> (name: &'static str)
        ensures
            name@ == if platform is Windows {
                "APPDATA"@
            } else {
                "HOME"@
            },
    {
        match platform {
            Platform::Windows => "APPDATA",
            _ => "HOME",
        }
    }

    /// The OBS configuration directory under `base`, the value of the
    /// platform's base variable.
    pub fn get_config_dir(platform: Platform, base: &str) -> (dir: Result<String, ObsError>)
        ensures
            match config_dir_spec(platform, base@) {
                Some(path) => dir is Ok && dir.unwrap()@ == path,
                None => dir == Err::<String, ObsError>(ObsError::UnsupportedPlatform),
            },
    {
        match platform {
            Platform::MacOs => Ok(
                String::from_str(base).concat("/Library/Application Support/obs-studio"),
            ),
            Platform::Windows => Ok(String::from_str(base).concat("\\obs-studio")),
            Platform::Linux => Ok(String::from_str(base).concat("/.config/obs-studio")),
            Platform::Other => Err(ObsError::UnsupportedPlatform),
        }
    }

    /// The global configuration with the WebSocket server enabled, made from
    /// the existing text of `global.ini`, which is empty where the file does
    /// not exist.
    pub fn enable_websocket(existing: &str) -> (config: String)
        ensures
            config@ == websocket_config_spec(existing@),
    {
        let content = chars_of(existing);
        let header = chars_of("[OBSWebSocket]");
        if !contains_chars(content.as_slice(), header.as_slice()) {
            let mut config = String::from_str(existing);
            config.append("\n[OBSWebSocket]\nServerEnabled=true\nServerPort=4455\nAuthRequired=false\nServerPassword=\nAlertsEnabled=true\n");
            return config;
        }
        let disabled = chars_of("ServerEnabled=false");
        let enabled_text = chars_of("ServerEnabled=true");
        let enabled = replace_chars(
            content.as_slice(),
            disabled.as_slice(),
            enabled_text.as_slice(),
        );
        let port_key = chars_of("ServerPort=");
        if !contains_chars(enabled.as_slice(), port_key.as_slice()) {
            let with_port = chars_of("[OBSWebSocket]\nServerPort=4455");
            let updated = replace_chars(enabled.as_slice(), header.as_slice(), with_port.as_slice());
            string_from_chars(updated.as_slice())
        } else {
            string_from_chars(enabled.as_slice())
        }
    }

    /// The profile configuration for recording, with recordings filed under
    /// `<home>/Movies`.
    pub fn set_recording_settings(home: &str) -> (config: String)
        ensures
            config@ == recording_settings_spec(home@),
    {
        let mut config = String::from_str("[Output]\nMode=Simple\n\n[SimpleOutput]\nFilePath=");
        config.append(home);
        config.append("/Movies\nRecFormat=mkv\nRecEncoder=x264\nRecQuality=Small\nRecAudioBitrate=192\n\n[Audio]\nSampleRate=48000\nChannelSetup=Stereo\n\n[Video]\nBaseCX=1920\nBaseCY=1080\nOutputCX=1920\nOutputCY=1080\nFPSType=0\nFPSCommon=30\n");
        config
    }
}

} // verus!
