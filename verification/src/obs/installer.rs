//! Installation of OBS Studio.
//!
//! Downloading, mounting and copying are the caller's part. Where to download
//! from, what to report and how to read the tools' output is decided here.

use vstd::prelude::*;
use vstd::string::StringExecFns;
use vstd::slice::slice_subrange;
use crate::obs::error::ObsError;
use crate::platform::Platform;
use crate::text::{
    chars_of, contains_chars, contains_seq, decimal, line_end, line_end_in, push_decimal,
    str_equal, string_from_chars, trim, trim_end, trim_end_in, trimmed, word_start,
    word_start_in,
};

verus! {

/// Installs OBS Studio.
pub struct OBSInstaller;

/// The macOS download for Apple silicon. The downloads are the files of the
/// project's release 30.2.2, at the address of the `obs-studio` repository.
pub const OBS_MACOS_ARM_URL: &'static str =
    "https://github.com/obsproject/obs-studio/releases/download/30.2.2/OBS-Studio-30.2.2-macOS-Apple.dmg";

/// The macOS download for Intel processors.
pub const OBS_MACOS_INTEL_URL: &'static str =
    "https://github.com/obsproject/obs-studio/releases/download/30.2.2/OBS-Studio-30.2.2-macOS-Intel.dmg";

/// The Windows download.
pub const OBS_WINDOWS_URL: &'static str =
    "https://github.com/obsproject/obs-studio/releases/download/30.2.2/OBS-Studio-30.2.2-Windows-Installer.exe";

/// The download for a platform. On macOS, `machine` is the output of
/// `uname -m`, and decides between Apple silicon and Intel; elsewhere it is
/// not looked at.
pub open spec fn download_url_spec(platform: Platform, machine: Seq<char>) -> Option<Seq<char>> {
    match platform {
        Platform::MacOs => if trimmed(machine) == "arm64"@ {
            Some(OBS_MACOS_ARM_URL@)
        } else {
            Some(OBS_MACOS_INTEL_URL@)
        },
        Platform::Windows => Some(OBS_WINDOWS_URL@),
        _ => None,
    }
}

/// The progress message of a download: both counts in whole megabytes.
pub open spec fn download_message_spec(downloaded: u64, total: u64) -> Seq<char> {
    "Downloaded "@ + decimal((downloaded / 1_000_000) as nat) + " MB / "@ + decimal(
        (total / 1_000_000) as nat,
    ) + " MB"@
}

/// The first line of `s` at or after `from` that contains `/Volumes/`, as the
/// indices of its first character and of its end.
pub open spec fn volume_line(s: Seq<char>, from: int) -> Option<(int, int)>
    decreases s.len() - from + 1,
{
    if from < 0 || from >= s.len() {
        None
    } else {
        let end = line_end(s, from);
        if end < from || end > s.len() {
            None
        } else if contains_seq(s.subrange(from, end), "/Volumes/"@) {
            Some((from, end))
        } else {
            volume_line(s, end + 1)
        }
    }
}

/// The mount point in the output of the disk-image tool: the last word of
/// the first line that contains `/Volumes/`.
pub open spec fn mount_point_spec(output: Seq<char>) -> Option<Seq<char>> {
    match volume_line(output, 0) {
        None => None,
        Some((from, end)) => {
            let word_end = trim_end(output, from, end);
            if word_end <= from {
                None
            } else {
                Some(output.subrange(word_start(output, from, word_end), word_end))
            }
        },
    }
}

/// The shell script that copies the application out of the mounted image.
pub open spec fn copy_script_spec(mount_point: Seq<char>) -> Seq<char> {
    "do shell script \"cp -R '"@ + mount_point
        + "/OBS.app' '/Applications/OBS.app'\" with administrator privileges"@
}

impl OBSInstaller {
    /// The download for the platform.
    pub fn get_download_url(platform: Platform, machine: &str) -> (url: Result<String, ObsError>)
        ensures
            match download_url_spec(platform, machine@) {
                Some(text) => url is Ok && url.unwrap()@ == text,
                None => url == Err::<String, ObsError>(ObsError::UnsupportedPlatform),
            },
    {
        match platform {
            Platform::MacOs => {
                let arch = trim(machine);
                if str_equal(arch.as_str(), "arm64") {
                    Ok(String::from_str(OBS_MACOS_ARM_URL))
                } else {
                    Ok(String::from_str(OBS_MACOS_INTEL_URL))
                }
            },
            Platform::Windows => Ok(String::from_str(OBS_WINDOWS_URL)),
            _ => Err(ObsError::UnsupportedPlatform),
        }
    }

    /// The name under which the installer is saved.
    pub fn installer_file_name(platform: Platform) -> (name: Option<&'static str>)
        ensures
            match platform {
                Platform::MacOs => name is Some && name.unwrap()@ == "OBS-Studio.dmg"@,
                Platform::Windows => name is Some && name.unwrap()@ == "OBS-Studio-Installer.exe"@,
                _ => name is None,
            },
    {
        match platform {
            Platform::MacOs => Some("OBS-Studio.dmg"),
            Platform::Windows => Some("OBS-Studio-Installer.exe"),
            _ => None,
        }
    }

    /// The progress message of a download.
    pub fn download_message(downloaded: u64, total: u64) -> (message: String)
        ensures
            message@ == download_message_spec(downloaded, total),
    {
        let mut message = String::from_str("Downloaded ");
        push_decimal(&mut message, downloaded / 1_000_000);
        message.append(" MB / ");
        push_decimal(&mut message, total / 1_000_000);
        message.append(" MB");
        message
    }

    /// The mount point in the output of the disk-image tool.
    pub fn mount_point(output: &str) -> (point: Result<String, ObsError>)
        ensures
            match mount_point_spec(output@) {
                Some(text) => point is Ok && point.unwrap()@ == text,
                None => point == Err::<String, ObsError>(ObsError::MountPointNotFound),
            },
    {
        let chars = chars_of(output);
        let pattern = chars_of("/Volumes/");
        let mut from: usize = 0;
        while from < chars.len()
            invariant
                from <= chars.len(),
                chars@ == output@,
                pattern@ == "/Volumes/"@,
                volume_line(chars@, 0) == volume_line(chars@, from as int),
            decreases chars.len() - from,
        {
            let end = line_end_in(chars.as_slice(), from);
            let line = slice_subrange(chars.as_slice(), from, end);
            if contains_chars(line, pattern.as_slice()) {
                let word_end = trim_end_in(chars.as_slice(), from, end);
                if word_end <= from {
                    return Err(ObsError::MountPointNotFound);
                }
                let start = word_start_in(chars.as_slice(), from, word_end);
                let word = slice_subrange(chars.as_slice(), start, word_end);
                return Ok(string_from_chars(word));
            }
            if end == chars.len() {
                assert(volume_line(chars@, end + 1) is None);
                return Err(ObsError::MountPointNotFound);
            }
            from = end + 1;
        }
        Err(ObsError::MountPointNotFound)
    }

    /// The shell script that copies the application out of the image mounted
    /// at `mount_point`.
    pub fn copy_script(mount_point: &str) -> (script: String)
        ensures
            script@ == copy_script_spec(mount_point@),
    {
        let mut script = String::from_str("do shell script \"cp -R '");
        script.append(mount_point);
        script.append("/OBS.app' '/Applications/OBS.app'\" with administrator privileges");
        script
    }
}

} // verus!
