//! Detection of the OBS Studio installation.
//!
//! Looking at the disk, the process table and the network is the caller's
//! part. What to look for, and what to make of the findings, is decided
//! here.

use vstd::prelude::*;
use vstd::string::StringExecFns;
use crate::obs::error::ObsError;
use crate::obs::types::{OBSInfo, WebSocketInfo, DEFAULT_WEBSOCKET_PORT, LEGACY_WEBSOCKET_PORT};
use crate::platform::Platform;
use crate::text::{
    chars_of, contains_chars, contains_seq, find_chars, find_from, lowercase, substring,
    to_lowercase, trim, trimmed,
};

verus! {

/// Detects the OBS Studio installation and its state.
pub struct OBSDetector;

/// What the caller found on the machine.
#[derive(Clone, Debug, PartialEq, Eq)]
pub struct ObsProbe {
    /// The first candidate path that exists.
    pub path: Option<String>,
    /// The version read from the installation at `path`.
    pub version: Option<String>,
    /// Whether an OBS process is running.
    pub is_running: bool,
    /// The result of probing the WebSocket ports, made only while OBS is
    /// running.
    pub websocket: Option<WebSocketInfo>,
}

/// The paths at which OBS is looked for, in the order of the search. `home`
/// is the user's home directory, empty where it is unknown.
pub open spec fn candidate_paths_spec(platform: Platform, home: Seq<char>) -> Seq<Seq<char>> {
    match platform {
        Platform::MacOs => seq![
            "/Applications/OBS.app"@,
            "/Applications/OBS Studio.app"@,
            home + "/Applications/OBS.app"@,
        ],
        Platform::Windows => seq![
            "C:\\Program Files\\obs-studio\\bin\\64bit\\obs64.exe"@,
            "C:\\Program Files (x86)\\obs-studio\\bin\\64bit\\obs64.exe"@,
        ],
        Platform::Linux => seq![
            "/usr/bin/obs"@,
            "/usr/local/bin/obs"@,
            home + "/.local/bin/obs"@,
        ],
        Platform::Other => Seq::empty(),
    }
}

/// The port probed first, then the port probed second.
pub open spec fn websocket_ports_spec() -> Seq<u16> {
    seq![DEFAULT_WEBSOCKET_PORT, LEGACY_WEBSOCKET_PORT]
}

/// The version in the text of an `Info.plist`: what stands between the first
/// `<string>` after the first short-version key and the `</string>` that
/// follows it.
pub open spec fn plist_version_spec(contents: Seq<char>) -> Option<Seq<char>> {
    match find_from(contents, "<key>CFBundleShortVersionString</key>"@, 0) {
        None => None,
        Some(key_at) => match find_from(contents, "<string>"@, key_at) {
            None => None,
            Some(open_at) => match find_from(contents, "</string>"@, open_at) {
                None => None,
                Some(close_at) => if open_at + 8 <= close_at <= contents.len() {
                    Some(contents.subrange(open_at + 8, close_at))
                } else {
                    None
                },
            },
        },
    }
}

/// Whether a process of this name is OBS: its name, in lower case, contains
/// one of the platform's process names.
pub open spec fn is_obs_process_spec(name: Seq<char>, platform: Platform) -> bool {
    let lower = lowercase(name);
    match platform {
        Platform::MacOs => contains_seq(lower, lowercase("obs"@)) || contains_seq(
            lower,
            lowercase("OBS"@),
        ),
        Platform::Windows => contains_seq(lower, lowercase("obs64.exe"@)) || contains_seq(
            lower,
            lowercase("obs32.exe"@),
        ),
        Platform::Linux => contains_seq(lower, lowercase("obs"@)),
        Platform::Other => false,
    }
}

fn lower_contains(lower: &Vec<char>, pattern: &str) -> (found: bool)
    ensures
        found == contains_seq(lower@, lowercase(pattern@)),
{
    let pattern_lower = to_lowercase(pattern);
    let pattern_chars = chars_of(pattern_lower.as_str());
    contains_chars(lower.as_slice(), pattern_chars.as_slice())
}

impl OBSDetector {
    /// Puts the findings together. The installation counts as found where a
    /// path was found, and only then is a version reported. The WebSocket
    /// findings count only while OBS is running; otherwise the server is
    /// reported off at its default port.
    pub fn detect(probe: ObsProbe) -> (result: Result<OBSInfo, ObsError>)
        ensures
            result matches Ok(info) && {
                &&& info.installed == (probe.path is Some)
                &&& info.path == probe.path
                &&& info.version == if probe.path is Some {
                    probe.version
                } else {
                    None
                }
                &&& info.is_running == probe.is_running
                &&& info.websocket_enabled == (probe.is_running && probe.websocket is Some
                    && probe.websocket.unwrap().enabled)
                &&& info.websocket_port == if probe.is_running && probe.websocket is Some {
                    probe.websocket.unwrap().port
                } else {
                    DEFAULT_WEBSOCKET_PORT
                }
            },
    {
        let mut info = OBSInfo::default();
        if probe.path.is_some() {
            info.installed = true;
            info.path = probe.path;
            info.version = probe.version;
        }
        info.is_running = probe.is_running;
        if info.is_running {
            if let Some(ws_info) = probe.websocket {
                info.websocket_enabled = ws_info.enabled;
                info.websocket_port = ws_info.port;
            }
        }
        Ok(info)
    }

    /// The paths at which OBS is looked for, in the order of the search.
    pub fn candidate_paths(platform: Platform, home: &str) -> (paths: Vec<String>)
        ensures
            paths.len() == candidate_paths_spec(platform, home@).len(),
            forall|i: int|
                0 <= i < paths.len() ==> #[trigger] paths[i]@ == candidate_paths_spec(
                    platform,
                    home@,
                )[i],
    {
        let mut paths: Vec<String> = Vec::new();
        match platform {
            Platform::MacOs => {
                paths.push(String::from_str("/Applications/OBS.app"));
                paths.push(String::from_str("/Applications/OBS Studio.app"));
                paths.push(String::from_str(home).concat("/Applications/OBS.app"));
            },
            Platform::Windows => {
                paths.push(String::from_str("C:\\Program Files\\obs-studio\\bin\\64bit\\obs64.exe"));
                paths.push(
                    String::from_str("C:\\Program Files (x86)\\obs-studio\\bin\\64bit\\obs64.exe"),
                );
            },
            Platform::Linux => {
                paths.push(String::from_str("/usr/bin/obs"));
                paths.push(String::from_str("/usr/local/bin/obs"));
                paths.push(String::from_str(home).concat("/.local/bin/obs"));
            },
            Platform::Other => {},
        }
        paths
    }

    /// The version in the text of an `Info.plist`.
    pub fn version_from_plist(contents: &str) -> (version: Option<String>)
        ensures
            match plist_version_spec(contents@) {
                Some(text) => version is Some && version.unwrap()@ == text,
                None => version is None,
            },
    {
        let chars = chars_of(contents);
        let key = chars_of("<key>CFBundleShortVersionString</key>");
        let open = chars_of("<string>");
        let close = chars_of("</string>");
        let key_at = match find_chars(chars.as_slice(), key.as_slice(), 0) {
            Some(at) => at,
            None => { return None; },
        };
        let open_at = match find_chars(chars.as_slice(), open.as_slice(), key_at) {
            Some(at) => at,
            None => { return None; },
        };
        let close_at = match find_chars(chars.as_slice(), close.as_slice(), open_at) {
            Some(at) => at,
            None => { return None; },
        };
        if close_at < 8 || open_at > close_at - 8 {
            return None;
        }
        assert(chars@ == contents@);
        Some(substring(contents, open_at + 8, close_at))
    }

    /// The version in the output of `obs --version`: the output without the
    /// white space around it.
    pub fn version_from_output(stdout: &str) -> (version: String)
        ensures
            version@ == trimmed(stdout@),
    {
        trim(stdout)
    }

    /// Whether a process of this name is OBS.
    pub fn is_obs_process(name: &str, platform: Platform) -> (is_obs: bool)
        ensures
            is_obs == is_obs_process_spec(name@, platform),
    {
        let lower_name = to_lowercase(name);
        let lower = chars_of(lower_name.as_str());
        match platform {
            Platform::MacOs => lower_contains(&lower, "obs") || lower_contains(&lower, "OBS"),
            Platform::Windows => lower_contains(&lower, "obs64.exe") || lower_contains(
                &lower,
                "obs32.exe",
            ),
            Platform::Linux => lower_contains(&lower, "obs"),
            Platform::Other => false,
        }
    }

    /// The WebSocket ports to probe, in the order of the probing.
    pub fn websocket_ports() -> (ports: Vec<u16>)
        ensures
            ports@ == websocket_ports_spec(),
    {
        let mut ports: Vec<u16> = Vec::new();
        ports.push(DEFAULT_WEBSOCKET_PORT);
        ports.push(LEGACY_WEBSOCKET_PORT);
        assert(ports@ =~= websocket_ports_spec());
        ports
    }

    /// What the probing of the WebSocket ports came to, given the first port
    /// that accepted a connection: the server is on at that port, or off at
    /// the default port where none did.
    pub fn detect_websocket(open_port: Option<u16>) -> (result: Result<WebSocketInfo, ObsError>)
        ensures
            result == Ok::<WebSocketInfo, ObsError>(
                match open_port {
                    Some(port) => (WebSocketInfo { enabled: true, port }),
                    None => (WebSocketInfo { enabled: false, port: DEFAULT_WEBSOCKET_PORT }),
                },
            ),
    {
        match open_port {
            Some(port) => Ok(WebSocketInfo { enabled: true, port }),
            None => Ok(WebSocketInfo { enabled: false, port: DEFAULT_WEBSOCKET_PORT }),
        }
    }
}

} // verus!
