//! The data exchanged with the OBS integration.

use vstd::prelude::*;

verus! {

/// The port of the OBS WebSocket server, version 5.
pub const DEFAULT_WEBSOCKET_PORT: u16 = 4455;

/// The port of the OBS WebSocket server, version 4.
pub const LEGACY_WEBSOCKET_PORT: u16 = 4444;

/// Information about the OBS Studio installation.
#[derive(Clone, Debug, PartialEq, Eq)]
pub struct OBSInfo {
    pub installed: bool,
    pub version: Option<String>,
    pub path: Option<String>,
    pub websocket_enabled: bool,
    pub websocket_port: u16,
    pub is_running: bool,
}

impl Default for OBSInfo {
    /// Nothing found: not installed, not running, and the WebSocket server
    /// presumed off at its default port.
    fn default() -> (info: Self)
        ensures
            !info.installed,
            info.version is None,
            info.path is None,
            !info.websocket_enabled,
            info.websocket_port == DEFAULT_WEBSOCKET_PORT,
            !info.is_running,
    {
        OBSInfo {
            installed: false,
            version: None,
            path: None,
            websocket_enabled: false,
            websocket_port: DEFAULT_WEBSOCKET_PORT,
            is_running: false,
        }
    }
}

/// The state of the connection to OBS.
#[derive(Clone, Debug, PartialEq, Eq)]
pub struct OBSConnectionStatus {
    pub connected: bool,
    pub obs_version: Option<String>,
    pub websocket_version: Option<String>,
    pub available_features: Vec<String>,
}

/// The state of a recording made by OBS.
#[derive(Clone, Debug, PartialEq, Eq)]
pub struct OBSRecordingStatus {
    pub recording: bool,
    pub paused: bool,
    pub output_path: Option<String>,
    pub duration_seconds: u64,
    pub bytes: u64,
}

/// What a probe of the WebSocket ports found.
#[derive(Clone, Copy, Debug, PartialEq, Eq, Structural)]
pub struct WebSocketInfo {
    pub enabled: bool,
    pub port: u16,
}

} // verus!
