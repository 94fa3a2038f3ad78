//! The connection to OBS Studio.
//!
//! Talking to OBS over its WebSocket is the caller's part. What is known of
//! the connection, and what is asked of OBS, is kept and decided here.

use vstd::prelude::*;
use vstd::string::StringExecFns;
use crate::obs::error::ObsError;
use crate::obs::types::OBSConnectionStatus;
use crate::text::{contains_seq, decimal, push_decimal, str_contains, str_equal};

verus! {

/// What the application knows of its connection to OBS.
pub struct OBSManager {
    connected: bool,
    recording: bool,
}

/// The filter presets the application offers.
#[derive(Clone, Copy, Debug, PartialEq, Eq, Structural)]
pub enum PresetKind {
    LectureHall,
    ClinicalSkills,
    OnlineLecture,
}

/// The preset of a name, as the user interface names them.
pub open spec fn preset_of(name: Seq<char>) -> Option<PresetKind> {
    if name == "lecture_hall"@ {
        Some(PresetKind::LectureHall)
    } else if name == "clinical_skills"@ {
        Some(PresetKind::ClinicalSkills)
    } else if name == "online_lecture"@ {
        Some(PresetKind::OnlineLecture)
    } else {
        None
    }
}

/// The title of a preset.
pub open spec fn preset_title(kind: PresetKind) -> Seq<char> {
    match kind {
        PresetKind::LectureHall => "Lecture Hall"@,
        PresetKind::ClinicalSkills => "Clinical Skills"@,
        PresetKind::OnlineLecture => "Online Lecture"@,
    }
}

/// The description of a preset.
pub open spec fn preset_description(kind: PresetKind) -> Seq<char> {
    match kind {
        PresetKind::LectureHall => "Optimized for recording in large classroom settings"@,
        PresetKind::ClinicalSkills => "For recording practice sessions with multiple speakers"@,
        PresetKind::OnlineLecture => "For capturing Zoom/Teams lectures with system audio"@,
    }
}

/// Whether an input of this kind is an audio source: its kind contains
/// `audio` or `capture`.
pub open spec fn is_audio_input_spec(kind: Seq<char>) -> bool {
    contains_seq(kind, "audio"@) || contains_seq(kind, "capture"@) || kind
        == "coreaudio_input_capture"@ || kind == "wasapi_input_capture"@
}

/// The name under which filter number `index` of a preset is created.
pub open spec fn filter_name_spec(filter_type: Seq<char>, index: nat) -> Seq<char> {
    filter_type + "_"@ + decimal(index)
}

impl PresetKind {
    /// The preset of a name.
    pub fn from_name(name: &str) -> (kind: Result<PresetKind, ObsError>)
        ensures
            kind == match preset_of(name@) {
                Some(found) => Ok::<PresetKind, ObsError>(found),
                None => Err::<PresetKind, ObsError>(ObsError::UnknownPreset),
            },
    {
        if str_equal(name, "lecture_hall") {
            Ok(PresetKind::LectureHall)
        } else if str_equal(name, "clinical_skills") {
            Ok(PresetKind::ClinicalSkills)
        } else if str_equal(name, "online_lecture") {
            Ok(PresetKind::OnlineLecture)
        } else {
            Err(ObsError::UnknownPreset)
        }
    }

    /// The title of the preset.
    pub fn title(&self) -> (text: &'static str)
        ensures
            text@ == preset_title(*self),
    {
        match self {
            PresetKind::LectureHall => "Lecture Hall",
            PresetKind::ClinicalSkills => "Clinical Skills",
            PresetKind::OnlineLecture => "Online Lecture",
        }
    }

    /// The description of the preset.
    pub fn description(&self) -> (text: &'static str)
        ensures
            text@ == preset_description(*self),
    {
        match self {
            PresetKind::LectureHall => "Optimized for recording in large classroom settings",
            PresetKind::ClinicalSkills => "For recording practice sessions with multiple speakers",
            PresetKind::OnlineLecture => "For capturing Zoom/Teams lectures with system audio",
        }
    }
}

impl OBSManager {
    /// Whether the application is connected to OBS.
    pub closed spec fn connected(&self) -> bool {
        self.connected
    }

    /// Whether the application has OBS recording.
    pub closed spec fn recording(&self) -> bool {
        self.recording
    }

    /// A manager without a connection.
    pub fn new() -> (manager: Self)
        ensures
            !manager.connected(),
            !manager.recording(),
    {
        OBSManager { connected: false, recording: false }
    }

    /// The address to connect to.
    pub fn connection_url(host: &str, port: u16) -> (url: String)
        ensures
            url@ == host@ + ":"@ + decimal(port as nat),
    {
        let mut url = String::from_str(host);
        url.append(":");
        push_decimal(&mut url, port as u64);
        url
    }

    /// Notes that the connection stands, and reports it with the versions
    /// that OBS gave and the features the application uses.
    pub fn connect(&mut self, obs_version: String, websocket_version: String) -> (status:
        OBSConnectionStatus)
        ensures
            final(self).connected(),
            final(self).recording() == old(self).recording(),
            status.connected,
            status.obs_version == Some(obs_version),
            status.websocket_version == Some(websocket_version),
            status.available_features.len() == 4,
            status.available_features[0]@ == "recording"@,
            status.available_features[1]@ == "audio_sources"@,
            status.available_features[2]@ == "filters"@,
            status.available_features[3]@ == "scenes"@,
    {
        let mut features: Vec<String> = Vec::new();
        features.push(String::from_str("recording"));
        features.push(String::from_str("audio_sources"));
        features.push(String::from_str("filters"));
        features.push(String::from_str("scenes"));
        self.connected = true;
        OBSConnectionStatus {
            connected: true,
            obs_version: Some(obs_version),
            websocket_version: Some(websocket_version),
            available_features: features,
        }
    }

    /// Notes that the connection is gone, and with it the recording.
    pub fn disconnect(&mut self)
        ensures
            !final(self).connected(),
            !final(self).recording(),
    {
        self.connected = false;
        self.recording = false;
    }

    /// Whether the application is connected to OBS.
    pub fn is_connected(&self) -> (connected: bool)
        ensures
            connected == self.connected(),
    {
        self.connected
    }

    /// Whether the application has OBS recording.
    pub fn is_recording(&self) -> (recording: bool)
        ensures
            recording == self.recording(),
    {
        self.recording
    }

    /// Asked before every request to OBS: `NotConnected` without a
    /// connection.
    pub fn require_connection(&self) -> (result: Result<(), ObsError>)
        ensures
            result == if self.connected() {
                Ok::<(), ObsError>(())
            } else {
                Err::<(), ObsError>(ObsError::NotConnected)
            },
    {
        if self.connected {
            Ok(())
        } else {
            Err(ObsError::NotConnected)
        }
    }

    /// Notes that OBS has started recording. Without a connection nothing is
    /// noted.
    pub fn start_recording(&mut self) -> (result: Result<(), ObsError>)
        ensures
            final(self).connected() == old(self).connected(),
            final(self).recording() == (old(self).connected() || old(self).recording()),
            result == if old(self).connected() {
                Ok::<(), ObsError>(())
            } else {
                Err::<(), ObsError>(ObsError::NotConnected)
            },
    {
        if !self.connected {
            return Err(ObsError::NotConnected);
        }
        self.recording = true;
        Ok(())
    }

    /// Notes that OBS has stopped recording. Without a connection nothing is
    /// noted.
    pub fn stop_recording(&mut self) -> (result: Result<(), ObsError>)
        ensures
            final(self).connected() == old(self).connected(),
            final(self).recording() == (!old(self).connected() && old(self).recording()),
            result == if old(self).connected() {
                Ok::<(), ObsError>(())
            } else {
                Err::<(), ObsError>(ObsError::NotConnected)
            },
    {
        if !self.connected {
            return Err(ObsError::NotConnected);
        }
        self.recording = false;
        Ok(())
    }

    /// Whether an input of this kind is listed among the audio sources.
    pub fn is_audio_input(kind: &str) -> (audio: bool)
        ensures
            audio == is_audio_input_spec(kind@),
    {
        str_contains(kind, "audio") || str_contains(kind, "capture") || str_equal(
            kind,
            "coreaudio_input_capture",
        ) || str_equal(kind, "wasapi_input_capture")
    }

    /// The name under which filter number `index` of a preset is created.
    pub fn filter_name(filter_type: &str, index: usize) -> (name: String)
        ensures
            name@ == filter_name_spec(filter_type@, index as nat),
    {
        let mut name = String::from_str(filter_type);
        name.append("_");
        push_decimal(&mut name, index as u64);
        name
    }

    /// The presets the application offers, in the order shown.
    pub fn get_filter_presets() -> (presets: Vec<PresetKind>)
        ensures
            presets@ == seq![
                PresetKind::LectureHall,
                PresetKind::ClinicalSkills,
                PresetKind::OnlineLecture,
            ],
    {
        let mut presets: Vec<PresetKind> = Vec::new();
        presets.push(PresetKind::LectureHall);
        presets.push(PresetKind::ClinicalSkills);
        presets.push(PresetKind::OnlineLecture);
        assert(presets@ =~= seq![
            PresetKind::LectureHall,
            PresetKind::ClinicalSkills,
            PresetKind::OnlineLecture,
        ]);
        presets
    }
}

} // verus!
