//! The errors of the recorder.

use vstd::prelude::*;
use vstd::string::StringExecFns;

verus! {

/// A failure to obtain or run the capture device.
#[derive(Clone, Copy, Debug, PartialEq, Eq, Structural)]
pub enum DeviceError {
    /// The host has no default input device.
    NoInputDevice,
    /// The device did not report a default input configuration.
    ConfigUnavailable,
    /// The device delivers samples in an encoding that capture cannot read.
    UnsupportedSampleFormat,
    /// The device reports no input channel.
    NoChannels,
    /// The sample rate is too high for a one-second sample channel.
    SampleRateTooHigh,
    /// The input stream could not be built.
    StreamBuildFailed,
    /// The input stream could not be started.
    StreamStartFailed,
}

/// A failure to produce the output file.
#[derive(Clone, Copy, Debug, PartialEq, Eq, Structural)]
pub enum IoError {
    /// The per-user data directory could not be resolved.
    DataDirUnavailable,
    /// The recordings directory could not be created.
    CreateDirectoryFailed,
    /// The system clock could not be read.
    ClockUnavailable,
    /// The container file could not be created.
    CreateFileFailed,
    /// A sample could not be written.
    WriteFailed,
    /// The container could not be finalized.
    FinalizeFailed,
    /// The encoder thread ended without a result.
    EncoderLost,
    /// Every file name that the recorder can give has been given.
    NoNameLeft,
}

/// Everything a recorder command can fail with.
#[derive(Clone, Copy, Debug, PartialEq, Eq, Structural)]
pub enum RecorderError {
    /// `Start` while a session is active.
    AlreadyRecording,
    /// `Stop`, `Pause` or `Resume` while no session is active.
    NotRecording,
    Device(DeviceError),
    Io(IoError),
    /// The command queue is closed: the recorder thread is gone.
    ActorUnavailable,
    /// The reply channel closed without a reply.
    ResponseLost,
}

/// The text of an error, as shown to the user.
pub open spec fn message_spec(error: RecorderError) -> Seq<char> {
    match error {
        RecorderError::AlreadyRecording => "Recording already in progress"@,
        RecorderError::NotRecording => "No recording in progress"@,
        RecorderError::ActorUnavailable => "Recorder thread unavailable"@,
        RecorderError::ResponseLost => "Recorder response channel closed"@,
        RecorderError::Device(DeviceError::NoInputDevice) => "No audio input device available"@,
        RecorderError::Device(DeviceError::ConfigUnavailable) => "Failed to read default input config"@,
        RecorderError::Device(DeviceError::UnsupportedSampleFormat) => "Unsupported audio sample format"@,
        RecorderError::Device(DeviceError::NoChannels) => "Audio input device has no channels"@,
        RecorderError::Device(DeviceError::SampleRateTooHigh) => "Audio sample rate is too high"@,
        RecorderError::Device(DeviceError::StreamBuildFailed) => "Failed to build audio stream"@,
        RecorderError::Device(DeviceError::StreamStartFailed) => "Failed to start audio stream"@,
        RecorderError::Io(IoError::DataDirUnavailable) => "Failed to resolve data directory"@,
        RecorderError::Io(IoError::CreateDirectoryFailed) => "Failed to create recordings directory"@,
        RecorderError::Io(IoError::ClockUnavailable) => "Failed to read system time"@,
        RecorderError::Io(IoError::CreateFileFailed) => "Failed to create WAV output file"@,
        RecorderError::Io(IoError::WriteFailed) => "Failed to write audio sample"@,
        RecorderError::Io(IoError::FinalizeFailed) => "Failed to finalize WAV file"@,
        RecorderError::Io(IoError::EncoderLost) => "Failed to join writer thread"@,
        RecorderError::Io(IoError::NoNameLeft) => "No file name left for another recording"@,
    }
}

impl RecorderError {
    /// The text of the error, as shown to the user.
    pub fn message(&self) -> (text: String)
        ensures
            text@ == message_spec(*self),
    {
        let text: &str = match self {
            RecorderError::AlreadyRecording => "Recording already in progress",
            RecorderError::NotRecording => "No recording in progress",
            RecorderError::ActorUnavailable => "Recorder thread unavailable",
            RecorderError::ResponseLost => "Recorder response channel closed",
            RecorderError::Device(DeviceError::NoInputDevice) => "No audio input device available",
            RecorderError::Device(DeviceError::ConfigUnavailable) => "Failed to read default input config",
            RecorderError::Device(DeviceError::UnsupportedSampleFormat) => "Unsupported audio sample format",
            RecorderError::Device(DeviceError::NoChannels) => "Audio input device has no channels",
            RecorderError::Device(DeviceError::SampleRateTooHigh) => "Audio sample rate is too high",
            RecorderError::Device(DeviceError::StreamBuildFailed) => "Failed to build audio stream",
            RecorderError::Device(DeviceError::StreamStartFailed) => "Failed to start audio stream",
            RecorderError::Io(IoError::DataDirUnavailable) => "Failed to resolve data directory",
            RecorderError::Io(IoError::CreateDirectoryFailed) => "Failed to create recordings directory",
            RecorderError::Io(IoError::ClockUnavailable) => "Failed to read system time",
            RecorderError::Io(IoError::CreateFileFailed) => "Failed to create WAV output file",
            RecorderError::Io(IoError::WriteFailed) => "Failed to write audio sample",
            RecorderError::Io(IoError::FinalizeFailed) => "Failed to finalize WAV file",
            RecorderError::Io(IoError::EncoderLost) => "Failed to join writer thread",
            RecorderError::Io(IoError::NoNameLeft) => "No file name left for another recording",
        };
        String::from_str(text)
    }
}

} // verus!
