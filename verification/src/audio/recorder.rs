//! The recorder: the single owner of the capture session.
//!
//! One thread owns a `NativeRecorder` and feeds it the commands that arrive,
//! one at a time. The recorder decides; the thread carries out. A command is
//! answered at once, or it asks the thread to open or to close the session,
//! and the thread reports back how that went. The session is `Idle`,
//! `Recording` or `Paused`, and only these reports move it into or out of
//! `Idle`.

use vstd::prelude::*;
use vstd::string::StringExecFns;
use std::sync::atomic::AtomicBool;
use std::sync::Arc;
use crate::audio::channel::MAX_CHANNEL_CAPACITY;
use crate::audio::encoder::{container_spec_of, ContainerSpec};
use crate::audio::error::{DeviceError, IoError, RecorderError};
use crate::audio::flags::{lower, new_flag, raise};
use crate::text::{decimal, lemma_decimal_injective, push_decimal};

verus! {

/// The commands of the control surface.
#[derive(Clone, Copy, Debug, PartialEq, Eq, Structural)]
pub enum RecorderCommand {
    Start,
    Stop,
    Pause,
    Resume,
    IsRecording,
}

/// The answer to a command.
#[derive(Clone, Debug, PartialEq, Eq)]
pub enum RecorderReply {
    /// `Start` succeeded; the session writes to this path.
    Started(String),
    /// `Stop` succeeded; the finished recording is at this path.
    Stopped(String),
    Paused,
    Resumed,
    /// The answer to `IsRecording`.
    Recording(bool),
    Failed(RecorderError),
}

/// What the recorder thread does for a command.
#[derive(Clone, Debug, PartialEq, Eq)]
pub enum RecorderStep {
    /// Send this reply.
    Reply(RecorderReply),
    /// Resolve the output path, open the device, spawn the encoder and start
    /// the stream; then report through `session_opened` or `session_failed`.
    OpenSession,
    /// Drop the stream and join the encoder; then report through
    /// `session_closed`. The stop flag is raised already.
    CloseSession,
}

/// The state of the session, as contracts see it.
pub enum SessionState {
    Idle,
    Recording { path: Seq<char> },
    Paused { path: Seq<char> },
}

impl SessionState {
    /// Whether a session is active, recording or paused.
    pub open spec fn active(self) -> bool {
        !(self is Idle)
    }

    /// The output path of the active session.
    pub open spec fn path(self) -> Option<Seq<char>> {
        match self {
            SessionState::Idle => None,
            SessionState::Recording { path } => Some(path),
            SessionState::Paused { path } => Some(path),
        }
    }
}

/// The session after `command`, as far as the command alone decides it:
/// `Pause` and `Resume` move an active session between `Recording` and
/// `Paused`, and nothing else changes anything.
pub open spec fn after_command(state: SessionState, command: RecorderCommand) -> SessionState {
    match (command, state) {
        (RecorderCommand::Pause, SessionState::Recording { path }) => SessionState::Paused { path },
        (RecorderCommand::Resume, SessionState::Paused { path }) => SessionState::Recording { path },
        _ => state,
    }
}

/// Whether `command` in `state` asks the thread to open a session.
pub open spec fn opens_session(state: SessionState, command: RecorderCommand) -> bool {
    command is Start && !state.active()
}

/// Whether `command` in `state` asks the thread to close the session.
pub open spec fn closes_session(state: SessionState, command: RecorderCommand) -> bool {
    command is Stop && state.active()
}

/// Whether `reply` is the immediate answer to `command` in `state`.
pub open spec fn answers(state: SessionState, command: RecorderCommand, reply: RecorderReply) -> bool {
    match command {
        RecorderCommand::Start => state.active() && reply == RecorderReply::Failed(
            RecorderError::AlreadyRecording,
        ),
        RecorderCommand::Stop => !state.active() && reply == RecorderReply::Failed(
            RecorderError::NotRecording,
        ),
        RecorderCommand::Pause => if state.active() {
            reply == RecorderReply::Paused
        } else {
            reply == RecorderReply::Failed(RecorderError::NotRecording)
        },
        RecorderCommand::Resume => if state.active() {
            reply == RecorderReply::Resumed
        } else {
            reply == RecorderReply::Failed(RecorderError::NotRecording)
        },
        RecorderCommand::IsRecording => reply == RecorderReply::Recording(state.active()),
    }
}

struct ActiveSession {
    path: String,
    paused: bool,
}

/// The recorder's private state: the session, if one is active, and the two
/// flags it shares with the capture callback and the encoder.
pub struct NativeRecorder {
    stop_flag: Arc<AtomicBool>,
    pause_flag: Arc<AtomicBool>,
    session: Option<ActiveSession>,
    opened: Ghost<nat>,
    stop_raised: Ghost<bool>,
    last_stamp: Option<u64>,
}

impl View for NativeRecorder {
    type V = SessionState;

    closed spec fn view(&self) -> SessionState {
        match self.session {
            None => SessionState::Idle,
            Some(session) => if session.paused {
                SessionState::Paused { path: session.path@ }
            } else {
                SessionState::Recording { path: session.path@ }
            },
        }
    }
}

/// `Arc::clone` on a flag: another handle to the same flag.
#[verifier::external_body]
fn share_flag(flag: &Arc<AtomicBool>) -> (shared: Arc<AtomicBool>)
    ensures
        shared == *flag,
{
    Arc::clone(flag)
}

impl NativeRecorder {
    /// The number of sessions opened so far. It tells one session from the
    /// next.
    pub closed spec fn sessions_opened(&self) -> nat {
        self.opened@
    }

    /// Whether the recorder has raised the stop flag that `stop_flag` hands
    /// out. The recorder alone writes the flag, so this is what a reader of
    /// the flag finds. The pause flag needs no such account: it is raised
    /// exactly while the session is `Paused`.
    pub closed spec fn stop_signalled(&self) -> bool {
        self.stop_raised@
    }

    /// The stamp in the file name of the session named last, if any was
    /// named yet.
    pub closed spec fn last_stamp(&self) -> Option<u64> {
        self.last_stamp
    }

    /// Whether `stamp` is out of use for this recorder: a session was named
    /// after it, or after a later one. Such a stamp is never given again.
    pub open spec fn stamp_used(&self, stamp: u64) -> bool {
        self.last_stamp() matches Some(last) && stamp <= last
    }

    /// The stop flag that the recorder holds: the one it raises on `Stop`.
    pub closed spec fn stop_handle(&self) -> Arc<AtomicBool> {
        self.stop_flag
    }

    /// The pause flag that the recorder holds: the one it raises on `Pause`
    /// and lowers on `Resume` and when the session is closed.
    pub closed spec fn pause_handle(&self) -> Arc<AtomicBool> {
        self.pause_flag
    }

    /// An idle recorder.
    pub fn new() -> (recorder: Self)
        ensures
            recorder@ is Idle,
            recorder.sessions_opened() == 0,
            !recorder.stop_signalled(),
            recorder.last_stamp() is None,
    {
        NativeRecorder {
            stop_flag: new_flag(),
            pause_flag: new_flag(),
            session: None,
            opened: Ghost(0),
            stop_raised: Ghost(false),
            last_stamp: None,
        }
    }

    /// Whether a session is active.
    pub fn is_recording(&self) -> (active: bool)
        ensures
            active == self@.active(),
    {
        self.session.is_some()
    }

    /// Whether the active session is paused.
    pub fn is_paused(&self) -> (paused: bool)
        ensures
            paused == (self@ is Paused),
    {
        match &self.session {
            Some(session) => session.paused,
            None => false,
        }
    }

    /// The output path of the active session.
    pub fn output_path(&self) -> (path: Option<String>)
        ensures
            path is Some <==> self@.active(),
            path is Some ==> Some(path.unwrap()@) == self@.path(),
    {
        match &self.session {
            Some(session) => Some(session.path.clone()),
            None => None,
        }
    }

    /// A handle to the stop flag of the session being opened or running, for
    /// the encoder: another handle to the very flag that the recorder holds.
    pub fn stop_flag(&self) -> (flag: Arc<AtomicBool>)
        ensures
            flag == self.stop_handle(),
    {
        share_flag(&self.stop_flag)
    }

    /// A handle to the pause flag of the session being opened or running, for
    /// the capture callback: another handle to the very flag that the
    /// recorder holds.
    pub fn pause_flag(&self) -> (flag: Arc<AtomicBool>)
        ensures
            flag == self.pause_handle(),
    {
        share_flag(&self.pause_flag)
    }

    /// Names the output file of the session being opened, given the clock's
    /// reading in seconds after the Unix epoch.
    ///
    /// The name carries a stamp. The stamp is the clock's second, unless a
    /// session of this recorder was named after that second or a later one
    /// already: then it is the stamp of the session named last, plus one. So
    /// the stamp is one that was not in use, it is in use from now on, and no
    /// two sessions of one recorder get the same name, however fast they
    /// follow each other and wherever the clock goes. Where no later stamp
    /// exists the call fails with `NoNameLeft` and changes nothing.
    pub fn name_session(&mut self, clock_secs: u64) -> (name: Result<String, RecorderError>)
        ensures
            final(self)@ == old(self)@,
            final(self).sessions_opened() == old(self).sessions_opened(),
            final(self).stop_signalled() == old(self).stop_signalled(),
            final(self).stop_handle() == old(self).stop_handle(),
            final(self).pause_handle() == old(self).pause_handle(),
            match next_stamp(old(self).last_stamp(), clock_secs) {
                Some(stamp) => {
                    &&& name is Ok
                    &&& name.unwrap()@ == recording_file_name_spec(stamp)
                    &&& !old(self).stamp_used(stamp)
                    &&& final(self).last_stamp() == Some(stamp)
                },
                None => {
                    &&& name == Err::<String, RecorderError>(RecorderError::Io(IoError::NoNameLeft))
                    &&& final(self).last_stamp() == old(self).last_stamp()
                },
            },
            forall|stamp: u64| old(self).stamp_used(stamp) ==> final(self).stamp_used(stamp),
    {
        let stamp = match self.last_stamp {
            None => clock_secs,
            Some(last) => {
                if clock_secs > last {
                    clock_secs
                } else if last < u64::MAX {
                    last + 1
                } else {
                    return Err(RecorderError::Io(IoError::NoNameLeft));
                }
            },
        };
        self.last_stamp = Some(stamp);
        Ok(recording_file_name(stamp))
    }

    /// Decides one command.
    ///
    /// `Start` on an idle recorder and `Stop` on an active one hand the work
    /// to the thread and leave the session as it is until the thread reports
    /// back. `Start` gives the session to be opened a fresh pair of flags,
    /// both lowered, and `Stop` raises the stop flag before it answers. No
    /// other command changes which flags the recorder holds, so the handles
    /// given out for a session stay good until the next one is opened.
    /// Every other case is answered at once: `Start` on an active
    /// recorder with `AlreadyRecording`; `Stop`, `Pause` and `Resume` on an
    /// idle one with `NotRecording`; `Pause` and `Resume` on an active one by
    /// setting the pause flag; `IsRecording` with whether a session is
    /// active. No command opens a session by itself.
    pub fn handle(&mut self, command: RecorderCommand) -> (step: RecorderStep)
        ensures
            final(self)@ == after_command(old(self)@, command),
            final(self).sessions_opened() == old(self).sessions_opened(),
            final(self).last_stamp() == old(self).last_stamp(),
            final(self).stop_signalled() == if opens_session(old(self)@, command) {
                false
            } else if closes_session(old(self)@, command) {
                true
            } else {
                old(self).stop_signalled()
            },
            !opens_session(old(self)@, command) ==> {
                &&& final(self).stop_handle() == old(self).stop_handle()
                &&& final(self).pause_handle() == old(self).pause_handle()
            },
            step is OpenSession <==> opens_session(old(self)@, command),
            step is CloseSession <==> closes_session(old(self)@, command),
            step matches RecorderStep::Reply(reply) ==> answers(old(self)@, command, reply),
    {
        match command {
            RecorderCommand::Start => {
                if self.session.is_some() {
                    RecorderStep::Reply(RecorderReply::Failed(RecorderError::AlreadyRecording))
                } else {
                    self.stop_flag = new_flag();
                    self.pause_flag = new_flag();
                    proof {
                        self.stop_raised@ = false;
                    }
                    RecorderStep::OpenSession
                }
            },
            RecorderCommand::Stop => {
                if self.session.is_some() {
                    raise(&self.stop_flag);
                    proof {
                        self.stop_raised@ = true;
                    }
                    RecorderStep::CloseSession
                } else {
                    RecorderStep::Reply(RecorderReply::Failed(RecorderError::NotRecording))
                }
            },
            RecorderCommand::Pause => {
                match self.session.take() {
                    Some(session) => {
                        raise(&self.pause_flag);
                        self.session = Some(ActiveSession { path: session.path, paused: true });
                        RecorderStep::Reply(RecorderReply::Paused)
                    },
                    None => RecorderStep::Reply(RecorderReply::Failed(RecorderError::NotRecording)),
                }
            },
            RecorderCommand::Resume => {
                match self.session.take() {
                    Some(session) => {
                        lower(&self.pause_flag);
                        self.session = Some(ActiveSession { path: session.path, paused: false });
                        RecorderStep::Reply(RecorderReply::Resumed)
                    },
                    None => RecorderStep::Reply(RecorderReply::Failed(RecorderError::NotRecording)),
                }
            },
            RecorderCommand::IsRecording => {
                RecorderStep::Reply(RecorderReply::Recording(self.session.is_some()))
            },
        }
    }

    /// The thread reports that the session is open and writes to `path`. An
    /// idle recorder becomes `Recording` and answers `Started` with the path.
    /// A recorder that has a session already keeps it and answers
    /// `AlreadyRecording`.
    pub fn session_opened(&mut self, path: String) -> (reply: RecorderReply)
        ensures
            final(self).stop_signalled() == old(self).stop_signalled(),
            final(self).stop_handle() == old(self).stop_handle(),
            final(self).pause_handle() == old(self).pause_handle(),
            final(self).last_stamp() == old(self).last_stamp(),
            old(self)@.active() ==> {
                &&& final(self)@ == old(self)@
                &&& final(self).sessions_opened() == old(self).sessions_opened()
                &&& reply == RecorderReply::Failed(RecorderError::AlreadyRecording)
            },
            !old(self)@.active() ==> {
                &&& final(self)@ == (SessionState::Recording { path: path@ })
                &&& final(self).sessions_opened() == old(self).sessions_opened() + 1
                &&& reply matches RecorderReply::Started(started)
                &&& started@ == path@
            },
    {
        if self.session.is_some() {
            return RecorderReply::Failed(RecorderError::AlreadyRecording);
        }
        let started = path.clone();
        self.session = Some(ActiveSession { path, paused: false });
        proof {
            self.opened@ = self.opened@ + 1;
        }
        RecorderReply::Started(started)
    }

    /// The thread reports that the session could not be opened. Nothing of
    /// the attempt is kept: the recorder stays as it was and answers with the
    /// error.
    pub fn session_failed(&mut self, error: RecorderError) -> (reply: RecorderReply)
        ensures
            final(self)@ == old(self)@,
            final(self).sessions_opened() == old(self).sessions_opened(),
            final(self).stop_signalled() == old(self).stop_signalled(),
            final(self).stop_handle() == old(self).stop_handle(),
            final(self).pause_handle() == old(self).pause_handle(),
            final(self).last_stamp() == old(self).last_stamp(),
            reply == RecorderReply::Failed(error),
    {
        RecorderReply::Failed(error)
    }

    /// The thread reports that the stream is dropped and the encoder joined,
    /// with the encoder's result. The recorder is `Idle` afterwards whatever
    /// the result, and the pause flag is lowered. An active recorder answers
    /// `Stopped` with the output path where the encoder succeeded, and with
    /// the encoder's error where it failed; an idle one answers
    /// `NotRecording`.
    pub fn session_closed(&mut self, outcome: Result<(), RecorderError>) -> (reply: RecorderReply)
        ensures
            final(self)@ is Idle,
            final(self).sessions_opened() == old(self).sessions_opened(),
            final(self).stop_signalled() == old(self).stop_signalled(),
            final(self).stop_handle() == old(self).stop_handle(),
            final(self).pause_handle() == old(self).pause_handle(),
            final(self).last_stamp() == old(self).last_stamp(),
            !old(self)@.active() ==> reply == RecorderReply::Failed(RecorderError::NotRecording),
            old(self)@.active() ==> match outcome {
                Ok(_) => {
                    &&& reply matches RecorderReply::Stopped(path)
                    &&& Some(path@) == old(self)@.path()
                },
                Err(error) => reply == RecorderReply::Failed(error),
            },
    {
        match self.session.take() {
            None => RecorderReply::Failed(RecorderError::NotRecording),
            Some(session) => {
                lower(&self.pause_flag);
                match outcome {
                    Ok(_) => RecorderReply::Stopped(session.path),
                    Err(error) => RecorderReply::Failed(error),
                }
            },
        }
    }
}

/// Misuse changes nothing: `Stop` on an idle recorder is answered with
/// `NotRecording` and leaves it idle, and `Start` on an active recorder is
/// answered with `AlreadyRecording` and leaves the session as it was.
pub proof fn lemma_misuse_is_harmless(state: SessionState, reply: RecorderReply)
    ensures
        !state.active() ==> {
            &&& after_command(state, RecorderCommand::Stop) == state
            &&& !closes_session(state, RecorderCommand::Stop)
            &&& !opens_session(state, RecorderCommand::Stop)
            &&& (answers(state, RecorderCommand::Stop, reply) ==> reply == RecorderReply::Failed(
                RecorderError::NotRecording,
            ))
        },
        state.active() ==> {
            &&& after_command(state, RecorderCommand::Start) == state
            &&& !opens_session(state, RecorderCommand::Start)
            &&& !closes_session(state, RecorderCommand::Start)
            &&& (answers(state, RecorderCommand::Start, reply) ==> reply == RecorderReply::Failed(
                RecorderError::AlreadyRecording,
            ))
        },
{
}

/// Pause and resume keep the session: after `Pause` then `Resume` an active
/// session is recording to the same path, and neither command asks the
/// thread to open or close anything, so the device stream is not touched.
pub proof fn lemma_pause_resume_keeps_session(state: SessionState)
    requires
        state.active(),
    ensures
        ({
            let paused = after_command(state, RecorderCommand::Pause);
            let resumed = after_command(paused, RecorderCommand::Resume);
            &&& paused is Paused
            &&& resumed is Recording
            &&& paused.path() == state.path()
            &&& resumed.path() == state.path()
            &&& !opens_session(state, RecorderCommand::Pause)
            &&& !closes_session(state, RecorderCommand::Pause)
            &&& !opens_session(paused, RecorderCommand::Resume)
            &&& !closes_session(paused, RecorderCommand::Resume)
        }),
{
}

/// The sample encodings a capture device may deliver.
#[derive(Clone, Copy, Debug, PartialEq, Eq, Structural)]
pub enum SampleEncoding {
    /// 32-bit floating point.
    F32,
    /// Signed 16-bit integer.
    I16,
    /// Unsigned 16-bit integer.
    U16,
    /// Any other encoding.
    Other,
}

/// What the device negotiated.
#[derive(Clone, Copy, Debug, PartialEq, Eq, Structural)]
pub struct DeviceConfig {
    pub encoding: SampleEncoding,
    pub sample_rate: u32,
    pub channels: u16,
}

/// What a session is set up with.
#[derive(Clone, Copy, Debug, PartialEq, Eq, Structural)]
pub struct SessionPlan {
    /// One of the three supported encodings.
    pub encoding: SampleEncoding,
    pub sample_rate: u32,
    /// Samples per frame, at least one.
    pub channels: usize,
    /// Capacity of the sample channel: one second of mono samples.
    pub queue_capacity: usize,
    pub container: ContainerSpec,
}

/// The plan for a device configuration that capture supports.
pub open spec fn plan_of(config: DeviceConfig) -> SessionPlan {
    SessionPlan {
        encoding: config.encoding,
        sample_rate: config.sample_rate,
        channels: config.channels as usize,
        queue_capacity: config.sample_rate as usize,
        container: container_spec_of(config.sample_rate),
    }
}

/// Why a device configuration cannot be captured from, if it cannot.
pub open spec fn plan_error(config: DeviceConfig) -> Option<DeviceError> {
    if config.encoding is Other {
        Some(DeviceError::UnsupportedSampleFormat)
    } else if config.channels == 0 {
        Some(DeviceError::NoChannels)
    } else if config.sample_rate > MAX_CHANNEL_CAPACITY {
        Some(DeviceError::SampleRateTooHigh)
    } else {
        None
    }
}

/// Plans a session for the negotiated device configuration: the sample
/// channel holds one second of samples, and the container is mono, 16-bit, at
/// the device's sample rate.
pub fn plan_session(config: DeviceConfig) -> (plan: Result<SessionPlan, RecorderError>)
    ensures
        match plan_error(config) {
            Some(error) => plan == Err::<SessionPlan, RecorderError>(RecorderError::Device(error)),
            None => plan == Ok::<SessionPlan, RecorderError>(plan_of(config)),
        },
{
    match config.encoding {
        SampleEncoding::Other => {
            return Err(RecorderError::Device(DeviceError::UnsupportedSampleFormat));
        },
        _ => {},
    }
    if config.channels == 0 {
        return Err(RecorderError::Device(DeviceError::NoChannels));
    }
    if config.sample_rate as usize > MAX_CHANNEL_CAPACITY {
        return Err(RecorderError::Device(DeviceError::SampleRateTooHigh));
    }
    Ok(
        SessionPlan {
            encoding: config.encoding,
            sample_rate: config.sample_rate,
            channels: config.channels as usize,
            queue_capacity: config.sample_rate as usize,
            container: ContainerSpec {
                channels: 1,
                sample_rate: config.sample_rate,
                bits_per_sample: 16,
                integer_pcm: true,
            },
        },
    )
}

/// The application's directory under the per-user local data directory.
pub const APP_DATA_DIR: &'static str = "cogniscribe";

/// The recordings directory under the application's directory.
pub const RECORDINGS_DIR: &'static str = "recordings";

/// The stamp of the next session, given the stamp of the session named last
/// and the clock's second: the clock's second where it is later than every
/// stamp given so far, else the stamp given last plus one, and none where
/// there is no later one.
pub open spec fn next_stamp(last: Option<u64>, clock_secs: u64) -> Option<u64> {
    match last {
        None => Some(clock_secs),
        Some(last) => if clock_secs > last {
            Some(clock_secs)
        } else if last < u64::MAX {
            Some((last + 1) as u64)
        } else {
            None
        },
    }
}

/// The file name of the recording with the stamp `timestamp`, which is the
/// second in which it was started unless the recorder had used that second
/// already.
pub open spec fn recording_file_name_spec(timestamp: u64) -> Seq<char> {
    "cogniscribe-recording-"@ + decimal(timestamp as nat) + ".wav"@
}

/// The file name of the recording with the stamp `timestamp`.
pub fn recording_file_name(timestamp: u64) -> (name: String)
    ensures
        name@ == recording_file_name_spec(timestamp),
{
    let mut name = String::from_str("cogniscribe-recording-");
    push_decimal(&mut name, timestamp);
    name.append(".wav");
    name
}

/// No two sessions of one recorder share a file name. Whatever stamp is out
/// of use when a session is named, be it that of the session before or of
/// any earlier one, the new session's stamp is later, and its name another.
pub proof fn lemma_session_names_are_unique(last: Option<u64>, clock_secs: u64, earlier: u64)
    requires
        last matches Some(used) && earlier <= used,
        next_stamp(last, clock_secs) is Some,
    ensures
        next_stamp(last, clock_secs).unwrap() > earlier,
        recording_file_name_spec(next_stamp(last, clock_secs).unwrap())
            != recording_file_name_spec(earlier),
{
    if recording_file_name_spec(next_stamp(last, clock_secs).unwrap())
        == recording_file_name_spec(earlier) {
        lemma_file_names_differ(next_stamp(last, clock_secs).unwrap(), earlier);
    }
}

/// Different stamps make different file names.
pub proof fn lemma_file_names_differ(first: u64, second: u64)
    requires
        recording_file_name_spec(first) == recording_file_name_spec(second),
    ensures
        first == second,
{
    let prefix = "cogniscribe-recording-"@;
    let suffix = ".wav"@;
    let a = decimal(first as nat);
    let b = decimal(second as nat);
    let left = prefix + a + suffix;
    let right = prefix + b + suffix;
    assert(left.len() == right.len());
    assert(a.len() == b.len());
    assert(left.subrange(prefix.len() as int, (prefix.len() + a.len()) as int) =~= a);
    assert(right.subrange(prefix.len() as int, (prefix.len() + b.len()) as int) =~= b);
    lemma_decimal_injective(first as nat, second as nat);
}

} // verus!
