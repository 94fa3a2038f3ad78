//! The controller: the handle through which callers reach the recorder.
//!
//! Every call opens a reply channel of its own, sends the command together
//! with the sending end of that channel to the recorder thread, and blocks
//! until the reply arrives. The channels are `crossbeam_channel`'s. What
//! comes back depends on the recorder thread, so the calls promise only what
//! holds of every reply: with which errors a command can fail. How a reply
//! is read is decided by the `read_*` functions, which are exact. A reply
//! that is no answer to the command sent counts as no reply.

use vstd::prelude::*;
use crossbeam_channel::{Receiver, Sender};
use crate::audio::channel::bounded_channel;
use crate::audio::error::RecorderError;
use crate::audio::recorder::{RecorderCommand, RecorderReply};

verus! {

/// Capacity of the command queue.
pub const COMMAND_QUEUE_CAPACITY: usize = 8;

/// A command on its way to the recorder thread, with the channel to answer
/// on.
pub struct RecorderRequest {
    pub command: RecorderCommand,
    pub reply_to: Sender<RecorderReply>,
}

impl RecorderRequest {
    /// The request that asks for `command` and is answered on `reply_to`.
    pub fn new(command: RecorderCommand, reply_to: Sender<RecorderReply>) -> (request: Self)
        ensures
            request.command == command,
            request.reply_to == reply_to,
    {
        RecorderRequest { command, reply_to }
    }
}

/// What a call of the control surface can come to: a reading of some outcome
/// of an exchange, where the exchange itself fails in its two ways only.
pub open spec fn is_exchange_outcome(outcome: Result<RecorderReply, RecorderError>) -> bool {
    outcome matches Err(error) ==> exchange_failure(error)
}

/// `Sender::send`: blocks until the request is queued, and says whether it
/// was; it was not when the receiving end is gone.
#[verifier::external_body]
fn send_request(queue: &Sender<RecorderRequest>, request: RecorderRequest) -> (sent: bool) {
    queue.send(request).is_ok()
}

/// `Receiver::recv`: blocks until a reply arrives, and gives `None` when the
/// channel closes without one.
#[verifier::external_body]
fn recv_reply(replies: &Receiver<RecorderReply>) -> (reply: Option<RecorderReply>) {
    replies.recv().ok()
}

/// What one exchange with the recorder thread came to: the command could not
/// be queued, or it was queued and the reply channel closed without a reply,
/// or the reply.
pub open spec fn exchange_spec(sent: bool, reply: Option<RecorderReply>) -> Result<
    RecorderReply,
    RecorderError,
> {
    if !sent {
        Err(RecorderError::ActorUnavailable)
    } else {
        match reply {
            Some(reply) => Ok(reply),
            None => Err(RecorderError::ResponseLost),
        }
    }
}

/// Reads the outcome of one exchange: `ActorUnavailable` where the command
/// could not be queued, `ResponseLost` where it was queued and no reply came,
/// the reply otherwise.
pub fn read_exchange(sent: bool, reply: Option<RecorderReply>) -> (outcome: Result<
    RecorderReply,
    RecorderError,
>)
    ensures
        outcome == exchange_spec(sent, reply),
{
    if !sent {
        return Err(RecorderError::ActorUnavailable);
    }
    match reply {
        Some(reply) => Ok(reply),
        None => Err(RecorderError::ResponseLost),
    }
}

/// Whether `error` is one of the two ways in which the exchange itself
/// fails.
pub open spec fn exchange_failure(error: RecorderError) -> bool {
    error == RecorderError::ActorUnavailable || error == RecorderError::ResponseLost
}

/// Whether the recorder can answer `command` with `error`.
///
/// `Start` fails with `AlreadyRecording`, or with the device or I/O error
/// that kept the session from opening. `Stop` fails with `NotRecording`, or
/// with the I/O error that the encoder ended with. `Pause` and `Resume` fail
/// with `NotRecording` only, and `IsRecording` does not fail.
pub open spec fn may_fail_with(command: RecorderCommand, error: RecorderError) -> bool {
    match command {
        RecorderCommand::Start => error is AlreadyRecording || error is Device || error is Io,
        RecorderCommand::Stop => error is NotRecording || error is Io,
        RecorderCommand::Pause => error is NotRecording,
        RecorderCommand::Resume => error is NotRecording,
        RecorderCommand::IsRecording => false,
    }
}

/// Whether the recorder can answer `command` with `error`.
pub fn can_fail_with(command: RecorderCommand, error: RecorderError) -> (can: bool)
    ensures
        can == may_fail_with(command, error),
{
    match command {
        RecorderCommand::Start => match error {
            RecorderError::AlreadyRecording => true,
            RecorderError::Device(_) => true,
            RecorderError::Io(_) => true,
            _ => false,
        },
        RecorderCommand::Stop => match error {
            RecorderError::NotRecording => true,
            RecorderError::Io(_) => true,
            _ => false,
        },
        RecorderCommand::Pause => match error {
            RecorderError::NotRecording => true,
            _ => false,
        },
        RecorderCommand::Resume => match error {
            RecorderError::NotRecording => true,
            _ => false,
        },
        RecorderCommand::IsRecording => false,
    }
}

/// What the outcome of an exchange means to the caller of `Start` or `Stop`:
/// the path from `Started` for `Start` and from `Stopped` for `Stop`, the
/// error from a `Failed` that the command can be answered with, and
/// `ResponseLost` for every reply that is no answer to the command.
pub open spec fn path_reading(
    command: RecorderCommand,
    outcome: Result<RecorderReply, RecorderError>,
) -> Result<String, RecorderError> {
    match outcome {
        Err(error) => Err(error),
        Ok(RecorderReply::Started(path)) => if command is Start {
            Ok(path)
        } else {
            Err(RecorderError::ResponseLost)
        },
        Ok(RecorderReply::Stopped(path)) => if command is Stop {
            Ok(path)
        } else {
            Err(RecorderError::ResponseLost)
        },
        Ok(RecorderReply::Failed(error)) => if may_fail_with(command, error) {
            Err(error)
        } else {
            Err(RecorderError::ResponseLost)
        },
        Ok(_) => Err(RecorderError::ResponseLost),
    }
}

/// What the outcome of an exchange means to the caller of `Pause` or
/// `Resume`: success from `Paused` for `Pause` and from `Resumed` for
/// `Resume`, the error from a `Failed` that the command can be answered
/// with, and `ResponseLost` for every reply that is no answer to the
/// command.
pub open spec fn done_reading(
    command: RecorderCommand,
    outcome: Result<RecorderReply, RecorderError>,
) -> Result<(), RecorderError> {
    match outcome {
        Err(error) => Err(error),
        Ok(RecorderReply::Paused) => if command is Pause {
            Ok(())
        } else {
            Err(RecorderError::ResponseLost)
        },
        Ok(RecorderReply::Resumed) => if command is Resume {
            Ok(())
        } else {
            Err(RecorderError::ResponseLost)
        },
        Ok(RecorderReply::Failed(error)) => if may_fail_with(command, error) {
            Err(error)
        } else {
            Err(RecorderError::ResponseLost)
        },
        Ok(_) => Err(RecorderError::ResponseLost),
    }
}

/// Reads the reply to `Start` or `Stop`, whichever `command` is.
pub fn read_path(command: RecorderCommand, outcome: Result<RecorderReply, RecorderError>) -> (result:
    Result<String, RecorderError>)
    ensures
        result == path_reading(command, outcome),
{
    match outcome {
        Err(error) => Err(error),
        Ok(RecorderReply::Started(path)) => match command {
            RecorderCommand::Start => Ok(path),
            _ => Err(RecorderError::ResponseLost),
        },
        Ok(RecorderReply::Stopped(path)) => match command {
            RecorderCommand::Stop => Ok(path),
            _ => Err(RecorderError::ResponseLost),
        },
        Ok(RecorderReply::Failed(error)) => if can_fail_with(command, error) {
            Err(error)
        } else {
            Err(RecorderError::ResponseLost)
        },
        Ok(_) => Err(RecorderError::ResponseLost),
    }
}

/// Reads the reply to `Pause` or `Resume`, whichever `command` is.
pub fn read_done(command: RecorderCommand, outcome: Result<RecorderReply, RecorderError>) -> (result:
    Result<(), RecorderError>)
    ensures
        result == done_reading(command, outcome),
{
    match outcome {
        Err(error) => Err(error),
        Ok(RecorderReply::Paused) => match command {
            RecorderCommand::Pause => Ok(()),
            _ => Err(RecorderError::ResponseLost),
        },
        Ok(RecorderReply::Resumed) => match command {
            RecorderCommand::Resume => Ok(()),
            _ => Err(RecorderError::ResponseLost),
        },
        Ok(RecorderReply::Failed(error)) => if can_fail_with(command, error) {
            Err(error)
        } else {
            Err(RecorderError::ResponseLost)
        },
        Ok(_) => Err(RecorderError::ResponseLost),
    }
}

/// What the outcome of an exchange means to the caller of `IsRecording`:
/// the answer from `Recording`, and `ResponseLost` for every other reply.
/// The question whether a session is active never fails, so a `Failed` reply
/// to it is no answer either.
pub open spec fn state_reading(outcome: Result<RecorderReply, RecorderError>) -> Result<
    bool,
    RecorderError,
> {
    match outcome {
        Ok(RecorderReply::Recording(active)) => Ok(active),
        Ok(_) => Err(RecorderError::ResponseLost),
        Err(error) => Err(error),
    }
}

/// Reads the reply to `IsRecording`.
pub fn read_state(outcome: Result<RecorderReply, RecorderError>) -> (result: Result<bool, RecorderError>)
    ensures
        result == state_reading(outcome),
{
    match outcome {
        Ok(RecorderReply::Recording(active)) => Ok(active),
        Ok(_) => Err(RecorderError::ResponseLost),
        Err(error) => Err(error),
    }
}

/// The thread-safe front end of the recorder. Clones share one command
/// queue.
#[derive(Clone)]
pub struct NativeRecorderController {
    command_tx: Sender<RecorderRequest>,
}

impl NativeRecorderController {
    /// Creates the command queue of a recorder, hands its receiving end to
    /// `spawn`, which starts the recorder thread on it, and gives the
    /// controller for the sending end. `spawn` has run, once, when the
    /// controller is returned.
    pub fn new<F: FnOnce(Receiver<RecorderRequest>)>(spawn: F) -> (controller: Self)
        requires
            forall|requests: Receiver<RecorderRequest>| spawn.requires((requests,)),
        ensures
            exists|requests: Receiver<RecorderRequest>| spawn.ensures((requests,), ()),
    {
        let (command_tx, requests) = bounded_channel::<RecorderRequest>(COMMAND_QUEUE_CAPACITY);
        let ghost handed = requests;
        spawn(requests);
        assert(spawn.ensures((handed,), ()));
        NativeRecorderController { command_tx }
    }

    /// Sends the request for `command`, made by `RecorderRequest::new` with
    /// a reply channel of its own, and waits for the reply. The exchange
    /// itself fails in two ways only: with `ActorUnavailable` where the
    /// request could not be queued, and with `ResponseLost` where no reply
    /// came.
    fn exchange(&self, command: RecorderCommand) -> (outcome: Result<RecorderReply, RecorderError>)
        ensures
            is_exchange_outcome(outcome),
    {
        let (reply_to, replies) = bounded_channel::<RecorderReply>(1);
        let sent = send_request(&self.command_tx, RecorderRequest::new(command, reply_to));
        let reply = if sent {
            recv_reply(&replies)
        } else {
            None
        };
        read_exchange(sent, reply)
    }

    /// Starts a session and gives its output path: what `path_reading` makes
    /// of the exchange for `Start`. It fails with
    /// `AlreadyRecording`, with the device or I/O error that kept the session
    /// from opening, or with one of the two failures of the exchange, and
    /// with nothing else.
    pub fn start(&self) -> (result: Result<String, RecorderError>)
        ensures
            exists|outcome: Result<RecorderReply, RecorderError>|
                is_exchange_outcome(outcome) && result == #[trigger] path_reading(
                    RecorderCommand::Start,
                    outcome,
                ),
            result matches Err(error) ==> may_fail_with(RecorderCommand::Start, error)
                || exchange_failure(error),
    {
        read_path(RecorderCommand::Start, self.exchange(RecorderCommand::Start))
    }

    /// Stops the session and gives the path of the finished recording: what
    /// `path_reading` makes of the exchange for `Stop`. It fails with `NotRecording`, with the I/O error that the encoder ended
    /// with, or with one of the two failures of the exchange, and with
    /// nothing else.
    pub fn stop(&self) -> (result: Result<String, RecorderError>)
        ensures
            exists|outcome: Result<RecorderReply, RecorderError>|
                is_exchange_outcome(outcome) && result == #[trigger] path_reading(
                    RecorderCommand::Stop,
                    outcome,
                ),
            result matches Err(error) ==> may_fail_with(RecorderCommand::Stop, error)
                || exchange_failure(error),
    {
        read_path(RecorderCommand::Stop, self.exchange(RecorderCommand::Stop))
    }

    /// Pauses the session: what `done_reading` makes of the exchange for
    /// `Pause`. It fails with `NotRecording` or with one of the two failures
    /// of the exchange, and with nothing else.
    pub fn pause(&self) -> (result: Result<(), RecorderError>)
        ensures
            exists|outcome: Result<RecorderReply, RecorderError>|
                is_exchange_outcome(outcome) && result == #[trigger] done_reading(
                    RecorderCommand::Pause,
                    outcome,
                ),
            result matches Err(error) ==> may_fail_with(RecorderCommand::Pause, error)
                || exchange_failure(error),
    {
        read_done(RecorderCommand::Pause, self.exchange(RecorderCommand::Pause))
    }

    /// Resumes the session: what `done_reading` makes of the exchange for
    /// `Resume`. It fails with `NotRecording` or with one of the two failures
    /// of the exchange, and with nothing else.
    pub fn resume(&self) -> (result: Result<(), RecorderError>)
        ensures
            exists|outcome: Result<RecorderReply, RecorderError>|
                is_exchange_outcome(outcome) && result == #[trigger] done_reading(
                    RecorderCommand::Resume,
                    outcome,
                ),
            result matches Err(error) ==> may_fail_with(RecorderCommand::Resume, error)
                || exchange_failure(error),
    {
        read_done(RecorderCommand::Resume, self.exchange(RecorderCommand::Resume))
    }

    /// Whether a session is active: what `state_reading` makes of the
    /// exchange. The question itself never fails: the only errors are those
    /// of the exchange, `ActorUnavailable` and `ResponseLost`.
    pub fn is_recording(&self) -> (result: Result<bool, RecorderError>)
        ensures
            exists|outcome: Result<RecorderReply, RecorderError>|
                is_exchange_outcome(outcome) && result == #[trigger] state_reading(outcome),
            result matches Err(error) ==> exchange_failure(error),
    {
        read_state(self.exchange(RecorderCommand::IsRecording))
    }
}

} // verus!
