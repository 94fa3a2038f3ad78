//! The encoder: the consumer of the sample channel.
//!
//! The encoder thread runs one loop, and each turn of that loop is decided
//! here. A turn first looks at the stop flag and the queue, then waits a
//! bounded time for a sample, and answers with what the thread has to do
//! next: append a sample to the container, go round again, or finalize the
//! container and leave.
//!
//! The phases are `Writing`, `Draining` and `Finalized`. The encoder starts
//! `Writing`. It is `Draining` once it has seen the stop flag raised, and it
//! is `Finalized` once the queue has been seen empty while draining, or has
//! lost every sender.

use vstd::prelude::*;
use std::sync::atomic::AtomicBool;
use crate::audio::channel::{Polled, SampleConsumer};
use crate::audio::flags::is_raised;

verus! {

/// How long one turn waits for a sample, in milliseconds.
pub const POLL_TIMEOUT_MS: u64 = 200;

/// Where the encoder stands.
#[derive(Clone, Copy, Debug, PartialEq, Eq, Structural)]
pub enum EncoderPhase {
    Writing,
    Draining,
    Finalized,
}

/// What the encoder thread does after a turn.
#[derive(Clone, Copy, Debug, PartialEq, Eq, Structural)]
pub enum EncoderAction {
    /// Append this sample to the container body.
    Write(i16),
    /// Nothing to write; take another turn.
    Wait,
    /// Write the final sizes into the container header, close it and leave.
    Finalize,
}

/// The header fields of the container that a session produces.
#[derive(Clone, Copy, Debug, PartialEq, Eq, Structural)]
pub struct ContainerSpec {
    pub channels: u16,
    pub sample_rate: u32,
    pub bits_per_sample: u16,
    /// Samples are signed integers, not floating-point numbers.
    pub integer_pcm: bool,
}

/// The container of a session recorded at `sample_rate`: one channel of
/// 16-bit signed integer samples.
pub open spec fn container_spec_of(sample_rate: u32) -> ContainerSpec {
    ContainerSpec { channels: 1, sample_rate, bits_per_sample: 16, integer_pcm: true }
}

/// The phase after the look at the stop flag and the queue that opens a
/// turn.
pub open spec fn phase_after_check(phase: EncoderPhase, stop: bool, empty: bool) -> EncoderPhase {
    if phase is Finalized || (stop && empty) {
        EncoderPhase::Finalized
    } else if stop {
        EncoderPhase::Draining
    } else {
        phase
    }
}

/// The phase after the wait of a turn came back with `polled`, where `stop`
/// is the stop flag as read after the wait.
pub open spec fn phase_after_poll(phase: EncoderPhase, polled: Polled, stop: bool) -> EncoderPhase {
    match polled {
        Polled::Sample(_) => phase,
        Polled::Timeout => if phase is Finalized || stop {
            EncoderPhase::Finalized
        } else {
            phase
        },
        Polled::Disconnected => EncoderPhase::Finalized,
    }
}

/// The action after the wait of a turn came back with `polled`. A sample is
/// always written, whatever the stop flag says.
pub open spec fn action_after_poll(phase: EncoderPhase, polled: Polled, stop: bool) -> EncoderAction {
    match polled {
        Polled::Sample(sample) => EncoderAction::Write(sample),
        _ => if phase_after_poll(phase, polled, stop) is Finalized {
            EncoderAction::Finalize
        } else {
            EncoderAction::Wait
        },
    }
}

/// The decisions of the encoder thread.
pub struct Encoder {
    phase: EncoderPhase,
    sample_rate: u32,
    written: Ghost<Seq<i16>>,
}

impl Encoder {
    /// Where the encoder stands.
    pub closed spec fn phase(&self) -> EncoderPhase {
        self.phase
    }

    /// The sample rate of the session.
    pub closed spec fn rate(&self) -> u32 {
        self.sample_rate
    }

    /// Every sample handed out for writing so far, in order.
    pub closed spec fn written(&self) -> Seq<i16> {
        self.written@
    }

    /// The encoder of a new session: `Writing`, with nothing written.
    pub fn new(sample_rate: u32) -> (encoder: Self)
        ensures
            encoder.phase() == EncoderPhase::Writing,
            encoder.rate() == sample_rate,
            encoder.written() == Seq::<i16>::empty(),
    {
        Encoder { phase: EncoderPhase::Writing, sample_rate, written: Ghost(Seq::empty()) }
    }

    /// Where the encoder stands.
    pub fn current_phase(&self) -> (phase: EncoderPhase)
        ensures
            phase == self.phase(),
    {
        self.phase
    }

    /// The header fields to open the container with.
    pub fn container_spec(&self) -> (spec: ContainerSpec)
        ensures
            spec == container_spec_of(self.rate()),
    {
        ContainerSpec {
            channels: 1,
            sample_rate: self.sample_rate,
            bits_per_sample: 16,
            integer_pcm: true,
        }
    }

    /// Opens a turn: given the stop flag and whether the queue is empty, says
    /// whether the encoder finalizes without waiting for a sample. It does so
    /// exactly when it is finalized already, or the flag is raised and the
    /// queue is empty.
    pub fn check(&mut self, stop: bool, empty: bool) -> (finalize: bool)
        ensures
            final(self).phase() == phase_after_check(old(self).phase(), stop, empty),
            finalize == (final(self).phase() is Finalized),
            final(self).rate() == old(self).rate(),
            final(self).written() == old(self).written(),
    {
        let finalized = match self.phase {
            EncoderPhase::Finalized => true,
            _ => false,
        };
        if finalized || (stop && empty) {
            self.phase = EncoderPhase::Finalized;
            true
        } else {
            if stop {
                self.phase = EncoderPhase::Draining;
            }
            false
        }
    }

    /// Closes a turn: given what the wait came back with and the stop flag as
    /// read after it, says what the thread does next.
    pub fn react(&mut self, polled: Polled, stop: bool) -> (action: EncoderAction)
        ensures
            action == action_after_poll(old(self).phase(), polled, stop),
            final(self).phase() == phase_after_poll(old(self).phase(), polled, stop),
            final(self).rate() == old(self).rate(),
            final(self).written() == match polled {
                Polled::Sample(sample) => old(self).written().push(sample),
                _ => old(self).written(),
            },
    {
        match polled {
            Polled::Sample(sample) => {
                proof {
                    self.written@ = self.written@.push(sample);
                }
                EncoderAction::Write(sample)
            },
            Polled::Timeout => {
                let finalized = match self.phase {
                    EncoderPhase::Finalized => true,
                    _ => false,
                };
                if finalized || stop {
                    self.phase = EncoderPhase::Finalized;
                    EncoderAction::Finalize
                } else {
                    EncoderAction::Wait
                }
            },
            Polled::Disconnected => {
                self.phase = EncoderPhase::Finalized;
                EncoderAction::Finalize
            },
        }
    }

    /// One turn of the encoder loop. Reads the stop flag and asks the queue
    /// whether it is empty; unless that finalizes the encoder, waits up to
    /// `POLL_TIMEOUT_MS` for a sample and reads the flag again on a timeout.
    ///
    /// Whatever the flag and the queue answer: a sample taken from the queue
    /// is handed out for writing in the same turn, nothing else is handed
    /// out, and the action is `Finalize` exactly when the encoder ends the
    /// turn `Finalized`. A finalized encoder leaves the queue alone. So an
    /// encoder that has written all its consumer has received keeps doing
    /// so.
    pub fn turn(&mut self, consumer: &mut SampleConsumer, stop_flag: &AtomicBool) -> (action:
        EncoderAction)
        ensures
            final(self).rate() == old(self).rate(),
            match action {
                EncoderAction::Write(sample) => {
                    &&& final(consumer).received() == old(consumer).received().push(sample)
                    &&& final(self).written() == old(self).written().push(sample)
                },
                _ => {
                    &&& final(consumer).received() == old(consumer).received()
                    &&& final(self).written() == old(self).written()
                },
            },
            action is Finalize <==> final(self).phase() is Finalized,
            old(self).phase() is Finalized ==> action is Finalize,
            old(self).written() == old(consumer).received() ==> final(self).written()
                == final(consumer).received(),
    {
        let stop = is_raised(stop_flag);
        let empty = consumer.is_empty();
        if self.check(stop, empty) {
            return EncoderAction::Finalize;
        }
        let polled = consumer.poll(POLL_TIMEOUT_MS);
        let stop_now = match polled {
            Polled::Timeout => is_raised(stop_flag),
            _ => false,
        };
        self.react(polled, stop_now)
    }
}

/// What a wait comes back with on a queue that holds `pending` and that no
/// sender is adding to: the oldest sample if there is one, else a
/// disconnection if every sender is gone, else a timeout.
pub open spec fn quiescent_poll(pending: Seq<i16>, disconnected: bool) -> Polled {
    if pending.len() > 0 {
        Polled::Sample(pending[0])
    } else if disconnected {
        Polled::Disconnected
    } else {
        Polled::Timeout
    }
}

/// The samples written by an encoder in `phase` that takes turn after turn,
/// with the stop flag raised, on a queue that holds `pending` and that no
/// sender is adding to, until it finalizes.
pub open spec fn drain_spec(phase: EncoderPhase, pending: Seq<i16>, disconnected: bool) -> Seq<i16>
    decreases pending.len(),
{
    let checked = phase_after_check(phase, true, pending.len() == 0);
    if checked is Finalized {
        Seq::empty()
    } else {
        let polled = quiescent_poll(pending, disconnected);
        match action_after_poll(checked, polled, true) {
            EncoderAction::Write(sample) => seq![sample] + drain_spec(
                phase_after_poll(checked, polled, true),
                pending.drop_first(),
                disconnected,
            ),
            _ => Seq::empty(),
        }
    }
}

/// Stop drains fully: once the stop flag is raised and the senders have
/// fallen silent, an encoder that has not finalized yet writes every sample
/// still in the queue, in queue order, before it finalizes.
pub proof fn lemma_stop_drains_fully(phase: EncoderPhase, pending: Seq<i16>, disconnected: bool)
    requires
        !(phase is Finalized),
    ensures
        drain_spec(phase, pending, disconnected) == pending,
    decreases pending.len(),
{
    if pending.len() == 0 {
        assert(drain_spec(phase, pending, disconnected) =~= pending);
    } else {
        let checked = phase_after_check(phase, true, false);
        let polled = quiescent_poll(pending, disconnected);
        lemma_stop_drains_fully(phase_after_poll(checked, polled, true), pending.drop_first(), disconnected);
        assert(seq![pending[0]] + pending.drop_first() =~= pending);
    }
}

/// While the encoder has not finalized, no turn ends in `Finalize` as long
/// as the wait finds a sample: the encoder never leaves with a sample in its
/// hands, and never before the queue was seen empty or disconnected.
pub proof fn lemma_finalize_needs_empty_queue(phase: EncoderPhase, polled: Polled, stop: bool)
    requires
        !(phase is Finalized),
    ensures
        action_after_poll(phase, polled, stop) is Finalize ==> !(polled is Sample),
        action_after_poll(phase, polled, stop) is Finalize ==> (polled is Disconnected || stop),
        polled matches Polled::Sample(sample) ==> action_after_poll(phase, polled, stop)
            == EncoderAction::Write(sample),
{
}

} // verus!
