//! The sample channel: the bounded hand-off queue between the real-time
//! capture callback and the encoder.
//!
//! The queue itself is `crossbeam_channel`'s bounded channel. The two ends are
//! used from different threads, so nothing can be promised here about what the
//! queue holds at any moment. Each end therefore keeps a ghost log of its own
//! traffic, and the contracts of the capture and encoder code are stated over
//! those logs.

use vstd::prelude::*;
use crossbeam_channel::{Receiver, Sender};

verus! {

/// `crossbeam_channel::Sender`, the sending end of a channel, carried as an
/// opaque value.
#[verifier::external_type_specification]
#[verifier::external_body]
#[verifier::reject_recursive_types(T)]
pub struct ExSender<T>(Sender<T>);

/// `crossbeam_channel::Receiver`, the receiving end of a channel, carried as
/// an opaque value.
#[verifier::external_type_specification]
#[verifier::external_body]
#[verifier::reject_recursive_types(T)]
pub struct ExReceiver<T>(Receiver<T>);

/// Largest capacity a channel is created with. A bounded channel needs twice
/// the next power of two above its capacity to fit a machine word; this
/// capacity leaves room for that on a 32-bit machine too.
pub const MAX_CHANNEL_CAPACITY: usize = 0x3fff_ffff;

/// What one bounded wait on the receiving end came back with.
#[derive(Clone, Copy, Debug, PartialEq, Eq, Structural)]
pub enum Polled {
    /// The oldest queued sample.
    Sample(i16),
    /// Nothing arrived within the wait.
    Timeout,
    /// The queue is empty and every sending end is gone.
    Disconnected,
}

/// `crossbeam_channel::bounded`: a new channel of the given capacity. The
/// bound on `capacity` keeps the call away from the capacities on which it
/// panics.
#[verifier::external_body]
pub(crate) fn bounded_channel<T>(capacity: usize) -> (ends: (Sender<T>, Receiver<T>))
    requires
        capacity <= MAX_CHANNEL_CAPACITY,
{
    crossbeam_channel::bounded(capacity)
}

/// `Clone::clone` on a `Sender`: another handle to the same channel.
pub assume_specification<T>[ <Sender<T> as Clone>::clone ](sender: &Sender<T>) -> (shared: Sender<T>);

/// `Sender::try_send`: offers one sample without blocking, and says whether
/// the queue took it. Which of the two happens depends on the other end, so
/// nothing is claimed of the answer.
#[verifier::external_body]
fn try_send_sample(sender: &Sender<i16>, sample: i16) -> (taken: bool) {
    sender.try_send(sample).is_ok()
}

/// `Receiver::recv_timeout`: waits up to `timeout_ms` milliseconds for a
/// sample. Nothing is claimed of the answer.
#[verifier::external_body]
fn recv_sample(receiver: &Receiver<i16>, timeout_ms: u64) -> (polled: Polled) {
    match receiver.recv_timeout(std::time::Duration::from_millis(timeout_ms)) {
        Ok(sample) => Polled::Sample(sample),
        Err(crossbeam_channel::RecvTimeoutError::Timeout) => Polled::Timeout,
        Err(crossbeam_channel::RecvTimeoutError::Disconnected) => Polled::Disconnected,
    }
}

/// `Receiver::is_empty`: whether the queue held nothing when asked. Nothing is
/// claimed of the answer.
#[verifier::external_body]
fn receiver_is_empty(receiver: &Receiver<i16>) -> (empty: bool) {
    receiver.is_empty()
}

/// The sending end, held by the capture callback.
pub struct SampleProducer {
    sender: Sender<i16>,
    offered: Ghost<Seq<i16>>,
    accepted: Ghost<Seq<i16>>,
}

/// The receiving end, held by the encoder.
pub struct SampleConsumer {
    receiver: Receiver<i16>,
    received: Ghost<Seq<i16>>,
}

/// The two ends of a freshly created sample channel.
pub struct SampleChannel {
    pub producer: SampleProducer,
    pub consumer: SampleConsumer,
}

/// Creates the sample channel for a session, or `None` where `capacity` is
/// larger than `MAX_CHANNEL_CAPACITY`. Both ends start with empty logs.
pub fn sample_channel(capacity: usize) -> (channel: Option<SampleChannel>)
    ensures
        channel is Some <==> capacity <= MAX_CHANNEL_CAPACITY,
        channel is Some ==> {
            &&& channel.unwrap().producer.offered() == Seq::<i16>::empty()
            &&& channel.unwrap().producer.accepted() == Seq::<i16>::empty()
            &&& channel.unwrap().consumer.received() == Seq::<i16>::empty()
        },
{
    if capacity > MAX_CHANNEL_CAPACITY {
        return None;
    }
    let (sender, receiver) = bounded_channel::<i16>(capacity);
    Some(
        SampleChannel {
            producer: SampleProducer {
                sender,
                offered: Ghost(Seq::empty()),
                accepted: Ghost(Seq::empty()),
            },
            consumer: SampleConsumer { receiver, received: Ghost(Seq::empty()) },
        },
    )
}

impl SampleProducer {
    /// Every sample this end has offered to the queue, in order.
    pub closed spec fn offered(&self) -> Seq<i16> {
        self.offered@
    }

    /// The samples the queue took from this end, in order.
    pub closed spec fn accepted(&self) -> Seq<i16> {
        self.accepted@
    }

    /// Offers one sample without blocking. A sample the queue does not take is
    /// dropped.
    pub fn offer(&mut self, sample: i16) -> (taken: bool)
        ensures
            final(self).offered() == old(self).offered().push(sample),
            final(self).accepted() == if taken {
                old(self).accepted().push(sample)
            } else {
                old(self).accepted()
            },
    {
        let taken = try_send_sample(&self.sender, sample);
        proof {
            self.offered@ = self.offered@.push(sample);
            if taken {
                self.accepted@ = self.accepted@.push(sample);
            }
        }
        taken
    }
}

impl SampleConsumer {
    /// Every sample this end has taken from the queue, in order.
    pub closed spec fn received(&self) -> Seq<i16> {
        self.received@
    }

    /// Whether the queue held nothing when asked.
    pub fn is_empty(&self) -> (empty: bool) {
        receiver_is_empty(&self.receiver)
    }

    /// Waits up to `timeout_ms` milliseconds for the oldest queued sample.
    pub fn poll(&mut self, timeout_ms: u64) -> (polled: Polled)
        ensures
            final(self).received() == match polled {
                Polled::Sample(sample) => old(self).received().push(sample),
                _ => old(self).received(),
            },
    {
        let polled = recv_sample(&self.receiver, timeout_ms);
        proof {
            if let Polled::Sample(sample) = polled {
                self.received@ = self.received@.push(sample);
            }
        }
        polled
    }
}

} // verus!
