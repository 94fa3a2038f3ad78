//! The capture callback: from interleaved device frames to mono samples.
//!
//! A block of interleaved samples is cut into frames of `channels` samples.
//! Each frame is reduced to one mono amplitude, the arithmetic mean of its
//! channel values, run through the signal pipeline, scaled to 16 bits and
//! offered to the sample channel. While the session is paused the block is
//! discarded before any of that happens.
//!
//! The device stream calls `CaptureCallback::on_frames`, which reads the
//! pause flag; `capture_block` is the same work for a given state of the
//! flag.

use vstd::prelude::*;
use std::sync::atomic::AtomicBool;
use std::sync::Arc;
use crate::audio::channel::SampleProducer;
use crate::audio::flags::is_raised;
use crate::audio::processor::{limit_spec, AudioPipeline};
use crate::audio::sample::{
    normalize_i16, normalize_i16_spec, normalize_u16, normalize_u16_spec, quantize,
    quantize_spec, trunc_div,
};

verus! {

/// A sample as a capture device delivers it.
pub trait DeviceSample: Copy {
    /// The sample as a normalized amplitude.
    spec fn amplitude(self) -> int;

    /// The sample as a normalized amplitude.
    fn normalized(self) -> (v: i64)
        ensures
            v == self.amplitude(),
    ;
}

impl DeviceSample for i16 {
    open spec fn amplitude(self) -> int {
        normalize_i16_spec(self as int)
    }

    fn normalized(self) -> (v: i64) {
        normalize_i16(self)
    }
}

impl DeviceSample for u16 {
    open spec fn amplitude(self) -> int {
        normalize_u16_spec(self as int)
    }

    fn normalized(self) -> (v: i64) {
        normalize_u16(self)
    }
}

/// An amplitude that the caller has normalized already, as it does for
/// devices that deliver floating-point samples.
impl DeviceSample for i64 {
    open spec fn amplitude(self) -> int {
        self as int
    }

    fn normalized(self) -> (v: i64) {
        self
    }
}

/// The normalized amplitudes of a block of device samples.
pub open spec fn amplitudes<S: DeviceSample>(input: Seq<S>) -> Seq<int> {
    Seq::new(input.len(), |i: int| input[i].amplitude())
}

/// The sum of `values[from..to]`.
pub open spec fn sum_range(values: Seq<int>, from: int, to: int) -> int
    decreases to - from,
{
    if to <= from {
        0
    } else {
        sum_range(values, from, to - 1) + values[to - 1]
    }
}

/// The number of frames in a block of `len` samples: every `channels` samples
/// make a frame, and a shorter remainder makes one more.
pub open spec fn frame_count(len: int, channels: int) -> int
    recommends
        channels > 0,
{
    (len + channels - 1) / channels
}

/// The index one past the last sample of frame `k`.
pub open spec fn frame_end(len: int, channels: int, k: int) -> int {
    if (k + 1) * channels < len {
        (k + 1) * channels
    } else {
        len
    }
}

/// The mono amplitude of frame `k`: the sum of its samples over `channels`,
/// rounded toward zero to a whole count of the normalized unit.
pub open spec fn frame_mono(values: Seq<int>, channels: int, k: int) -> int {
    trunc_div(
        sum_range(values, k * channels, frame_end(values.len() as int, channels, k)),
        channels,
    )
}

/// The 16-bit sample that a mono amplitude leaves the callback as.
pub open spec fn processed_sample(mono: int, threshold: int) -> i16 {
    quantize_spec(limit_spec(mono, threshold)) as i16
}

/// The samples that a block yields, one per frame, in frame order.
pub open spec fn block_samples(values: Seq<int>, channels: int, threshold: int) -> Seq<i16> {
    Seq::new(
        frame_count(values.len() as int, channels) as nat,
        |k: int| processed_sample(frame_mono(values, channels, k), threshold),
    )
}

proof fn lemma_mean_in_range(sum: int, count: int, channels: int, lo: int, hi: int)
    requires
        0 <= count <= channels,
        channels > 0,
        lo <= 0 <= hi,
        count * lo <= sum <= count * hi,
    ensures
        lo <= trunc_div(sum, channels) <= hi,
{
    assert(channels * lo <= count * lo) by (nonlinear_arith)
        requires
            0 <= count <= channels,
            lo <= 0,
    ;
    assert(count * hi <= channels * hi) by (nonlinear_arith)
        requires
            0 <= count <= channels,
            0 <= hi,
    ;
    if sum >= 0 {
        assert(sum / channels <= hi) by (nonlinear_arith)
            requires
                0 <= sum <= channels * hi,
                channels > 0,
        ;
        assert(0 <= sum / channels) by (nonlinear_arith)
            requires
                0 <= sum,
                channels > 0,
        ;
    } else {
        assert(channels * (-lo) == -(channels * lo)) by (nonlinear_arith);
        assert((-sum) / channels <= -lo) by (nonlinear_arith)
            requires
                0 <= -sum <= channels * (-lo),
                channels > 0,
        ;
        assert(0 <= (-sum) / channels) by (nonlinear_arith)
            requires
                0 <= -sum,
                channels > 0,
        ;
    }
}

proof fn lemma_frame_count_steps(len: int, channels: int, k: int)
    requires
        channels > 0,
        0 <= k,
        k * channels < len,
    ensures
        k < frame_count(len, channels),
        frame_end(len, channels, k) == len ==> frame_count(len, channels) == k + 1,
        frame_end(len, channels, k) <= len,
        k * channels < frame_end(len, channels, k),
{
    let n = len + channels - 1;
    vstd::arithmetic::div_mod::lemma_fundamental_div_mod(n, channels);
    let q = n / channels;
    let r = n % channels;
    assert(k < q) by (nonlinear_arith)
        requires
            n == channels * q + r,
            0 <= r < channels,
            k * channels < len,
            n == len + channels - 1,
            channels > 0,
    ;
    assert((k + 1) * channels == k * channels + channels) by (nonlinear_arith);
    if frame_end(len, channels, k) == len {
        assert(q <= k + 1) by (nonlinear_arith)
            requires
                n == channels * q + r,
                0 <= r < channels,
                len <= (k + 1) * channels,
                n == len + channels - 1,
                channels > 0,
        ;
    }
}

proof fn lemma_frame_count_done(len: int, channels: int, k: int)
    requires
        channels > 0,
        0 <= k,
        0 <= len,
        k * channels >= len,
        k == 0 || (k - 1) * channels < len,
    ensures
        frame_count(len, channels) == k,
{
    if k == 0 {
        assert(len == 0);
        assert((channels - 1) / channels == 0) by (nonlinear_arith)
            requires
                channels > 0,
        ;
    } else {
        lemma_frame_count_steps(len, channels, k - 1);
        assert((k - 1 + 1) * channels == k * channels);
    }
}

/// The downmix is the arithmetic mean: the mono amplitude of a frame times
/// the channel count differs from the sum of the frame's channel values by
/// less than the channel count, and lies on the side of zero. So the mono
/// amplitude is the exact mean with its fraction of a normalized unit cut
/// off.
pub proof fn lemma_frame_mono_is_mean(values: Seq<int>, channels: int, k: int)
    requires
        channels > 0,
    ensures
        ({
            let sum = sum_range(values, k * channels, frame_end(values.len() as int, channels, k));
            let mono = frame_mono(values, channels, k);
            &&& sum >= 0 ==> mono * channels <= sum < (mono + 1) * channels
            &&& sum <= 0 ==> (mono - 1) * channels < sum <= mono * channels
        }),
{
    let sum = sum_range(values, k * channels, frame_end(values.len() as int, channels, k));
    if sum >= 0 {
        vstd::arithmetic::div_mod::lemma_fundamental_div_mod(sum, channels);
        let q = sum / channels;
        assert((q + 1) * channels == channels * q + channels) by (nonlinear_arith);
        assert(q * channels == channels * q) by (nonlinear_arith);
        assert((q - 1) * channels == channels * q - channels) by (nonlinear_arith);
    } else {
        vstd::arithmetic::div_mod::lemma_fundamental_div_mod(-sum, channels);
        let q = (-sum) / channels;
        assert((-q - 1) * channels == -(channels * q) - channels) by (nonlinear_arith);
        assert((-q) * channels == -(channels * q)) by (nonlinear_arith);
    }
}

/// A frame whose channels all carry the same amplitude downmixes to that
/// amplitude.
pub proof fn lemma_equal_channels_downmix(values: Seq<int>, channels: int, k: int, v: int)
    requires
        channels > 0,
        0 <= k,
        (k + 1) * channels <= values.len(),
        forall|i: int| k * channels <= i < (k + 1) * channels ==> values[i] == v,
    ensures
        frame_mono(values, channels, k) == v,
{
    assert(k * channels <= (k + 1) * channels) by (nonlinear_arith)
        requires
            channels > 0,
    ;
    assert(0 <= k * channels) by (nonlinear_arith)
        requires
            channels > 0,
            0 <= k,
    ;
    assert((k + 1) * channels - k * channels == channels) by (nonlinear_arith);
    lemma_sum_of_equal(values, k * channels, (k + 1) * channels, v);
    let sum = sum_range(values, k * channels, (k + 1) * channels);
    assert(sum == channels * v);
    if v >= 0 {
        assert(channels * v >= 0) by (nonlinear_arith)
            requires
                channels > 0,
                v >= 0,
        ;
        vstd::arithmetic::div_mod::lemma_div_multiples_vanish(v, channels);
    } else {
        assert(-(channels * v) == channels * (-v)) by (nonlinear_arith);
        assert(channels * v < 0) by (nonlinear_arith)
            requires
                channels > 0,
                v < 0,
        ;
        vstd::arithmetic::div_mod::lemma_div_multiples_vanish(-v, channels);
    }
}

proof fn lemma_sum_of_equal(values: Seq<int>, from: int, to: int, v: int)
    requires
        0 <= from <= to <= values.len(),
        forall|i: int| from <= i < to ==> values[i] == v,
    ensures
        sum_range(values, from, to) == (to - from) * v,
    decreases to - from,
{
    if to > from {
        lemma_sum_of_equal(values, from, to - 1, v);
        assert((to - from) * v == (to - 1 - from) * v + v) by (nonlinear_arith);
    } else {
        assert((to - from) * v == 0) by (nonlinear_arith)
            requires
                to - from == 0,
        ;
    }
}

/// Every sample that leaves the callback lies within the limiter's
/// threshold, scaled to 16 bits.
pub proof fn lemma_processed_sample_is_limited(mono: int, threshold: int)
    requires
        0 <= threshold <= crate::audio::sample::FULL_SCALE,
    ensures
        -quantize_spec(threshold) <= processed_sample(mono, threshold) <= quantize_spec(threshold),
        -threshold <= mono <= threshold ==> processed_sample(mono, threshold) == quantize_spec(mono),
{
    let limited = limit_spec(mono, threshold);
    assert(-threshold <= limited <= threshold);
    lemma_quantize_monotone(limited, threshold);
    lemma_quantize_monotone(-threshold, limited);
    crate::audio::sample::lemma_quantize_is_nearest(limited);
    crate::audio::sample::lemma_quantize_is_nearest(threshold);
    assert(quantize_spec(-threshold) == -quantize_spec(threshold));
}

proof fn lemma_quantize_monotone(a: int, b: int)
    requires
        a <= b,
    ensures
        quantize_spec(a) <= quantize_spec(b),
{
    let full = crate::audio::sample::FULL_SCALE as int;
    let ca = crate::audio::sample::clamp_spec(a, -full, full);
    let cb = crate::audio::sample::clamp_spec(b, -full, full);
    assert(ca <= cb);
    if ca >= 0 {
        vstd::arithmetic::div_mod::lemma_div_is_ordered(ca + 32767, cb + 32767, 65535);
    } else if cb < 0 {
        vstd::arithmetic::div_mod::lemma_div_is_ordered(-cb + 32767, -ca + 32767, 65535);
    } else {
        assert(0 <= (cb + 32767) / 65535) by (nonlinear_arith)
            requires
                cb >= 0,
        ;
        assert(0 <= (-ca + 32767) / 65535) by (nonlinear_arith)
            requires
                ca < 0,
        ;
    }
}

/// Whether `part` can be had from `whole` by leaving samples out: the same
/// samples in the same order, with gaps.
pub open spec fn is_selection_of(part: Seq<i16>, whole: Seq<i16>) -> bool
    decreases whole.len(),
{
    if part.len() == 0 {
        true
    } else if whole.len() == 0 {
        false
    } else {
        ||| (part.last() == whole.last() && is_selection_of(part.drop_last(), whole.drop_last()))
        ||| is_selection_of(part, whole.drop_last())
    }
}

/// Runs one mono amplitude through the pipeline, scales it to 16 bits and
/// offers it to the sample channel. A sample the channel does not take is
/// dropped.
pub fn push_sample(mono: i64, producer: &mut SampleProducer, pipeline: &mut AudioPipeline) -> (taken: bool)
    ensures
        final(producer).offered() == old(producer).offered().push(
            processed_sample(mono as int, old(pipeline).threshold()),
        ),
        final(producer).accepted() == if taken {
            old(producer).accepted().push(processed_sample(mono as int, old(pipeline).threshold()))
        } else {
            old(producer).accepted()
        },
        *final(pipeline) == *old(pipeline),
{
    let processed = pipeline.process_sample(mono);
    let scaled = quantize(processed);
    producer.offer(scaled)
}

/// The mono amplitude of the frame `input[start..end]`.
fn frame_mean<S: DeviceSample>(input: &[S], channels: usize, start: usize, end: usize) -> (mono: i64)
    requires
        channels > 0,
        start <= end <= input.len(),
        end - start <= channels,
    ensures
        mono == trunc_div(sum_range(amplitudes(input@), start as int, end as int), channels as int),
{
    let ghost values = amplitudes(input@);
    let mut sum: i128 = 0;
    let mut i: usize = start;
    while i < end
        invariant
            start <= i <= end <= input.len(),
            end - start <= channels,
            values == amplitudes(input@),
            sum == sum_range(values, start as int, i as int),
            (i - start) * (-0x8000_0000_0000_0000) <= sum <= (i - start) * 0x7fff_ffff_ffff_ffff,
        decreases end - i,
    {
        let v: i64 = input[i].normalized();
        assert(values[i as int] == v);
        assert((i + 1 - start) * (-0x8000_0000_0000_0000) == (i - start) * (
        -0x8000_0000_0000_0000) - 0x8000_0000_0000_0000) by (nonlinear_arith);
        assert((i + 1 - start) * 0x7fff_ffff_ffff_ffff == (i - start) * 0x7fff_ffff_ffff_ffff
            + 0x7fff_ffff_ffff_ffff) by (nonlinear_arith);
        assert((i - start) * 0x7fff_ffff_ffff_ffff <= 0xffff_ffff_ffff_ffff * 0x7fff_ffff_ffff_ffff)
            by (nonlinear_arith)
            requires
                0 <= i - start <= 0xffff_ffff_ffff_ffff,
        ;
        assert((i - start) * (-0x8000_0000_0000_0000) >= 0xffff_ffff_ffff_ffff * (
        -0x8000_0000_0000_0000)) by (nonlinear_arith)
            requires
                0 <= i - start <= 0xffff_ffff_ffff_ffff,
        ;
        sum = sum + v as i128;
        i = i + 1;
    }
    proof {
        lemma_mean_in_range(
            sum as int,
            end - start,
            channels as int,
            -0x8000_0000_0000_0000,
            0x7fff_ffff_ffff_ffff,
        );
    }
    let mean: i128 = sum / (channels as i128);
    mean as i64
}

/// Processes one block of interleaved device samples: every frame of the
/// block yields one sample, offered to the channel in frame order. What the
/// channel takes of them is a selection of the block's samples, and `taken`
/// counts them. A paused session yields nothing.
pub fn capture_block<S: DeviceSample>(
    input: &[S],
    channels: usize,
    producer: &mut SampleProducer,
    paused: bool,
    pipeline: &mut AudioPipeline,
) -> (taken: usize)
    requires
        channels > 0,
    ensures
        paused ==> final(producer).offered() == old(producer).offered(),
        paused ==> final(producer).accepted() == old(producer).accepted() && taken == 0,
        !paused ==> final(producer).offered() == old(producer).offered() + block_samples(
            amplitudes(input@),
            channels as int,
            old(pipeline).threshold(),
        ),
        final(producer).accepted().len() == old(producer).accepted().len() + taken,
        final(producer).accepted().take(old(producer).accepted().len() as int)
            == old(producer).accepted(),
        is_selection_of(
            final(producer).accepted().skip(old(producer).accepted().len() as int),
            block_samples(amplitudes(input@), channels as int, old(pipeline).threshold()),
        ),
        taken <= frame_count(input@.len() as int, channels as int),
        *final(pipeline) == *old(pipeline),
{
    if paused {
        assert(producer.accepted().take(producer.accepted().len() as int) =~= producer.accepted());
        assert(producer.accepted().skip(producer.accepted().len() as int) =~= Seq::<i16>::empty());
        return 0;
    }
    let ghost values = amplitudes(input@);
    let ghost threshold = pipeline.threshold();
    let ghost block = block_samples(values, channels as int, threshold);
    let ghost before = producer.offered();
    let ghost taken_before = producer.accepted().len();
    let ghost accepted_before = producer.accepted();
    let ghost mut gained: Seq<i16> = Seq::empty();
    let len = input.len();
    let mut start: usize = 0;
    let mut taken: usize = 0;
    let ghost mut k: int = 0;
    proof {
        if len == 0 {
            lemma_frame_count_done(0, channels as int, 0);
        }
    }
    while start < len
        invariant
            channels > 0,
            len == input.len(),
            values == amplitudes(input@),
            threshold == pipeline.threshold(),
            *pipeline == *old(pipeline),
            block == block_samples(values, channels as int, threshold),
            0 <= k <= block.len(),
            start <= len,
            start < len ==> start == k * channels,
            start == len ==> k == block.len(),
            producer.offered() == before + block.take(k),
            producer.accepted().len() == taken_before + taken,
            producer.accepted() == accepted_before + gained,
            accepted_before.len() == taken_before,
            is_selection_of(gained, block.take(k)),
            taken <= k,
            taken <= start,
        decreases len - start,
    {
        proof {
            lemma_frame_count_steps(len as int, channels as int, k);
        }
        let end: usize = if len - start > channels {
            start + channels
        } else {
            len
        };
        assert(end == frame_end(len as int, channels as int, k)) by {
            assert((k + 1) * channels == k * channels + channels) by (nonlinear_arith);
        }
        let mono = frame_mean(input, channels, start, end);
        let ghost offered_before = producer.offered();
        let was_taken = push_sample(mono, producer, pipeline);
        if was_taken {
            taken = taken + 1;
        }
        proof {
            assert(block[k] == processed_sample(mono as int, threshold));
            assert(block.take(k + 1) =~= block.take(k).push(block[k]));
            assert(block.take(k + 1).drop_last() =~= block.take(k));
            assert(producer.offered() =~= before + block.take(k + 1));
            if was_taken {
                let longer = gained.push(block[k]);
                assert(longer.drop_last() =~= gained);
                assert(producer.accepted() =~= accepted_before + longer);
                gained = longer;
            }
            k = k + 1;
        }
        start = end;
    }
    proof {
        assert(block.take(k) =~= block);
        assert(producer.accepted().take(taken_before as int) =~= accepted_before);
        assert(producer.accepted().skip(taken_before as int) =~= gained);
    }
    taken
}

/// The capture callback as an object: what the device stream calls with
/// every buffer it delivers. It owns the sending end of the sample channel
/// and the signal pipeline, and shares the pause flag with the recorder.
pub struct CaptureCallback {
    channels: usize,
    producer: SampleProducer,
    pause_flag: Arc<AtomicBool>,
    pipeline: AudioPipeline,
}

impl CaptureCallback {
    /// The number of samples in a frame.
    pub closed spec fn frame_len(&self) -> int {
        self.channels as int
    }

    /// Every sample offered to the channel so far, in order.
    pub closed spec fn offered(&self) -> Seq<i16> {
        self.producer.offered()
    }

    /// The samples the channel took, in order.
    pub closed spec fn accepted(&self) -> Seq<i16> {
        self.producer.accepted()
    }

    /// The limiter threshold of the pipeline.
    pub closed spec fn threshold(&self) -> int {
        self.pipeline.threshold()
    }

    /// The pause flag that the callback reads.
    pub closed spec fn pause_handle(&self) -> Arc<AtomicBool> {
        self.pause_flag
    }

    /// The callback of a session with `channels` samples a frame, with a
    /// fresh pipeline. It reads the pause flag that it is given, and no
    /// other. There is none for a device without channels.
    pub fn new(channels: usize, producer: SampleProducer, pause_flag: Arc<AtomicBool>) -> (callback:
        Option<Self>)
        ensures
            callback is Some <==> channels > 0,
            callback is Some ==> {
                &&& callback.unwrap().frame_len() == channels
                &&& callback.unwrap().offered() == producer.offered()
                &&& callback.unwrap().accepted() == producer.accepted()
                &&& callback.unwrap().threshold() == crate::audio::processor::DEFAULT_LIMITER_THRESHOLD
                &&& callback.unwrap().pause_handle() == pause_flag
            },
    {
        if channels == 0 {
            return None;
        }
        Some(CaptureCallback { channels, producer, pause_flag, pipeline: AudioPipeline::new() })
    }

    /// Takes one buffer of interleaved samples from the device. Reads the
    /// pause flag once: while it is raised the buffer is discarded, else
    /// every frame of the buffer yields one sample, offered to the channel
    /// in frame order.
    pub fn on_frames<S: DeviceSample>(&mut self, data: &[S])
        ensures
            final(self).frame_len() == old(self).frame_len(),
            final(self).threshold() == old(self).threshold(),
            final(self).pause_handle() == old(self).pause_handle(),
            final(self).offered() == old(self).offered() || final(self).offered()
                == old(self).offered() + block_samples(
                amplitudes(data@),
                old(self).frame_len(),
                old(self).threshold(),
            ),
            final(self).accepted().len() >= old(self).accepted().len(),
            final(self).accepted().take(old(self).accepted().len() as int) == old(self).accepted(),
            old(self).frame_len() > 0 ==> is_selection_of(
                final(self).accepted().skip(old(self).accepted().len() as int),
                block_samples(amplitudes(data@), old(self).frame_len(), old(self).threshold()),
            ),
    {
        if self.channels == 0 {
            assert(self.accepted().take(self.accepted().len() as int) =~= self.accepted());
            return ;
        }
        let paused = is_raised(&self.pause_flag);
        capture_block(data, self.channels, &mut self.producer, paused, &mut self.pipeline);
    }
}

} // verus!
