use std::sync::atomic::{AtomicBool, Ordering};
use std::sync::Arc;

use cogniscribe::audio::capture::{capture_block, push_sample, CaptureCallback};
use cogniscribe::audio::channel::{sample_channel, Polled, SampleChannel, MAX_CHANNEL_CAPACITY};
use cogniscribe::audio::processor::AudioPipeline;
use cogniscribe::audio::sample::FULL_SCALE;

fn drain(channel: &mut SampleChannel) -> Vec<i16> {
    let mut out = Vec::new();
    while !channel.consumer.is_empty() {
        match channel.consumer.poll(10) {
            Polled::Sample(sample) => out.push(sample),
            _ => break,
        }
    }
    out
}

fn normalized(x: f64) -> i64 {
    (x * FULL_SCALE as f64).round() as i64
}

#[test]
fn channel_capacity_is_limited() {
    assert!(sample_channel(MAX_CHANNEL_CAPACITY + 1).is_none());
    assert!(sample_channel(16).is_some());
}

#[test]
fn mono_i16_passes_through() {
    let mut channel = sample_channel(16).unwrap();
    let mut pipeline = AudioPipeline::new();
    let input: [i16; 5] = [0, 1, -1, 12345, -20000];
    let taken = capture_block(&input[..], 1, &mut channel.producer, false, &mut pipeline);
    assert_eq!(taken, 5);
    assert_eq!(drain(&mut channel), vec![0, 1, -1, 12345, -20000]);
}

#[test]
fn stereo_i16_is_averaged() {
    let mut channel = sample_channel(16).unwrap();
    let mut pipeline = AudioPipeline::new();
    let input: [i16; 8] = [100, 200, -100, -300, 1000, -1000, 7, 8];
    capture_block(&input[..], 2, &mut channel.producer, false, &mut pipeline);
    // (100 + 200) / 2, (-100 - 300) / 2, 0, and 7.5, whose half is cut off toward zero
    assert_eq!(drain(&mut channel), vec![150, -200, 0, 7]);
}

#[test]
fn short_last_frame_is_divided_by_the_channel_count() {
    let mut channel = sample_channel(16).unwrap();
    let mut pipeline = AudioPipeline::new();
    let input: [i16; 3] = [100, 300, 500];
    capture_block(&input[..], 2, &mut channel.producer, false, &mut pipeline);
    assert_eq!(drain(&mut channel), vec![200, 250]);
}

#[test]
fn loud_samples_are_limited() {
    let mut channel = sample_channel(16).unwrap();
    let mut pipeline = AudioPipeline::new();
    let input: [i16; 4] = [32767, -32768, 32112, 32113];
    capture_block(&input[..], 1, &mut channel.producer, false, &mut pipeline);
    assert_eq!(drain(&mut channel), vec![32112, -32112, 32112, 32112]);
}

#[test]
fn u16_samples_are_centred() {
    let mut channel = sample_channel(16).unwrap();
    let mut pipeline = AudioPipeline::new();
    let input: [u16; 4] = [32768, 32767, 40000, 20000];
    capture_block(&input[..], 1, &mut channel.producer, false, &mut pipeline);
    assert_eq!(drain(&mut channel), vec![0, 0, 7232, -12767]);
    let stereo: [u16; 2] = [0, 65535];
    capture_block(&stereo[..], 2, &mut channel.producer, false, &mut pipeline);
    assert_eq!(drain(&mut channel), vec![0]);
}

#[test]
fn normalized_samples_are_scaled_to_sixteen_bits() {
    let mut channel = sample_channel(16).unwrap();
    let mut pipeline = AudioPipeline::new();
    let input = [normalized(0.5), normalized(-0.5), normalized(0.25), normalized(1.0), 0];
    capture_block(&input[..], 1, &mut channel.producer, false, &mut pipeline);
    assert_eq!(drain(&mut channel), vec![16384, -16384, 8192, 32112, 0]);
    let frame = [normalized(0.5), normalized(-0.25), normalized(0.75)];
    capture_block(&frame[..], 3, &mut channel.producer, false, &mut pipeline);
    let expected = ((0.5 - 0.25 + 0.75) / 3.0 * 32767.0f64).round() as i16;
    assert_eq!(drain(&mut channel), vec![expected]);
}

#[test]
fn extreme_amplitudes_do_not_overflow() {
    let mut channel = sample_channel(16).unwrap();
    let mut pipeline = AudioPipeline::new();
    let input = [i64::MAX, i64::MAX, i64::MIN, i64::MIN, i64::MAX, i64::MIN];
    capture_block(&input[..], 2, &mut channel.producer, false, &mut pipeline);
    assert_eq!(drain(&mut channel), vec![32112, -32112, 0]);
}

#[test]
fn paused_block_is_discarded() {
    let mut channel = sample_channel(16).unwrap();
    let mut pipeline = AudioPipeline::new();
    let input: [i16; 4] = [1, 2, 3, 4];
    let taken = capture_block(&input[..], 1, &mut channel.producer, true, &mut pipeline);
    assert_eq!(taken, 0);
    assert!(channel.consumer.is_empty());
    assert_eq!(channel.consumer.poll(10), Polled::Timeout);
}

#[test]
fn full_channel_drops_samples() {
    let mut channel = sample_channel(3).unwrap();
    let mut pipeline = AudioPipeline::new();
    let input: [i16; 5] = [10, 20, 30, 40, 50];
    let taken = capture_block(&input[..], 1, &mut channel.producer, false, &mut pipeline);
    assert_eq!(taken, 3);
    assert_eq!(drain(&mut channel), vec![10, 20, 30]);
}

#[test]
fn empty_block_yields_nothing() {
    let mut channel = sample_channel(3).unwrap();
    let mut pipeline = AudioPipeline::new();
    let input: [i16; 0] = [];
    assert_eq!(capture_block(&input[..], 2, &mut channel.producer, false, &mut pipeline), 0);
    assert!(channel.consumer.is_empty());
}

#[test]
fn push_sample_reports_whether_the_channel_took_it() {
    let mut channel = sample_channel(1).unwrap();
    let mut pipeline = AudioPipeline::new();
    assert!(push_sample(normalized(0.5), &mut channel.producer, &mut pipeline));
    assert!(!push_sample(normalized(0.25), &mut channel.producer, &mut pipeline));
    assert_eq!(drain(&mut channel), vec![16384]);
}

#[test]
fn callback_obeys_the_pause_flag() {
    let channel = sample_channel(16).unwrap();
    let mut consumer = channel.consumer;
    let flag = Arc::new(AtomicBool::new(false));
    let mut callback = CaptureCallback::new(2, channel.producer, flag.clone()).unwrap();
    let signed: [i16; 2] = [5, 7];
    let unsigned: [u16; 2] = [65535, 65535];
    let fixed = [normalized(0.5), normalized(0.5)];
    callback.on_frames(&signed[..]);
    callback.on_frames(&unsigned[..]);
    callback.on_frames(&fixed[..]);
    let mut taken = Vec::new();
    while let Polled::Sample(sample) = consumer.poll(10) {
        taken.push(sample);
    }
    assert_eq!(taken, vec![6, 32112, 16384]);

    flag.store(true, Ordering::SeqCst);
    callback.on_frames(&signed[..]);
    callback.on_frames(&unsigned[..]);
    callback.on_frames(&fixed[..]);
    assert!(consumer.is_empty());

    flag.store(false, Ordering::SeqCst);
    callback.on_frames(&signed[..]);
    assert_eq!(consumer.poll(10), Polled::Sample(6));
}

#[test]
fn callback_needs_a_channel_count() {
    let channel = sample_channel(16).unwrap();
    let flag = Arc::new(AtomicBool::new(false));
    assert!(CaptureCallback::new(0, channel.producer, flag).is_none());
}
