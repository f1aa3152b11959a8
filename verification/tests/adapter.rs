//! End-to-end scenarios for the flattening adapter, driven with synthetic
//! decoded blocks.

use cks_decoder::adapter::{CksDecoder, PullOutcome};
use cks_decoder::buffer::DecodeBuffer;
use cks_decoder::info::{SampleEncoding, StreamInfo};

fn adpcm_info(block_count: i64) -> StreamInfo {
    StreamInfo {
        channels: 1,
        sample_rate: 8000,
        block_bytes: 8,
        block_frames: 4,
        block_count,
        encoding: SampleEncoding::AdpcmDerived16,
    }
}

fn wide_info(block_bytes: u32) -> StreamInfo {
    StreamInfo {
        channels: 2,
        sample_rate: 44100,
        block_bytes,
        block_frames: 2,
        block_count: 2,
        encoding: SampleEncoding::WidePcm32,
    }
}

/// Synthetic 2-block, 1-channel, 4-frames-per-block ADPCM-derived stream at
/// 8000 Hz: the duration is exactly 1 ms, the 8 samples come out in block
/// order, and the 9th pull reports the end.
#[test]
fn adpcm_two_block_stream() {
    let first = vec![10i16, -20, 30, -40];
    let second = vec![50i16, -60, 70, -80];
    let mut d = CksDecoder::new(adpcm_info(2), DecodeBuffer::Int16(first));

    assert_eq!(d.total_duration(), Some(1_000_000)); // 2*4/8000 s = 1 ms

    let mut produced: Vec<i16> = Vec::new();
    let mut refills: u32 = 0;
    loop {
        match d.next() {
            PullOutcome::Sample(s) => produced.push(s),
            PullOutcome::NeedBlock => {
                refills += 1;
                if refills == 1 {
                    d.supply_block(Some(DecodeBuffer::Int16(second.clone())));
                } else {
                    d.supply_block(None);
                }
            }
            PullOutcome::End => break,
        }
    }
    assert_eq!(produced, vec![10, -20, 30, -40, 50, -60, 70, -80]);
    assert_eq!(refills, 2);
    // the 9th pull (and every later one) still reports the end
    assert_eq!(d.next(), PullOutcome::End);
}

/// 32-bit stream with block_bytes = 16 (4 elements per block): consuming 4
/// elements triggers exactly one refill request, and a fresh block satisfies
/// it — the next pull yields a sample again.
#[test]
fn wide_refill_after_four_elements() {
    let first = vec![1i32, 2, 3, 4];
    let mut d = CksDecoder::new(wide_info(16), DecodeBuffer::Int32(first));
    for expect in 1i16..=4 {
        assert_eq!(d.next(), PullOutcome::Sample(expect));
    }
    assert_eq!(d.next(), PullOutcome::NeedBlock);
    d.supply_block(Some(DecodeBuffer::Int32(vec![5i32, 6, 7, 8])));
    assert_eq!(d.next(), PullOutcome::Sample(5));
}

/// The wide path produces the low-order truncation of each 32-bit element,
/// not a rescaled or clamped value.
#[test]
fn wide_truncates_low_order_bits() {
    let elems = vec![0x12345678i32, -1, 0x10000, 0x18000, -65536, i32::MIN];
    let mut d = CksDecoder::new(wide_info(24), DecodeBuffer::Int32(elems));
    assert_eq!(d.next(), PullOutcome::Sample(0x5678));
    assert_eq!(d.next(), PullOutcome::Sample(-1));
    assert_eq!(d.next(), PullOutcome::Sample(0));
    assert_eq!(d.next(), PullOutcome::Sample(i16::MIN));
    assert_eq!(d.next(), PullOutcome::Sample(0));
    assert_eq!(d.next(), PullOutcome::Sample(0));
}

/// The ADPCM-derived path hands the buffer elements out unchanged.
#[test]
fn adpcm_passthrough_unchanged() {
    let elems = vec![i16::MIN, -1, 0, 1, i16::MAX];
    let mut info = adpcm_info(1);
    info.block_bytes = 10;
    info.block_frames = 5;
    let mut d = CksDecoder::new(info, DecodeBuffer::Int16(elems.clone()));
    for &e in &elems {
        assert_eq!(d.next(), PullOutcome::Sample(e));
    }
    assert_eq!(d.next(), PullOutcome::NeedBlock);
}

/// Exhaustion is sticky: after the engine reports no block, every pull
/// reports the end.
#[test]
fn exhaustion_is_sticky() {
    let mut d = CksDecoder::new(adpcm_info(1), DecodeBuffer::Int16(vec![9i16]));
    assert_eq!(d.next(), PullOutcome::Sample(9));
    assert_eq!(d.next(), PullOutcome::NeedBlock);
    d.supply_block(None);
    for _ in 0..5 {
        assert_eq!(d.next(), PullOutcome::End);
    }
}

/// Metadata queries answer before the first pull and never change.
#[test]
fn metadata_constant_over_lifetime() {
    let mut d = CksDecoder::new(adpcm_info(2), DecodeBuffer::Int16(vec![1i16, 2]));
    assert_eq!(d.channels(), 1);
    assert_eq!(d.sample_rate(), 8000);
    assert_eq!(d.current_frame_len(), Some(8));
    let _ = d.next();
    let _ = d.next();
    let _ = d.next();
    assert_eq!(d.channels(), 1);
    assert_eq!(d.sample_rate(), 8000);
    assert_eq!(d.current_frame_len(), Some(8));
}

/// The duration estimate truncates to whole nanoseconds when the rate does
/// not divide evenly.
#[test]
fn duration_truncates_to_nanoseconds() {
    let mut info = adpcm_info(1);
    info.sample_rate = 3;
    info.block_frames = 1;
    let d = CksDecoder::new(info, DecodeBuffer::Int16(vec![0i16]));
    // 1/3 s = 333_333_333.3... ns, truncated
    assert_eq!(d.total_duration(), Some(333_333_333));
}

/// An unknown (negative) block count yields no duration estimate.
#[test]
fn duration_unknown_for_negative_block_count() {
    let d = CksDecoder::new(adpcm_info(-1), DecodeBuffer::Int16(vec![0i16]));
    assert_eq!(d.total_duration(), None);
}

/// An empty first block (the eager decode at construction found nothing)
/// makes the very first pull ask for a refill, and "no block" ends the
/// stream without ever producing a sample.
#[test]
fn empty_first_block_ends_cleanly() {
    let mut d = CksDecoder::new(adpcm_info(0), DecodeBuffer::Int16(Vec::new()));
    assert_eq!(d.next(), PullOutcome::NeedBlock);
    d.supply_block(None);
    assert_eq!(d.next(), PullOutcome::End);
    assert_eq!(d.total_duration(), Some(0));
}

/// The floating-point buffer shape carries no samples the adapter can
/// produce: the first pull already reports the end, and stays there.
#[test]
fn float_buffer_reports_end() {
    let mut d = CksDecoder::new(wide_info(16), DecodeBuffer::Float);
    assert_eq!(d.next(), PullOutcome::End);
    assert_eq!(d.next(), PullOutcome::End);
}
