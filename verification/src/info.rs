//! Stream metadata captured once from the codec header, and the total
//! duration estimate derived from it.

use vstd::arithmetic::div_mod::lemma_fundamental_div_mod;
use vstd::arithmetic::mul::lemma_mul_is_commutative;
use vstd::arithmetic::mul::lemma_mul_upper_bound;
use vstd::prelude::*;

verus! {

/// How the engine delivers the samples of one decoded block.
#[derive(Clone, Copy, PartialEq, Eq, Structural, Debug)]
pub enum SampleEncoding {
    /// The decoded output is naturally 16-bit per sample.
    AdpcmDerived16,
    /// The decoded output is delivered as 32-bit elements that must be
    /// narrowed before use.
    WidePcm32,
}

/// Immutable stream metadata, captured once when the header is parsed.
#[derive(Clone, Copy, PartialEq, Eq, Structural, Debug)]
pub struct StreamInfo {
    pub channels: u16,
    pub sample_rate: u32,
    /// Size in bytes of one decoded block as delivered by the engine.
    pub block_bytes: u32,
    /// Frames contained in one block.
    pub block_frames: u32,
    /// Total blocks in the stream; negative means unknown.
    pub block_count: i64,
    pub encoding: SampleEncoding,
}

pub const NANOS_PER_SEC: u32 = 1_000_000_000;

impl StreamInfo {
    /// A header the adapter can work with: a positive sample rate, and for
    /// the wide encoding a block that holds at least one 32-bit element.
    pub open spec fn wf(self) -> bool {
        &&& self.sample_rate >= 1
        &&& self.encoding is WidePcm32 ==> self.block_bytes >= 4
    }

    /// The duration estimate in nanoseconds: `block_count * block_frames /
    /// sample_rate` seconds, assuming every block is full-length.
    pub open spec fn total_nanos(self) -> int {
        (self.block_count * self.block_frames * NANOS_PER_SEC) / (self.sample_rate as int)
    }

    /// Total duration of the stream in nanoseconds, or `None` when the block
    /// count is unknown (negative).
    pub fn total_duration(&self) -> (r: Option<u128>)
        requires
            self.wf(),
        ensures
            self.block_count >= 0 ==> r == Some(self.total_nanos() as u128),
            self.block_count < 0 ==> r is None,
    {
        if self.block_count < 0 {
            None
        } else {
            let blocks: u128 = self.block_count as u128;
            let frames: u128 = self.block_frames as u128;
            let rate: u128 = self.sample_rate as u128;
            proof {
                lemma_mul_upper_bound(
                    blocks as int,
                    0x8000_0000_0000_0000,
                    frames as int,
                    0x1_0000_0000,
                );
                lemma_mul_upper_bound(
                    blocks * frames,
                    0x8000_0000_0000_0000int * 0x1_0000_0000,
                    NANOS_PER_SEC as int,
                    0x4000_0000,
                );
            }
            let total: u128 = blocks * frames * (NANOS_PER_SEC as u128);
            Some(total / rate)
        }
    }
}

/// The duration estimate is exact whenever the sample rate divides the total
/// frame count scaled to nanoseconds: then `total_nanos * sample_rate`
/// recovers `block_count * block_frames` seconds exactly.
pub proof fn lemma_total_duration_exact(info: StreamInfo)
    requires
        info.wf(),
        info.block_count >= 0,
        (info.block_count * info.block_frames * NANOS_PER_SEC) % (info.sample_rate as int) == 0,
    ensures
        info.total_nanos() * (info.sample_rate as int) == info.block_count * info.block_frames
            * NANOS_PER_SEC,
{
    lemma_fundamental_div_mod(
        info.block_count * info.block_frames * NANOS_PER_SEC,
        info.sample_rate as int,
    );
    lemma_mul_is_commutative(info.sample_rate as int, info.total_nanos());
}

} // verus!
