//! The flattening adapter: a pull-based, single-sample-at-a-time view of the
//! engine's block-wise decoded output.
//!
//! The surrounding program owns the codec engine and the byte source; the
//! adapter owns the stream metadata, the current decoded block, and a read
//! cursor.  Each pull either yields the next 16-bit sample, asks the driver
//! to decode one more block (`NeedBlock`), or reports the permanent end of
//! the stream (`End`).

use crate::buffer::DecodeBuffer;
use crate::buffer::truncate_sample;
use crate::info::SampleEncoding;
use crate::info::StreamInfo;
use vstd::prelude::*;

verus! {

/// The outcome of one pull request.
#[derive(Clone, Copy, PartialEq, Eq, Structural, Debug)]
pub enum PullOutcome {
    /// The next decoded sample, already narrowed to 16 bits.
    Sample(i16),
    /// The buffer is exhausted: decode one more block and hand it to
    /// `supply_block`, then pull again.
    NeedBlock,
    /// The stream has ended; every later pull reports `End` as well.
    End,
}

/// The adapter over one open stream.
pub struct CksDecoder {
    pub info: StreamInfo,
    pub buf: DecodeBuffer,
    /// Next unread element of `buf`.
    pub cursor: usize,
    /// Set once the driver reports that no block is left; never cleared.
    pub exhausted: bool,
}

impl CksDecoder {
    /// How many elements of the current buffer are readable before a refill
    /// is due.  The two encodings account differently: the ADPCM-derived
    /// path goes by the buffer's own element count, the wide path by the
    /// block's declared byte size divided by the width of one element.
    pub open spec fn threshold(self) -> int {
        match self.info.encoding {
            SampleEncoding::AdpcmDerived16 => match self.buf {
                DecodeBuffer::Int16(v) => v@.len() as int,
                _ => 0,
            },
            SampleEncoding::WidePcm32 => self.info.block_bytes as int / 4,
        }
    }

    pub open spec fn wf(self) -> bool {
        &&& self.info.wf()
        &&& self.buf.fits(self.info)
        &&& self.cursor <= self.threshold()
    }

    /// The canonical 16-bit value of the buffer element at `i`.
    pub open spec fn sample_at(self, i: int) -> i16 {
        match self.buf {
            DecodeBuffer::Int16(v) => v@[i],
            DecodeBuffer::Int32(v) => truncate_sample(v@[i]),
            DecodeBuffer::Float => arbitrary(),
        }
    }

    /// The samples still unread in the current buffer, in order.
    pub open spec fn remaining(self) -> Seq<i16> {
        Seq::new((self.threshold() - self.cursor) as nat, |i: int| self.sample_at(self.cursor + i))
    }

    /// What one pull returns, as a function of the state alone.
    pub open spec fn pull_result(self) -> PullOutcome {
        if self.exhausted {
            PullOutcome::End
        } else if self.buf is Float {
            PullOutcome::End
        } else if self.cursor == self.threshold() {
            PullOutcome::NeedBlock
        } else {
            PullOutcome::Sample(self.sample_at(self.cursor as int))
        }
    }

    /// The state after one pull.
    pub open spec fn pull_next_state(self) -> CksDecoder {
        if self.exhausted {
            self
        } else if self.buf is Float {
            CksDecoder { exhausted: true, ..self }
        } else if self.cursor == self.threshold() {
            self
        } else {
            CksDecoder { cursor: (self.cursor + 1) as usize, ..self }
        }
    }

    /// The state after the driver answers a `NeedBlock`: a fresh block
    /// resets the cursor; "no block left" makes the exhaustion permanent.
    pub open spec fn supplied(self, block: Option<DecodeBuffer>) -> CksDecoder {
        match block {
            Option::None => CksDecoder { exhausted: true, ..self },
            Option::Some(b) => CksDecoder { buf: b, cursor: 0, ..self },
        }
    }

    /// A refill the stream accepts: the buffer shape the encoding selects,
    /// and never an empty 16-bit block (the engine delivers whole blocks).
    pub open spec fn refill_ok(info: StreamInfo, b: DecodeBuffer) -> bool {
        &&& b.fits(info)
        &&& (b matches DecodeBuffer::Int16(v) ==> v@.len() >= 1)
    }

    /// Opens the adapter over a probed stream: the metadata snapshot and the
    /// eagerly decoded first block, with the cursor at the start.
    pub fn new(info: StreamInfo, first_block: DecodeBuffer) -> (r: CksDecoder)
        requires
            info.wf(),
            first_block.fits(info),
        ensures
            r.wf(),
            r == (CksDecoder { info, buf: first_block, cursor: 0, exhausted: false }),
    {
        CksDecoder { info, buf: first_block, cursor: 0, exhausted: false }
    }

    /// The header-declared channel count; constant for the adapter's life.
    pub fn channels(&self) -> (r: u16)
        ensures
            r == self.info.channels,
    {
        self.info.channels
    }

    /// The header-declared sample rate; constant for the adapter's life.
    pub fn sample_rate(&self) -> (r: u32)
        ensures
            r == self.info.sample_rate,
    {
        self.info.sample_rate
    }

    /// The granularity at which the stream's parameters could change: one
    /// block, in bytes.  Here they never change mid-stream, but a value is
    /// owed on every call.
    pub fn current_frame_len(&self) -> (r: Option<usize>)
        ensures
            r == Some(self.info.block_bytes as usize),
    {
        Some(self.info.block_bytes as usize)
    }

    /// The stream's total duration in nanoseconds, assuming every block is
    /// full-length, or `None` when the block count is unknown.
    pub fn total_duration(&self) -> (r: Option<u128>)
        requires
            self.wf(),
        ensures
            self.info.block_count >= 0 ==> r == Some(self.info.total_nanos() as u128),
            self.info.block_count < 0 ==> r is None,
    {
        self.info.total_duration()
    }

    /// One pull request.  Yields the element at the cursor, narrowed to 16
    /// bits; asks for a refill when the cursor has reached the encoding's
    /// exhaustion threshold; reports `End` forever once the stream is done
    /// or the buffer holds the unsupported floating-point shape.
    pub fn next(&mut self) -> (r: PullOutcome)
        requires
            old(self).wf(),
        ensures
            final(self).wf(),
            r == old(self).pull_result(),
            *final(self) == old(self).pull_next_state(),
    {
        if self.exhausted {
            return PullOutcome::End;
        }
        match &self.buf {
            DecodeBuffer::Int16(v) => {
                if self.cursor == v.len() {
                    PullOutcome::NeedBlock
                } else {
                    let s: i16 = v[self.cursor];
                    self.cursor = self.cursor + 1;
                    PullOutcome::Sample(s)
                }
            },
            DecodeBuffer::Int32(v) => {
                let limit: usize = (self.info.block_bytes / 4) as usize;
                if self.cursor == limit {
                    PullOutcome::NeedBlock
                } else {
                    let wide: i32 = v[self.cursor];
                    let s: i16 = #[verifier::truncate] (wide as i16);
                    self.cursor = self.cursor + 1;
                    PullOutcome::Sample(s)
                }
            },
            DecodeBuffer::Float => {
                self.exhausted = true;
                PullOutcome::End
            },
        }
    }

    /// The driver's answer to a `NeedBlock`: the next decoded block, or
    /// `None` when the engine reports that the stream is over (a decode
    /// failure counts as the same — the distinction is not surfaced).
    pub fn supply_block(&mut self, block: Option<DecodeBuffer>)
        requires
            old(self).wf(),
            old(self).pull_result() is NeedBlock,
            block matches Some(b) ==> CksDecoder::refill_ok(old(self).info, b),
        ensures
            final(self).wf(),
            *final(self) == old(self).supplied(block),
    {
        match block {
            Option::None => {
                self.exhausted = true;
            },
            Option::Some(b) => {
                self.buf = b;
                self.cursor = 0;
            },
        }
    }
}

} // verus!
