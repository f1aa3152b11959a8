//! The adapter's decode buffer: one block's worth of samples as the engine
//! delivered them, in the representation the stream's encoding selects.

use crate::info::SampleEncoding;
use crate::info::StreamInfo;
use vstd::prelude::*;

verus! {

/// One decoded block.  The 16-bit variant carries ADPCM-derived samples; the
/// 32-bit variant carries wide PCM elements that are narrowed on the way
/// out.  A floating-point variant exists structurally in the engine's buffer
/// type but carries no samples the adapter can produce, so here it stands
/// empty and every pull on it reports the end of the stream.
#[derive(Debug)]
pub enum DecodeBuffer {
    Int16(Vec<i16>),
    Int32(Vec<i32>),
    Float,
}

/// The canonical 16-bit value of a wide 32-bit element: the low-order
/// truncation, not a rescaled or clamped conversion.
pub open spec fn truncate_sample(x: i32) -> i16 {
    x as i16
}

/// Truncation keeps exactly the low-order 16 bits of the wide element.
pub proof fn lemma_truncation_keeps_low_bits(x: i32)
    ensures
        truncate_sample(x) as u16 == x as u16,
{
    assert((x as i16) as u16 == x as u16) by (bit_vector);
}

impl DecodeBuffer {
    /// The buffer shape the given stream can refill: a 16-bit buffer for the
    /// ADPCM-derived encoding; otherwise a 32-bit buffer holding at least the
    /// block's worth of elements, or the inert floating-point shape.
    pub open spec fn fits(self, info: StreamInfo) -> bool {
        match info.encoding {
            SampleEncoding::AdpcmDerived16 => self is Int16,
            SampleEncoding::WidePcm32 => {
                &&& self !is Int16
                &&& (self matches DecodeBuffer::Int32(v) ==> v@.len()
                    >= info.block_bytes as int / 4)
            },
        }
    }
}

} // verus!
