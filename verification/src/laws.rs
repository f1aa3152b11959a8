//! Laws of the adapter, stated over the same spec model that the exec
//! contracts use.

use crate::adapter::CksDecoder;
use crate::adapter::PullOutcome;
use crate::buffer::DecodeBuffer;
use crate::buffer::lemma_truncation_keeps_low_bits;
use vstd::prelude::*;

verus! {

/// The metadata snapshot never changes: neither a pull nor a refill answer
/// touches it, so `channels()` and `sample_rate()` are constant across the
/// adapter's lifetime and always report the header-declared values.
pub proof fn lemma_metadata_constant(s: CksDecoder, block: Option<DecodeBuffer>)
    ensures
        s.pull_next_state().info == s.info,
        s.supplied(block).info == s.info,
{
}

/// Exhaustion is sticky: once a pull reports `End`, the state is a fixed
/// point whose every later pull reports `End` again.
pub proof fn lemma_exhaustion_sticky(s: CksDecoder)
    requires
        s.pull_result() is End,
    ensures
        s.pull_next_state().pull_result() is End,
        s.pull_next_state().pull_next_state() == s.pull_next_state(),
{
}

/// On the ADPCM-derived path a pull hands the buffer elements out unchanged
/// and in their original order: the head of the unread samples is produced,
/// and exactly the tail remains.
pub proof fn lemma_adpcm_passthrough(s: CksDecoder)
    requires
        s.wf(),
        !s.exhausted,
        s.info.encoding is AdpcmDerived16,
        s.cursor < s.threshold(),
    ensures
        s.buf matches DecodeBuffer::Int16(v) && s.pull_result() == PullOutcome::Sample(
            v@[s.cursor as int],
        ),
        s.pull_result() == PullOutcome::Sample(s.remaining()[0]),
        s.pull_next_state().remaining() == s.remaining().drop_first(),
{
    lemma_pull_in_order(s);
}

/// On the wide 32-bit path a pull produces the low-order truncation of the
/// buffer element at the cursor — the low 16 bits, not a rescaled or
/// clamped conversion — and the elements come out in their original order.
pub proof fn lemma_wide_truncation(s: CksDecoder)
    requires
        s.wf(),
        !s.exhausted,
        s.info.encoding is WidePcm32,
        s.buf matches DecodeBuffer::Int32(v),
        s.cursor < s.threshold(),
    ensures
        s.buf matches DecodeBuffer::Int32(v) && {
            &&& s.pull_result() matches PullOutcome::Sample(out)
            &&& out as u16 == v@[s.cursor as int] as u16
        },
        s.pull_result() == PullOutcome::Sample(s.remaining()[0]),
        s.pull_next_state().remaining() == s.remaining().drop_first(),
{
    let v = s.buf->Int32_0;
    lemma_truncation_keeps_low_bits(v@[s.cursor as int]);
    lemma_pull_in_order(s);
}

/// Whatever the encoding, a pull that yields a sample consumes exactly the
/// head of the unread sample sequence.
pub proof fn lemma_pull_in_order(s: CksDecoder)
    requires
        s.wf(),
        !s.exhausted,
        s.buf !is Float,
        s.cursor < s.threshold(),
    ensures
        s.pull_result() == PullOutcome::Sample(s.remaining()[0]),
        s.pull_next_state().remaining() == s.remaining().drop_first(),
{
    if let DecodeBuffer::Int16(v) = s.buf {
        // the buffer is a real vector, so its length fits in usize and the
        // advanced cursor does too
        vstd::std_specs::vec::axiom_spec_len(&v);
    }
    assert(s.pull_next_state().cursor == s.cursor + 1);
    assert(s.pull_next_state().remaining() =~= s.remaining().drop_first());
}

/// A refill that answers `NeedBlock` with a fresh integer block restores the
/// adapter to a state whose very next pull yields a sample: one decode call
/// per exhausted buffer, never two.
pub proof fn lemma_refill_then_sample(s: CksDecoder, b: DecodeBuffer)
    requires
        s.wf(),
        s.pull_result() is NeedBlock,
        CksDecoder::refill_ok(s.info, b),
        b !is Float,
    ensures
        s.supplied(Some(b)).wf(),
        s.supplied(Some(b)).pull_result() is Sample,
{
}

} // verus!
