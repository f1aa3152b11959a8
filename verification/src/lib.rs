//! Streaming adapter that flattens the block-wise output of a compressed
//! audio codec into a pull-based sequence of 16-bit signed samples.
//!
//! The codec engine itself (header probing, bitstream decoding, byte-source
//! I/O) is an external collaborator: the surrounding program drives it and
//! hands the adapter plain decoded blocks.  Everything here — the stream
//! metadata, the decode buffer model, and the refill/cursor state machine —
//! is verified.

pub mod adapter;
pub mod buffer;
pub mod info;
pub mod laws;
