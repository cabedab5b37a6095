//! Encoder output chunks and their forwarding to the sink.
//!
//! The sink is an append-only consumer of chunks; a single submission
//! can yield zero, one, or many chunks, and they must reach the sink in
//! exactly the order the encoder emitted them.

use vstd::prelude::*;

verus! {

/// One unit of encoder output: an access unit of compressed bitstream.
#[derive(Debug, PartialEq, Eq)]
pub struct Chunk {
    pub payload: Vec<u8>,
}

/// Forward a batch of polled chunks to the sink log: every chunk is
/// appended, in emission order, after everything the sink already held.
pub fn forward_chunks(sink: &mut Vec<Chunk>, polled: Vec<Chunk>)
    ensures
        final(sink)@ == old(sink)@ + polled@,
{
    let mut batch = polled;
    sink.append(&mut batch);
}

} // verus!
