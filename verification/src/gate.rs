//! Frame consistency gate.
//!
//! The host may be rewriting the control block while this process reads
//! it, and the two processes share no lock. The block is therefore read
//! optimistically: the publish counter is read once before the payload
//! fields and once after. A frame goes on to reconciliation only when the
//! two reads agree (no tear), the counter is nonzero (a frame was
//! published at all), and the counter differs from the last accepted one
//! (no duplicate work). Rejection is the expected steady state between
//! publishes, never an error.

use vstd::prelude::*;

verus! {

/// A two-phase read is admissible against the last accepted publish
/// counter: both reads of the counter agree, a frame was published, and
/// this frame was not already processed.
pub open spec fn spec_admissible(seq1: u32, seq2: u32, last_seq: u32) -> bool {
    seq1 == seq2 && seq1 != 0 && seq1 != last_seq
}

/// Decides whether a two-phase read may proceed to reconciliation.
pub fn admissible(seq1: u32, seq2: u32, last_seq: u32) -> (r: bool)
    ensures
        r == spec_admissible(seq1, seq2, last_seq),
{
    seq1 == seq2 && seq1 != 0 && seq1 != last_seq
}

} // verus!
