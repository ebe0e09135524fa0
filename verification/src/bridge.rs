//! Decision logic of the platform's data-bridge protocol and of the cycle
//! counter.
//!
//! The bridge moves file data into memory on request and reports progress
//! through a status register; the platform's timer reports its 64-bit cycle
//! count as two 32-bit register words. Reading those registers is the
//! driver's job; what the words mean — when a transfer counts as finished,
//! how the two counter halves assemble — is decided here.

use vstd::prelude::*;

verus! {

/// The status word the bridge reports once a requested transfer has
/// finished; anything else means the operation is still in flight.
pub const BRIDGE_OP_COMPLETE: u32 = 1;

/// The host's view of the platform data bridge.
pub struct File;

impl File {
    /// Whether a status word read from the bridge reports the requested
    /// operation complete.
    pub fn check_op_complete(status: u32) -> (done: bool)
        ensures
            done == (status == BRIDGE_OP_COMPLETE),
    {
        status == BRIDGE_OP_COMPLETE
    }

    /// The blocking wait on a transfer, over the status words a polling
    /// loop reads from the bridge in order: returns the index of the first
    /// read that reports the operation complete — the poll on which the
    /// wait ends. The caller guarantees some read does: a bridge that never
    /// finishes would leave any busy-wait on it spinning forever.
    pub fn block_op_complete(polls: &Vec<u32>) -> (n: usize)
        requires
            exists|i: int| 0 <= i < polls@.len() && polls@[i] == BRIDGE_OP_COMPLETE,
        ensures
            n < polls@.len(),
            polls@[n as int] == BRIDGE_OP_COMPLETE,
            forall|j: int| 0 <= j < n ==> polls@[j] != BRIDGE_OP_COMPLETE,
    {
        let mut n: usize = 0;
        while n < polls.len()
            invariant
                n <= polls@.len(),
                exists|i: int| 0 <= i < polls@.len() && polls@[i] == BRIDGE_OP_COMPLETE,
                forall|j: int| 0 <= j < n ==> polls@[j] != BRIDGE_OP_COMPLETE,
            decreases polls@.len() - n,
        {
            if File::check_op_complete(polls[n]) {
                return n;
            }
            n = n + 1;
        }
        vstd::pervasive::unreached()
    }
}

/// Assembles the two halves of the 64-bit cycle counter, read from the low
/// and high count registers, into the full count.
pub fn combine_u32(low: u32, high: u32) -> (r: u64)
    ensures
        r == (high as int) * 0x1_0000_0000 + low,
{
    let r = ((high as u64) << 32) | (low as u64);
    proof {
        let h = high as u64;
        let l = low as u64;
        assert((h << 32) | l == h * 0x1_0000_0000 + l) by (bit_vector)
            requires
                h < 0x1_0000_0000,
                l < 0x1_0000_0000,
        ;
    }
    r
}

} // verus!
