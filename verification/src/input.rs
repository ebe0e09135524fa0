//! The gamepad input word and edge detection.
//!
//! The platform reports the controller as one 16-bit mask, one bit per
//! button. The frame driver keeps the previous frame's mask and derives the
//! edge mask: the buttons that are down this frame and were up on the
//! previous one. A held button therefore contributes to the edge mask only
//! on the first frame it is seen down.

use vstd::prelude::*;

verus! {

pub const DPAD_UP: u16 = 1 << 0;

pub const DPAD_DOWN: u16 = 1 << 1;

pub const DPAD_LEFT: u16 = 1 << 2;

pub const DPAD_RIGHT: u16 = 1 << 3;

pub const FACE_A: u16 = 1 << 4;

pub const FACE_B: u16 = 1 << 5;

pub const FACE_X: u16 = 1 << 6;

pub const FACE_Y: u16 = 1 << 7;

pub const TRIG_L1: u16 = 1 << 8;

pub const TRIG_R1: u16 = 1 << 9;

pub const TRIG_L2: u16 = 1 << 10;

pub const TRIG_R2: u16 = 1 << 11;

pub const TRIG_L3: u16 = 1 << 12;

pub const TRIG_R3: u16 = 1 << 13;

pub const FACE_SELECT: u16 = 1 << 14;

pub const FACE_START: u16 = 1 << 15;

/// The buttons newly pressed this frame: down in `current` and up in
/// `previous`.
pub open spec fn spec_edge_bits(previous: u16, current: u16) -> u16 {
    (!previous) & current
}

/// Computes the edge mask of two consecutive input reads.
pub fn edge_bits(previous: u16, current: u16) -> (r: u16)
    ensures
        r == spec_edge_bits(previous, current),
{
    (!previous) & current
}

/// A button held across both reads never shows as an edge; a button down in
/// `current` shows as an edge exactly when it was up in `previous`; buttons
/// that are up in `current` never show at all.
pub proof fn lemma_edge_bits(previous: u16, current: u16)
    ensures
        spec_edge_bits(previous, current) & previous == 0,
        spec_edge_bits(previous, current) & current == spec_edge_bits(previous, current),
        forall|mask: u16|
            current & mask == mask && previous & mask == 0 ==> #[trigger] (spec_edge_bits(
                previous,
                current,
            ) & mask) == mask,
{
    assert(((!previous) & current) & previous == 0) by (bit_vector);
    assert(((!previous) & current) & current == ((!previous) & current)) by (bit_vector);
    assert forall|mask: u16|
        current & mask == mask && previous & mask == 0 implies #[trigger] (spec_edge_bits(
        previous,
        current,
    ) & mask) == mask by {
        assert(current & mask == mask && previous & mask == 0 ==> ((!previous) & current) & mask
            == mask) by (bit_vector);
    }
}

} // verus!
