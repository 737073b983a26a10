//! Capture and decoding of the per-tick input bitmask.
//!
//! A player's input for one tick is a single byte with one bit per logical
//! control. The mask is produced once per tick from the instantaneous state of
//! the local controls, exchanged with the peer over the wire unchanged, and
//! decoded by the simulation. Every bit pattern is a valid input; there are no
//! error conditions.

use vstd::prelude::*;

verus! {

/// Bit set while the "up" control is held.
pub const INPUT_UP: u8 = 1;
/// Bit set while the "left" control is held.
pub const INPUT_LEFT: u8 = 2;
/// Bit set while the "right" control is held.
pub const INPUT_RIGHT: u8 = 4;
/// Bit set while the "strike" action control is held.
pub const INPUT_STRIKE: u8 = 8;
/// Bit set only on the tick where the "up" control went from released to
/// pressed, as reported by the input device itself.
pub const INPUT_UP_PRESSED: u8 = 16;

/// Horizontal direction decoded from an input mask. `x` is -1, 0 or 1 in
/// abstract world units; `y` is always 0 (vertical motion comes from jump
/// impulses, never from held directions).
#[derive(Clone, Copy, PartialEq, Eq, Structural, Debug)]
pub struct Direction {
    pub x: i64,
    pub y: i64,
}

/// Whether the "up" control is held in `input`.
pub open spec fn up_held(input: u8) -> bool {
    input & INPUT_UP != 0
}

/// Whether the "left" control is held in `input`.
pub open spec fn left_held(input: u8) -> bool {
    input & INPUT_LEFT != 0
}

/// Whether the "right" control is held in `input`.
pub open spec fn right_held(input: u8) -> bool {
    input & INPUT_RIGHT != 0
}

/// Whether the "strike" control is held in `input`.
pub open spec fn strike_held(input: u8) -> bool {
    input & INPUT_STRIKE != 0
}

/// Whether the device-reported "up just pressed" edge flag is set in `input`.
pub open spec fn up_pressed_flag(input: u8) -> bool {
    input & INPUT_UP_PRESSED != 0
}

/// The horizontal direction encoded by `input`: +1 for right, -1 for left,
/// 0 when neither or both are held.
pub open spec fn direction_x(input: u8) -> int {
    (if right_held(input) { 1int } else { 0int }) - (if left_held(input) { 1int } else { 0int })
}

/// The mask produced by capturing the given control states.
pub open spec fn mask_of(up: bool, left: bool, right: bool, strike: bool, up_edge: bool) -> u8 {
    (if up { INPUT_UP } else { 0u8 })
        | (if left { INPUT_LEFT } else { 0u8 })
        | (if right { INPUT_RIGHT } else { 0u8 })
        | (if strike { INPUT_STRIKE } else { 0u8 })
        | (if up_edge { INPUT_UP_PRESSED } else { 0u8 })
}

/// A captured mask decodes back to exactly the control states it was built
/// from: the five bits are independent.
pub proof fn lemma_mask_decodes(up: bool, left: bool, right: bool, strike: bool, up_edge: bool)
    ensures
        up_held(mask_of(up, left, right, strike, up_edge)) == up,
        left_held(mask_of(up, left, right, strike, up_edge)) == left,
        right_held(mask_of(up, left, right, strike, up_edge)) == right,
        strike_held(mask_of(up, left, right, strike, up_edge)) == strike,
        up_pressed_flag(mask_of(up, left, right, strike, up_edge)) == up_edge,
{
    let a: u8 = if up { INPUT_UP } else { 0u8 };
    let b: u8 = if left { INPUT_LEFT } else { 0u8 };
    let c: u8 = if right { INPUT_RIGHT } else { 0u8 };
    let d: u8 = if strike { INPUT_STRIKE } else { 0u8 };
    let e: u8 = if up_edge { INPUT_UP_PRESSED } else { 0u8 };
    assert(((a | b | c | d | e) & 1u8 != 0) == (a == 1u8)
        && ((a | b | c | d | e) & 2u8 != 0) == (b == 2u8)
        && ((a | b | c | d | e) & 4u8 != 0) == (c == 4u8)
        && ((a | b | c | d | e) & 8u8 != 0) == (d == 8u8)
        && ((a | b | c | d | e) & 16u8 != 0) == (e == 16u8)) by (bit_vector)
        requires
            a == 1u8 || a == 0u8,
            b == 2u8 || b == 0u8,
            c == 4u8 || c == 0u8,
            d == 8u8 || d == 0u8,
            e == 16u8 || e == 0u8,
    ;
}

/// Builds the input mask for one tick from the instantaneous state of the
/// local controls. The caller reads the device once per tick and passes the
/// held state of each control plus the device's released-to-pressed edge for
/// "up"; an absent device yields all-false and therefore the zero mask.
pub fn capture_input(up: bool, left: bool, right: bool, strike: bool, up_edge: bool) -> (mask: u8)
    ensures
        mask == mask_of(up, left, right, strike, up_edge),
        up_held(mask) == up,
        left_held(mask) == left,
        right_held(mask) == right,
        strike_held(mask) == strike,
        up_pressed_flag(mask) == up_edge,
{
    let up_bit: u8 = if up { INPUT_UP } else { 0 };
    let left_bit: u8 = if left { INPUT_LEFT } else { 0 };
    let right_bit: u8 = if right { INPUT_RIGHT } else { 0 };
    let strike_bit: u8 = if strike { INPUT_STRIKE } else { 0 };
    let edge_bit: u8 = if up_edge { INPUT_UP_PRESSED } else { 0 };
    let mask = up_bit | left_bit | right_bit | strike_bit | edge_bit;
    proof {
        lemma_mask_decodes(up, left, right, strike, up_edge);
    }
    mask
}

/// Decodes the horizontal movement direction from an input mask. Pure and
/// total: every bit pattern decodes, opposing directions cancel.
pub fn get_input_direction(input: u8) -> (d: Direction)
    ensures
        d.x == direction_x(input),
        d.y == 0,
{
    let mut x: i64 = 0;
    if input & INPUT_RIGHT != 0 {
        x = x + 1;
    }
    if input & INPUT_LEFT != 0 {
        x = x - 1;
    }
    Direction { x, y: 0 }
}

} // verus!
