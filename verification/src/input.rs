//! Input codec: a player's discrete control state packed into a fixed-width
//! bitmask, one bit per action, suitable for network transport and for
//! storage in the frame history.

use vstd::prelude::*;

verus! {

/// Bit for the move-left action.
pub const INPUT_LEFT: u8 = 1;

/// Bit for the move-right action.
pub const INPUT_RIGHT: u8 = 2;

/// Bit for the jump action.
pub const INPUT_JUMP: u8 = 4;

/// Bit for the strike action.
pub const INPUT_STRIKE: u8 = 8;

/// A player's control state for one frame: a fixed-width bitmask with one
/// bit per discrete action.  Value semantics; compared by bit pattern only.
#[derive(Clone, Copy, PartialEq, Eq, Structural, Debug)]
pub struct Input {
    pub bits: u8,
}

/// The bitmask produced by encoding the four discrete actions.
pub open spec fn spec_encode(left: bool, right: bool, jump: bool, strike: bool) -> u8 {
    (if left { INPUT_LEFT } else { 0u8 }) | (if right { INPUT_RIGHT } else { 0u8 })
        | (if jump { INPUT_JUMP } else { 0u8 }) | (if strike { INPUT_STRIKE } else { 0u8 })
}

impl Input {
    /// The all-clear control state: no action pressed.
    pub open spec fn spec_none() -> Input {
        Input { bits: 0 }
    }

    /// Whether the move-left bit is set.
    pub open spec fn spec_left(self) -> bool {
        self.bits & INPUT_LEFT != 0
    }

    /// Whether the move-right bit is set.
    pub open spec fn spec_right(self) -> bool {
        self.bits & INPUT_RIGHT != 0
    }

    /// Whether the jump bit is set.
    pub open spec fn spec_jump(self) -> bool {
        self.bits & INPUT_JUMP != 0
    }

    /// Whether the strike bit is set.
    pub open spec fn spec_strike(self) -> bool {
        self.bits & INPUT_STRIKE != 0
    }

    /// An `Input` with no action bits set, used both for "no controls
    /// pressed" and as the prediction before any remote input is known.
    pub fn none() -> (i: Input)
        ensures
            i == Input::spec_none(),
    {
        Input { bits: 0 }
    }

    /// Tests the move-left bit.
    pub fn left(&self) -> (b: bool)
        ensures
            b == self.spec_left(),
    {
        self.bits & INPUT_LEFT != 0
    }

    /// Tests the move-right bit.
    pub fn right(&self) -> (b: bool)
        ensures
            b == self.spec_right(),
    {
        self.bits & INPUT_RIGHT != 0
    }

    /// Tests the jump bit.
    pub fn jump(&self) -> (b: bool)
        ensures
            b == self.spec_jump(),
    {
        self.bits & INPUT_JUMP != 0
    }

    /// Tests the strike bit.
    pub fn strike(&self) -> (b: bool)
        ensures
            b == self.spec_strike(),
    {
        self.bits & INPUT_STRIKE != 0
    }
}

/// Each action occupies its own bit: a bitmask built by `spec_encode`
/// reports exactly the actions it was built from.
pub proof fn lemma_encode_faithful(left: bool, right: bool, jump: bool, strike: bool)
    ensures
        (Input { bits: spec_encode(left, right, jump, strike) }).spec_left() == left,
        (Input { bits: spec_encode(left, right, jump, strike) }).spec_right() == right,
        (Input { bits: spec_encode(left, right, jump, strike) }).spec_jump() == jump,
        (Input { bits: spec_encode(left, right, jump, strike) }).spec_strike() == strike,
{
    let l: u8 = if left { 1u8 } else { 0u8 };
    let r: u8 = if right { 2u8 } else { 0u8 };
    let j: u8 = if jump { 4u8 } else { 0u8 };
    let s: u8 = if strike { 8u8 } else { 0u8 };
    assert((l == 0 || l == 1) && (r == 0 || r == 2) && (j == 0 || j == 4) && (s == 0 || s == 8)
        ==> ((l | r | j | s) & 1u8 != 0) == (l == 1) && ((l | r | j | s) & 2u8 != 0) == (r == 2)
        && ((l | r | j | s) & 4u8 != 0) == (j == 4) && ((l | r | j | s) & 8u8 != 0) == (s == 8))
        by (bit_vector);
}

/// Encodes the raw control state sampled this tick.  Pure and total: every
/// combination of pressed actions produces a value, the all-zero bitmask
/// when nothing is pressed.
pub fn encode(left: bool, right: bool, jump: bool, strike: bool) -> (i: Input)
    ensures
        i.bits == spec_encode(left, right, jump, strike),
        i.spec_left() == left,
        i.spec_right() == right,
        i.spec_jump() == jump,
        i.spec_strike() == strike,
{
    proof {
        lemma_encode_faithful(left, right, jump, strike);
    }
    let bits: u8 = (if left { INPUT_LEFT } else { 0u8 }) | (if right { INPUT_RIGHT } else { 0u8 })
        | (if jump { INPUT_JUMP } else { 0u8 }) | (if strike { INPUT_STRIKE } else { 0u8 });
    Input { bits }
}

/// Encodes one tick's controls with an edge-triggered jump: the jump bit is
/// set only on the tick the jump control goes from released to held, so
/// holding it does not repeat the action.  Returns the encoded input and the
/// value to carry into the next tick as `was_held`.
pub fn encode_edge(left: bool, right: bool, jump_held: bool, strike: bool, was_held: bool) -> (r: (
    Input,
    bool,
))
    ensures
        r.0.bits == spec_encode(left, right, jump_held && !was_held, strike),
        r.0.spec_jump() == (jump_held && !was_held),
        r.1 == jump_held,
{
    let i = encode(left, right, jump_held && !was_held, strike);
    (i, jump_held)
}

} // verus!
