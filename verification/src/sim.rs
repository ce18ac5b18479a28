//! Rollback-relevant simulation state and the deterministic fixed-tick step.
//!
//! The state kept here is exactly the closed set of quantities that
//! participate in rollback: per-player position and velocity.  Everything is
//! held in plain integer units so that a step is a mathematical function of
//! the previous state and the frame's inputs — the determinism invariant the
//! whole design exists to preserve.  The step applies the input-driven
//! movement rules (left / right set the horizontal velocity, jump sets the
//! vertical one), gravity, and the arena boundary, and a 64-bit checksum of
//! the state supports desync detection between peers.

use vstd::prelude::*;
use crate::input::Input;

verus! {

/// Arena width in position units; x coordinates stay inside `0..=ARENA_WIDTH`.
pub const ARENA_WIDTH: i64 = 1600;

/// Arena height in position units; y coordinates stay inside `0..=ARENA_HEIGHT`.
pub const ARENA_HEIGHT: i64 = 900;

/// Horizontal speed, in position units per tick, while left or right is held.
pub const MOVE_SPEED: i64 = 5;

/// Upward velocity, in position units per tick, on the tick jump is pressed.
pub const JUMP_SPEED: i64 = 12;

/// Downward acceleration applied each airborne tick.
pub const GRAVITY: i64 = 1;

/// Largest downward speed gravity can build up to.
pub const FALL_SPEED_CAP: i64 = 20;

/// Where the first player starts.
pub const START_X_P0: i64 = 600;

/// Where the second player starts.
pub const START_X_P1: i64 = 1000;

/// Starting height of both players.
pub const START_Y: i64 = 450;

/// Rollback-registered state of one player: position and velocity.
#[derive(Clone, Copy, PartialEq, Eq, Structural, Debug)]
pub struct PlayerState {
    pub x: i64,
    pub y: i64,
    pub vx: i64,
    pub vy: i64,
}

/// The complete rollback-registered simulation state: both players.  `Copy`
/// value semantics make a snapshot a complete, independent capture — a stored
/// copy shares nothing with the live state.
#[derive(Clone, Copy, PartialEq, Eq, Structural, Debug)]
pub struct SimState {
    pub p0: PlayerState,
    pub p1: PlayerState,
}

/// The inputs consumed by one simulation step: one `Input` per player handle
/// (handle 0 and handle 1).
#[derive(Clone, Copy, PartialEq, Eq, Structural, Debug)]
pub struct FrameInputs {
    pub p0: Input,
    pub p1: Input,
}

impl FrameInputs {
    /// The input for a player handle (0 or 1).
    pub open spec fn spec_for_handle(self, handle: int) -> Input {
        if handle == 0 {
            self.p0
        } else {
            self.p1
        }
    }

    /// Both players with no action pressed.
    pub fn none() -> (r: FrameInputs)
        ensures
            r == (FrameInputs { p0: Input::spec_none(), p1: Input::spec_none() }),
    {
        FrameInputs { p0: Input::none(), p1: Input::none() }
    }

    /// Reads the input for a player handle.
    pub fn for_handle(&self, handle: usize) -> (i: Input)
        requires
            handle < 2,
        ensures
            i == self.spec_for_handle(handle as int),
    {
        if handle == 0 {
            self.p0
        } else {
            self.p1
        }
    }

    /// Replaces the input for a player handle.
    pub fn with_handle(&self, handle: usize, i: Input) -> (r: FrameInputs)
        requires
            handle < 2,
        ensures
            r.spec_for_handle(handle as int) == i,
            r.spec_for_handle(1 - handle as int) == self.spec_for_handle(1 - handle as int),
    {
        if handle == 0 {
            FrameInputs { p0: i, p1: self.p1 }
        } else {
            FrameInputs { p0: self.p0, p1: i }
        }
    }
}

/// `v` clamped to the closed interval `[lo, hi]`.
pub open spec fn spec_clamp(v: int, lo: int, hi: int) -> int {
    if v < lo {
        lo
    } else if v > hi {
        hi
    } else {
        v
    }
}

impl PlayerState {
    /// Well-formedness: inside the arena, velocities within the speeds the
    /// movement rules can produce.
    pub open spec fn wf(self) -> bool {
        &&& 0 <= self.x <= ARENA_WIDTH
        &&& 0 <= self.y <= ARENA_HEIGHT
        &&& -MOVE_SPEED <= self.vx <= MOVE_SPEED
        &&& -FALL_SPEED_CAP <= self.vy <= JUMP_SPEED
    }
}

impl SimState {
    /// Both players well-formed.
    pub open spec fn wf(self) -> bool {
        self.p0.wf() && self.p1.wf()
    }

    /// The state at frame 0, before any step has run.
    pub open spec fn spec_initial() -> SimState {
        SimState {
            p0: PlayerState { x: START_X_P0, y: START_Y, vx: 0, vy: 0 },
            p1: PlayerState { x: START_X_P1, y: START_Y, vx: 0, vy: 0 },
        }
    }

    /// Builds the state at frame 0.
    pub fn initial() -> (s: SimState)
        ensures
            s == SimState::spec_initial(),
            s.wf(),
    {
        SimState {
            p0: PlayerState { x: START_X_P0, y: START_Y, vx: 0, vy: 0 },
            p1: PlayerState { x: START_X_P1, y: START_Y, vx: 0, vy: 0 },
        }
    }
}

/// One player's state after one tick under input `i`: left / right select the
/// horizontal velocity (left wins when both are held), jump launches upward,
/// gravity pulls down up to the fall-speed cap, positions integrate and stop
/// at the arena boundary, and landing on the floor cancels downward velocity.
pub open spec fn spec_step_player(p: PlayerState, i: Input) -> PlayerState {
    let vx: i64 = if i.spec_left() {
        (-MOVE_SPEED) as i64
    } else if i.spec_right() {
        MOVE_SPEED
    } else {
        0i64
    };
    let vy_moved: i64 = if i.spec_jump() {
        JUMP_SPEED
    } else if p.vy - GRAVITY < -FALL_SPEED_CAP {
        (-FALL_SPEED_CAP) as i64
    } else {
        (p.vy - GRAVITY) as i64
    };
    let x2 = spec_clamp(p.x + vx, 0, ARENA_WIDTH as int) as i64;
    let y2 = spec_clamp(p.y + vy_moved, 0, ARENA_HEIGHT as int) as i64;
    let vy2 = if y2 == 0 && vy_moved < 0 {
        0
    } else {
        vy_moved
    };
    PlayerState { x: x2, y: y2, vx, vy: vy2 }
}

/// The whole simulation state after one tick: each player steps under the
/// input for their handle.  A pure function of its arguments — stepping the
/// same state with the same inputs always produces the same state.
pub open spec fn spec_step(s: SimState, inp: FrameInputs) -> SimState {
    SimState { p0: spec_step_player(s.p0, inp.p0), p1: spec_step_player(s.p1, inp.p1) }
}

/// A step keeps a well-formed state well-formed.
pub proof fn lemma_step_wf(s: SimState, inp: FrameInputs)
    requires
        s.wf(),
    ensures
        spec_step(s, inp).wf(),
{
}

/// `v` clamped to `[lo, hi]`.
pub fn clamp(v: i64, lo: i64, hi: i64) -> (r: i64)
    requires
        lo <= hi,
    ensures
        r == spec_clamp(v as int, lo as int, hi as int),
{
    if v < lo {
        lo
    } else if v > hi {
        hi
    } else {
        v
    }
}

/// Executes one tick for one player.
pub fn step_player(p: &PlayerState, i: &Input) -> (q: PlayerState)
    requires
        p.wf(),
    ensures
        q == spec_step_player(*p, *i),
        q.wf(),
{
    let vx: i64 = if i.left() {
        -MOVE_SPEED
    } else if i.right() {
        MOVE_SPEED
    } else {
        0
    };
    let vy_moved: i64 = if i.jump() {
        JUMP_SPEED
    } else if p.vy - GRAVITY < -FALL_SPEED_CAP {
        -FALL_SPEED_CAP
    } else {
        p.vy - GRAVITY
    };
    let x2 = clamp(p.x + vx, 0, ARENA_WIDTH);
    let y2 = clamp(p.y + vy_moved, 0, ARENA_HEIGHT);
    let vy2: i64 = if y2 == 0 && vy_moved < 0 {
        0
    } else {
        vy_moved
    };
    PlayerState { x: x2, y: y2, vx, vy: vy2 }
}

/// Executes one tick of the whole simulation.
pub fn step(s: &SimState, inp: &FrameInputs) -> (t: SimState)
    requires
        s.wf(),
    ensures
        t == spec_step(*s, *inp),
        t.wf(),
{
    SimState { p0: step_player(&s.p0, &inp.p0), p1: step_player(&s.p1, &inp.p1) }
}

/// The state reached by stepping `s` through the input sequence `inputs`,
/// one frame per element, front first.
pub open spec fn spec_sim(s: SimState, inputs: Seq<FrameInputs>) -> SimState
    decreases inputs.len(),
{
    if inputs.len() == 0 {
        s
    } else {
        spec_sim(spec_step(s, inputs[0]), inputs.skip(1))
    }
}

/// Appending one frame's inputs extends the simulation by one step.
pub proof fn lemma_sim_snoc(s: SimState, inputs: Seq<FrameInputs>, inp: FrameInputs)
    ensures
        spec_sim(s, inputs.push(inp)) == spec_step(spec_sim(s, inputs), inp),
    decreases inputs.len(),
{
    let snoc = inputs.push(inp);
    if inputs.len() == 0 {
        assert(snoc[0] == inp);
        assert(snoc.skip(1) =~= Seq::<FrameInputs>::empty());
        assert(spec_sim(s, inputs) == s);
        assert(spec_sim(spec_step(s, inp), snoc.skip(1)) == spec_step(s, inp));
        assert(spec_sim(s, snoc) == spec_sim(spec_step(s, snoc[0]), snoc.skip(1)));
    } else {
        assert(snoc[0] == inputs[0]);
        assert(snoc.skip(1) =~= inputs.skip(1).push(inp));
        lemma_sim_snoc(spec_step(s, inputs[0]), inputs.skip(1), inp);
        assert(spec_sim(s, snoc) == spec_sim(spec_step(s, snoc[0]), snoc.skip(1)));
        assert(spec_sim(s, inputs) == spec_sim(spec_step(s, inputs[0]), inputs.skip(1)));
    }
}

/// Simulating a concatenated input sequence equals simulating the first part
/// and continuing from the state it reaches.
pub proof fn lemma_sim_concat(s: SimState, a: Seq<FrameInputs>, b: Seq<FrameInputs>)
    ensures
        spec_sim(s, a + b) == spec_sim(spec_sim(s, a), b),
    decreases a.len(),
{
    if a.len() == 0 {
        assert(a + b =~= b);
    } else {
        assert((a + b).skip(1) =~= a.skip(1) + b);
        lemma_sim_concat(spec_step(s, a[0]), a.skip(1), b);
    }
}

/// Simulating through the input sequence keeps the state well-formed.
pub proof fn lemma_sim_wf(s: SimState, inputs: Seq<FrameInputs>)
    requires
        s.wf(),
    ensures
        spec_sim(s, inputs).wf(),
    decreases inputs.len(),
{
    if inputs.len() != 0 {
        lemma_step_wf(s, inputs[0]);
        lemma_sim_wf(spec_step(s, inputs[0]), inputs.skip(1));
    }
}

/// Determinism: resimulating the same snapshot through the same input
/// sequence — however many times — reaches the same state, because a step is
/// a function of the previous state and the frame's inputs alone.
pub proof fn lemma_resimulation_deterministic(
    s1: SimState,
    s2: SimState,
    i1: Seq<FrameInputs>,
    i2: Seq<FrameInputs>,
)
    requires
        s1 == s2,
        i1 == i2,
    ensures
        spec_sim(s1, i1) == spec_sim(s2, i2),
{
}

/// Offset added to a coordinate or velocity before it enters the checksum,
/// so that every in-range value is nonnegative.
pub const CHECKSUM_BIAS: i64 = 4096;

/// Seed of the state checksum.
pub const CHECKSUM_SEED: u64 = 0xcbf29ce484222325;

/// Multiplier of the state checksum.
pub const CHECKSUM_PRIME: u64 = 0x100000001b3;

/// Folds one value into a running checksum.
pub open spec fn spec_mix(h: u64, v: u64) -> u64 {
    (h ^ v).wrapping_mul(CHECKSUM_PRIME)
}

/// A coordinate or velocity as the nonnegative word fed to the checksum.
pub open spec fn spec_coord_word(v: i64) -> u64 {
    (v + CHECKSUM_BIAS) as u64
}

/// One player's state folded into a running checksum.
pub open spec fn spec_checksum_player(h: u64, p: PlayerState) -> u64 {
    spec_mix(
        spec_mix(spec_mix(spec_mix(h, spec_coord_word(p.x)), spec_coord_word(p.y)), spec_coord_word(p.vx)),
        spec_coord_word(p.vy),
    )
}

/// The 64-bit checksum of the rollback-registered state: a deterministic
/// function of the state alone, so two peers whose states are bit-identical
/// at a frame report equal values, and inequality signals desync.
pub open spec fn spec_checksum(s: SimState) -> u64 {
    spec_checksum_player(spec_checksum_player(CHECKSUM_SEED, s.p0), s.p1)
}

/// Folds one value into a running checksum.
fn mix(h: u64, v: u64) -> (r: u64)
    ensures
        r == spec_mix(h, v),
{
    (h ^ v).wrapping_mul(CHECKSUM_PRIME)
}

/// A coordinate or velocity as the word fed to the checksum.
fn coord_word(v: i64) -> (r: u64)
    requires
        -CHECKSUM_BIAS <= v,
        v <= i64::MAX - CHECKSUM_BIAS,
    ensures
        r == spec_coord_word(v),
{
    (v + CHECKSUM_BIAS) as u64
}

/// Folds one player's state into a running checksum.
fn checksum_player(h: u64, p: &PlayerState) -> (r: u64)
    requires
        p.wf(),
    ensures
        r == spec_checksum_player(h, *p),
{
    let h1 = mix(h, coord_word(p.x));
    let h2 = mix(h1, coord_word(p.y));
    let h3 = mix(h2, coord_word(p.vx));
    mix(h3, coord_word(p.vy))
}

/// Computes the checksum of the rollback-registered state.  Read-only: the
/// detector derives the value without mutating simulation state.
pub fn checksum(s: &SimState) -> (c: u64)
    requires
        s.wf(),
    ensures
        c == spec_checksum(*s),
{
    let h = checksum_player(CHECKSUM_SEED, &s.p0);
    checksum_player(h, &s.p1)
}

/// Checksum agreement: two independent simulations that start from the same
/// state and are fed identical input sequences report equal checksums at
/// every frame along the way, because both the step and the checksum are
/// functions of their arguments alone.
pub proof fn lemma_checksum_agreement(
    s1: SimState,
    s2: SimState,
    i1: Seq<FrameInputs>,
    i2: Seq<FrameInputs>,
    k: int,
)
    requires
        s1 == s2,
        i1 == i2,
        0 <= k <= i1.len(),
    ensures
        spec_checksum(spec_sim(s1, i1.take(k))) == spec_checksum(spec_sim(s2, i2.take(k))),
{
}

/// Rollback correctness: if the inputs used for frames before `r` were
/// already correct, then restoring the snapshot taken at frame `r` and
/// resimulating with the true inputs from `r` on reaches exactly the state
/// that simulating frames `0..n` directly with the true inputs reaches.
pub proof fn lemma_rollback_correctness(
    s0: SimState,
    used: Seq<FrameInputs>,
    truth: Seq<FrameInputs>,
    r: int,
)
    requires
        used.len() == truth.len(),
        0 <= r <= truth.len(),
        forall|j: int| 0 <= j < r ==> used[j] == truth[j],
    ensures
        spec_sim(spec_sim(s0, used.take(r)), truth.skip(r)) == spec_sim(s0, truth),
{
    assert(used.take(r) =~= truth.take(r));
    assert(truth.take(r) + truth.skip(r) =~= truth);
    lemma_sim_concat(s0, truth.take(r), truth.skip(r));
}

} // verus!
