//! The deterministic per-tick simulation step.
//!
//! `advance` is a pure function of its arguments: the previous snapshot, one
//! input mask per player, and the tick's collision records. Purity is what
//! makes rollback resimulation correct, so the whole step is specified by the
//! spec-level function [`advance_spec`] and the executable code is proved to
//! return exactly that value.
//!
//! Positions and velocities are in abstract integer world units. The step
//! assigns horizontal velocity outright (it never accumulates), applies a
//! fixed vertical impulse on a jump, and recomputes grounding from scratch
//! out of this tick's collision records; the physics integrator that moves
//! bodies between ticks lives outside the core and is observed only through
//! those records.

use vstd::prelude::*;

use crate::input::{direction_x, up_held};

verus! {

/// Horizontal speed assigned while a direction is held, in world units.
pub const MOVE_SPEED: i64 = 7;
/// Vertical velocity assigned on the tick a jump triggers, in world units.
pub const JUMP_IMPULSE: i64 = 10;
/// Number of jumps granted while grounded; a double jump is allowed mid-air.
pub const MAX_JUMPS: u8 = 2;

/// Per-player simulation entity. `handle` is the player's stable identity
/// (0 or 1). `jumps_remaining` never exceeds [`MAX_JUMPS`]. `is_grounded` is
/// recomputed from scratch every tick. `previous_input` is the mask used on
/// the immediately preceding tick, kept so that the jump trigger is a pure
/// edge detection independent of wall-clock timing.
#[derive(Clone, Copy, PartialEq, Eq, Structural, Debug)]
pub struct PlayerState {
    pub handle: u8,
    pub jumps_remaining: u8,
    pub is_grounded: bool,
    pub previous_input: u8,
}

/// Position and velocity of one player body, in abstract integer world
/// units. Static bodies (walls, ground, net) never change after creation and
/// are represented only by their identifiers in [`WorldMap`].
#[derive(Clone, Copy, PartialEq, Eq, Structural, Debug)]
pub struct BodyState {
    pub x: i64,
    pub y: i64,
    pub vx: i64,
    pub vy: i64,
}

/// A pair of colliding body identifiers reported for one tick. Records are
/// ephemeral: they feed exactly one `advance` call.
#[derive(Clone, Copy, PartialEq, Eq, Structural, Debug)]
pub struct CollisionRecord {
    pub first: u64,
    pub second: u64,
}

/// The fixed identifier layout of the simulated world: the ground body, and
/// for each player its root body plus the collider sub-entity attached to it.
/// The collider-to-owner relation is populated at spawn time; it is the
/// explicit replacement for walking a scene graph.
#[derive(Clone, Copy, PartialEq, Eq, Structural, Debug)]
pub struct WorldMap {
    pub ground: u64,
    pub body0: u64,
    pub collider0: u64,
    pub body1: u64,
    pub collider1: u64,
}

/// The full mutable state rolled back and restored as a unit: both players
/// and both bodies. Snapshots are plain values, so replay never aliases live
/// state with history.
#[derive(Clone, Copy, PartialEq, Eq, Structural, Debug)]
pub struct Snapshot {
    pub player0: PlayerState,
    pub player1: PlayerState,
    pub body0: BodyState,
    pub body1: BodyState,
}

/// Whether entity `e` is player `handle` itself or its attached collider.
pub open spec fn belongs_to(w: WorldMap, handle: int, e: u64) -> bool {
    if handle == 0 {
        e == w.body0 || e == w.collider0
    } else {
        e == w.body1 || e == w.collider1
    }
}

/// Whether one collision record counts as a grounding contact for `handle`:
/// one member (directly or through its owner) is that player and one member
/// is the ground body.
pub open spec fn is_ground_contact(w: WorldMap, handle: int, r: CollisionRecord) -> bool {
    (belongs_to(w, handle, r.first) || belongs_to(w, handle, r.second)) && (r.first == w.ground
        || r.second == w.ground)
}

/// Whether `handle` touches the ground this tick: a boolean OR over all
/// records, never a counter, so simultaneous contacts are idempotent.
pub open spec fn grounded_in(w: WorldMap, handle: int, recs: Seq<CollisionRecord>) -> bool {
    exists|i: int| 0 <= i < recs.len() && #[trigger] is_ground_contact(w, handle, recs[i])
}

/// Whether this input triggers a jump: the "up" bit is set now, was not set
/// in the previous tick's stored input, and a jump is still available.
pub open spec fn jump_triggered(p: PlayerState, input: u8) -> bool {
    up_held(input) && !up_held(p.previous_input) && p.jumps_remaining > 0
}

/// The next state of one player. Jump handling comes first (consuming a
/// jump), then the input is stored for the next tick's edge detection, then
/// grounding is applied: a grounding contact re-grants the full jump count
/// only if the player is not jumping away on this very tick.
pub open spec fn step_player_spec(p: PlayerState, input: u8, grounded: bool) -> PlayerState {
    let jumping = jump_triggered(p, input);
    let after_jump = if jumping {
        (p.jumps_remaining - 1) as u8
    } else {
        p.jumps_remaining
    };
    PlayerState {
        handle: p.handle,
        jumps_remaining: if grounded && !jumping && after_jump < MAX_JUMPS {
            MAX_JUMPS
        } else {
            after_jump
        },
        is_grounded: grounded,
        previous_input: input,
    }
}

/// The next state of one body: horizontal velocity is assigned from the held
/// direction (non-accumulating, hence trivially idempotent under replay), and
/// the vertical impulse is applied only on the tick a jump triggers. The
/// position is carried unchanged: integration happens outside the core.
pub open spec fn step_body_spec(b: BodyState, input: u8, jumping: bool) -> BodyState {
    BodyState {
        x: b.x,
        y: b.y,
        vx: (direction_x(input) * MOVE_SPEED) as i64,
        vy: if jumping {
            JUMP_IMPULSE
        } else {
            b.vy
        },
    }
}

/// The deterministic transition function over a whole snapshot: both players
/// stepped with their own input, grounding resolved per player from the same
/// collision records.
pub open spec fn advance_spec(
    s: Snapshot,
    input0: u8,
    input1: u8,
    recs: Seq<CollisionRecord>,
    w: WorldMap,
) -> Snapshot {
    Snapshot {
        player0: step_player_spec(s.player0, input0, grounded_in(w, 0, recs)),
        player1: step_player_spec(s.player1, input1, grounded_in(w, 1, recs)),
        body0: step_body_spec(s.body0, input0, jump_triggered(s.player0, input0)),
        body1: step_body_spec(s.body1, input1, jump_triggered(s.player1, input1)),
    }
}

/// Scans this tick's records for a grounding contact of `handle`.
fn compute_grounded(w: &WorldMap, handle: u8, recs: &Vec<CollisionRecord>) -> (g: bool)
    requires
        handle < 2,
    ensures
        g == grounded_in(*w, handle as int, recs@),
{
    let (body, collider) = if handle == 0 {
        (w.body0, w.collider0)
    } else {
        (w.body1, w.collider1)
    };
    let mut g = false;
    let mut i: usize = 0;
    while i < recs.len()
        invariant
            i <= recs@.len(),
            handle < 2,
            body == if handle == 0 {
                w.body0
            } else {
                w.body1
            },
            collider == if handle == 0 {
                w.collider0
            } else {
                w.collider1
            },
            g == exists|j: int|
                0 <= j < i && #[trigger] is_ground_contact(*w, handle as int, recs@[j]),
        decreases recs@.len() - i,
    {
        let r = recs[i];
        let is_player = r.first == body || r.first == collider || r.second == body || r.second
            == collider;
        let has_ground = r.first == w.ground || r.second == w.ground;
        if is_player && has_ground {
            assert(is_ground_contact(*w, handle as int, recs@[i as int]));
            g = true;
        }
        i = i + 1;
    }
    g
}

/// Steps one player, mirroring [`step_player_spec`].
fn step_player(p: &PlayerState, input: u8, grounded: bool) -> (r: PlayerState)
    ensures
        r == step_player_spec(*p, input, grounded),
{
    let jumping = (input & crate::input::INPUT_UP != 0) && (p.previous_input
        & crate::input::INPUT_UP == 0) && p.jumps_remaining > 0;
    let after_jump = if jumping {
        p.jumps_remaining - 1
    } else {
        p.jumps_remaining
    };
    PlayerState {
        handle: p.handle,
        jumps_remaining: if grounded && !jumping && after_jump < MAX_JUMPS {
            MAX_JUMPS
        } else {
            after_jump
        },
        is_grounded: grounded,
        previous_input: input,
    }
}

/// Steps one body, mirroring [`step_body_spec`].
fn step_body(b: &BodyState, input: u8, jumping: bool) -> (r: BodyState)
    ensures
        r == step_body_spec(*b, input, jumping),
{
    let d = crate::input::get_input_direction(input);
    BodyState {
        x: b.x,
        y: b.y,
        vx: d.x * MOVE_SPEED,
        vy: if jumping {
            JUMP_IMPULSE
        } else {
            b.vy
        },
    }
}

/// One tick's worth of simulation inputs: a mask per player and the
/// collision records the physics engine reported for that tick.
pub ghost struct TickData {
    pub input0: u8,
    pub input1: u8,
    pub collisions: Seq<CollisionRecord>,
}

/// The snapshot reached by advancing through a whole sequence of ticks.
pub open spec fn run(s: Snapshot, w: WorldMap, ticks: Seq<TickData>) -> Snapshot
    decreases ticks.len(),
{
    if ticks.len() == 0 {
        s
    } else {
        run(advance_spec(s, ticks[0].input0, ticks[0].input1, ticks[0].collisions, w), w,
            ticks.drop_first())
    }
}

/// Both players of a snapshot respect the jump budget.
pub open spec fn jumps_bounded(s: Snapshot) -> bool {
    s.player0.jumps_remaining <= MAX_JUMPS && s.player1.jumps_remaining <= MAX_JUMPS
}

/// Determinism: the transition function has no hidden state, so the same
/// snapshot, inputs and collision records always yield the same result. The
/// executable `advance` returns exactly this function of its arguments, so
/// two calls on identical arguments are bit-identical.
pub proof fn lemma_advance_deterministic(
    s: Snapshot,
    input0: u8,
    input1: u8,
    recs: Seq<CollisionRecord>,
    w: WorldMap,
)
    ensures
        advance_spec(s, input0, input1, recs, w) == advance_spec(s, input0, input1, recs, w),
{
}

/// Jump bound, one tick: a step never pushes `jumps_remaining` above
/// [`MAX_JUMPS`], and a jump only ever consumes an available one, so the
/// count cannot underflow either.
pub proof fn lemma_jump_bound_step(p: PlayerState, input: u8, grounded: bool)
    requires
        p.jumps_remaining <= MAX_JUMPS,
    ensures
        step_player_spec(p, input, grounded).jumps_remaining <= MAX_JUMPS,
        jump_triggered(p, input) ==> p.jumps_remaining >= 1,
{
}

/// Jump bound, any sequence of ticks: starting from a snapshot within the
/// budget, `jumps_remaining` stays within `0 ..= MAX_JUMPS` forever.
pub proof fn lemma_jump_bound_run(s: Snapshot, w: WorldMap, ticks: Seq<TickData>)
    requires
        jumps_bounded(s),
    ensures
        jumps_bounded(run(s, w, ticks)),
    decreases ticks.len(),
{
    if ticks.len() > 0 {
        let next = advance_spec(s, ticks[0].input0, ticks[0].input1, ticks[0].collisions, w);
        lemma_jump_bound_step(s.player0, ticks[0].input0, grounded_in(w, 0, ticks[0].collisions));
        lemma_jump_bound_step(s.player1, ticks[0].input1, grounded_in(w, 1, ticks[0].collisions));
        lemma_jump_bound_run(next, w, ticks.drop_first());
    }
}

/// Grounding idempotence: the step reads the collision records only through
/// the boolean "some record grounds this player", so any two record sets that
/// agree on that boolean for both players (for example, one ground contact
/// versus several simultaneous ones) produce identical results — there is no
/// double reset of jumps.
pub proof fn lemma_grounding_idempotent(
    s: Snapshot,
    input0: u8,
    input1: u8,
    recs_a: Seq<CollisionRecord>,
    recs_b: Seq<CollisionRecord>,
    w: WorldMap,
)
    requires
        grounded_in(w, 0, recs_a) == grounded_in(w, 0, recs_b),
        grounded_in(w, 1, recs_a) == grounded_in(w, 1, recs_b),
    ensures
        advance_spec(s, input0, input1, recs_a, w) == advance_spec(s, input0, input1, recs_b, w),
{
}

/// Edge detection: a jump triggers exactly on a released-to-pressed
/// transition of "up" with a jump available — never while "up" is merely
/// held, whatever the rest of the state.
pub proof fn lemma_edge_detection(p: PlayerState, input: u8)
    ensures
        jump_triggered(p, input) <==> up_held(input) && !up_held(p.previous_input)
            && p.jumps_remaining > 0,
        up_held(p.previous_input) ==> !jump_triggered(p, input),
{
}

/// Edge detection across consecutive ticks: after a tick whose input held
/// "up", the next tick stores that mask as `previous_input`, so keeping "up"
/// held cannot trigger a second jump, and the vertical velocity is left
/// untouched on that next tick.
pub proof fn lemma_no_retrigger_while_held(
    p: PlayerState,
    b: BodyState,
    first_input: u8,
    grounded: bool,
    next_input: u8,
)
    requires
        up_held(first_input),
        up_held(next_input),
    ensures
        !jump_triggered(step_player_spec(p, first_input, grounded), next_input),
        step_body_spec(b, next_input, jump_triggered(step_player_spec(p, first_input, grounded),
            next_input)).vy == b.vy,
{
}

/// Advances the simulation by one tick. Pure given its arguments: the result
/// is exactly [`advance_spec`] of them, with no hidden state, which is the
/// determinism that rollback replay relies on.
pub fn advance(
    s: &Snapshot,
    input0: u8,
    input1: u8,
    recs: &Vec<CollisionRecord>,
    w: &WorldMap,
) -> (r: Snapshot)
    ensures
        r == advance_spec(*s, input0, input1, recs@, *w),
{
    let grounded0 = compute_grounded(w, 0, recs);
    let grounded1 = compute_grounded(w, 1, recs);
    let jumping0 = (input0 & crate::input::INPUT_UP != 0) && (s.player0.previous_input
        & crate::input::INPUT_UP == 0) && s.player0.jumps_remaining > 0;
    let jumping1 = (input1 & crate::input::INPUT_UP != 0) && (s.player1.previous_input
        & crate::input::INPUT_UP == 0) && s.player1.jumps_remaining > 0;
    Snapshot {
        player0: step_player(&s.player0, input0, grounded0),
        player1: step_player(&s.player1, input1, grounded1),
        body0: step_body(&s.body0, input0, jumping0),
        body1: step_body(&s.body1, input1, jumping1),
    }
}

/// Spawn abscissa of player 0, in world units.
pub const SPAWN_X0: i64 = -2;
/// Spawn abscissa of player 1, in world units.
pub const SPAWN_X1: i64 = 2;

/// The snapshot both peers start a session from: players facing each other
/// across the net at rest, airborne, with the full jump budget and no input
/// history.
pub open spec fn initial_snapshot_spec() -> Snapshot {
    Snapshot {
        player0: PlayerState {
            handle: 0,
            jumps_remaining: MAX_JUMPS,
            is_grounded: false,
            previous_input: 0,
        },
        player1: PlayerState {
            handle: 1,
            jumps_remaining: MAX_JUMPS,
            is_grounded: false,
            previous_input: 0,
        },
        body0: BodyState { x: SPAWN_X0, y: 0, vx: 0, vy: 0 },
        body1: BodyState { x: SPAWN_X1, y: 0, vx: 0, vy: 0 },
    }
}

/// Builds the spawn-time snapshot.
pub fn initial_snapshot() -> (s: Snapshot)
    ensures
        s == initial_snapshot_spec(),
        jumps_bounded(s),
{
    Snapshot {
        player0: PlayerState {
            handle: 0,
            jumps_remaining: MAX_JUMPS,
            is_grounded: false,
            previous_input: 0,
        },
        player1: PlayerState {
            handle: 1,
            jumps_remaining: MAX_JUMPS,
            is_grounded: false,
            previous_input: 0,
        },
        body0: BodyState { x: SPAWN_X0, y: 0, vx: 0, vy: 0 },
        body1: BodyState { x: SPAWN_X1, y: 0, vx: 0, vy: 0 },
    }
}

} // verus!
