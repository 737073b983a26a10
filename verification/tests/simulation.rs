use rollback_core::input::{INPUT_LEFT, INPUT_RIGHT, INPUT_UP};
use rollback_core::sim::{
    advance, initial_snapshot, CollisionRecord, Snapshot, WorldMap, JUMP_IMPULSE, MAX_JUMPS,
    MOVE_SPEED,
};

fn world() -> WorldMap {
    WorldMap { ground: 1, body0: 10, collider0: 11, body1: 20, collider1: 21 }
}

fn ground_contact_for_player0() -> CollisionRecord {
    CollisionRecord { first: 11, second: 1 }
}

#[test]
fn advance_is_deterministic() {
    let w = world();
    let s = initial_snapshot();
    let recs = vec![ground_contact_for_player0(), CollisionRecord { first: 10, second: 1 }];
    let a = advance(&s, INPUT_RIGHT, INPUT_UP, &recs, &w);
    let b = advance(&s, INPUT_RIGHT, INPUT_UP, &recs, &w);
    assert_eq!(a, b);
}

#[test]
fn movement_is_an_assignment_not_an_impulse() {
    let w = world();
    let s = initial_snapshot();
    let s1 = advance(&s, INPUT_RIGHT, 0, &vec![], &w);
    assert_eq!(s1.body0.vx, MOVE_SPEED);
    let s2 = advance(&s1, INPUT_RIGHT, 0, &vec![], &w);
    // Holding the direction does not accumulate speed.
    assert_eq!(s2.body0.vx, MOVE_SPEED);
    let s3 = advance(&s2, INPUT_LEFT, 0, &vec![], &w);
    assert_eq!(s3.body0.vx, -MOVE_SPEED);
    let s4 = advance(&s3, 0, 0, &vec![], &w);
    assert_eq!(s4.body0.vx, 0);
}

#[test]
fn jump_triggers_only_on_the_edge() {
    let w = world();
    let s = initial_snapshot();
    // Tick 1: UP goes from released to pressed: jump.
    let s1 = advance(&s, INPUT_UP, 0, &vec![], &w);
    assert_eq!(s1.player0.jumps_remaining, 1);
    assert_eq!(s1.body0.vy, JUMP_IMPULSE);
    // Tick 2: UP still held: no second jump, velocity untouched.
    let mut held = s1;
    held.body0.vy = 3;
    let s2 = advance(&held, INPUT_UP, 0, &vec![], &w);
    assert_eq!(s2.player0.jumps_remaining, 1);
    assert_eq!(s2.body0.vy, 3);
}

#[test]
fn double_jump_consumes_budget_and_third_edge_does_nothing() {
    // Player 0 presses UP on tick 5 only (0 on ticks 0-4 and 6), then makes
    // two more UP edges before ever landing.
    let w = world();
    let mut s = initial_snapshot();
    assert_eq!(s.player0.jumps_remaining, MAX_JUMPS);
    for _ in 0..5 {
        s = advance(&s, 0, 0, &vec![], &w);
    }
    s = advance(&s, INPUT_UP, 0, &vec![], &w);
    assert_eq!(s.player0.jumps_remaining, 1);
    assert_eq!(s.body0.vy, JUMP_IMPULSE);
    // Release, then a second edge mid-air: consumes the second jump.
    s = advance(&s, 0, 0, &vec![], &w);
    s.body0.vy = -4; // falling again
    s = advance(&s, INPUT_UP, 0, &vec![], &w);
    assert_eq!(s.player0.jumps_remaining, 0);
    assert_eq!(s.body0.vy, JUMP_IMPULSE);
    // Release, then a third edge with no jumps left: no velocity change.
    s = advance(&s, 0, 0, &vec![], &w);
    s.body0.vy = -6;
    let after = advance(&s, INPUT_UP, 0, &vec![], &w);
    assert_eq!(after.player0.jumps_remaining, 0);
    assert_eq!(after.body0.vy, -6);
}

#[test]
fn grounding_is_idempotent_across_simultaneous_records() {
    let w = world();
    let mut s = initial_snapshot();
    s.player0.jumps_remaining = 0;
    let one = vec![ground_contact_for_player0()];
    let many = vec![
        ground_contact_for_player0(),
        CollisionRecord { first: 1, second: 10 },
        CollisionRecord { first: 10, second: 1 },
    ];
    let a = advance(&s, 0, 0, &one, &w);
    let b = advance(&s, 0, 0, &many, &w);
    assert_eq!(a, b);
    assert!(a.player0.is_grounded);
    assert_eq!(a.player0.jumps_remaining, MAX_JUMPS);
}

#[test]
fn grounding_same_tick_as_jump_does_not_regrant() {
    let w = world();
    let mut s = initial_snapshot();
    s.player0.previous_input = 0;
    s.player0.jumps_remaining = 2;
    let recs = vec![ground_contact_for_player0()];
    // The jump fires and the simultaneous ground contact must not give the
    // consumed jump back, though it still marks the player grounded.
    let next = advance(&s, INPUT_UP, 0, &recs, &w);
    assert_eq!(next.player0.jumps_remaining, 1);
    assert!(next.player0.is_grounded);
    assert_eq!(next.body0.vy, JUMP_IMPULSE);
}

#[test]
fn grounding_requires_this_player_and_the_ground() {
    let w = world();
    let mut s = initial_snapshot();
    s.player0.jumps_remaining = 0;
    s.player1.jumps_remaining = 0;
    // Player 1 touches the ground through its collider; player 0 touches a
    // wall (id 99) only.
    let recs = vec![
        CollisionRecord { first: 21, second: 1 },
        CollisionRecord { first: 11, second: 99 },
    ];
    let next = advance(&s, 0, 0, &recs, &w);
    assert!(!next.player0.is_grounded);
    assert_eq!(next.player0.jumps_remaining, 0);
    assert!(next.player1.is_grounded);
    assert_eq!(next.player1.jumps_remaining, MAX_JUMPS);
}

#[test]
fn grounded_flag_is_recomputed_every_tick() {
    let w = world();
    let mut s = initial_snapshot();
    s.player0.is_grounded = true;
    let next = advance(&s, 0, 0, &vec![], &w);
    assert!(!next.player0.is_grounded);
}

#[test]
fn positions_pass_through_unchanged() {
    let w = world();
    let s = initial_snapshot();
    let next = advance(&s, INPUT_RIGHT, INPUT_LEFT, &vec![], &w);
    assert_eq!((next.body0.x, next.body0.y), (s.body0.x, s.body0.y));
    assert_eq!((next.body1.x, next.body1.y), (s.body1.x, s.body1.y));
}

#[test]
fn initial_snapshot_matches_spawn_layout() {
    let s: Snapshot = initial_snapshot();
    assert_eq!(s.player0.handle, 0);
    assert_eq!(s.player1.handle, 1);
    assert_eq!(s.player0.jumps_remaining, 2);
    assert_eq!(s.player1.jumps_remaining, 2);
    assert!(!s.player0.is_grounded);
    assert_eq!(s.player0.previous_input, 0);
    assert_eq!(s.body0.x, -2);
    assert_eq!(s.body1.x, 2);
    assert_eq!(s.body0.vy, 0);
}
