use rollback_core::input::INPUT_LEFT;
use rollback_core::sim::{advance, initial_snapshot, CollisionRecord, WorldMap, MOVE_SPEED};
use rollback_core::session::{RollbackSession, SessionError, SessionPhase};

fn world() -> WorldMap {
    WorldMap { ground: 1, body0: 10, collider0: 11, body1: 20, collider1: 21 }
}

fn no_collisions() -> Vec<CollisionRecord> {
    Vec::new()
}

/// A session already running, local peer added first (handle 0).
fn running_session(input_delay: u64, window: usize) -> RollbackSession {
    let mut s = RollbackSession::new(7, input_delay, window, world(), initial_snapshot());
    s.add_peer(7).unwrap();
    s.add_peer(8).unwrap();
    assert_eq!(s.phase, SessionPhase::Running);
    assert_eq!(s.local_handle, 0);
    s
}

#[test]
fn session_starts_on_exactly_two_distinct_peers() {
    let mut s = RollbackSession::new(7, 2, 8, world(), initial_snapshot());
    assert_eq!(s.phase, SessionPhase::AwaitingPeers);
    s.add_peer(8).unwrap();
    assert_eq!(s.phase, SessionPhase::AwaitingPeers);
    s.add_peer(7).unwrap();
    assert_eq!(s.phase, SessionPhase::Running);
    // Handles follow order of first appearance: the remote came first.
    assert_eq!(s.local_handle, 1);
    assert_eq!(s.peers, vec![8, 7]);
}

#[test]
fn duplicate_peer_is_an_establishment_error() {
    let mut s = RollbackSession::new(7, 2, 8, world(), initial_snapshot());
    s.add_peer(9).unwrap();
    assert_eq!(s.add_peer(9), Err(SessionError::DuplicatePeer));
    assert_eq!(s.phase, SessionPhase::AwaitingPeers);
}

#[test]
fn two_remotes_without_the_local_peer_cannot_start() {
    let mut s = RollbackSession::new(7, 2, 8, world(), initial_snapshot());
    s.add_peer(8).unwrap();
    assert_eq!(s.add_peer(9), Err(SessionError::LocalPeerMissing));
    assert_eq!(s.phase, SessionPhase::AwaitingPeers);
}

#[test]
fn adding_a_peer_after_startup_fails() {
    let mut s = running_session(0, 8);
    assert_eq!(s.add_peer(9), Err(SessionError::AlreadyStarted));
}

#[test]
fn ticks_do_not_advance_outside_the_running_phase() {
    let mut s = RollbackSession::new(7, 0, 8, world(), initial_snapshot());
    assert_eq!(s.advance_tick(0, no_collisions()), Err(SessionError::NotRunning));
    let mut r = running_session(0, 8);
    r.terminate();
    assert_eq!(r.advance_tick(0, no_collisions()), Err(SessionError::NotRunning));
}

#[test]
fn local_input_is_delayed_and_sent_tick_tagged() {
    let mut s = running_session(2, 8);
    // Captured masks 31, 32, 33, ... on ticks 0, 1, 2, ...
    for t in 0..5u64 {
        let sent = s.advance_tick(31 + t as u8, no_collisions()).unwrap();
        assert_eq!(sent.tick, t + 2);
        assert_eq!(sent.input, 31 + t as u8);
    }
    // The first two ticks ran on the zero mask; from tick 2 on, each tick
    // uses the mask captured two ticks earlier.
    assert_eq!(s.frames[0].local_input, 0);
    assert_eq!(s.frames[1].local_input, 0);
    assert_eq!(s.frames[2].local_input, 31);
    assert_eq!(s.frames[3].local_input, 32);
    assert_eq!(s.frames[4].local_input, 33);
}

#[test]
fn remote_input_is_confirmed_when_its_message_arrived() {
    let mut s = running_session(0, 8);
    s.receive_remote_input(0, 5).unwrap();
    s.advance_tick(0, no_collisions()).unwrap();
    assert!(s.frames[0].remote_confirmed);
    assert_eq!(s.frames[0].remote_input, 5);
    // No message for tick 1: the last confirmed input is repeated as the
    // prediction and tagged as such.
    s.advance_tick(0, no_collisions()).unwrap();
    assert!(!s.frames[1].remote_confirmed);
    assert_eq!(s.frames[1].remote_input, 5);
}

#[test]
fn prediction_before_any_confirmation_is_the_zero_mask() {
    let mut s = running_session(0, 8);
    s.advance_tick(9, no_collisions()).unwrap();
    assert!(!s.frames[0].remote_confirmed);
    assert_eq!(s.frames[0].remote_input, 0);
}

#[test]
fn matching_confirmation_only_marks_the_frame() {
    let mut s = running_session(0, 8);
    for _ in 0..3 {
        s.advance_tick(0, no_collisions()).unwrap();
    }
    let before = s.frames.clone();
    let current_before = s.current;
    // The prediction for tick 1 was the zero mask; the confirmed value
    // agrees, so nothing is resimulated.
    s.receive_remote_input(1, 0).unwrap();
    assert!(s.frames[1].remote_confirmed);
    assert_eq!(s.frames[1].remote_input, 0);
    assert_eq!(s.frames[0], before[0]);
    assert_eq!(s.frames[2], before[2]);
    assert_eq!(s.frames[1].start, before[1].start);
    assert_eq!(s.current, current_before);
}

#[test]
fn duplicate_confirmation_is_ignored() {
    let mut s = running_session(0, 8);
    s.advance_tick(0, no_collisions()).unwrap();
    s.receive_remote_input(0, 0).unwrap();
    let before = s.frames.clone();
    // A second message for the same tick, even a disagreeing one, changes
    // nothing: the tick is already confirmed.
    s.receive_remote_input(0, 3).unwrap();
    assert_eq!(s.frames, before);
}

#[test]
fn rollback_applies_late_remote_input_to_every_later_tick() {
    // Local predicts the remote input as the zero mask for ticks 10-12; the
    // confirmed message for tick 10 arrives at tick 13 holding LEFT.
    let mut s = running_session(0, 32);
    for _ in 0..13 {
        s.advance_tick(0, no_collisions()).unwrap();
    }
    assert_eq!(s.current.body1.vx, 0);
    s.receive_remote_input(10, INPUT_LEFT).unwrap();
    assert_eq!(s.phase, SessionPhase::Running);
    // Tick 10 is confirmed with LEFT; ticks 11 and 12 now predict LEFT.
    assert!(s.frames[10].remote_confirmed);
    assert_eq!(s.frames[10].remote_input, INPUT_LEFT);
    assert!(!s.frames[11].remote_confirmed);
    assert_eq!(s.frames[11].remote_input, INPUT_LEFT);
    assert_eq!(s.frames[12].remote_input, INPUT_LEFT);
    // The snapshot the mismatched tick started from is untouched; every
    // later snapshot was recomputed and shows the remote player moving.
    assert_eq!(s.frames[10].start.body1.vx, 0);
    assert_eq!(s.frames[11].start.body1.vx, -MOVE_SPEED);
    assert_eq!(s.frames[12].start.body1.vx, -MOVE_SPEED);
    assert_eq!(s.current.body1.vx, -MOVE_SPEED);
    // Ticks before the mismatch are untouched.
    assert_eq!(s.frames[9].start.body1.vx, 0);
    assert!(!s.frames[9].remote_confirmed);
}

#[test]
fn rollback_keeps_later_confirmed_inputs() {
    let mut s = running_session(0, 32);
    for _ in 0..4 {
        s.advance_tick(0, no_collisions()).unwrap();
    }
    // Tick 2 got confirmed as the zero mask; then tick 0 turns out to have
    // been LEFT. The replay revises tick 1's prediction to LEFT but must
    // keep tick 2's confirmed value, and tick 3 then predicts from tick 2.
    s.receive_remote_input(2, 0).unwrap();
    s.receive_remote_input(0, INPUT_LEFT).unwrap();
    assert_eq!(s.frames[0].remote_input, INPUT_LEFT);
    assert_eq!(s.frames[1].remote_input, INPUT_LEFT);
    assert_eq!(s.frames[2].remote_input, 0);
    assert!(s.frames[2].remote_confirmed);
    assert_eq!(s.frames[3].remote_input, 0);
    assert_eq!(s.frames[1].start.body1.vx, -MOVE_SPEED);
    assert_eq!(s.frames[2].start.body1.vx, -MOVE_SPEED);
    assert_eq!(s.frames[3].start.body1.vx, 0);
    assert_eq!(s.current.body1.vx, 0);
}

#[test]
fn replaying_stored_frames_reproduces_their_snapshots() {
    let mut s = running_session(1, 16);
    s.receive_remote_input(2, INPUT_LEFT).unwrap();
    for t in 0..6u64 {
        let recs = if t == 3 {
            vec![CollisionRecord { first: 11, second: 1 }]
        } else {
            no_collisions()
        };
        s.advance_tick(40 + t as u8, recs).unwrap();
    }
    // Resimulating from any retained frame with the stored inputs and
    // collision records lands exactly on the stored later snapshots.
    let mut state = s.frames[0].start;
    for j in 0..s.frames.len() {
        assert_eq!(state, s.frames[j].start);
        let f = &s.frames[j];
        state = advance(&state, f.local_input, f.remote_input, &s.frame_collisions[j], &s.world);
    }
    assert_eq!(state, s.current);
}

#[test]
fn window_eviction_bounds_the_frame_count() {
    let mut s = running_session(0, 4);
    for _ in 0..10 {
        s.advance_tick(0, no_collisions()).unwrap();
    }
    assert_eq!(s.frames.len(), 4);
    assert_eq!(s.frames[0].tick, 6);
    assert_eq!(s.frames[3].tick, 9);
}

#[test]
fn confirmation_beyond_the_window_is_a_fatal_desync() {
    let mut s = running_session(0, 2);
    for _ in 0..5 {
        s.advance_tick(0, no_collisions()).unwrap();
    }
    // Only ticks 3 and 4 are retained; tick 0 can no longer be checked.
    assert_eq!(s.receive_remote_input(0, INPUT_LEFT), Err(SessionError::DesyncBeyondWindow));
    assert_eq!(s.phase, SessionPhase::Terminated);
    assert_eq!(s.advance_tick(0, no_collisions()), Err(SessionError::NotRunning));
}

#[test]
fn messages_after_termination_are_ignored() {
    let mut s = running_session(0, 8);
    s.advance_tick(0, no_collisions()).unwrap();
    s.terminate();
    let before = s.frames.clone();
    s.receive_remote_input(0, INPUT_LEFT).unwrap();
    assert_eq!(s.frames, before);
    assert_eq!(s.phase, SessionPhase::Terminated);
}

#[test]
fn grounding_flows_through_the_session() {
    let mut s = running_session(0, 8);
    let recs = vec![CollisionRecord { first: 11, second: 1 }];
    s.advance_tick(0, recs).unwrap();
    assert!(s.current.player0.is_grounded);
    assert!(!s.current.player1.is_grounded);
}
