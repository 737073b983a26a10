//! The rollback session protocol.
//!
//! A session moves through three phases. While awaiting peers it collects
//! peer identities one by one; the moment exactly two distinct peers are
//! known, with exactly one of them the local peer, it starts running and
//! fixes the handle assignment by order of first appearance. While running,
//! each call of [`RollbackSession::advance_tick`] captures the local input,
//! schedules it `input_delay` ticks ahead (and hands it back, tick-tagged,
//! for transmission), resolves the remote input for the current tick —
//! confirmed if a message for it has arrived, otherwise a prediction that
//! repeats the most recent confirmed remote input — and advances the
//! deterministic simulation, appending the tick's frame to a bounded rolling
//! window. When [`RollbackSession::receive_remote_input`] learns that a past
//! tick was simulated with a wrong prediction, it rolls back: it restores the
//! snapshot stored in that tick's frame and resimulates every later tick with
//! the confirmed input where known and the revised prediction otherwise,
//! overwriting each frame as it goes. A confirmed input older than the whole
//! window is a desynchronization the session cannot repair locally; it
//! terminates the session. Termination stops all further ticks and makes
//! every later message a no-op.
//!
//! The session owns no transport and no clock: the driving loop calls
//! `advance_tick` once per logical tick, sends what it returns, and feeds
//! every received message to `receive_remote_input`.

use vstd::prelude::*;

use crate::sim::{
    advance, advance_spec, jumps_bounded, CollisionRecord, Snapshot, WorldMap,
};

verus! {

/// An input mask tagged with the tick it applies to: the whole wire format
/// exchanged between peers, and the unit held in the delay buffers.
#[derive(Clone, Copy, PartialEq, Eq, Structural, Debug)]
pub struct TickInput {
    pub tick: u64,
    pub input: u8,
}

/// Lifecycle of a session.
#[derive(Clone, Copy, PartialEq, Eq, Structural, Debug)]
pub enum SessionPhase {
    AwaitingPeers,
    Running,
    Terminated,
}

/// Everything that can go wrong in the protocol. Establishment errors
/// (`DuplicatePeer`, `LocalPeerMissing`, `AlreadyStarted`) abort session
/// startup; `NotRunning` rejects a tick outside the running phase; a missing
/// per-tick message is never an error, but a confirmed input older than the
/// whole rollback window is an unrecoverable desynchronization.
#[derive(Clone, Copy, PartialEq, Eq, Structural, Debug)]
pub enum SessionError {
    DuplicatePeer,
    LocalPeerMissing,
    AlreadyStarted,
    NotRunning,
    DesyncBeyondWindow,
}

/// The unit of rollback: one simulated tick. `start` is the full snapshot
/// the tick was simulated from, so restoring a frame and re-running the
/// transition function reproduces everything after it. `local_input` is
/// always confirmed (it is our own, read through the delay buffer);
/// `remote_input` carries the tag saying whether it came from the peer or
/// was predicted. The tick's collision records are kept beside the frame so
/// that resimulation feeds the transition function the same environment.
#[derive(Clone, Copy, PartialEq, Eq, Structural, Debug)]
pub struct SessionFrame {
    pub tick: u64,
    pub local_input: u8,
    pub remote_input: u8,
    pub remote_confirmed: bool,
    pub start: Snapshot,
}

/// Ticks strictly increase along the buffer.
pub open spec fn sorted_ticks(s: Seq<TickInput>) -> bool {
    forall|i: int, j: int| 0 <= i < j < s.len() ==> (#[trigger] s[i]).tick < (#[trigger] s[j]).tick
}

/// No two entries carry the same tick.
pub open spec fn distinct_ticks(s: Seq<TickInput>) -> bool {
    forall|i: int, j: int| 0 <= i < j < s.len() ==> (#[trigger] s[i]).tick != (#[trigger] s[j]).tick
}

/// Whether some entry carries tick `t`.
pub open spec fn has_tick(s: Seq<TickInput>, t: u64) -> bool {
    exists|i: int| 0 <= i < s.len() && (#[trigger] s[i]).tick == t
}

/// The index of the entry carrying tick `t` (unique under
/// [`distinct_ticks`]).
pub open spec fn tick_index(s: Seq<TickInput>, t: u64) -> int {
    choose|i: int| 0 <= i < s.len() && (#[trigger] s[i]).tick == t
}

/// The input carried by the entry for tick `t`.
pub open spec fn input_at(s: Seq<TickInput>, t: u64) -> u8 {
    s[tick_index(s, t)].input
}

/// The buffer with the entry for tick `t` taken out, if one is there.
pub open spec fn consume_tick(s: Seq<TickInput>, t: u64) -> Seq<TickInput> {
    if has_tick(s, t) {
        s.remove(tick_index(s, t))
    } else {
        s
    }
}

/// The input a frame supplies to player 0: the local mask if the local
/// player holds handle 0, the remote mask otherwise.
pub open spec fn frame_input0(f: SessionFrame, local_handle: int) -> u8 {
    if local_handle == 0 {
        f.local_input
    } else {
        f.remote_input
    }
}

/// The input a frame supplies to player 1.
pub open spec fn frame_input1(f: SessionFrame, local_handle: int) -> u8 {
    if local_handle == 0 {
        f.remote_input
    } else {
        f.local_input
    }
}

/// The simulation step one frame performs: the deterministic transition
/// applied to `st` with the frame's two inputs and its collision records.
pub open spec fn step_frame(
    st: Snapshot,
    f: SessionFrame,
    recs: Seq<CollisionRecord>,
    w: WorldMap,
    local_handle: int,
) -> Snapshot {
    advance_spec(st, frame_input0(f, local_handle), frame_input1(f, local_handle), recs, w)
}

/// The revised prediction for the remote input of the frame at index `j`
/// after the frame at `idx` was confirmed with value `confirmed`: the value
/// of the nearest confirmed frame at or below `j`, which repeats forward
/// across unconfirmed frames.
pub open spec fn revised_prediction(
    frames: Seq<SessionFrame>,
    idx: int,
    confirmed: u8,
    j: int,
) -> u8
    decreases j - idx,
{
    if j <= idx {
        confirmed
    } else if frames[j].remote_confirmed {
        frames[j].remote_input
    } else {
        revised_prediction(frames, idx, confirmed, j - 1)
    }
}

/// The rollback session. All state is plain data; the well-formedness
/// predicate [`RollbackSession::wf`] ties it together, and every method
/// preserves it.
pub struct RollbackSession {
    /// Lifecycle phase.
    pub phase: SessionPhase,
    /// Identity of the local peer, fixed at creation.
    pub local_peer: u64,
    /// Ticks by which local input is held back before it is treated as
    /// current, giving the network a head start.
    pub input_delay: u64,
    /// Maximum number of retained frames: the rollback horizon.
    pub window: usize,
    /// Identifier layout of the simulated world.
    pub world: WorldMap,
    /// Peer identities in order of first appearance (at most two).
    pub peers: Vec<u64>,
    /// Handle of the local player once running: its index in `peers`.
    pub local_handle: usize,
    /// The next tick to simulate; everything below it is history.
    pub next_tick: u64,
    /// The live snapshot: the state the next tick starts from.
    pub current: Snapshot,
    /// The rolling window of simulated frames, oldest first, with
    /// consecutive ticks ending at `next_tick - 1`.
    pub frames: Vec<SessionFrame>,
    /// The collision records of each retained frame, index-aligned with
    /// `frames`.
    pub frame_collisions: Vec<Vec<CollisionRecord>>,
    /// Local inputs already captured but scheduled for ticks still to come.
    pub pending_local: Vec<TickInput>,
    /// Confirmed remote inputs for ticks still to come.
    pub pending_remote: Vec<TickInput>,
    /// Whether any remote input was ever confirmed.
    pub has_confirmed: bool,
    /// The newest tick a remote input was confirmed for (meaningful only if
    /// `has_confirmed`).
    pub last_confirmed_tick: u64,
    /// The most recent confirmed remote input, repeated as the prediction
    /// for ticks whose message has not arrived; zero before any arrived.
    pub last_confirmed_remote: u8,
}

impl RollbackSession {
    /// Frames step into one another: each frame's `start` is the previous
    /// frame's `start` advanced by that frame, and the live snapshot is the
    /// last frame's step. This is what makes every stored snapshot
    /// reproducible by replay.
    pub open spec fn chain_ok(self) -> bool {
        &&& self.frames@.len() == self.frame_collisions@.len()
        &&& forall|j: int|
            0 <= j < self.frames@.len() - 1 ==> self.frames@[j + 1].start == #[trigger] step_frame(
                self.frames@[j].start,
                self.frames@[j],
                self.frame_collisions@[j]@,
                self.world,
                self.local_handle as int,
            )
        &&& self.frames@.len() > 0 ==> self.current == step_frame(
            self.frames@[self.frames@.len() - 1].start,
            self.frames@[self.frames@.len() - 1],
            self.frame_collisions@[self.frames@.len() - 1]@,
            self.world,
            self.local_handle as int,
        )
    }

    /// The window holds consecutive ticks ending just below `next_tick` and
    /// never outgrows its bound.
    pub open spec fn ticks_ok(self) -> bool {
        &&& self.frames@.len() <= self.window
        &&& self.frames@.len() <= self.next_tick
        &&& forall|j: int|
            0 <= j < self.frames@.len() ==> (#[trigger] self.frames@[j]).tick as int
                == self.next_tick as int - (self.frames@.len() - j)
    }

    /// The delay buffer is sorted and covers only ticks within the delay
    /// horizon; the future-remote buffer holds distinct ticks not yet
    /// simulated.
    pub open spec fn pending_ok(self) -> bool {
        &&& sorted_ticks(self.pending_local@)
        &&& forall|i: int|
            0 <= i < self.pending_local@.len() ==> self.next_tick
                <= (#[trigger] self.pending_local@[i]).tick < self.next_tick + self.input_delay
        &&& distinct_ticks(self.pending_remote@)
        &&& forall|i: int|
            0 <= i < self.pending_remote@.len() ==> (#[trigger] self.pending_remote@[i]).tick
                >= self.next_tick
    }

    /// Every retained snapshot and the live one respect the jump budget.
    pub open spec fn snapshots_ok(self) -> bool {
        &&& jumps_bounded(self.current)
        &&& forall|j: int|
            0 <= j < self.frames@.len() ==> jumps_bounded((#[trigger] self.frames@[j]).start)
    }

    /// Peer bookkeeping: at most two distinct peers; before running fewer
    /// than two are known; once running the local peer sits at
    /// `local_handle`.
    pub open spec fn peers_ok(self) -> bool {
        &&& self.peers@.len() <= 2
        &&& forall|i: int, j: int|
            0 <= i < j < self.peers@.len() ==> (#[trigger] self.peers@[i]) != (
            #[trigger] self.peers@[j])
        &&& self.phase is AwaitingPeers ==> self.peers@.len() < 2
        &&& self.phase is Running ==> self.peers@.len() == 2 && self.local_handle < 2
            && self.peers@[self.local_handle as int] == self.local_peer
    }

    /// The session invariant: established by [`RollbackSession::new`] and
    /// preserved by every method.
    /// Before the session runs, no tick was ever simulated and no buffer
    /// holds anything.
    pub open spec fn fresh_ok(self) -> bool {
        self.phase is AwaitingPeers ==> self.frames@.len() == 0 && self.frame_collisions@.len()
            == 0 && self.pending_local@.len() == 0 && self.pending_remote@.len() == 0
            && self.next_tick == 0
    }

    pub open spec fn wf(self) -> bool {
        &&& self.window >= 1
        &&& self.peers_ok()
        &&& self.fresh_ok()
        &&& self.chain_ok()
        &&& self.ticks_ok()
        &&& self.pending_ok()
        &&& self.snapshots_ok()
    }

    /// Creates a session awaiting its peers. `window` is the rollback
    /// horizon in ticks and must cover the worst tolerated round trip;
    /// `initial` is the agreed spawn snapshot both peers start from.
    pub fn new(
        local_peer: u64,
        input_delay: u64,
        window: usize,
        world: WorldMap,
        initial: Snapshot,
    ) -> (s: RollbackSession)
        requires
            window >= 1,
            jumps_bounded(initial),
        ensures
            s.wf(),
            s.phase is AwaitingPeers,
            s.local_peer == local_peer,
            s.input_delay == input_delay,
            s.window == window,
            s.world == world,
            s.current == initial,
            s.peers@.len() == 0,
            s.next_tick == 0,
            s.frames@.len() == 0,
            s.pending_local@.len() == 0,
            s.pending_remote@.len() == 0,
            !s.has_confirmed,
            s.last_confirmed_remote == 0,
    {
        RollbackSession {
            phase: SessionPhase::AwaitingPeers,
            local_peer,
            input_delay,
            window,
            world,
            peers: Vec::new(),
            local_handle: 0,
            next_tick: 0,
            current: initial,
            frames: Vec::new(),
            frame_collisions: Vec::new(),
            pending_local: Vec::new(),
            pending_remote: Vec::new(),
            has_confirmed: false,
            last_confirmed_tick: 0,
            last_confirmed_remote: 0,
        }
    }

    /// Registers one peer identity reported by the discovery transport (the
    /// local peer announces itself the same way). The session starts running
    /// exactly when two distinct peers are known and one of them is the
    /// local peer; handles follow the order of first appearance. Adding a
    /// duplicate identity, a second peer while no local peer is among the
    /// two, or any peer after startup is an establishment error and leaves
    /// the session unchanged: the caller must abandon this session attempt.
    pub fn add_peer(&mut self, peer: u64) -> (r: Result<(), SessionError>)
        requires
            old(self).wf(),
        ensures
            final(self).wf(),
            r == Err::<(), SessionError>(SessionError::AlreadyStarted) <==> !(old(self).phase
                is AwaitingPeers),
            r == Err::<(), SessionError>(SessionError::DuplicatePeer) <==> old(self).phase
                is AwaitingPeers && old(self).peers@.contains(peer),
            r == Err::<(), SessionError>(SessionError::LocalPeerMissing) <==> old(self).phase
                is AwaitingPeers && !old(self).peers@.contains(peer) && old(self).peers@.len() == 1
                && old(self).peers@[0] != old(self).local_peer && peer != old(self).local_peer,
            r is Err ==> *final(self) == *old(self),
            // Success is owed: a valid registration (awaiting phase, fresh
            // identity, and not a second remote while the local peer is
            // absent) must be accepted.
            r is Ok <==> old(self).phase is AwaitingPeers && !old(self).peers@.contains(peer)
                && !(old(self).peers@.len() == 1 && old(self).peers@[0] != old(self).local_peer
                && peer != old(self).local_peer),
            r is Ok ==> {
                &&& final(self).peers@ == old(self).peers@.push(peer)
                &&& final(self).phase is Running <==> old(self).peers@.len() == 1
                &&& final(self).phase is Running ==> final(self).local_handle == (if old(
                    self,
                ).peers@[0] == old(self).local_peer {
                    0int
                } else {
                    1int
                })
                &&& !(final(self).phase is Running) ==> final(self).phase is AwaitingPeers
                &&& final(self).next_tick == old(self).next_tick
                &&& final(self).current == old(self).current
                &&& final(self).frames@ == old(self).frames@
                &&& final(self).frame_collisions@ == old(self).frame_collisions@
                &&& final(self).pending_local@ == old(self).pending_local@
                &&& final(self).pending_remote@ == old(self).pending_remote@
                &&& final(self).has_confirmed == old(self).has_confirmed
                &&& final(self).last_confirmed_remote == old(self).last_confirmed_remote
                &&& final(self).local_peer == old(self).local_peer
                &&& final(self).input_delay == old(self).input_delay
                &&& final(self).window == old(self).window
                &&& final(self).world == old(self).world
            },
    {
        match self.phase {
            SessionPhase::AwaitingPeers => {},
            _ => {
                return Err(SessionError::AlreadyStarted);
            },
        }
        if self.peers.len() == 1 && self.peers[0] == peer {
            assert(old(self).peers@.contains(peer));
            return Err(SessionError::DuplicatePeer);
        }
        assert(!old(self).peers@.contains(peer)) by {
            assert(forall|i: int|
                0 <= i < old(self).peers@.len() ==> old(self).peers@[i] != peer);
        }
        if self.peers.len() == 1 {
            let first = self.peers[0];
            if first != self.local_peer && peer != self.local_peer {
                return Err(SessionError::LocalPeerMissing);
            }
            self.peers.push(peer);
            self.local_handle = if first == self.local_peer {
                0
            } else {
                1
            };
            self.phase = SessionPhase::Running;
            return Ok(());
        }
        self.peers.push(peer);
        Ok(())
    }

    /// The delay buffer right after this tick's capture is scheduled
    /// `input_delay` ticks ahead.
    pub open spec fn queued_local(self, captured: u8) -> Seq<TickInput> {
        self.pending_local@.push(
            TickInput { tick: (self.next_tick + self.input_delay) as u64, input: captured },
        )
    }

    /// The local input the current tick is simulated with: the mask captured
    /// `input_delay` ticks ago, or the zero mask during the first
    /// `input_delay` ticks of the session.
    pub open spec fn local_input_now(self, captured: u8) -> u8 {
        if has_tick(self.queued_local(captured), self.next_tick) {
            input_at(self.queued_local(captured), self.next_tick)
        } else {
            0
        }
    }

    /// Whether the remote input for the current tick is confirmed, i.e. a
    /// message for it has already arrived.
    pub open spec fn remote_confirmed_now(self) -> bool {
        has_tick(self.pending_remote@, self.next_tick)
    }

    /// The remote input the current tick is simulated with: the confirmed
    /// value if its message arrived, otherwise the prediction that repeats
    /// the most recent confirmed remote input.
    pub open spec fn remote_input_now(self) -> u8 {
        if self.remote_confirmed_now() {
            input_at(self.pending_remote@, self.next_tick)
        } else {
            self.last_confirmed_remote
        }
    }

    /// The frame the current tick appends to the window.
    pub open spec fn new_frame(self, captured: u8) -> SessionFrame {
        SessionFrame {
            tick: self.next_tick,
            local_input: self.local_input_now(captured),
            remote_input: self.remote_input_now(),
            remote_confirmed: self.remote_confirmed_now(),
            start: self.current,
        }
    }

    /// Advances the session by one tick. `captured` is the local input mask
    /// read from the device for this call; `collisions` are the records the
    /// physics engine reported for this tick. Succeeds exactly in the
    /// running phase; the returned tick-tagged input is what the caller must
    /// transmit to the peer. The local input actually simulated is the one
    /// captured `input_delay` ticks ago; the remote input is confirmed where
    /// its message arrived and predicted otherwise; the resulting frame is
    /// appended to the window, evicting the oldest frame once the window is
    /// full.
    #[verifier::loop_isolation(false)]
    pub fn advance_tick(&mut self, captured: u8, collisions: Vec<CollisionRecord>) -> (r: Result<
        TickInput,
        SessionError,
    >)
        requires
            old(self).wf(),
            old(self).next_tick + old(self).input_delay + 1 <= u64::MAX,
        ensures
            final(self).wf(),
            !(old(self).phase is Running) ==> r == Err::<TickInput, SessionError>(
                SessionError::NotRunning,
            ) && *final(self) == *old(self),
            old(self).phase is Running ==> {
                &&& r == Ok::<TickInput, SessionError>(
                    TickInput {
                        tick: (old(self).next_tick + old(self).input_delay) as u64,
                        input: captured,
                    },
                )
                &&& final(self).next_tick == old(self).next_tick + 1
                &&& final(self).frames@ == (if old(self).frames@.len() == old(self).window {
                    old(self).frames@.drop_first()
                } else {
                    old(self).frames@
                }).push(old(self).new_frame(captured))
                &&& final(self).frame_collisions@ == (if old(self).frames@.len() == old(
                    self,
                ).window {
                    old(self).frame_collisions@.drop_first()
                } else {
                    old(self).frame_collisions@
                }).push(collisions)
                &&& final(self).current == step_frame(
                    old(self).current,
                    old(self).new_frame(captured),
                    collisions@,
                    old(self).world,
                    old(self).local_handle as int,
                )
                &&& final(self).pending_local@ == consume_tick(
                    old(self).queued_local(captured),
                    old(self).next_tick,
                )
                &&& final(self).pending_remote@ == consume_tick(
                    old(self).pending_remote@,
                    old(self).next_tick,
                )
                &&& final(self).phase == old(self).phase
                &&& final(self).local_handle == old(self).local_handle
                &&& final(self).world == old(self).world
                &&& final(self).window == old(self).window
                &&& final(self).input_delay == old(self).input_delay
                &&& final(self).peers@ == old(self).peers@
                &&& final(self).local_peer == old(self).local_peer
                &&& final(self).has_confirmed == old(self).has_confirmed
                &&& final(self).last_confirmed_tick == old(self).last_confirmed_tick
                &&& final(self).last_confirmed_remote == old(self).last_confirmed_remote
            },
    {
        match self.phase {
            SessionPhase::Running => {},
            _ => {
                return Err(SessionError::NotRunning);
            },
        }
        let send = TickInput { tick: self.next_tick + self.input_delay, input: captured };
        proof {
            assert(forall|i: int|
                0 <= i < self.pending_local@.len() ==> (#[trigger] self.pending_local@[i]).tick
                    < send.tick);
        }
        self.pending_local.push(send);
        let ghost queued = self.pending_local@;
        assert(sorted_ticks(queued));
        let local_input: u8 = if self.pending_local[0].tick == self.next_tick {
            let entry = self.pending_local.remove(0);
            proof {
                assert(has_tick(queued, self.next_tick));
                let k = tick_index(queued, self.next_tick);
                assert(queued[k].tick == self.next_tick);
                assert(k == 0) by {
                    assert(k > 0 ==> queued[0].tick < queued[k].tick);
                }
            }
            entry.input
        } else {
            proof {
                assert(!has_tick(queued, self.next_tick)) by {
                    assert(forall|i: int|
                        1 <= i < queued.len() ==> queued[0].tick < (#[trigger] queued[i]).tick);
                    assert(forall|i: int|
                        0 <= i < queued.len() ==> (#[trigger] queued[i]).tick != self.next_tick);
                }
            }
            0
        };
        let ghost pre_remote = self.pending_remote@;
        let mut found = false;
        let mut found_at: usize = 0;
        let mut remote_input: u8 = self.last_confirmed_remote;
        let mut i: usize = 0;
        while i < self.pending_remote.len()
            invariant
                i <= self.pending_remote@.len(),
                self.pending_remote@ == pre_remote,
                !found ==> forall|j: int|
                    0 <= j < i ==> (#[trigger] pre_remote[j]).tick != self.next_tick,
                !found ==> remote_input == self.last_confirmed_remote,
                found ==> found_at < pre_remote.len() && pre_remote[found_at as int].tick
                    == self.next_tick && remote_input == pre_remote[found_at as int].input,
            decreases pre_remote.len() - i,
        {
            if !found && self.pending_remote[i].tick == self.next_tick {
                found = true;
                found_at = i;
                remote_input = self.pending_remote[i].input;
            }
            i = i + 1;
        }
        if found {
            proof {
                assert(has_tick(pre_remote, self.next_tick));
                let k = tick_index(pre_remote, self.next_tick);
                assert(pre_remote[k].tick == self.next_tick);
                assert(k == found_at) by {
                    if k < found_at as int {
                        assert(pre_remote[k].tick != pre_remote[found_at as int].tick);
                    }
                    if k > found_at as int {
                        assert(pre_remote[found_at as int].tick != pre_remote[k].tick);
                    }
                }
                assert(remote_input == input_at(pre_remote, self.next_tick));
            }
            self.pending_remote.remove(found_at);
        } else {
            proof {
                assert(!has_tick(pre_remote, self.next_tick)) by {
                    assert(forall|j: int|
                        0 <= j < pre_remote.len() ==> (#[trigger] pre_remote[j]).tick
                            != self.next_tick);
                }
            }
        }
        let (input0, input1) = if self.local_handle == 0 {
            (local_input, remote_input)
        } else {
            (remote_input, local_input)
        };
        let next_state = advance(&self.current, input0, input1, &collisions, &self.world);
        let frame = SessionFrame {
            tick: self.next_tick,
            local_input,
            remote_input,
            remote_confirmed: found,
            start: self.current,
        };
        proof {
            assert(frame == old(self).new_frame(captured));
            crate::sim::lemma_jump_bound_step(
                self.current.player0,
                input0,
                crate::sim::grounded_in(self.world, 0, collisions@),
            );
            crate::sim::lemma_jump_bound_step(
                self.current.player1,
                input1,
                crate::sim::grounded_in(self.world, 1, collisions@),
            );
        }
        if self.frames.len() == self.window {
            self.frames.remove(0);
            self.frame_collisions.remove(0);
        }
        self.frames.push(frame);
        self.frame_collisions.push(collisions);
        self.current = next_state;
        self.next_tick = self.next_tick + 1;
        Ok(send)
    }

    /// How the newest-confirmed bookkeeping moves when a message for `tick`
    /// carrying `input` is accepted: it becomes the prediction source iff no
    /// newer tick was confirmed before.
    pub open spec fn noted_confirmed(pre: RollbackSession, post: RollbackSession, tick: u64, input: u8) -> bool {
        if !pre.has_confirmed || tick >= pre.last_confirmed_tick {
            post.has_confirmed && post.last_confirmed_tick == tick
                && post.last_confirmed_remote == input
        } else {
            post.has_confirmed == pre.has_confirmed && post.last_confirmed_tick
                == pre.last_confirmed_tick && post.last_confirmed_remote
                == pre.last_confirmed_remote
        }
    }

    /// Feeds one peer message — the remote input for `tick` — into the
    /// session. Outside the running phase the message is ignored. A message
    /// for a tick not yet simulated is buffered (duplicates ignored). A
    /// message for an already simulated tick whose frame is still in the
    /// window confirms that frame: if it matches what was used, the frame is
    /// only marked confirmed; if it differs, the session rolls back — it
    /// restores that frame's snapshot and resimulates every retained tick
    /// from there with confirmed inputs where known and revised predictions
    /// otherwise, overwriting the stored frames (see
    /// [`RollbackSession::chain_ok`], which the result satisfies again). A
    /// message for a tick already evicted from the window is a
    /// desynchronization the session cannot check or repair: it terminates
    /// the session. A missing message is never an error; this method only
    /// fails on that unrecoverable case.
    #[verifier::loop_isolation(false)]
    #[verifier::rlimit(60)]
    pub fn receive_remote_input(&mut self, tick: u64, input: u8) -> (r: Result<
        (),
        SessionError,
    >)
        requires
            old(self).wf(),
        ensures
            final(self).wf(),
            // A message never moves the session's configuration or identity:
            // it only touches the frames, the buffers, the bookkeeping and —
            // on desynchronization — the phase. With the world and the handle
            // assignment fixed, the chained snapshots after a rollback are
            // fully determined.
            final(self).world == old(self).world,
            final(self).local_handle == old(self).local_handle,
            final(self).peers@ == old(self).peers@,
            final(self).local_peer == old(self).local_peer,
            final(self).window == old(self).window,
            final(self).input_delay == old(self).input_delay,
            final(self).frame_collisions@ == old(self).frame_collisions@,
            final(self).pending_local@ == old(self).pending_local@,
            final(self).next_tick == old(self).next_tick,
            !(old(self).phase is Running) ==> r == Ok::<(), SessionError>(()) && *final(self)
                == *old(self),
            old(self).phase is Running && tick >= old(self).next_tick && has_tick(
                old(self).pending_remote@,
                tick,
            ) ==> r == Ok::<(), SessionError>(()) && *final(self) == *old(self),
            old(self).phase is Running && tick >= old(self).next_tick && !has_tick(
                old(self).pending_remote@,
                tick,
            ) ==> {
                &&& r == Ok::<(), SessionError>(())
                &&& final(self).pending_remote@ == old(self).pending_remote@.push(
                    (TickInput { tick, input }),
                )
                &&& Self::noted_confirmed(*old(self), *final(self), tick, input)
                &&& final(self).frames@ == old(self).frames@
                &&& final(self).current == old(self).current
                &&& final(self).next_tick == old(self).next_tick
                &&& final(self).pending_local@ == old(self).pending_local@
                &&& final(self).phase == old(self).phase
            },
            old(self).phase is Running && tick < old(self).next_tick && old(self).next_tick - tick
                > old(self).frames@.len() ==> {
                &&& r == Err::<(), SessionError>(SessionError::DesyncBeyondWindow)
                &&& final(self).phase is Terminated
                &&& final(self).frames@ == old(self).frames@
                &&& final(self).current == old(self).current
                &&& final(self).next_tick == old(self).next_tick
            },
            old(self).phase is Running && tick < old(self).next_tick && old(self).next_tick - tick
                <= old(self).frames@.len() ==> ({
                let idx = old(self).frames@.len() - (old(self).next_tick - tick);
                &&& r == Ok::<(), SessionError>(())
                &&& old(self).frames@[idx].remote_confirmed ==> *final(self) == *old(self)
                &&& !old(self).frames@[idx].remote_confirmed ==> {
                    &&& Self::noted_confirmed(*old(self), *final(self), tick, input)
                    &&& final(self).phase is Running
                    &&& final(self).next_tick == old(self).next_tick
                    &&& final(self).pending_local@ == old(self).pending_local@
                    &&& final(self).pending_remote@ == old(self).pending_remote@
                    &&& final(self).frame_collisions@ == old(self).frame_collisions@
                    &&& final(self).frames@.len() == old(self).frames@.len()
                    &&& forall|k: int|
                        0 <= k < idx ==> final(self).frames@[k] == old(self).frames@[k]
                    &&& final(self).frames@[idx].remote_input == input
                    &&& final(self).frames@[idx].remote_confirmed
                    &&& final(self).frames@[idx].start == old(self).frames@[idx].start
                    &&& forall|k: int|
                        idx <= k < old(self).frames@.len() ==> (#[trigger] final(self).frames@[k]).tick == old(self).frames@[k].tick
                            && final(self).frames@[k].local_input == old(self).frames@[k].local_input
                    &&& input != old(self).frames@[idx].remote_input ==> forall|k: int|
                        idx < k < old(self).frames@.len() ==> (#[trigger] final(self).frames@[k]).remote_confirmed == old(self).frames@[k].remote_confirmed
                            && (old(self).frames@[k].remote_confirmed ==> final(self).frames@[k].remote_input == old(self).frames@[k].remote_input)
                            && (!old(self).frames@[k].remote_confirmed ==> final(self).frames@[k].remote_input == revised_prediction(old(self).frames@, idx, input, k))
                    &&& input == old(self).frames@[idx].remote_input ==> final(self).frames@
                        == old(self).frames@.update(idx, (SessionFrame {
                        remote_confirmed: true,
                        ..old(self).frames@[idx]
                    })) && final(self).current == old(self).current
                }
            }),
    {
        match self.phase {
            SessionPhase::Running => {},
            _ => {
                return Ok(());
            },
        }
        if tick >= self.next_tick {
            let ghost pre_remote = self.pending_remote@;
            let mut known = false;
            let mut i: usize = 0;
            while i < self.pending_remote.len()
                invariant
                    i <= pre_remote.len(),
                    self.pending_remote@ == pre_remote,
                    known <==> exists|j: int|
                        0 <= j < i && (#[trigger] pre_remote[j]).tick == tick,
                decreases pre_remote.len() - i,
            {
                if self.pending_remote[i].tick == tick {
                    known = true;
                }
                i = i + 1;
            }
            if known {
                return Ok(());
            }
            self.pending_remote.push(TickInput { tick, input });
            if !self.has_confirmed || tick >= self.last_confirmed_tick {
                self.has_confirmed = true;
                self.last_confirmed_tick = tick;
                self.last_confirmed_remote = input;
            }
            return Ok(());
        }
        let offset = self.next_tick - tick;
        if offset > self.frames.len() as u64 {
            self.phase = SessionPhase::Terminated;
            return Err(SessionError::DesyncBeyondWindow);
        }
        let idx = self.frames.len() - (offset as usize);
        let f0 = self.frames[idx];
        if f0.remote_confirmed {
            return Ok(());
        }
        if !self.has_confirmed || tick >= self.last_confirmed_tick {
            self.has_confirmed = true;
            self.last_confirmed_tick = tick;
            self.last_confirmed_remote = input;
        }
        self.frames.set(
            idx,
            SessionFrame {
                tick: f0.tick,
                local_input: f0.local_input,
                remote_input: input,
                remote_confirmed: true,
                start: f0.start,
            },
        );
        if input == f0.remote_input {
            // The prediction was right: nothing to resimulate, the frame is
            // merely marked confirmed, and the step it performed is the same.
            proof {
                let lh = self.local_handle as int;
                assert forall|k: int| 0 <= k < self.frames@.len() - 1 implies self.frames@[k
                    + 1].start == #[trigger] step_frame(
                    self.frames@[k].start,
                    self.frames@[k],
                    self.frame_collisions@[k]@,
                    self.world,
                    lh,
                ) by {
                    assert(old(self).frames@[k + 1].start == step_frame(
                        old(self).frames@[k].start,
                        old(self).frames@[k],
                        old(self).frame_collisions@[k]@,
                        self.world,
                        lh,
                    ));
                }
                if self.frames@.len() > 0 {
                    let last = self.frames@.len() - 1;
                    assert(self.current == step_frame(
                        self.frames@[last].start,
                        self.frames@[last],
                        self.frame_collisions@[last]@,
                        self.world,
                        lh,
                    )) by {
                        assert(old(self).current == step_frame(
                            old(self).frames@[last].start,
                            old(self).frames@[last],
                            old(self).frame_collisions@[last]@,
                            self.world,
                            lh,
                        ));
                    }
                }
            }
            return Ok(());
        }
        // Mismatch: roll back to the start of the mismatched tick and
        // resimulate the whole retained suffix.
        let ghost n = self.frames@.len() as int;
        let ghost lh = self.local_handle as int;
        let ghost base = *self;
        let mut state = self.frames[idx].start;
        let mut pred = input;
        let mut j = idx;
        while j < self.frames.len()
            invariant
                idx <= j <= n,
                idx < n,
                self.frames@.len() == n,
                self.phase == base.phase,
                self.local_peer == base.local_peer,
                self.input_delay == base.input_delay,
                self.window == base.window,
                self.world == base.world,
                self.peers@ == base.peers@,
                self.local_handle == base.local_handle,
                self.next_tick == base.next_tick,
                self.current == base.current,
                self.pending_local@ == base.pending_local@,
                self.pending_remote@ == base.pending_remote@,
                self.has_confirmed == base.has_confirmed,
                self.last_confirmed_tick == base.last_confirmed_tick,
                self.last_confirmed_remote == base.last_confirmed_remote,
                lh == base.local_handle as int,
                self.frame_collisions@ == old(self).frame_collisions@,
                forall|k: int| 0 <= k < idx ==> self.frames@[k] == old(self).frames@[k],
                forall|k: int|
                    j <= k < n && k > idx ==> self.frames@[k] == old(self).frames@[k],
                self.frames@[idx as int].remote_input == input,
                self.frames@[idx as int].remote_confirmed,
                self.frames@[idx as int].start == old(self).frames@[idx as int].start,
                self.frames@[idx as int].tick == old(self).frames@[idx as int].tick,
                self.frames@[idx as int].local_input == old(self).frames@[idx as int].local_input,
                forall|k: int|
                    idx < k < j ==> (#[trigger] self.frames@[k]).tick == old(
                        self,
                    ).frames@[k].tick && self.frames@[k].local_input == old(
                        self,
                    ).frames@[k].local_input && self.frames@[k].remote_confirmed == old(
                        self,
                    ).frames@[k].remote_confirmed && (old(self).frames@[k].remote_confirmed
                        ==> self.frames@[k].remote_input == old(self).frames@[k].remote_input) && (
                    !old(self).frames@[k].remote_confirmed ==> self.frames@[k].remote_input
                        == revised_prediction(old(self).frames@, idx as int, input, k)),
                forall|k: int|
                    idx <= k < j - 1 ==> self.frames@[k + 1].start == #[trigger] step_frame(
                        self.frames@[k].start,
                        self.frames@[k],
                        self.frame_collisions@[k]@,
                        self.world,
                        lh,
                    ),
                j == idx ==> state == self.frames@[idx as int].start,
                j > idx ==> state == step_frame(
                    self.frames@[j as int - 1].start,
                    self.frames@[j as int - 1],
                    self.frame_collisions@[j as int - 1]@,
                    self.world,
                    lh,
                ),
                pred == revised_prediction(old(self).frames@, idx as int, input, j as int - 1),
                jumps_bounded(state),
                forall|k: int|
                    idx <= k < j ==> jumps_bounded((#[trigger] self.frames@[k]).start),
            decreases n - j,
        {
            if j > idx {
                let f = self.frames[j];
                let new_remote = if f.remote_confirmed {
                    f.remote_input
                } else {
                    pred
                };
                self.frames.set(
                    j,
                    SessionFrame {
                        tick: f.tick,
                        local_input: f.local_input,
                        remote_input: new_remote,
                        remote_confirmed: f.remote_confirmed,
                        start: state,
                    },
                );
                pred = new_remote;
            }
            let f2 = self.frames[j];
            let (input0, input1) = if self.local_handle == 0 {
                (f2.local_input, f2.remote_input)
            } else {
                (f2.remote_input, f2.local_input)
            };
            let recs = &self.frame_collisions[j];
            let next_state = advance(&state, input0, input1, recs, &self.world);
            proof {
                assert(next_state == step_frame(state, f2, self.frame_collisions@[j as int]@,
                    self.world, lh));
                crate::sim::lemma_jump_bound_step(
                    state.player0,
                    input0,
                    crate::sim::grounded_in(self.world, 0, self.frame_collisions@[j as int]@),
                );
                crate::sim::lemma_jump_bound_step(
                    state.player1,
                    input1,
                    crate::sim::grounded_in(self.world, 1, self.frame_collisions@[j as int]@),
                );
            }
            state = next_state;
            j = j + 1;
        }
        self.current = state;
        proof {
            assert forall|k: int| 0 <= k < n - 1 implies self.frames@[k + 1].start
                == #[trigger] step_frame(
                self.frames@[k].start,
                self.frames@[k],
                self.frame_collisions@[k]@,
                self.world,
                lh,
            ) by {
                if k < idx as int {
                    assert(old(self).frames@[k + 1].start == step_frame(
                        old(self).frames@[k].start,
                        old(self).frames@[k],
                        old(self).frame_collisions@[k]@,
                        self.world,
                        lh,
                    ));
                }
            }
            assert forall|k: int| 0 <= k < n implies (#[trigger] self.frames@[k]).tick as int
                == self.next_tick as int - (n - k) by {
                assert((#[trigger] old(self).frames@[k]).tick as int == old(self).next_tick as int
                    - (n - k));
            }
            assert forall|k: int| 0 <= k < n implies jumps_bounded(
                (#[trigger] self.frames@[k]).start,
            ) by {
                if k < idx as int {
                    assert(jumps_bounded((#[trigger] old(self).frames@[k]).start));
                }
            }
        }
        Ok(())
    }

    /// Tears the session down (peer loss or explicit shutdown). No tick is
    /// ever advanced afterwards, and later messages are ignored.
    pub fn terminate(&mut self)
        requires
            old(self).wf(),
        ensures
            final(self).wf(),
            final(self).phase is Terminated,
            final(self).frames@ == old(self).frames@,
            final(self).current == old(self).current,
            final(self).next_tick == old(self).next_tick,
    {
        self.phase = SessionPhase::Terminated;
    }
}

/// The snapshot reached by restoring the snapshot stored in frame `i` and
/// replaying frames `i .. j` through the deterministic transition function,
/// each with its stored inputs and collision records.
pub open spec fn replay_from(s: RollbackSession, i: int, j: int) -> Snapshot
    decreases j - i,
{
    if j <= i {
        s.frames@[i].start
    } else {
        step_frame(
            replay_from(s, i, j - 1),
            s.frames@[j - 1],
            s.frame_collisions@[j - 1]@,
            s.world,
            s.local_handle as int,
        )
    }
}

/// Replay idempotence: resimulating any retained tick range with the same
/// inputs and collision records as originally used reproduces the stored
/// snapshots exactly — restoring frame `i` and replaying forward lands on
/// precisely the snapshot every later frame already stores.
pub proof fn lemma_replay_idempotent(s: &RollbackSession, i: int, j: int)
    requires
        s.wf(),
        0 <= i <= j < s.frames@.len(),
    ensures
        replay_from(*s, i, j) == s.frames@[j].start,
    decreases j - i,
{
    if j > i {
        lemma_replay_idempotent(s, i, j - 1);
        assert(s.frames@[j].start == step_frame(
            s.frames@[j - 1].start,
            s.frames@[j - 1],
            s.frame_collisions@[j - 1]@,
            s.world,
            s.local_handle as int,
        ));
    }
}

/// Replay idempotence, carried to the live snapshot: replaying the whole
/// retained window from any frame ends exactly in the session's current
/// state.
pub proof fn lemma_replay_reaches_current(s: &RollbackSession, i: int)
    requires
        s.wf(),
        0 <= i < s.frames@.len(),
    ensures
        replay_from(*s, i, s.frames@.len() as int) == s.current,
{
    let last = s.frames@.len() - 1;
    lemma_replay_idempotent(s, i, last);
    assert(s.current == step_frame(
        s.frames@[last].start,
        s.frames@[last],
        s.frame_collisions@[last]@,
        s.world,
        s.local_handle as int,
    ));
}

/// Prediction correction: once the frame of tick `T` holds a confirmed
/// remote input (which is what [`RollbackSession::receive_remote_input`]
/// establishes when a late message disagreed with the prediction), every
/// retained frame at or after `T`, and the live snapshot, are exactly the
/// replay from `T`'s restored snapshot using that confirmed value — no
/// stored state still reflects the discarded prediction.
pub proof fn lemma_prediction_correction(s: &RollbackSession, i: int)
    requires
        s.wf(),
        0 <= i < s.frames@.len(),
        s.frames@[i].remote_confirmed,
    ensures
        forall|j: int| i <= j < s.frames@.len() ==> #[trigger] s.frames@[j].start == replay_from(*s, i, j),
        s.current == replay_from(*s, i, s.frames@.len() as int),
{
    assert forall|j: int| i <= j < s.frames@.len() implies #[trigger] s.frames@[j].start
        == replay_from(*s, i, j) by {
        lemma_replay_idempotent(s, i, j);
    }
    lemma_replay_reaches_current(s, i);
}

} // verus!
