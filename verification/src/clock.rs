//! Step-clock controller: manual, frame-accurate control of a physics
//! timeline.
//!
//! The controller watches three keys. A press-edge of the pause key toggles
//! the clock between `Playing` and `Paused`; a press-edge of the advance key
//! steps the paused timeline forward by a fixed quantum — the fine quantum
//! when the modifier key is held, the coarse quantum (ten times larger)
//! otherwise. Holding a key re-triggers nothing: only the transition from
//! released to pressed counts.

use vstd::prelude::*;

verus! {

/// Milliseconds one fine step adds to the timeline (modifier held).
pub const FINE_QUANTUM_MS: u64 = 10;

/// Milliseconds one coarse step adds to the timeline: ten fine quanta.
pub const COARSE_QUANTUM_MS: u64 = 100;

/// The held-down state of the three watched keys, sampled on one frame.
///
/// `modifier_held` is true when either variant (left or right) of the
/// modifier key is down.
#[derive(Clone, Copy, Debug, PartialEq, Eq, Structural)]
pub struct KeyFrame {
    pub pause_held: bool,
    pub advance_held: bool,
    pub modifier_held: bool,
}

/// The physics timeline resource: a play/pause flag and the accumulated
/// simulated time in milliseconds.
///
/// `elapsed_ms` is monotonically non-decreasing and only ever advances while
/// the clock is paused (a paused timeline moves only by explicit steps).
#[derive(Clone, Copy, Debug, PartialEq, Eq, Structural)]
pub struct WorldClock {
    pub paused: bool,
    pub elapsed_ms: u64,
}

impl KeyFrame {
    /// All three keys released, the state before the first frame.
    pub fn released() -> (k: KeyFrame)
        ensures
            k == (KeyFrame { pause_held: false, advance_held: false, modifier_held: false }),
    {
        KeyFrame { pause_held: false, advance_held: false, modifier_held: false }
    }
}

impl WorldClock {
    /// A fresh session clock: paused with no simulated time elapsed, so no
    /// motion occurs before the user opts in.
    pub fn new() -> (c: WorldClock)
        ensures
            c == (WorldClock { paused: true, elapsed_ms: 0u64 }),
    {
        WorldClock { paused: true, elapsed_ms: 0 }
    }

    /// Halts the timeline; elapsed time is untouched.
    pub fn pause(&mut self)
        ensures
            *final(self) == (WorldClock { paused: true, elapsed_ms: old(self).elapsed_ms }),
    {
        self.paused = true;
    }

    /// Resumes the timeline; elapsed time is untouched.
    pub fn unpause(&mut self)
        ensures
            *final(self) == (WorldClock { paused: false, elapsed_ms: old(self).elapsed_ms }),
    {
        self.paused = false;
    }

    /// Whether the timeline is currently halted.
    pub fn is_paused(&self) -> (b: bool)
        ensures
            b == self.paused,
    {
        self.paused
    }

    /// Advances the timeline by exactly `ms` milliseconds.
    pub fn advance_by(&mut self, ms: u64)
        requires
            old(self).elapsed_ms + ms <= u64::MAX,
        ensures
            *final(self) == (WorldClock {
                paused: old(self).paused,
                elapsed_ms: (old(self).elapsed_ms + ms) as u64,
            }),
    {
        self.elapsed_ms = self.elapsed_ms + ms;
    }
}

/// True when `keys` is a press-edge of the pause key relative to the
/// previous frame `prev`: down now, up before.
pub open spec fn pause_edge(prev: KeyFrame, keys: KeyFrame) -> bool {
    keys.pause_held && !prev.pause_held
}

/// True when `keys` is a press-edge of the advance key relative to `prev`.
pub open spec fn advance_edge(prev: KeyFrame, keys: KeyFrame) -> bool {
    keys.advance_held && !prev.advance_held
}

/// The quantum one step adds: fine with the modifier held, else coarse.
pub open spec fn quantum_ms(modifier_held: bool) -> u64 {
    if modifier_held {
        FINE_QUANTUM_MS
    } else {
        COARSE_QUANTUM_MS
    }
}

/// The pause flag after the toggle of this frame, if any, has been applied.
pub open spec fn paused_after_toggle(clock: WorldClock, prev: KeyFrame, keys: KeyFrame) -> bool {
    if pause_edge(prev, keys) {
        !clock.paused
    } else {
        clock.paused
    }
}

/// Whether this frame steps the timeline: an advance press-edge while the
/// clock is paused once this frame's toggle has been applied.
pub open spec fn will_advance(clock: WorldClock, prev: KeyFrame, keys: KeyFrame) -> bool {
    advance_edge(prev, keys) && paused_after_toggle(clock, prev, keys)
}

/// The clock after one frame of input: toggle on a pause press-edge, then
/// step forward by one quantum on an advance press-edge while paused.
pub open spec fn frame_transition(clock: WorldClock, prev: KeyFrame, keys: KeyFrame) -> WorldClock {
    WorldClock {
        paused: paused_after_toggle(clock, prev, keys),
        elapsed_ms: if will_advance(clock, prev, keys) {
            (clock.elapsed_ms + quantum_ms(keys.modifier_held)) as u64
        } else {
            clock.elapsed_ms
        },
    }
}

/// The controller: remembers the previous frame's key states so that only
/// press-edges, never held keys, trigger a toggle or a step.
#[derive(Clone, Copy, Debug, PartialEq, Eq, Structural)]
pub struct ClockController {
    pub prev: KeyFrame,
}

impl ClockController {
    /// A fresh controller: every key counted as released, so a key already
    /// down on the first frame registers as a press-edge.
    pub fn new() -> (c: ClockController)
        ensures
            c.prev == (KeyFrame { pause_held: false, advance_held: false, modifier_held: false }),
    {
        ClockController { prev: KeyFrame::released() }
    }

    /// Runs one frame of the controller on the sampled key states `keys`:
    /// the clock becomes `frame_transition` of its old value, and `keys`
    /// becomes the remembered previous frame.
    pub fn frame(&mut self, clock: &mut WorldClock, keys: KeyFrame)
        requires
            will_advance(*old(clock), old(self).prev, keys) ==> old(clock).elapsed_ms
                + quantum_ms(keys.modifier_held) <= u64::MAX,
        ensures
            *final(clock) == frame_transition(*old(clock), old(self).prev, keys),
            final(self).prev == keys,
            final(clock).elapsed_ms >= old(clock).elapsed_ms,
    {
        if keys.pause_held && !self.prev.pause_held {
            if clock.is_paused() {
                clock.unpause();
            } else {
                clock.pause();
            }
        }

        if keys.advance_held && !self.prev.advance_held && clock.is_paused() {
            if keys.modifier_held {
                clock.advance_by(FINE_QUANTUM_MS);
            } else {
                clock.advance_by(COARSE_QUANTUM_MS);
            }
        }

        self.prev = keys;
    }
}

/// The clock after a whole run of frames, each folded in by
/// `frame_transition` with the frame before it as the edge reference.
pub open spec fn run_frames(clock: WorldClock, prev: KeyFrame, frames: Seq<KeyFrame>) -> WorldClock
    decreases frames.len(),
{
    if frames.len() == 0 {
        clock
    } else {
        run_frames(
            frame_transition(clock, prev, frames[0]),
            frames[0],
            frames.subrange(1, frames.len() as int),
        )
    }
}

/// How many pause-key press-edges a run of frames contains, starting from
/// the key states `prev`.
pub open spec fn pause_edge_count(prev: KeyFrame, frames: Seq<KeyFrame>) -> nat
    decreases frames.len(),
{
    if frames.len() == 0 {
        0
    } else {
        (if pause_edge(prev, frames[0]) {
            1nat
        } else {
            0nat
        }) + pause_edge_count(frames[0], frames.subrange(1, frames.len() as int))
    }
}

/// Over any run of frames, the pause flag flips exactly once per pause-key
/// press-edge: the final flag equals the initial one exactly when the run
/// contains an even number of such edges.
pub proof fn lemma_paused_tracks_edge_parity(clock: WorldClock, prev: KeyFrame, frames: Seq<KeyFrame>)
    ensures
        run_frames(clock, prev, frames).paused == (clock.paused == (pause_edge_count(prev, frames)
            % 2 == 0)),
    decreases frames.len(),
{
    if frames.len() > 0 {
        let rest = frames.subrange(1, frames.len() as int);
        lemma_paused_tracks_edge_parity(frame_transition(clock, prev, frames[0]), frames[0], rest);
    }
}

/// For any sequence of frames fed to a clock that starts `Paused`, the
/// clock is paused at the end exactly when the number of pause-key
/// press-edges observed is even: `paused` equals the parity of the edges.
pub proof fn lemma_paused_equals_edge_parity(
    clock: WorldClock,
    prev: KeyFrame,
    frames: Seq<KeyFrame>,
)
    requires
        clock.paused,
    ensures
        run_frames(clock, prev, frames).paused <==> pause_edge_count(prev, frames) % 2 == 0,
{
    lemma_paused_tracks_edge_parity(clock, prev, frames);
}

/// While the pause key stays down, no frame is a press-edge of it.
pub proof fn lemma_no_edges_while_held(prev: KeyFrame, frames: Seq<KeyFrame>)
    requires
        prev.pause_held,
        forall|i: int| 0 <= i < frames.len() ==> frames[i].pause_held,
    ensures
        pause_edge_count(prev, frames) == 0,
    decreases frames.len(),
{
    if frames.len() > 0 {
        let rest = frames.subrange(1, frames.len() as int);
        assert forall|i: int| 0 <= i < rest.len() implies rest[i].pause_held by {
            assert(rest[i] == frames[i + 1]);
        }
        lemma_no_edges_while_held(frames[0], rest);
    }
}

/// Holding the pause key across any number of consecutive frames without a
/// release triggers at most one toggle: such a run contains at most one
/// pause-key press-edge (one when the key was up before the run, none when
/// it was already down).
pub proof fn lemma_held_pause_key_toggles_at_most_once(prev: KeyFrame, frames: Seq<KeyFrame>)
    requires
        forall|i: int| 0 <= i < frames.len() ==> frames[i].pause_held,
    ensures
        pause_edge_count(prev, frames) <= 1,
{
    if frames.len() > 0 {
        let rest = frames.subrange(1, frames.len() as int);
        assert forall|i: int| 0 <= i < rest.len() implies rest[i].pause_held by {
            assert(rest[i] == frames[i + 1]);
        }
        lemma_no_edges_while_held(frames[0], rest);
    }
}

/// A step attempt while the clock is playing is a silent no-op: on a frame
/// with no pause toggle, a playing clock's elapsed time never changes,
/// whatever the advance key does.
pub proof fn lemma_step_while_playing_is_noop(clock: WorldClock, prev: KeyFrame, keys: KeyFrame)
    requires
        !clock.paused,
        !pause_edge(prev, keys),
    ensures
        frame_transition(clock, prev, keys).elapsed_ms == clock.elapsed_ms,
{
}

/// A step while the clock is paused advances elapsed time by exactly the
/// fine quantum when the modifier key is held and exactly the coarse
/// quantum otherwise; the coarse quantum is exactly ten times the fine one.
pub proof fn lemma_step_while_paused_adds_quantum(clock: WorldClock, prev: KeyFrame, keys: KeyFrame)
    requires
        clock.paused,
        !pause_edge(prev, keys),
        advance_edge(prev, keys),
        clock.elapsed_ms + quantum_ms(keys.modifier_held) <= u64::MAX,
    ensures
        keys.modifier_held ==> frame_transition(clock, prev, keys).elapsed_ms == clock.elapsed_ms
            + FINE_QUANTUM_MS,
        !keys.modifier_held ==> frame_transition(clock, prev, keys).elapsed_ms == clock.elapsed_ms
            + COARSE_QUANTUM_MS,
        COARSE_QUANTUM_MS == 10 * FINE_QUANTUM_MS,
{
}

} // verus!
