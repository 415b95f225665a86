use vstd::prelude::*;

use crate::geometry::SerializableRect;

verus! {

/// One operation on a window, in the order a plan lists them.
#[derive(Clone, Copy, Debug, PartialEq, Eq, Structural)]
pub enum WindowOp {
    /// Rewrite the window's stored restored ("normal") rectangle and set its
    /// state to restored, in one placement update.
    SetRestoredPlacement(SerializableRect),
    /// Position and size the window onto the rectangle, on top, shown.
    MoveResize(SerializableRect),
    /// Plain restore: the window returns to its stored normal rectangle.
    Restore,
    /// Maximize the window on the monitor it is on.
    Maximize,
    /// Raise the window and make it the foreground window.
    BringToFront,
    /// Wait this many milliseconds before the next operation.
    Pause(u64),
}

/// What was seen of a window just before a placement decision.
#[derive(Clone, Copy, Debug, PartialEq, Eq, Structural)]
pub struct WindowObservation {
    /// The window still exists.
    pub alive: bool,
    /// The monitor the window is on is the target monitor.
    pub on_target: bool,
}

/// Attempts of the settle phase.
pub const SETTLE_ATTEMPTS: u32 = 12;

/// Pause before each settle attempt but the first.
pub const SETTLE_RETRY_MS: u64 = 500;

/// Pause after a settle attempt before looking where the window is.
pub const SETTLE_CHECK_MS: u64 = 150;

/// Checks of the watch phase, one per interval.
pub const WATCH_TICKS: u32 = 45;

/// Interval between two checks of the watch phase.
pub const WATCH_INTERVAL_MS: u64 = 1000;

/// Pause between restoring a drifted window and moving it back.
pub const CORRECTION_PAUSE_MS: u64 = 60;

/// Integer division that rounds toward zero, as machine division does.
pub open spec fn trunc_div(a: int, b: int) -> int {
    if a >= 0 {
        a / b
    } else {
        -((-a) / b)
    }
}

/// The restored rectangle a window is given on the target monitor: three
/// quarters of its width and height, centred.
pub open spec fn spec_normal_rect(t: SerializableRect) -> SerializableRect {
    let w = t.spec_width();
    let h = t.spec_height();
    let ww = trunc_div(w * 3, 4);
    let wh = trunc_div(h * 3, 4);
    let x = t.left + trunc_div(w - ww, 2);
    let y = t.top + trunc_div(h - wh, 2);
    SerializableRect { left: x as i32, top: y as i32, right: (x + ww) as i32, bottom: (y + wh) as i32 }
}

fn trunc_div_exec(a: i64, b: i64) -> (r: i64)
    requires
        b > 0,
        a > i64::MIN,
    ensures
        r == trunc_div(a as int, b as int),
{
    if a >= 0 {
        a / b
    } else {
        -((-a) / b)
    }
}

proof fn lemma_centred_span(lo: int, len: int)
    ensures
        ({
            let inner = trunc_div(len * 3, 4);
            let start = lo + trunc_div(len - inner, 2);
            &&& len >= 0 ==> lo <= start && start <= start + inner && start + inner <= lo + len
            &&& len < 0 ==> lo + len <= start && start + inner <= start && start <= lo
        }),
{
}

/// Computes `spec_normal_rect`.
pub fn normal_rect_within(target: SerializableRect) -> (r: SerializableRect)
    ensures
        r == spec_normal_rect(target),
        target.wf() ==> target.contains_rect(r) && r.wf(),
{
    proof {
        lemma_centred_span(target.left as int, target.spec_width());
        lemma_centred_span(target.top as int, target.spec_height());
    }
    let w = target.width();
    let h = target.height();
    let ww = trunc_div_exec(w * 3, 4);
    let wh = trunc_div_exec(h * 3, 4);
    let x = target.left as i64 + trunc_div_exec(w - ww, 2);
    let y = target.top as i64 + trunc_div_exec(h - wh, 2);
    SerializableRect { left: x as i32, top: y as i32, right: (x + ww) as i32, bottom: (y + wh) as i32 }
}

/// The one-shot move of an already-running window: rewrite its restored
/// rectangle to sit on the target monitor (state restored), move it directly
/// onto the target, maximize again only if it was maximized, and bring it to
/// the front. There is no plain restore before the move, which would first
/// send a maximized window back to its old monitor.
pub open spec fn spec_one_shot_ops(was_maximized: bool, target: SerializableRect) -> Seq<WindowOp> {
    let moves = seq![
        WindowOp::SetRestoredPlacement(spec_normal_rect(target)),
        WindowOp::MoveResize(target),
    ];
    if was_maximized {
        moves + seq![WindowOp::Maximize, WindowOp::BringToFront]
    } else {
        moves + seq![WindowOp::BringToFront]
    }
}

/// One attempt of the settle phase: restored rectangle on the target, to the
/// front, onto the target, maximized.
pub open spec fn spec_settle_ops(target: SerializableRect) -> Seq<WindowOp> {
    seq![
        WindowOp::SetRestoredPlacement(spec_normal_rect(target)),
        WindowOp::BringToFront,
        WindowOp::MoveResize(target),
        WindowOp::Maximize,
    ]
}

/// The correction of the watch phase: to the front, restored, back onto the
/// target; never maximized.
pub open spec fn spec_correction_ops(target: SerializableRect) -> Seq<WindowOp> {
    seq![
        WindowOp::BringToFront,
        WindowOp::Restore,
        WindowOp::Pause(CORRECTION_PAUSE_MS),
        WindowOp::MoveResize(target),
    ]
}

/// Every rectangle the operation puts the window at lies within `target`.
pub open spec fn op_within(op: WindowOp, target: SerializableRect) -> bool {
    match op {
        WindowOp::SetRestoredPlacement(r) => target.contains_rect(r),
        WindowOp::MoveResize(r) => target.contains_rect(r),
        _ => true,
    }
}

/// The operations of a one-shot move of a window that `was_maximized` (or
/// not) onto `target_rect`: none at all when the window no longer exists.
pub fn move_window_once(window_exists: bool, was_maximized: bool, target_rect: SerializableRect) -> (r: Vec<WindowOp>)
    ensures
        window_exists ==> r@ == spec_one_shot_ops(was_maximized, target_rect),
        !window_exists ==> r@.len() == 0,
{
    let mut ops: Vec<WindowOp> = Vec::new();
    if !window_exists {
        return ops;
    }
    ops.push(WindowOp::SetRestoredPlacement(normal_rect_within(target_rect)));
    ops.push(WindowOp::MoveResize(target_rect));
    if was_maximized {
        ops.push(WindowOp::Maximize);
    }
    ops.push(WindowOp::BringToFront);
    proof {
        assert(ops@ =~= spec_one_shot_ops(was_maximized, target_rect));
    }
    ops
}

/// A one-shot move leaves a maximized window maximized and never shows it
/// anywhere but on the target monitor: every rectangle the window is given
/// lies within the target, no plain restore (which would return it to its old
/// monitor first) is issued, the move comes before the maximize, and the
/// maximize is issued exactly when the window was maximized.
pub proof fn lemma_one_shot_stays_on_target(was_maximized: bool, target: SerializableRect)
    requires
        target.wf(),
    ensures
        ({
            let ops = spec_one_shot_ops(was_maximized, target);
            &&& forall|i: int| 0 <= i < ops.len() ==> op_within(#[trigger] ops[i], target)
            &&& forall|i: int| 0 <= i < ops.len() ==> #[trigger] ops[i] != WindowOp::Restore
            &&& ops[1] == WindowOp::MoveResize(target)
            &&& (exists|i: int| 0 <= i < ops.len() && #[trigger] ops[i] == WindowOp::Maximize) <==> was_maximized
            &&& forall|i: int| 0 <= i < ops.len() && #[trigger] ops[i] == WindowOp::Maximize ==> i > 1
        }),
{
    let ops = spec_one_shot_ops(was_maximized, target);
    lemma_centred_span(target.left as int, target.spec_width());
    lemma_centred_span(target.top as int, target.spec_height());
    if was_maximized {
        assert(ops[2] == WindowOp::Maximize);
    }
}

/// Where a launch-and-lock placement stands.
#[derive(Clone, Copy, Debug, PartialEq, Eq, Structural)]
pub enum LockPhase {
    /// Aggressive phase; `attempt` attempts were made so far.
    Settling { attempt: u32 },
    /// Gentle phase; `ticks_left` checks remain.
    Watching { ticks_left: u32 },
    Finished,
}

/// What to do next: wait `pause_before_ms`, perform `ops` in order, wait
/// `pause_after_ms`, then observe the window again; or stop.
#[derive(Clone, Debug)]
pub struct LockStep {
    pub stop: bool,
    pub pause_before_ms: u64,
    pub ops: Vec<WindowOp>,
    pub pause_after_ms: u64,
}

/// The launch-and-lock placement of a freshly started window: a settle phase
/// of up to `SETTLE_ATTEMPTS` forceful attempts that ends early once the
/// window is on the target monitor, then a watch phase of `WATCH_TICKS`
/// checks, one per `WATCH_INTERVAL_MS`, that moves a drifted window back
/// without maximizing it. A window that is gone stops it at once.
#[derive(Clone, Copy, Debug)]
pub struct LockPlacement {
    pub target: SerializableRect,
    pub phase: LockPhase,
}

/// The step a placement takes from `phase` on observation `obs`:
/// stop, pause before, operations, pause after, and the next phase.
pub open spec fn spec_lock_step(phase: LockPhase, target: SerializableRect, obs: WindowObservation) -> (LockPhase, bool, u64, Seq<WindowOp>, u64) {
    match phase {
        LockPhase::Finished => (LockPhase::Finished, true, 0, Seq::empty(), 0),
        LockPhase::Settling { attempt } => if !obs.alive {
            (LockPhase::Finished, true, 0, Seq::empty(), 0)
        } else if (attempt > 0 && obs.on_target) || attempt >= SETTLE_ATTEMPTS {
            (LockPhase::Watching { ticks_left: WATCH_TICKS }, false, 0, Seq::empty(), WATCH_INTERVAL_MS)
        } else {
            (
                LockPhase::Settling { attempt: (attempt + 1) as u32 },
                false,
                if attempt > 0 { SETTLE_RETRY_MS } else { 0 },
                spec_settle_ops(target),
                SETTLE_CHECK_MS,
            )
        },
        LockPhase::Watching { ticks_left } => if !obs.alive {
            (LockPhase::Finished, true, 0, Seq::empty(), 0)
        } else {
            let ops = if obs.on_target { Seq::empty() } else { spec_correction_ops(target) };
            if ticks_left <= 1 {
                (LockPhase::Finished, false, 0, ops, 0)
            } else {
                (LockPhase::Watching { ticks_left: (ticks_left - 1) as u32 }, false, 0, ops, WATCH_INTERVAL_MS)
            }
        },
    }
}

impl LockPlacement {
    /// A placement onto `target_rect`, before its first attempt.
    pub fn new(target_rect: SerializableRect) -> (r: LockPlacement)
        ensures
            r.target == target_rect,
            r.phase == (LockPhase::Settling { attempt: 0 }),
    {
        LockPlacement { target: target_rect, phase: LockPhase::Settling { attempt: 0 } }
    }

    /// A placement onto `target_rect` that only watches, for `ticks` checks
    /// (one per `WATCH_INTERVAL_MS`); with no checks it is finished at once.
    /// The caller waits one interval before the first observation.
    pub fn watching(target_rect: SerializableRect, ticks: u32) -> (r: LockPlacement)
        ensures
            r.target == target_rect,
            r.phase == if ticks == 0 { LockPhase::Finished } else { LockPhase::Watching { ticks_left: ticks } },
    {
        let phase = if ticks == 0 { LockPhase::Finished } else { LockPhase::Watching { ticks_left: ticks } };
        LockPlacement { target: target_rect, phase }
    }

    /// Decides the next step from what was just seen of the window, and
    /// moves to the next phase.
    pub fn step(&mut self, obs: WindowObservation) -> (r: LockStep)
        ensures
            final(self).target == old(self).target,
            ({
                let s = spec_lock_step(old(self).phase, old(self).target, obs);
                &&& final(self).phase == s.0
                &&& r.stop == s.1
                &&& r.pause_before_ms == s.2
                &&& r.ops@ == s.3
                &&& r.pause_after_ms == s.4
            }),
    {
        let target = self.target;
        match self.phase {
            LockPhase::Finished => LockStep { stop: true, pause_before_ms: 0, ops: Vec::new(), pause_after_ms: 0 },
            LockPhase::Settling { attempt } => {
                if !obs.alive {
                    self.phase = LockPhase::Finished;
                    LockStep { stop: true, pause_before_ms: 0, ops: Vec::new(), pause_after_ms: 0 }
                } else if (attempt > 0 && obs.on_target) || attempt >= SETTLE_ATTEMPTS {
                    self.phase = LockPhase::Watching { ticks_left: WATCH_TICKS };
                    LockStep { stop: false, pause_before_ms: 0, ops: Vec::new(), pause_after_ms: WATCH_INTERVAL_MS }
                } else {
                    self.phase = LockPhase::Settling { attempt: attempt + 1 };
                    let mut ops: Vec<WindowOp> = Vec::new();
                    ops.push(WindowOp::SetRestoredPlacement(normal_rect_within(target)));
                    ops.push(WindowOp::BringToFront);
                    ops.push(WindowOp::MoveResize(target));
                    ops.push(WindowOp::Maximize);
                    proof {
                        assert(ops@ =~= spec_settle_ops(target));
                    }
                    LockStep {
                        stop: false,
                        pause_before_ms: if attempt > 0 { SETTLE_RETRY_MS } else { 0 },
                        ops,
                        pause_after_ms: SETTLE_CHECK_MS,
                    }
                }
            },
            LockPhase::Watching { ticks_left } => {
                if !obs.alive {
                    self.phase = LockPhase::Finished;
                    return LockStep { stop: true, pause_before_ms: 0, ops: Vec::new(), pause_after_ms: 0 };
                }
                let mut ops: Vec<WindowOp> = Vec::new();
                if !obs.on_target {
                    ops.push(WindowOp::BringToFront);
                    ops.push(WindowOp::Restore);
                    ops.push(WindowOp::Pause(CORRECTION_PAUSE_MS));
                    ops.push(WindowOp::MoveResize(target));
                    proof {
                        assert(ops@ =~= spec_correction_ops(target));
                    }
                } else {
                    proof {
                        assert(ops@ =~= Seq::<WindowOp>::empty());
                    }
                }
                if ticks_left <= 1 {
                    self.phase = LockPhase::Finished;
                    LockStep { stop: false, pause_before_ms: 0, ops, pause_after_ms: 0 }
                } else {
                    self.phase = LockPhase::Watching { ticks_left: ticks_left - 1 };
                    LockStep { stop: false, pause_before_ms: 0, ops, pause_after_ms: WATCH_INTERVAL_MS }
                }
            },
        }
    }
}

/// In the watch phase, a live window that has drifted off the target monitor
/// is moved back onto the target rectangle in the same step, and the next
/// check comes at most `WATCH_INTERVAL_MS` later; no step of the watch phase
/// maximizes the window. A window that is gone stops the placement.
pub proof fn lemma_watch_corrects_drift(ticks_left: u32, target: SerializableRect, obs: WindowObservation)
    ensures
        ({
            let s = spec_lock_step(LockPhase::Watching { ticks_left }, target, obs);
            &&& forall|i: int| 0 <= i < s.3.len() ==> #[trigger] s.3[i] != WindowOp::Maximize
            &&& s.2 == 0 && s.4 <= WATCH_INTERVAL_MS
            &&& (obs.alive && !obs.on_target) ==> !s.1 && s.3.contains(WindowOp::MoveResize(target))
            &&& (obs.alive && obs.on_target) ==> !s.1 && s.3.len() == 0
            &&& !obs.alive ==> s.1 && s.0 == LockPhase::Finished
        }),
{
    let s = spec_lock_step(LockPhase::Watching { ticks_left }, target, obs);
    if obs.alive && !obs.on_target {
        assert(s.3[3] == WindowOp::MoveResize(target));
    }
}

/// The settle phase ends as soon as a live window is seen on the target
/// monitor after an attempt, and after `SETTLE_ATTEMPTS` attempts at most;
/// every attempt maximizes the window on the target.
pub proof fn lemma_settle_phase(attempt: u32, target: SerializableRect, obs: WindowObservation)
    ensures
        ({
            let s = spec_lock_step(LockPhase::Settling { attempt }, target, obs);
            &&& (obs.alive && ((attempt > 0 && obs.on_target) || attempt >= SETTLE_ATTEMPTS))
                ==> s.0 == (LockPhase::Watching { ticks_left: WATCH_TICKS }) && s.3.len() == 0
            &&& (obs.alive && !((attempt > 0 && obs.on_target) || attempt >= SETTLE_ATTEMPTS))
                ==> s.0 == (LockPhase::Settling { attempt: (attempt + 1) as u32 }) && attempt + 1 <= SETTLE_ATTEMPTS
                && s.3.contains(WindowOp::MoveResize(target)) && s.3.last() == WindowOp::Maximize
            &&& !obs.alive ==> s.1
        }),
{
    let s = spec_lock_step(LockPhase::Settling { attempt }, target, obs);
    if obs.alive && !((attempt > 0 && obs.on_target) || attempt >= SETTLE_ATTEMPTS) {
        assert(s.3[2] == WindowOp::MoveResize(target));
    }
}

/// Steps a placement can still take before it stops.
pub open spec fn steps_left(phase: LockPhase) -> nat {
    match phase {
        LockPhase::Settling { attempt } => if attempt < SETTLE_ATTEMPTS {
            (SETTLE_ATTEMPTS - attempt) as nat + WATCH_TICKS as nat + 2
        } else {
            WATCH_TICKS as nat + 2
        },
        LockPhase::Watching { ticks_left } => ticks_left as nat + 1,
        LockPhase::Finished => 0,
    }
}

/// A phase that a placement started by `LockPlacement::new` can be in.
pub open spec fn reachable(phase: LockPhase) -> bool {
    match phase {
        LockPhase::Settling { attempt } => attempt <= SETTLE_ATTEMPTS,
        LockPhase::Watching { ticks_left } => ticks_left <= WATCH_TICKS,
        LockPhase::Finished => true,
    }
}

/// A placement always comes to an end: every step that does not stop moves
/// it strictly closer to its end, whatever is observed, and a finished
/// placement stops; from a reachable phase the next phase is reachable and
/// at most `SETTLE_ATTEMPTS + WATCH_TICKS + 2` steps remain.
pub proof fn lemma_placement_ends(phase: LockPhase, target: SerializableRect, obs: WindowObservation)
    ensures
        ({
            let s = spec_lock_step(phase, target, obs);
            &&& phase == LockPhase::Finished ==> s.1
            &&& phase != LockPhase::Finished ==> steps_left(s.0) < steps_left(phase)
            &&& reachable(phase) ==> reachable(s.0) && steps_left(phase) <= SETTLE_ATTEMPTS + WATCH_TICKS + 2
            &&& reachable(LockPhase::Settling { attempt: 0 })
        }),
{
}

} // verus!
