//! The loading indicator's state and per-frame arc computation.
//!
//! All quantities are exact integers:
//! - `progress` is kept in millionths of full progress, `0 ..= PROGRESS_SCALE`.
//! - Sweep angles are in microturns (millionths of a full turn), so a sweep of
//!   `s` microturns is `s * 2π / PROGRESS_SCALE` radians.
//! - The rotational shift is kept as its numerator in microseconds: a shift of
//!   `n` is `n / ROTATION_TIME_DIVISOR` radians, to be reduced modulo a full
//!   turn by the renderer.

use vstd::prelude::*;

verus! {

/// Full progress, in millionths. A progress value `p` stands for the fraction
/// `p / PROGRESS_SCALE` of a complete revolution of sweep.
pub const PROGRESS_SCALE: u32 = 1_000_000;

/// The least sweep ever drawn, in microturns: 0.04 of a full turn, so the
/// indicator is never an invisible point even at progress 0.
pub const MIN_SWEEP_MICROTURNS: u32 = 40_000;

/// Time units per radian of rotational shift: the spinner advances by one
/// radian every 300,000 microseconds of the animation clock.
pub const ROTATION_TIME_DIVISOR: i64 = 300_000;

/// Natural (unconstrained) size of the widget, in logical units.
pub const NATURAL_SIZE: i32 = 32;

/// A `progress` value forced into the declared `[0, PROGRESS_SCALE]` bounds.
pub open spec fn clamped_progress(p: int) -> int {
    if p < 0 {
        0
    } else if p > PROGRESS_SCALE as int {
        PROGRESS_SCALE as int
    } else {
        p
    }
}

/// The sweep angle drawn for a stored progress value, in microturns:
/// the progress itself, held up to the minimum visible sweep.
pub open spec fn sweep_microturns(p: int) -> int {
    if p < MIN_SWEEP_MICROTURNS as int {
        MIN_SWEEP_MICROTURNS as int
    } else {
        p
    }
}

/// Rotational shift numerator after `now - start_time` elapsed time units:
/// the shift in radians is this value divided by `ROTATION_TIME_DIVISOR`.
pub open spec fn shift_numerator(start_time: int, now: int) -> int {
    now - start_time
}

/// What one invocation of the per-frame tick callback asks of the host:
/// whether to request a redraw of the widget, and whether to keep the
/// callback scheduled for further frames.
#[derive(Clone, Copy, Debug, PartialEq, Eq, Structural)]
pub struct TickOutcome {
    pub redraw: bool,
    pub keep_running: bool,
}

/// The exact parameters of the arc stroked for one frame, in integer units.
///
/// The renderer derives its floating-point arguments from these alone: the
/// centre coordinate (on both axes) is `center_doubled / 2`, the radius is
/// `radius_doubled / 2`, the start angle in radians is
/// `shift_numerator / ROTATION_TIME_DIVISOR`, reduced modulo a full turn,
/// minus a quarter turn, and the sweep in radians is
/// `sweep_microturns * 2π / PROGRESS_SCALE`.
#[derive(Clone, Copy, Debug, PartialEq, Eq, Structural)]
pub struct ArcFrame {
    pub center_doubled: i32,
    pub radius_doubled: i64,
    pub shift_numerator: i64,
    pub sweep_microturns: u32,
}

/// The state of one loading indicator.
///
/// `start_time` is the animation-clock timestamp captured when the widget
/// last became visible; `tick_registered` records whether a per-frame tick
/// callback is currently registered with the host.
pub struct LoadingIndicator {
    progress: u32,
    start_time: i64,
    visible: bool,
    tick_registered: bool,
}

impl LoadingIndicator {
    /// The stored progress, in millionths.
    pub closed spec fn progress_spec(&self) -> u32 {
        self.progress
    }

    /// The captured animation-clock start timestamp.
    pub closed spec fn start_time_spec(&self) -> i64 {
        self.start_time
    }

    /// Whether the widget is currently visible.
    pub closed spec fn visible_spec(&self) -> bool {
        self.visible
    }

    /// Whether a per-frame tick callback is currently registered.
    pub closed spec fn tick_registered_spec(&self) -> bool {
        self.tick_registered
    }

    /// Well-formedness: progress lies within its declared bounds and the
    /// captured timestamp is a valid (non-negative) animation-clock reading.
    pub open spec fn wf(&self) -> bool {
        &&& self.progress_spec() <= PROGRESS_SCALE
        &&& 0 <= self.start_time_spec()
    }

    /// A freshly constructed indicator: progress 0, start time 0, not
    /// visible, and no tick callback registered.
    pub fn new() -> (r: Self)
        ensures
            r.wf(),
            r.progress_spec() == 0,
            r.start_time_spec() == 0,
            !r.visible_spec(),
            !r.tick_registered_spec(),
    {
        LoadingIndicator { progress: 0, start_time: 0, visible: false, tick_registered: false }
    }

    /// Read the progress property, in millionths.
    pub fn progress(&self) -> (r: u32)
        ensures
            r == self.progress_spec(),
    {
        self.progress
    }

    /// Set the progress property. Values outside `[0, PROGRESS_SCALE]` are
    /// clamped to the declared bounds; nothing else changes, and no redraw
    /// happens by itself (redraw follows on the next scheduled frame while
    /// visible).
    pub fn set_progress(&mut self, p: i64)
        requires
            old(self).wf(),
        ensures
            final(self).wf(),
            final(self).progress_spec() == clamped_progress(p as int),
            final(self).start_time_spec() == old(self).start_time_spec(),
            final(self).visible_spec() == old(self).visible_spec(),
            final(self).tick_registered_spec() == old(self).tick_registered_spec(),
    {
        self.progress = if p < 0 {
            0
        } else if p > PROGRESS_SCALE as i64 {
            PROGRESS_SCALE
        } else {
            p as u32
        };
    }

    /// React to a visibility-change notification from the host.
    ///
    /// When the widget is (re)ported visible, the current animation-clock
    /// time is captured as the new start of the animation, and a per-frame
    /// tick callback must be registered unless one is already running. When
    /// it is reported invisible nothing is torn down here: the running tick
    /// callback cancels itself on its next invocation.
    ///
    /// Returns whether the caller must register the tick callback now.
    pub fn notify_visible(&mut self, visible: bool, now: i64) -> (register: bool)
        requires
            old(self).wf(),
            0 <= now,
        ensures
            final(self).wf(),
            final(self).progress_spec() == old(self).progress_spec(),
            final(self).visible_spec() == visible,
            final(self).start_time_spec() == (if visible {
                now
            } else {
                old(self).start_time_spec()
            }),
            final(self).tick_registered_spec() == (visible || old(self).tick_registered_spec()),
            register == (visible && !old(self).tick_registered_spec()),
    {
        self.visible = visible;
        if visible {
            self.start_time = now;
            let register = !self.tick_registered;
            self.tick_registered = true;
            register
        } else {
            false
        }
    }

    /// One invocation of the registered per-frame tick callback: request a
    /// redraw, then keep the callback scheduled exactly while the widget is
    /// still visible. The moment visibility has turned off, this very
    /// invocation deregisters the callback (after having requested at most
    /// that one further redraw).
    pub fn tick(&mut self) -> (o: TickOutcome)
        requires
            old(self).wf(),
            old(self).tick_registered_spec(),
        ensures
            final(self).wf(),
            o.redraw,
            o.keep_running == old(self).visible_spec(),
            final(self).tick_registered_spec() == old(self).visible_spec(),
            final(self).progress_spec() == old(self).progress_spec(),
            final(self).start_time_spec() == old(self).start_time_spec(),
            final(self).visible_spec() == old(self).visible_spec(),
    {
        let keep = self.visible;
        self.tick_registered = keep;
        TickOutcome { redraw: true, keep_running: keep }
    }

    /// Size negotiation: with no constraint (a negative `for_size`) the
    /// widget asks for its natural square size; any supplied constraint is
    /// reported back unchanged. The result is
    /// `(minimum, natural, minimum_baseline, natural_baseline)`, with no
    /// baseline support.
    pub fn measure(&self, for_size: i32) -> (r: (i32, i32, i32, i32))
        ensures
            r.0 == 0,
            r.1 == (if for_size < 0 {
                NATURAL_SIZE as int
            } else {
                for_size as int
            }),
            r.2 == -1,
            r.3 == -1,
    {
        if for_size < 0 {
            (0, NATURAL_SIZE, -1, -1)
        } else {
            (0, for_size, -1, -1)
        }
    }

    /// Compute the arc drawn at animation-clock time `now` for a square
    /// widget of side `size`: centred in the widget, inset by the stroke
    /// width of 2 units, rotated by the elapsed time since the captured
    /// start, sweeping the progress's angle held up to the minimum.
    pub fn arc_frame(&self, now: i64, size: i32) -> (f: ArcFrame)
        requires
            self.wf(),
            0 <= now,
        ensures
            f.center_doubled == size,
            f.radius_doubled == size - 4,
            f.shift_numerator == shift_numerator(self.start_time_spec() as int, now as int),
            f.sweep_microturns == sweep_microturns(self.progress_spec() as int),
    {
        let sweep: u32 = if self.progress < MIN_SWEEP_MICROTURNS {
            MIN_SWEEP_MICROTURNS
        } else {
            self.progress
        };
        ArcFrame {
            center_doubled: size,
            radius_doubled: size as i64 - 4,
            shift_numerator: now - self.start_time,
            sweep_microturns: sweep,
        }
    }

    /// Whether a per-frame tick callback is currently registered.
    pub fn is_tick_registered(&self) -> (r: bool)
        ensures
            r == self.tick_registered_spec(),
    {
        self.tick_registered
    }
}

/// Setting the progress property to any value within its declared bounds and
/// reading it back returns exactly that value.
pub proof fn lemma_progress_round_trip(p: int)
    requires
        0 <= p <= PROGRESS_SCALE as int,
    ensures
        clamped_progress(p) == p,
{
}

/// Whatever value is set, the stored progress always lies within the
/// declared `[0, PROGRESS_SCALE]` bounds.
pub proof fn lemma_progress_in_bounds(p: int)
    ensures
        0 <= clamped_progress(p) <= PROGRESS_SCALE as int,
{
}

/// At or above the minimum-sweep floor, the sweep angle is monotonically
/// non-decreasing in progress.
pub proof fn lemma_sweep_monotone(p1: int, p2: int)
    requires
        MIN_SWEEP_MICROTURNS as int <= p1 <= p2,
    ensures
        sweep_microturns(p1) <= sweep_microturns(p2),
{
}

/// At or below the minimum-sweep floor — including progress 0 — the sweep
/// angle is pinned to exactly the floor value.
pub proof fn lemma_sweep_floor(p: int)
    requires
        p <= MIN_SWEEP_MICROTURNS as int,
    ensures
        sweep_microturns(p) == MIN_SWEEP_MICROTURNS as int,
{
}

/// Immediately at the captured start time the rotational shift is zero, so
/// the arc's start angle is exactly the fixed quarter-turn offset.
pub proof fn lemma_shift_zero_at_start(t0: int)
    ensures
        shift_numerator(t0, t0) == 0,
{
}

} // verus!
