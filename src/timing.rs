//! Frame timing for a loop that runs simulation and rendering in lockstep.
//!
//! The timer measures how long the previous frame took, snaps that duration to
//! a common display rate when it is close to one (vsync makes the measured
//! value jitter around the exact frame time), adds it to an accumulator, and
//! emits one simulation tick per whole frame the accumulator holds.
use vstd::prelude::*;

verus! {

/// Nanoseconds in one second.
pub const NANOS_PER_SECOND: u128 = 1_000_000_000;

/// Frame length at 120 frames per second.
pub const NANOS_120FPS: u128 = NANOS_PER_SECOND / 120;

/// Frame length at 60 frames per second.
pub const NANOS_60FPS: u128 = NANOS_PER_SECOND / 60;

/// Frame length at 30 frames per second.
pub const NANOS_30FPS: u128 = NANOS_PER_SECOND / 30;

/// Frame length at 20 frames per second.
pub const NANOS_20FPS: u128 = NANOS_PER_SECOND / 20;

/// Frame length at 15 frames per second.
pub const NANOS_15FPS: u128 = NANOS_PER_SECOND / 15;

/// A measured frame time closer than this to a target is snapped to it.
pub const SNAP_THRESHOLD: u128 = 200_000;

/// The accumulator never holds more than this, so that a long stall does not
/// make the loop try to catch up forever.
pub const MAX_ACC_VALUE: u128 = NANOS_PER_SECOND / 8;

/// Distance between two durations.
pub open spec fn distance(a: int, b: int) -> int {
    if a < b {
        b - a
    } else {
        a - b
    }
}

/// Whether a measured frame time `dt` lies close enough to `target` to be
/// treated as exactly `target`.
pub open spec fn snaps_to(dt: int, target: int) -> bool {
    distance(dt, target) < SNAP_THRESHOLD
}

/// The frame time used after snapping: the first of the common frame lengths,
/// fastest rate first, that `dt` lies close to, or `dt` itself.
pub open spec fn snapped(dt: int) -> int {
    if snaps_to(dt, NANOS_120FPS as int) {
        NANOS_120FPS as int
    } else if snaps_to(dt, NANOS_60FPS as int) {
        NANOS_60FPS as int
    } else if snaps_to(dt, NANOS_30FPS as int) {
        NANOS_30FPS as int
    } else if snaps_to(dt, NANOS_20FPS as int) {
        NANOS_20FPS as int
    } else if snaps_to(dt, NANOS_15FPS as int) {
        NANOS_15FPS as int
    } else {
        dt
    }
}

/// Returns whether the measured frame time `dt` should be snapped to `target`.
pub fn should_snap(dt: u128, target: u128) -> (r: bool)
    ensures
        r == snaps_to(dt as int, target as int),
{
    if dt < target {
        target - dt < SNAP_THRESHOLD
    } else {
        dt - target < SNAP_THRESHOLD
    }
}

/// The frame time used after snapping: see [`snapped`].
pub fn snap_frame_time(dt: u128) -> (r: u128)
    ensures
        r == snapped(dt as int),
{
    if should_snap(dt, NANOS_120FPS) {
        NANOS_120FPS
    } else if should_snap(dt, NANOS_60FPS) {
        NANOS_60FPS
    } else if should_snap(dt, NANOS_30FPS) {
        NANOS_30FPS
    } else if should_snap(dt, NANOS_20FPS) {
        NANOS_20FPS
    } else if should_snap(dt, NANOS_15FPS) {
        NANOS_15FPS
    } else {
        dt
    }
}

/// What the timer does after measuring one frame: send `ticks` simulation
/// ticks, then one draw request, then sleep for `sleep_nanos` nanoseconds,
/// keeping `acc` nanoseconds of not yet simulated time for the next frame.
pub struct FramePlan {
    pub ticks: u64,
    pub acc: u128,
    pub sleep_nanos: u64,
}

/// Accumulated time after adding a snapped frame time, capped at
/// [`MAX_ACC_VALUE`].
pub open spec fn accumulated(acc: int, elapsed: int) -> int {
    if acc + snapped(elapsed) > MAX_ACC_VALUE {
        MAX_ACC_VALUE as int
    } else {
        acc + snapped(elapsed)
    }
}

/// A loop that runs both simulation and rendering at a fixed frame rate.
pub struct LockstepLoop {
    nanos_per_frame: u128,
    fps: u32,
}

impl LockstepLoop {
    /// Well-formed: the frame rate is positive and the frame length is one
    /// second divided by it.
    pub open spec fn wf(&self) -> bool {
        &&& self.spec_fps() > 0
        &&& self.spec_nanos_per_frame() == NANOS_PER_SECOND / (self.spec_fps() as u128)
    }

    pub closed spec fn spec_nanos_per_frame(&self) -> u128 {
        self.nanos_per_frame
    }

    pub closed spec fn spec_fps(&self) -> u32 {
        self.fps
    }

    /// A loop that runs `fps` frames per second.
    pub fn from_fps(fps: u32) -> (r: Self)
        requires
            fps > 0,
        ensures
            r.wf(),
            r.spec_fps() == fps,
            r.spec_nanos_per_frame() == NANOS_PER_SECOND / (fps as u128),
    {
        LockstepLoop { nanos_per_frame: NANOS_PER_SECOND / (fps as u128), fps }
    }

    /// Frames per second.
    pub fn fps(&self) -> (r: u32)
        ensures
            r == self.spec_fps(),
    {
        self.fps
    }

    /// Length of one frame in nanoseconds.
    pub fn nanos_per_frame(&self) -> (r: u128)
        ensures
            r == self.spec_nanos_per_frame(),
    {
        self.nanos_per_frame
    }

    /// Decide what the timer does after a frame that took `elapsed`
    /// nanoseconds, with `acc` nanoseconds left over from earlier frames:
    /// snap the frame time, add it to the accumulator up to the cap, send one
    /// tick per whole frame held, and sleep for the rest of the current frame.
    ///
    /// A rate above one frame per nanosecond gives frames of length zero, of
    /// which no amount of time holds a finite number: it is left out.
    pub fn plan_frame(&self, acc: u128, elapsed: u128) -> (r: FramePlan)
        requires
            self.wf(),
            self.spec_nanos_per_frame() > 0,
        ensures
            r.ticks == accumulated(acc as int, elapsed as int) / (self.spec_nanos_per_frame() as int),
            r.acc == accumulated(acc as int, elapsed as int) % (self.spec_nanos_per_frame() as int),
            r.acc < self.spec_nanos_per_frame(),
            r.ticks * self.spec_nanos_per_frame() + r.acc == accumulated(acc as int, elapsed as int),
            r.sleep_nanos == self.spec_nanos_per_frame() - r.acc,
    {
        let npf = self.nanos_per_frame;
        assert(npf <= 1_000_000_000) by (nonlinear_arith)
            requires
                npf == 1_000_000_000u128 / (self.fps as u128),
                self.fps > 0,
        ;
        let dt = snap_frame_time(elapsed);
        let total: u128 = if acc > MAX_ACC_VALUE || dt > MAX_ACC_VALUE - acc {
            MAX_ACC_VALUE
        } else {
            acc + dt
        };
        let ticks = total / npf;
        let left = total % npf;
        assert(ticks <= total) by (nonlinear_arith)
            requires
                ticks == total / npf,
                npf > 0,
        ;
        proof {
            vstd::arithmetic::div_mod::lemma_fundamental_div_mod(total as int, npf as int);
            assert(ticks * npf + left == total) by (nonlinear_arith)
                requires
                    total == npf * (total / npf) + total % npf,
                    ticks == total / npf,
                    left == total % npf,
            ;
        }
        FramePlan { ticks: ticks as u64, acc: left, sleep_nanos: (npf - left) as u64 }
    }
}

} // verus!
