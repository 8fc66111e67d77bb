use vstd::prelude::*;

verus! {

/// A multiplier of 1.0, in hundredths.
pub const MULTIPLIER_ONE: u32 = 100;

/// One second of round time at multiplier 1.0, in clock units (hundredths of
/// a microsecond).
pub const CLOCK_UNITS_PER_SECOND: i64 = 100_000_000;

/// Time a round starts with: 30 seconds.
pub const INITIAL_REMAINING: i64 = 3_000_000_000;

/// Time between two spawns when a round starts: 2.8 seconds, in microseconds.
pub const INITIAL_SPAWN_EVERY: i64 = 2_800_000;

/// Clock units granted per disposal for each hundredth of the multiplier:
/// 2.5 seconds times 0.7 times the multiplier.
pub const BONUS_PER_MULTIPLIER_STEP: i64 = 1_750_000;

/// What a disposal adds to the multiplier: 0.05.
pub const MULTIPLIER_GAIN: u32 = 5;

/// What a disposal takes off the spawn interval: 0.04 seconds, in microseconds.
pub const SPAWN_EVERY_CUT: i64 = 40_000;

/// One world unit, in the 256ths that lengths are measured in.
pub const WORLD_UNIT: i32 = 256;

/// The round clock as plain mathematics: the four quantities of
/// [`TimeRemaining`] without machine bounds.
///
/// `remaining` is in clock units, `multiplier` in hundredths, the other two
/// in microseconds.
pub struct RoundClock {
    pub remaining: int,
    pub multiplier: int,
    pub spawn_interval: int,
    pub time_since_last_spawn: int,
}

impl RoundClock {
    /// The clock of a round that has just begun.
    pub open spec fn initial() -> RoundClock {
        RoundClock {
            remaining: INITIAL_REMAINING as int,
            multiplier: MULTIPLIER_ONE as int,
            spawn_interval: INITIAL_SPAWN_EVERY as int,
            time_since_last_spawn: 0,
        }
    }

    /// A frame of `dt` microseconds brings the time since the last spawn up
    /// to the spawn interval.
    pub open spec fn spawn_due(self, dt: int) -> bool {
        self.time_since_last_spawn + dt >= self.spawn_interval
    }

    /// The clock after a frame of `dt` microseconds. Time runs off at the
    /// multiplier's pace; a spawn that falls due restarts its wait from zero,
    /// whatever the overshoot was.
    pub open spec fn tick(self, dt: int) -> RoundClock {
        RoundClock {
            remaining: self.remaining - dt * self.multiplier,
            multiplier: self.multiplier,
            spawn_interval: self.spawn_interval,
            time_since_last_spawn: if self.spawn_due(dt) {
                0
            } else {
                self.time_since_last_spawn + dt
            },
        }
    }

    /// The round's time is up.
    pub open spec fn expired(self) -> bool {
        self.remaining <= 0
    }

    /// The clock after one item was disposed of: time is granted in
    /// proportion to the multiplier as it was, then the pace and the spawn
    /// cadence both tighten.
    pub open spec fn dispose(self) -> RoundClock {
        RoundClock {
            remaining: self.remaining + BONUS_PER_MULTIPLIER_STEP * self.multiplier,
            multiplier: self.multiplier + MULTIPLIER_GAIN,
            spawn_interval: self.spawn_interval - SPAWN_EVERY_CUT,
            time_since_last_spawn: self.time_since_last_spawn,
        }
    }

    /// The clock after `n` disposals in a row.
    pub open spec fn dispose_n(self, n: nat) -> RoundClock
        decreases n,
    {
        if n == 0 {
            self
        } else {
            self.dispose_n((n - 1) as nat).dispose()
        }
    }

    /// The clock after the frames `dts`, taken in order.
    pub open spec fn after_ticks(self, dts: Seq<int>) -> RoundClock
        decreases dts.len(),
    {
        if dts.len() == 0 {
            self
        } else {
            self.after_ticks(dts.drop_last()).tick(dts.last())
        }
    }

    /// Every quantity can be held by the field of [`TimeRemaining`] that
    /// stands for it.
    pub open spec fn fits(self) -> bool {
        &&& i64::MIN <= self.remaining <= i64::MAX
        &&& 0 <= self.multiplier <= u32::MAX
        &&& i64::MIN <= self.spawn_interval <= i64::MAX
        &&& 0 <= self.time_since_last_spawn <= u64::MAX
    }
}

/// The countdown of one round, with the spawn cadence it drives.
///
/// `remaining` is in clock units (hundredths of a microsecond), `multiplier`
/// in hundredths, `spawn_every` and `last_spawn` in microseconds.
/// `spawn_every` has no floor: enough disposals take it to zero and below,
/// and from then on every frame spawns.
#[derive(Debug, Clone, Copy, PartialEq, Eq, Structural)]
pub struct TimeRemaining {
    pub remaining: i64,
    pub multiplier: u32,
    pub spawn_every: i64,
    pub last_spawn: u64,
}

impl View for TimeRemaining {
    type V = RoundClock;

    open spec fn view(&self) -> RoundClock {
        RoundClock {
            remaining: self.remaining as int,
            multiplier: self.multiplier as int,
            spawn_interval: self.spawn_every as int,
            time_since_last_spawn: self.last_spawn as int,
        }
    }
}

impl Default for TimeRemaining {
    fn default() -> (timer: TimeRemaining)
        ensures
            timer@ == RoundClock::initial(),
    {
        TimeRemaining {
            remaining: INITIAL_REMAINING,
            multiplier: MULTIPLIER_ONE,
            spawn_every: INITIAL_SPAWN_EVERY,
            last_spawn: 0,
        }
    }
}

/// Sent by the clock when a new item is due.
#[derive(Debug, Clone, Copy, PartialEq, Eq, Structural)]
pub struct TrashSpawnEvent;

/// A point of an outline, in 256ths of a world unit.
#[derive(Debug, Clone, Copy, PartialEq, Eq, Structural)]
pub struct Point {
    pub x: i32,
    pub y: i32,
}

/// An item in play. Its outline is empty until its picture has been resolved.
#[derive(Debug, Clone)]
pub struct Trash {
    pub points: Vec<Point>,
}

impl Trash {
    /// An item as it comes into play: without an outline.
    pub fn new() -> (trash: Trash)
        ensures
            trash.points@.len() == 0,
    {
        Trash { points: Vec::new() }
    }
}

} // verus!
