use crate::level::types::{RoundClock, TimeRemaining, TrashSpawnEvent, MULTIPLIER_ONE};
use crate::score::PlayerScore;
use crate::ui::types::GameOverEvent;
use vstd::prelude::*;

verus! {

/// What one step of the clock sends out.
#[derive(Debug, Clone, Copy, PartialEq, Eq, Structural)]
pub struct TimerEvents {
    pub game_over: Option<GameOverEvent>,
    pub spawn: Option<TrashSpawnEvent>,
}

/// The clock a round starts with.
pub fn spawn_timer() -> (timer: TimeRemaining)
    ensures
        timer@ == RoundClock::initial(),
{
    TimeRemaining::default()
}

/// Steps the clock by a frame of `delta` microseconds.
///
/// Game over is sent whenever the time left after the step is zero or less,
/// and carries the score as it stands. A spawn is sent whenever the wait has
/// reached the spawn interval.
pub fn update_timer(timer: &mut TimeRemaining, delta: u32, score: &PlayerScore) -> (events:
    TimerEvents)
    requires
        old(timer)@.tick(delta as int).fits(),
    ensures
        final(timer)@ == old(timer)@.tick(delta as int),
        events.game_over == (if final(timer)@.expired() {
            Some(GameOverEvent { final_score: score.score })
        } else {
            None
        }),
        events.spawn == (if old(timer)@.spawn_due(delta as int) {
            Some(TrashSpawnEvent)
        } else {
            None
        }),
{
    assert(0 <= delta * timer.multiplier <= 0xFFFF_FFFF * 0xFFFF_FFFF) by (nonlinear_arith)
        requires
            0 <= delta <= 0xFFFF_FFFF,
            0 <= timer.multiplier <= 0xFFFF_FFFF,
    ;
    let spent: i128 = (delta as i128) * (timer.multiplier as i128);
    let left: i128 = timer.remaining as i128 - spent;
    timer.remaining = left as i64;

    let waited: u128 = timer.last_spawn as u128 + delta as u128;
    let due = timer.spawn_every <= 0 || waited >= timer.spawn_every as u128;
    if due {
        timer.last_spawn = 0;
    } else {
        timer.last_spawn = waited as u64;
    }

    TimerEvents {
        game_over: if timer.remaining <= 0 {
            Some(GameOverEvent { final_score: score.score })
        } else {
            None
        },
        spawn: if due {
            Some(TrashSpawnEvent)
        } else {
            None
        },
    }
}

/// The time the frames `dts` take together.
pub open spec fn elapsed(dts: Seq<int>) -> int
    decreases dts.len(),
{
    if dts.len() == 0 {
        0
    } else {
        elapsed(dts.drop_last()) + dts.last()
    }
}

/// Frames alone change neither the pace nor the spawn interval, and take off
/// the clock exactly the time they last, at the multiplier's pace.
pub proof fn lemma_ticks_spend_elapsed_time(clock: RoundClock, dts: Seq<int>)
    ensures
        clock.after_ticks(dts).remaining == clock.remaining - elapsed(dts) * clock.multiplier,
        clock.after_ticks(dts).multiplier == clock.multiplier,
        clock.after_ticks(dts).spawn_interval == clock.spawn_interval,
    decreases dts.len(),
{
    if dts.len() > 0 {
        lemma_ticks_spend_elapsed_time(clock, dts.drop_last());
        assert((elapsed(dts.drop_last()) + dts.last()) * clock.multiplier == elapsed(
            dts.drop_last(),
        ) * clock.multiplier + dts.last() * clock.multiplier) by (nonlinear_arith);
    }
}

/// Between disposals the time left never grows: over any run of frames that
/// each last longer than nothing, the clock shows no more after `j` frames
/// than it showed after the first `i` of them.
pub proof fn lemma_time_never_grows_between_disposals(
    clock: RoundClock,
    dts: Seq<int>,
    i: int,
    j: int,
)
    requires
        clock.multiplier >= 0,
        forall|k: int| 0 <= k < dts.len() ==> #[trigger] dts[k] > 0,
        0 <= i <= j <= dts.len(),
    ensures
        clock.after_ticks(dts.take(j)).remaining <= clock.after_ticks(dts.take(i)).remaining,
    decreases j - i,
{
    if i < j {
        lemma_time_never_grows_between_disposals(clock, dts, i, j - 1);
        lemma_ticks_spend_elapsed_time(clock, dts.take(j - 1));
        assert(dts.take(j).drop_last() =~= dts.take(j - 1));
        assert(dts.take(j).last() == dts[j - 1]);
        assert(dts[j - 1] * clock.multiplier >= 0) by (nonlinear_arith)
            requires
                dts[j - 1] > 0,
                clock.multiplier >= 0,
        ;
    }
}

/// A spawn waits for the whole interval and then starts over from nothing.
///
/// While no frame of a run has sent a spawn, the wait is the wait the run
/// began with plus the time gone by. The next frame sends a spawn exactly
/// when that sum, with the frame's own time, has reached the interval; the
/// wait is then zero, and what the sum had above the interval is dropped.
pub proof fn lemma_spawn_waits_for_the_interval(clock: RoundClock, dts: Seq<int>, n: int)
    requires
        0 <= n < dts.len(),
        forall|k: int| 0 <= k < n ==> !clock.after_ticks(#[trigger] dts.take(k)).spawn_due(dts[k]),
    ensures
        clock.after_ticks(dts.take(n)).time_since_last_spawn == clock.time_since_last_spawn
            + elapsed(dts.take(n)),
        clock.after_ticks(dts.take(n)).spawn_due(dts[n]) <==> clock.time_since_last_spawn
            + elapsed(dts.take(n + 1)) >= clock.spawn_interval,
        clock.after_ticks(dts.take(n)).spawn_due(dts[n]) ==> clock.after_ticks(
            dts.take(n + 1),
        ).time_since_last_spawn == 0,
    decreases n,
{
    lemma_ticks_spend_elapsed_time(clock, dts.take(n));
    assert(dts.take(n + 1).drop_last() =~= dts.take(n));
    assert(dts.take(n + 1).last() == dts[n]);
    if n > 0 {
        lemma_spawn_waits_for_the_interval(clock, dts, n - 1);
        assert(dts.take(n).drop_last() =~= dts.take(n - 1));
        assert(dts.take(n).last() == dts[n - 1]);
        assert(!clock.after_ticks(dts.take(n - 1)).spawn_due(dts[n - 1]));
    }
}

/// One frame, whatever the clock: it takes its own time off the clock at
/// the multiplier's pace, so with a multiplier of at least 1.0 and a frame
/// that lasts longer than nothing the time left gets less.
pub proof fn lemma_a_frame_takes_its_time(clock: RoundClock, dt: int)
    requires
        dt > 0,
        clock.multiplier >= MULTIPLIER_ONE,
    ensures
        clock.tick(dt).remaining == clock.remaining - dt * clock.multiplier,
        clock.tick(dt).remaining < clock.remaining,
        clock.tick(dt).multiplier == clock.multiplier,
        clock.tick(dt).spawn_interval == clock.spawn_interval,
{
    assert(dt * clock.multiplier > 0) by (nonlinear_arith)
        requires
            dt > 0,
            clock.multiplier >= 100,
    ;
}

/// One frame and the spawn: a spawn is due exactly when the wait with the
/// frame's time has reached the interval. The wait is then zero, not what
/// was above the interval; otherwise it has grown by the frame's time.
pub proof fn lemma_a_spawn_restarts_the_wait(clock: RoundClock, dt: int)
    ensures
        clock.spawn_due(dt) <==> clock.time_since_last_spawn + dt >= clock.spawn_interval,
        clock.spawn_due(dt) ==> clock.tick(dt).time_since_last_spawn == 0,
        !clock.spawn_due(dt) ==> clock.tick(dt).time_since_last_spawn
            == clock.time_since_last_spawn + dt,
{
}

/// One frame and the end: the clock is expired after a frame exactly when
/// the frame's time at the multiplier's pace is all the time that was left,
/// or more.
pub proof fn lemma_a_frame_ends_the_time(clock: RoundClock, dt: int)
    ensures
        clock.tick(dt).expired() <==> clock.remaining - dt * clock.multiplier <= 0,
        clock.tick(dt).expired() <==> clock.remaining <= dt * clock.multiplier,
{
}

} // verus!
