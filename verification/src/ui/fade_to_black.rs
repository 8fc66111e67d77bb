use crate::state::GameState;
use crate::ui::types::FadeToBlack;
use vstd::prelude::*;

verus! {

/// Where a fade stands after a frame.
#[derive(Debug, Clone, Copy, PartialEq, Eq, Structural)]
pub enum FadeStep {
    /// The fade is over: take it away and enter `next_state`.
    Finished { next_state: GameState },
    /// The fade goes on: `elapsed` of its `duration` microseconds have run,
    /// and the screen is that much of the way to black.
    Fading { elapsed: i64, duration: u32 },
}

impl FadeToBlack {
    /// The fade has run its length: the next frame ends it.
    pub open spec fn over(self) -> bool {
        self.remaining <= 0
    }

    /// The fade after a frame of `dt` microseconds: one that is over stays
    /// as it is, any other runs down by the frame's time.
    pub open spec fn stepped(self, dt: int) -> FadeToBlack {
        if self.over() {
            self
        } else {
            FadeToBlack {
                duration: self.duration,
                remaining: (self.remaining - dt) as i64,
                next_state: self.next_state,
            }
        }
    }

    /// The fade after the frames `dts`, taken in order.
    pub open spec fn after(self, dts: Seq<u32>) -> FadeToBlack
        decreases dts.len(),
    {
        if dts.len() == 0 {
            self
        } else {
            self.after(dts.drop_last()).stepped(dts.last() as int)
        }
    }
}

/// The time the frames `dts` take together.
pub open spec fn frames_time(dts: Seq<u32>) -> int
    decreases dts.len(),
{
    if dts.len() == 0 {
        0
    } else {
        frames_time(dts.drop_last()) + dts.last()
    }
}

/// Steps a fade by a frame of `delta` microseconds.
///
/// A fade whose time has run out ends, untouched, and names the screen to
/// enter. Any other fade runs down by the frame's time.
pub fn update_fade_to_black(fade: &mut FadeToBlack, delta: u32) -> (step: FadeStep)
    ensures
        *final(fade) == old(fade).stepped(delta as int),
        step == (if old(fade).over() {
            FadeStep::Finished { next_state: old(fade).next_state }
        } else {
            FadeStep::Fading {
                elapsed: (old(fade).duration - final(fade).remaining) as i64,
                duration: old(fade).duration,
            }
        }),
{
    if fade.remaining <= 0 {
        FadeStep::Finished { next_state: fade.next_state }
    } else {
        fade.remaining = fade.remaining - delta as i64;
        let duration = fade.duration();
        FadeStep::Fading { elapsed: duration as i64 - fade.remaining, duration }
    }
}

/// A fade changes the screen only when its whole length has run.
///
/// As long as the frames so far took less than the fade's length together,
/// the fade is not over and has exactly the rest of its length left. It is
/// over after the first frame that brings the time up to the length, and
/// until then it keeps the screen it was made for.
pub proof fn lemma_fade_lasts_its_length(duration: u32, next_state: GameState, dts: Seq<u32>)
    requires
        dts.len() > 0,
        frames_time(dts.drop_last()) < duration,
    ensures
        !FadeToBlack::fresh(duration, next_state).after(dts.drop_last()).over(),
        FadeToBlack::fresh(duration, next_state).after(dts).remaining == duration - frames_time(
            dts,
        ),
        FadeToBlack::fresh(duration, next_state).after(dts).over() <==> frames_time(dts)
            >= duration,
        FadeToBlack::fresh(duration, next_state).after(dts).next_state == next_state,
        FadeToBlack::fresh(duration, next_state).after(dts).duration == duration,
    decreases dts.len(),
{
    let front = dts.drop_last();
    lemma_frames_time_grows(front);
    if front.len() > 0 {
        lemma_frames_time_grows(front.drop_last());
        lemma_fade_lasts_its_length(duration, next_state, front);
    }
}

/// Frames never take less than no time.
proof fn lemma_frames_time_grows(dts: Seq<u32>)
    ensures
        0 <= frames_time(dts) <= dts.len() * u32::MAX,
        dts.len() > 0 ==> frames_time(dts.drop_last()) <= frames_time(dts),
    decreases dts.len(),
{
    if dts.len() > 0 {
        lemma_frames_time_grows(dts.drop_last());
        assert((dts.len() - 1) * u32::MAX + u32::MAX == dts.len() * u32::MAX) by (nonlinear_arith);
    }
}

} // verus!
