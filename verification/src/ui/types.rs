use crate::state::GameState;
use vstd::prelude::*;

verus! {

/// How long a fade between screens lasts: half a second, in microseconds.
pub const FADE_MICROS: u32 = 500_000;

/// The play button, with whether the pointer was over it last frame.
#[derive(Debug, Clone, Copy, PartialEq, Eq, Structural)]
pub struct PlayButton(pub bool);

/// The quit button, with whether the pointer was over it last frame.
#[derive(Debug, Clone, Copy, PartialEq, Eq, Structural)]
pub struct QuitButton(pub bool);

/// The button back to the menu, with whether the pointer was over it last
/// frame.
#[derive(Debug, Clone, Copy, PartialEq, Eq, Structural)]
pub struct ReturnToMenuButton(pub bool);

/// The credits button, with whether the pointer was over it last frame.
#[derive(Debug, Clone, Copy, PartialEq, Eq, Structural)]
pub struct CreditsButton(pub bool);

/// What the pointer does to a button in a frame.
#[derive(Debug, Clone, Copy, PartialEq, Eq, Structural)]
pub enum Interaction {
    Idle,
    Hovered,
    Pressed,
}

/// The two colours a button's border takes.
#[derive(Debug, Clone, Copy, PartialEq, Eq, Structural)]
pub enum BorderTone {
    Green,
    Lime,
}

/// A fade to black that ends in a change of screen. Times are in
/// microseconds; `remaining` starts at the fade's length and runs down.
#[derive(Debug, Clone, Copy, PartialEq, Eq, Structural)]
pub struct FadeToBlack {
    pub duration: u32,
    pub remaining: i64,
    pub next_state: GameState,
}

impl FadeToBlack {
    /// The fade as it is made: nothing of its length has run yet.
    pub open spec fn fresh(duration: u32, next_state: GameState) -> FadeToBlack {
        FadeToBlack { duration, remaining: duration as i64, next_state }
    }

    /// A fade of `duration` microseconds towards `next_state`.
    pub fn new(duration: u32, next_state: GameState) -> (fade: FadeToBlack)
        ensures
            fade == FadeToBlack::fresh(duration, next_state),
    {
        FadeToBlack { duration, remaining: duration as i64, next_state }
    }

    /// The length the fade was made with.
    pub fn duration(&self) -> (duration: u32)
        ensures
            duration == self.duration,
    {
        self.duration
    }
}

/// Sent by the clock when the round's time is up.
#[derive(Debug, Clone, Copy, PartialEq, Eq, Structural)]
pub struct GameOverEvent {
    pub final_score: u64,
}

} // verus!
