use crate::state::GameState;
use vstd::prelude::*;

verus! {

/// How long the splash screen shows: three seconds, in microseconds.
pub const SPLASH_MICROS: i64 = 3_000_000;

/// The splash screen, with the microseconds it still has to show.
#[derive(Debug, Clone, Copy, PartialEq, Eq, Structural)]
pub struct SplashScreen(pub i64);

/// Where the splash screen stands after a frame.
#[derive(Debug, Clone, Copy, PartialEq, Eq, Structural)]
pub enum SplashStep {
    /// Its time is over: enter `next_state`.
    Done { next_state: GameState },
    /// It goes on showing; `elapsed` microseconds in all set how far its
    /// picture has pulsed.
    Showing { elapsed: u64 },
}

/// The splash screen as it is made.
pub fn setup_splash() -> (splash: SplashScreen)
    ensures
        splash.0 == SPLASH_MICROS,
{
    SplashScreen(SPLASH_MICROS)
}

/// Steps the splash screen by a frame of `delta` microseconds.
///
/// A screen whose time has run out is left as it is and gives way to the
/// menu. Any other runs down by the frame's time, which is also added to the
/// time shown so far.
pub fn update_splash(splash: &mut SplashScreen, elapsed: &mut u64, delta: u32) -> (step:
    SplashStep)
    requires
        old(splash).0 > 0 ==> *old(elapsed) + delta <= u64::MAX,
    ensures
        old(splash).0 <= 0 ==> *final(splash) == *old(splash) && *final(elapsed) == *old(elapsed)
            && step == (SplashStep::Done { next_state: GameState::Menu }),
        final(splash).0 == after_frame(old(splash).0 as int, delta as int),
        old(splash).0 > 0 ==> final(splash).0 == old(splash).0 - delta && *final(elapsed) == *old(elapsed) + delta && step == (SplashStep::Showing { elapsed: *final(elapsed) }),
{
    if splash.0 <= 0 {
        SplashStep::Done { next_state: GameState::Menu }
    } else {
        splash.0 = splash.0 - delta as i64;
        *elapsed = *elapsed + delta as u64;
        SplashStep::Showing { elapsed: *elapsed }
    }
}

/// The splash screen gives way to the menu, the one screen that follows it.
pub proof fn lemma_splash_leads_to_menu(next: GameState)
    ensures
        GameState::Splash.leads_to(next) <==> next == GameState::Menu,
{
}

/// The time the frames `dts` take together.
pub open spec fn shown_for(dts: Seq<u32>) -> int
    decreases dts.len(),
{
    if dts.len() == 0 {
        0
    } else {
        shown_for(dts.drop_last()) + dts.last()
    }
}

/// The microseconds a splash screen has left after a frame of `dt`
/// microseconds: its time runs down until none is left, and then stays.
pub open spec fn after_frame(left: int, dt: int) -> int {
    if left <= 0 {
        left
    } else {
        left - dt
    }
}

/// The microseconds a splash screen has left after the frames `dts`.
pub open spec fn left_after(left: int, dts: Seq<u32>) -> int
    decreases dts.len(),
{
    if dts.len() == 0 {
        left
    } else {
        after_frame(left_after(left, dts.drop_last()), dts.last() as int)
    }
}

/// The splash screen shows for its three seconds: as long as the frames so
/// far took less than that together, it has the rest of the time left, and
/// the first frame to bring the time up to three seconds leaves it none.
pub proof fn lemma_splash_shows_three_seconds(dts: Seq<u32>)
    requires
        dts.len() > 0,
        shown_for(dts.drop_last()) < SPLASH_MICROS,
    ensures
        left_after(SPLASH_MICROS as int, dts.drop_last()) > 0,
        left_after(SPLASH_MICROS as int, dts) == SPLASH_MICROS - shown_for(dts),
        left_after(SPLASH_MICROS as int, dts) <= 0 <==> shown_for(dts) >= SPLASH_MICROS,
    decreases dts.len(),
{
    let front = dts.drop_last();
    if front.len() > 0 {
        lemma_splash_shows_three_seconds(front);
    }
}

} // verus!
