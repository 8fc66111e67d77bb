use crate::score::PlayerScore;
use crate::state::{GameState, PauseState};
use crate::ui::button::{hovered_after, react, reaction_to, Reaction};
use crate::ui::types::{GameOverEvent, Interaction, ReturnToMenuButton};
use vstd::prelude::*;

verus! {

/// Loudness of the menu theme, in hundredths of full volume.
pub const MUSIC_VOLUME: u8 = 20;

/// Loudness of the menu theme while the game-over screen shows.
pub const MUSIC_VOLUME_GAME_OVER: u8 = 8;

/// What a game-over event leads to: the high score to store, if the round
/// beat it, and the phase the round enters.
#[derive(Debug, Clone, Copy, PartialEq, Eq, Structural)]
pub struct GameOverOutcome {
    pub new_high_score: Option<u64>,
    pub next_state: PauseState,
}

/// The high score that counts when `stored` is what the store gave: nothing
/// stored counts as zero.
pub open spec fn high_score(stored: Option<u64>) -> u64 {
    match stored {
        Some(best) => best,
        None => 0,
    }
}

/// The high score to show: what the store gave, or zero if it gave nothing.
pub fn shown_high_score(stored: Option<u64>) -> (best: u64)
    ensures
        best == high_score(stored),
{
    match stored {
        Some(best) => best,
        None => 0,
    }
}

/// The end of a round. The round's score becomes the high score exactly when
/// it is greater than the one stored; an equal score stores nothing. The
/// round enters its game-over phase either way.
pub fn game_over_event(stored: Option<u64>, event: &GameOverEvent) -> (outcome: GameOverOutcome)
    ensures
        outcome.new_high_score == (if high_score(stored) < event.final_score {
            Some(event.final_score)
        } else {
            None
        }),
        outcome.next_state == PauseState::GameOver,
{
    let best = shown_high_score(stored);
    GameOverOutcome {
        new_high_score: if best < event.final_score {
            Some(event.final_score)
        } else {
            None
        },
        next_state: PauseState::GameOver,
    }
}

/// The high score after a game-over was handled and its outcome stored.
pub open spec fn high_score_after(stored: Option<u64>, final_score: u64) -> u64 {
    if high_score(stored) < final_score {
        final_score
    } else {
        high_score(stored)
    }
}

/// The high score never falls, and after a round it is the greater of the
/// old one and the round's score.
pub proof fn lemma_high_score_is_the_best_so_far(stored: Option<u64>, final_score: u64)
    ensures
        high_score_after(stored, final_score) >= high_score(stored),
        high_score_after(stored, final_score) >= final_score,
        high_score_after(stored, final_score) == high_score(stored) || high_score_after(
            stored,
            final_score,
        ) == final_score,
{
}

/// Builds the game-over screen's one number, the score the round ended
/// with, and clears the score for the next round.
pub fn spawn_game_over_screen(score: &mut PlayerScore) -> (shown: u64)
    ensures
        shown == old(score).score,
        final(score).score == 0,
{
    let shown = score.score;
    score.score = 0;
    shown
}

/// How loud the menu theme plays: turned down on the game-over screen and
/// back up when the round leaves it.
pub fn music_volume(phase: Option<PauseState>) -> (volume: u8)
    ensures
        volume == (if phase == Some(PauseState::GameOver) {
            MUSIC_VOLUME_GAME_OVER
        } else {
            MUSIC_VOLUME
        }),
{
    match phase {
        Some(PauseState::GameOver) => MUSIC_VOLUME_GAME_OVER,
        _ => MUSIC_VOLUME,
    }
}

/// Answers the pointer for the one button of the game-over screen, which
/// leads back to the menu.
pub fn update_game_over_screen(
    back: Interaction,
    back_button: &mut ReturnToMenuButton,
    fading: bool,
) -> (reaction: Reaction)
    ensures
        reaction == reaction_to(back, old(back_button).0, fading, GameState::Menu),
        final(back_button).0 == hovered_after(back, old(back_button).0),
        fading ==> reaction.fade.is_none(),
        reaction.fade.is_some() ==> GameState::InGame.leads_to(reaction.fade.unwrap().next_state),
{
    let mut hovered = back_button.0;
    let reaction = react(back, &mut hovered, fading, GameState::Menu);
    back_button.0 = hovered;
    reaction
}

} // verus!
