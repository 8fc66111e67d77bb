use crate::state::{GameState, PauseState};
use crate::ui::button::{hovered_after, react, reaction_to, Reaction};
use crate::ui::types::{Interaction, QuitButton, ReturnToMenuButton};
use vstd::prelude::*;

verus! {

/// What the two buttons of the pause menu ask for in a frame.
#[derive(Debug, Clone, Copy, PartialEq, Eq, Structural)]
pub struct PauseReactions {
    pub back: Reaction,
    pub quit: Reaction,
}

/// The pause key while the round runs: it pauses the round. In any other
/// phase, or without the key, nothing changes.
pub fn open_pause_menu(phase: PauseState, key_just_pressed: bool) -> (next: Option<PauseState>)
    ensures
        next == (if key_just_pressed && phase == PauseState::Running {
            Some(PauseState::Paused)
        } else {
            None
        }),
        next.is_some() ==> next.unwrap() == toggled(phase) && phase.leads_to(next.unwrap()),
{
    if key_just_pressed && phase == PauseState::Running {
        Some(PauseState::Paused)
    } else {
        None
    }
}

/// The pause key while the round is paused: it lets the round run again. In
/// any other phase, or without the key, nothing changes.
pub fn close_pause_menu(phase: PauseState, key_just_pressed: bool) -> (next: Option<PauseState>)
    ensures
        next == (if key_just_pressed && phase == PauseState::Paused {
            Some(PauseState::Running)
        } else {
            None
        }),
        next.is_some() ==> next.unwrap() == toggled(phase) && phase.leads_to(next.unwrap()),
{
    if key_just_pressed && phase == PauseState::Paused {
        Some(PauseState::Running)
    } else {
        None
    }
}

/// Answers the pointer for the pause menu's buttons: one leads back to the
/// menu, the other out of the program. The first is asked first, and a fade
/// it starts counts as under way for the second.
pub fn update_pause_menu(
    back: Interaction,
    back_button: &mut ReturnToMenuButton,
    quit: Interaction,
    quit_button: &mut QuitButton,
    fading: bool,
) -> (reactions: PauseReactions)
    ensures
        reactions.back == reaction_to(back, old(back_button).0, fading, GameState::Menu),
        reactions.quit == reaction_to(
            quit,
            old(quit_button).0,
            fading || reactions.back.fade.is_some(),
            GameState::Quitting,
        ),
        final(back_button).0 == hovered_after(back, old(back_button).0),
        final(quit_button).0 == hovered_after(quit, old(quit_button).0),
        !(reactions.back.fade.is_some() && reactions.quit.fade.is_some()),
        fading ==> reactions.back.fade.is_none() && reactions.quit.fade.is_none(),
        reactions.back.fade.is_some() ==> GameState::InGame.leads_to(
            reactions.back.fade.unwrap().next_state,
        ),
        reactions.quit.fade.is_some() ==> GameState::InGame.leads_to(
            reactions.quit.fade.unwrap().next_state,
        ),
{
    let mut hovered = back_button.0;
    let back_reaction = react(back, &mut hovered, fading, GameState::Menu);
    back_button.0 = hovered;

    let fading = fading || back_reaction.fade.is_some();
    let mut hovered = quit_button.0;
    let quit_reaction = react(quit, &mut hovered, fading, GameState::Quitting);
    quit_button.0 = hovered;

    PauseReactions { back: back_reaction, quit: quit_reaction }
}

/// The pause key is a toggle: pressed twice it leaves a running round
/// running, and it never ends or restarts a round.
pub proof fn lemma_pause_key_toggles(phase: PauseState)
    ensures
        phase == PauseState::Running ==> toggled(toggled(phase)) == phase,
        phase == PauseState::Paused ==> toggled(toggled(phase)) == phase,
        toggled(phase) != PauseState::GameOver || phase == PauseState::GameOver,
        toggled(phase) != PauseState::Loading || phase == PauseState::Loading,
{
}

/// The phase after the pause key was pressed in `phase`.
pub open spec fn toggled(phase: PauseState) -> PauseState {
    match phase {
        PauseState::Running => PauseState::Paused,
        PauseState::Paused => PauseState::Running,
        other => other,
    }
}

} // verus!
