use crate::state::GameState;
use crate::ui::button::{hovered_after, react, reaction_to, Reaction};
use crate::ui::types::{CreditsButton, Interaction, PlayButton, QuitButton};
use vstd::prelude::*;

verus! {

/// What the three buttons of the menu ask for in a frame.
#[derive(Debug, Clone, Copy, PartialEq, Eq, Structural)]
pub struct MenuReactions {
    pub play: Reaction,
    pub credits: Reaction,
    pub quit: Reaction,
}

/// Answers the pointer for the menu's buttons: play leads into the game,
/// credits to the credits, quit out of the program.
///
/// The buttons are asked in that order, and a fade started by one counts as
/// under way for those after it, so a frame starts one fade at most.
pub fn update_menu(
    play: Interaction,
    play_button: &mut PlayButton,
    credits: Interaction,
    credits_button: &mut CreditsButton,
    quit: Interaction,
    quit_button: &mut QuitButton,
    fading: bool,
) -> (reactions: MenuReactions)
    ensures
        reactions.play == reaction_to(play, old(play_button).0, fading, GameState::InGame),
        reactions.credits == reaction_to(
            credits,
            old(credits_button).0,
            fading || reactions.play.fade.is_some(),
            GameState::Credits,
        ),
        reactions.quit == reaction_to(
            quit,
            old(quit_button).0,
            fading || reactions.play.fade.is_some() || reactions.credits.fade.is_some(),
            GameState::Quitting,
        ),
        final(play_button).0 == hovered_after(play, old(play_button).0),
        final(credits_button).0 == hovered_after(credits, old(credits_button).0),
        final(quit_button).0 == hovered_after(quit, old(quit_button).0),
{
    let mut hovered = play_button.0;
    let play_reaction = react(play, &mut hovered, fading, GameState::InGame);
    play_button.0 = hovered;

    let fading = fading || play_reaction.fade.is_some();
    let mut hovered = credits_button.0;
    let credits_reaction = react(credits, &mut hovered, fading, GameState::Credits);
    credits_button.0 = hovered;

    let fading = fading || credits_reaction.fade.is_some();
    let mut hovered = quit_button.0;
    let quit_reaction = react(quit, &mut hovered, fading, GameState::Quitting);
    quit_button.0 = hovered;

    MenuReactions { play: play_reaction, credits: credits_reaction, quit: quit_reaction }
}

/// How many fades the menu's buttons start together.
pub open spec fn fades_started(reactions: MenuReactions) -> nat {
    let play: nat = if reactions.play.fade.is_some() {
        1
    } else {
        0
    };
    let credits: nat = if reactions.credits.fade.is_some() {
        1
    } else {
        0
    };
    let quit: nat = if reactions.quit.fade.is_some() {
        1
    } else {
        0
    };
    play + credits + quit
}

/// The menu never starts a second fade: none while one is under way, one at
/// most otherwise, so that with the one under way there is never more than
/// one. Any fade it starts leads to a screen that follows the menu.
pub proof fn lemma_menu_starts_one_fade_at_most(
    play: Interaction,
    play_hovered: bool,
    credits: Interaction,
    credits_hovered: bool,
    quit: Interaction,
    quit_hovered: bool,
    fading: bool,
)
    ensures
        ({
            let first = reaction_to(play, play_hovered, fading, GameState::InGame);
            let second = reaction_to(
                credits,
                credits_hovered,
                fading || first.fade.is_some(),
                GameState::Credits,
            );
            let third = reaction_to(
                quit,
                quit_hovered,
                fading || first.fade.is_some() || second.fade.is_some(),
                GameState::Quitting,
            );
            let reactions = MenuReactions { play: first, credits: second, quit: third };
            &&& fades_started(reactions) <= 1
            &&& fading ==> fades_started(reactions) == 0
            &&& (if fading {
                1nat
            } else {
                0nat
            }) + fades_started(reactions) <= 1
            &&& first.fade.is_some() ==> GameState::Menu.leads_to(first.fade.unwrap().next_state)
            &&& second.fade.is_some() ==> GameState::Menu.leads_to(second.fade.unwrap().next_state)
            &&& third.fade.is_some() ==> GameState::Menu.leads_to(third.fade.unwrap().next_state)
        }),
{
}

} // verus!
