use crate::state::GameState;
use crate::ui::button::{hovered_after, react, reaction_to, Reaction};
use crate::ui::types::{Interaction, ReturnToMenuButton};
use vstd::prelude::*;

verus! {

/// Answers the pointer for the one button of the credits, which leads back
/// to the menu.
pub fn update_credits(back: Interaction, back_button: &mut ReturnToMenuButton, fading: bool) -> (reaction:
    Reaction)
    ensures
        reaction == reaction_to(back, old(back_button).0, fading, GameState::Menu),
        final(back_button).0 == hovered_after(back, old(back_button).0),
        fading ==> reaction.fade.is_none(),
        reaction.fade.is_some() ==> GameState::Credits.leads_to(reaction.fade.unwrap().next_state),
{
    let mut hovered = back_button.0;
    let reaction = react(back, &mut hovered, fading, GameState::Menu);
    back_button.0 = hovered;
    reaction
}

} // verus!
