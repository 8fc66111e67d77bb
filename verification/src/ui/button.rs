use crate::state::GameState;
use crate::ui::types::{BorderTone, FadeToBlack, Interaction, FADE_MICROS};
use vstd::prelude::*;

verus! {

/// What a button asks for in a frame: a border colour to set, sounds to
/// play, and a fade to start.
#[derive(Debug, Clone, Copy, PartialEq, Eq, Structural)]
pub struct Reaction {
    pub border: Option<BorderTone>,
    pub hover_sound: bool,
    pub select_sound: bool,
    pub fade: Option<FadeToBlack>,
}

/// How a button that leads to `target` answers the pointer.
///
/// Left alone it turns green. Under the pointer it turns lime, and is heard
/// once when the pointer arrives. Pressed, it starts the fade towards its
/// screen, unless a fade is already under way: then the press does nothing.
pub open spec fn reaction_to(
    interaction: Interaction,
    hovered: bool,
    fading: bool,
    target: GameState,
) -> Reaction {
    match interaction {
        Interaction::Idle => Reaction {
            border: Some(BorderTone::Green),
            hover_sound: false,
            select_sound: false,
            fade: None,
        },
        Interaction::Hovered => Reaction {
            border: Some(BorderTone::Lime),
            hover_sound: !hovered,
            select_sound: false,
            fade: None,
        },
        Interaction::Pressed => Reaction {
            border: None,
            hover_sound: false,
            select_sound: !fading,
            fade: if fading {
                None
            } else {
                Some(FadeToBlack::fresh(FADE_MICROS, target))
            },
        },
    }
}

/// Whether the button remembers the pointer as being over it.
pub open spec fn hovered_after(interaction: Interaction, hovered: bool) -> bool {
    match interaction {
        Interaction::Idle => false,
        Interaction::Hovered => true,
        Interaction::Pressed => hovered,
    }
}

/// Answers the pointer for one button that leads to `target`.
pub fn react(interaction: Interaction, hovered: &mut bool, fading: bool, target: GameState) -> (reaction:
    Reaction)
    ensures
        reaction == reaction_to(interaction, *old(hovered), fading, target),
        *final(hovered) == hovered_after(interaction, *old(hovered)),
{
    match interaction {
        Interaction::Idle => {
            *hovered = false;
            Reaction {
                border: Some(BorderTone::Green),
                hover_sound: false,
                select_sound: false,
                fade: None,
            }
        },
        Interaction::Hovered => {
            let arrived = !*hovered;
            *hovered = true;
            Reaction {
                border: Some(BorderTone::Lime),
                hover_sound: arrived,
                select_sound: false,
                fade: None,
            }
        },
        Interaction::Pressed => {
            if fading {
                Reaction { border: None, hover_sound: false, select_sound: false, fade: None }
            } else {
                Reaction {
                    border: None,
                    hover_sound: false,
                    select_sound: true,
                    fade: Some(FadeToBlack::new(FADE_MICROS, target)),
                }
            }
        },
    }
}

/// While a fade is under way no button starts another, whatever is done to
/// it, and a fade that does start leads where the button leads.
pub proof fn lemma_one_fade_at_a_time(
    interaction: Interaction,
    hovered: bool,
    fading: bool,
    target: GameState,
)
    ensures
        fading ==> reaction_to(interaction, hovered, fading, target).fade.is_none(),
        reaction_to(interaction, hovered, fading, target).fade.is_some() ==> reaction_to(
            interaction,
            hovered,
            fading,
            target,
        ).fade.unwrap().next_state == target,
{
}

} // verus!
