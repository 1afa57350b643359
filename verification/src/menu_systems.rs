//! The decisions behind the menu's buttons.
//!
//! The engine reports how the pointer interacts with each button; these
//! functions decide what each interaction does: which menu state comes
//! next, whether the map starts loading, whether the game starts or quits,
//! and how a button is painted while hovered.

use crate::map_state::MapReadinessState;
use crate::menu_state::GameMenuState;
use vstd::prelude::*;

verus! {

/// How the pointer currently interacts with a button.
#[derive(Debug, Clone, Copy, PartialEq, Eq, Structural)]
pub enum ButtonInteraction {
    /// The button was clicked
    Clicked,
    /// The pointer hovers over the button
    Hovered,
    /// The pointer leaves the button alone
    Idle,
}

/// Which of its two colors a button shows.
#[derive(Debug, Clone, Copy, PartialEq, Eq, Structural)]
pub enum ButtonVisual {
    /// The ordinary button color
    Normal,
    /// The slightly darker color shown while hovered
    Hovered,
}

/// What a menu button press sets in motion.
#[derive(Debug, Clone, Copy)]
pub struct MenuAction {
    /// The menu state to switch to, if any
    pub next_menu: Option<GameMenuState>,
    /// The map readiness state to switch to, if any
    pub next_map: Option<MapReadinessState>,
    /// Whether to start the game: load the map asset and spawn the player
    pub start_game: bool,
}

/// The action that does nothing.
pub open spec fn spec_no_action() -> MenuAction {
    MenuAction { next_menu: Option::None, next_map: Option::None, start_game: false }
}

/// The action that enters the game: the menu goes away, the map starts
/// loading, and the game starts.
pub open spec fn spec_enter_game() -> MenuAction {
    MenuAction {
        next_menu: Option::Some(GameMenuState::InGame),
        next_map: Option::Some(MapReadinessState::Loading),
        start_game: true,
    }
}

/// Answers the question it's named after.
///
/// It will check the game's data store and determine if the storyline
/// intro has been shown before. The data store does not record this yet,
/// so the intro counts as never shown.
pub fn storyline_intro_shown() -> (shown: bool)
    ensures
        !shown,
{
    false
}

/// Decides the hover effect of a button: hovering paints the hover color,
/// an idle button gets its ordinary color back, and a click leaves the
/// color alone.
pub fn update_button_hover_state(interaction: &ButtonInteraction) -> (visual: Option<
    ButtonVisual,
>)
    ensures
        interaction is Hovered ==> visual == Some(ButtonVisual::Hovered),
        interaction is Idle ==> visual == Some(ButtonVisual::Normal),
        interaction is Clicked ==> visual is None,
{
    match interaction {
        ButtonInteraction::Hovered => Some(ButtonVisual::Hovered),
        ButtonInteraction::Idle => Some(ButtonVisual::Normal),
        ButtonInteraction::Clicked => None,
    }
}

/// Decides what the start button does.
///
/// When the start button has been clicked:
/// 1. Determine if the storyline intro needs to be shown.
/// 2. If so, switch to the [`GameMenuState::StorylineIntro`] state and stop
///    there.
/// 3. Otherwise switch to [`GameMenuState::InGame`], start loading the map
///    by setting the readiness state to [`MapReadinessState::Loading`], and
///    start the game.
pub fn update_start_button(interaction: &ButtonInteraction, intro_shown: bool) -> (action:
    MenuAction)
    ensures
        !(interaction is Clicked) ==> action == spec_no_action(),
        interaction is Clicked && !intro_shown ==> action == (MenuAction {
            next_menu: Option::Some(GameMenuState::StorylineIntro),
            next_map: Option::None,
            start_game: false,
        }),
        interaction is Clicked && intro_shown ==> action == spec_enter_game(),
{
    match interaction {
        ButtonInteraction::Clicked => {
            if !intro_shown {
                MenuAction {
                    next_menu: Some(GameMenuState::StorylineIntro),
                    next_map: None,
                    start_game: false,
                }
            } else {
                MenuAction {
                    next_menu: Some(GameMenuState::InGame),
                    next_map: Some(MapReadinessState::Loading),
                    start_game: true,
                }
            }
        },
        _ => MenuAction { next_menu: None, next_map: None, start_game: false },
    }
}

/// Decides what the storyline intro's continue button does: a click enters
/// the game, anything else does nothing.
pub fn update_storyline_intro_screen_btn(interaction: &ButtonInteraction) -> (action: MenuAction)
    ensures
        interaction is Clicked ==> action == spec_enter_game(),
        !(interaction is Clicked) ==> action == spec_no_action(),
{
    match interaction {
        ButtonInteraction::Clicked => MenuAction {
            next_menu: Some(GameMenuState::InGame),
            next_map: Some(MapReadinessState::Loading),
            start_game: true,
        },
        _ => MenuAction { next_menu: None, next_map: None, start_game: false },
    }
}

/// Decides what the quit button does: a click quits the game.
pub fn update_quit_button(interaction: &ButtonInteraction) -> (quit: bool)
    ensures
        quit == (interaction is Clicked),
{
    match interaction {
        ButtonInteraction::Clicked => true,
        _ => false,
    }
}

} // verus!
