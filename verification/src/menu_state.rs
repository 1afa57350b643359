//! Defines a simple enum to represent the current state of the menu.

use vstd::prelude::*;

verus! {

/// Represents the current state of the menu.
#[derive(Debug, Clone, Copy, PartialEq, Eq, Hash, Structural)]
pub enum GameMenuState {
    /// Indicates that the initial start screen is currently shown
    StartScreen,
    /// Indicates that the storyline's intro should be shown
    StorylineIntro,
    /// Indicates that the menu is not shown at all as the player is in-game
    InGame,
}

impl Default for GameMenuState {
    /// The menu opens on the start screen.
    fn default() -> (r: Self)
        ensures
            r == GameMenuState::StartScreen,
    {
        GameMenuState::StartScreen
    }
}

} // verus!
