//! The game's top-level modes.

use vstd::prelude::*;

verus! {

/// What the application as a whole is doing.
#[derive(Clone, Copy, Debug, PartialEq, Eq, Hash, Structural)]
pub enum AppState {
    Menu,
    InGame,
    Paused,
}

/// What the player is doing while a game runs.
#[derive(Clone, Copy, Debug, PartialEq, Eq, Hash, Structural)]
pub enum PlayerState {
    /// Choosing and placing towers.
    Build,
    /// Watching the game without a build panel.
    Idle,
}

/// The three ordered phases that start-up and per-frame work are sorted into.
#[derive(Clone, Copy, Debug, PartialEq, Eq, Hash, Structural)]
pub enum StartupStage {
    Load,
    Processing,
    Build,
}

impl Default for AppState {
    /// The application opens on the menu.
    fn default() -> (s: AppState)
        ensures
            s == AppState::Menu,
    {
        AppState::Menu
    }
}

impl Default for PlayerState {
    /// A game opens in build mode.
    fn default() -> (s: PlayerState)
        ensures
            s == PlayerState::Build,
    {
        PlayerState::Build
    }
}

} // verus!
