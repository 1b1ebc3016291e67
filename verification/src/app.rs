//! The outer application states the simulation is embedded in.

use vstd::prelude::*;

verus! {

/// Application state. The simulation proper runs in `InGame`; the other
/// states belong to the outer shell around it.
#[derive(Debug, Clone, Copy, PartialEq, Eq, Hash, Structural)]
pub enum AppState {
    /// Load the bare essentials (such as the configuration), so that the
    /// loading state knows what to fetch.
    PreLoading,
    /// Show a splash screen inviting the player to click play.
    Splash,
    /// Load the game's assets.
    Loading,
    /// Show the player controls.
    MainMenu,
    /// Play the game.
    InGame,
    /// Pause the game.
    Paused,
}

impl Default for AppState {
    /// Start in the pre-loading state.
    fn default() -> (s: AppState)
        ensures
            s == AppState::PreLoading,
    {
        AppState::PreLoading
    }
}

} // verus!
