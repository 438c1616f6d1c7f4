//! The navigation signal a screen returns from each update cycle.
//!
//! Every update consumes exactly one logical input unit and returns exactly
//! one response; the main loop fully processes it before the next render.

use vstd::prelude::*;

verus! {

/// The outcome of one screen update cycle.
#[derive(Clone, Copy, Debug, PartialEq, Eq, Structural)]
pub enum ModelResponse {
    /// Check for another update from the screen model.
    NoOp,
    /// Run the render function on the current screen again.
    Refresh,
    /// Exit the application.
    Exit,
    /// Switch to the settings screen.
    NavToSettings,
    /// Switch to the high-scores screen.
    NavToHighScores,
    /// Switch to the tutorial screen.
    NavToTutorial,
    /// Switch to the main menu screen.
    NavToMainMenu,
    /// Switch to the game screen.
    NavToGame,
    /// Reset the running round at the engine level.
    QuitGame,
}

/// How a screen gathers its one logical input unit for the next update.
#[derive(Clone, Copy, Debug, PartialEq, Eq, Structural)]
pub enum InputMode {
    /// Block until a key event arrives.
    Blocking,
    /// Poll with the given timeout in milliseconds; a timeout yields no
    /// event and drives the periodic animation tick.
    Timed(u64),
    /// Read nothing: the cycle is fully automatic.
    Immediate,
}

} // verus!
