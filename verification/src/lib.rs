//! Screen-state machine for a terminal blackjack table.
//!
//! The library models the interactive core of the application: a single
//! active screen that consumes one logical input event per update cycle and
//! returns a navigation response, which the surrounding loop interprets to
//! keep redrawing, swap screens, or terminate.  Everything here is plain
//! state-machine logic over modeled values; reading the input device,
//! drawing frames, and driving the card-game engine live outside the
//! library and exchange plain values with it.

pub mod app;
pub mod game_screen;
pub mod input;
pub mod model;
pub mod menu_screen;
pub mod navigation;
pub mod screen;
pub mod settings_screen;
pub mod numerals;
pub mod ui;
