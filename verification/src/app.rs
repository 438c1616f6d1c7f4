//! Application-level routing state: which screen is current, and where the
//! main menu's cursor stands.

use vstd::prelude::*;
use crate::menu_screen::{main_menu_option_at, MainMenuOption, MAIN_MENU_ITEM_COUNT};
use crate::navigation::nav_step;

verus! {

/// The named screens the application can show.
#[derive(Clone, Copy, Debug, PartialEq, Eq, Structural)]
pub enum CurrentScreen {
    Menu,
    Play,
    Tutorial,
    Settings,
    HighScores,
}

/// Routing state: the current screen and the main menu's active index.
#[derive(Clone, Copy, Debug, PartialEq, Eq, Structural)]
pub struct App {
    pub current_screen: CurrentScreen,
    pub active_menu_index: i8,
}

/// The screen the main menu entry at index `i` selects.  An index outside
/// the menu falls back to the high-scores screen; the continue entry keeps
/// the menu itself current.
pub open spec fn screen_for_index(i: int) -> CurrentScreen {
    if !(0 <= i < 5) {
        CurrentScreen::HighScores
    } else {
        match main_menu_option_at(i) {
            MainMenuOption::Play => CurrentScreen::Play,
            MainMenuOption::Continue => CurrentScreen::Menu,
            MainMenuOption::Tutorial => CurrentScreen::Tutorial,
            MainMenuOption::HighScores => CurrentScreen::HighScores,
            MainMenuOption::Settings => CurrentScreen::Settings,
        }
    }
}

impl App {
    /// The active index stays inside the main menu.
    pub open spec fn wf(&self) -> bool {
        0 <= self.active_menu_index < 5
    }

    pub fn new() -> (a: App)
        ensures
            a == (App { current_screen: CurrentScreen::Menu, active_menu_index: 0i8 }),
            a.wf(),
    {
        App { current_screen: CurrentScreen::Menu, active_menu_index: 0 }
    }

    /// Move the main menu's active index by `increment`, clamped to the
    /// menu bounds; the current screen is untouched.
    pub fn increment_active_menu_index(&mut self, increment: i8)
        requires
            old(self).wf(),
        ensures
            final(self).active_menu_index as int == nav_step(
                old(self).active_menu_index as int,
                increment as int,
                5,
            ),
            final(self).current_screen == old(self).current_screen,
            final(self).wf(),
    {
        let sum: i32 = self.active_menu_index as i32 + increment as i32;
        let max_index: i32 = MAIN_MENU_ITEM_COUNT as i32 - 1;
        let next: i32 = if sum < 0 {
            0
        } else if sum > max_index {
            max_index
        } else {
            sum
        };
        self.active_menu_index = next as i8;
    }

    /// Switch to the desired screen; switching always resets the menu
    /// index to the first entry.
    pub fn set_current_screen(&mut self, desired_screen: CurrentScreen)
        ensures
            *final(self) == (App { current_screen: desired_screen, active_menu_index: 0i8 }),
            final(self).wf(),
    {
        self.active_menu_index = 0;
        self.current_screen = desired_screen;
    }

    /// Derive the current screen from the main menu's active index.
    pub fn determine_current_screen(&mut self)
        ensures
            final(self).current_screen == screen_for_index(old(self).active_menu_index as int),
            final(self).active_menu_index == old(self).active_menu_index,
    {
        let i = self.active_menu_index;
        self.current_screen = if i < 0 || i >= 5 {
            CurrentScreen::HighScores
        } else if i == 0 {
            CurrentScreen::Play
        } else if i == 1 {
            CurrentScreen::Menu
        } else if i == 2 {
            CurrentScreen::Tutorial
        } else if i == 3 {
            CurrentScreen::HighScores
        } else {
            CurrentScreen::Settings
        };
    }
}

} // verus!
