//! The settings screen: a bounded menu of adjustable numeric values.

use vstd::prelude::*;
use crate::input::{KeyCode, KeyEvent, KeyEventKind};
use crate::model::ModelResponse;
use crate::navigation::{nav_step, MenuNavigation};
use crate::numerals::{i8_to_string, signed_dec_rep};
use crate::ui::MenuLine;

verus! {

/// The number of entries of the settings menu.
pub const SETTINGS_ITEM_COUNT: usize = 2;

/// The entries of the settings menu, in display order.
#[derive(Clone, Copy, Debug, PartialEq, Eq, Structural)]
pub enum SettingsMenuOption {
    NumberOfDecks,
    NumberOfPlayers,
}

impl SettingsMenuOption {
    /// The label of this entry as the menu shows it.
    pub open spec fn label(self) -> Seq<char> {
        match self {
            SettingsMenuOption::NumberOfDecks => "Number of Decks"@,
            SettingsMenuOption::NumberOfPlayers => "# of Players"@,
        }
    }

    pub fn to_string(&self) -> (s: String)
        ensures
            s@ == self.label(),
    {
        match self {
            SettingsMenuOption::NumberOfDecks => String::from_str("Number of Decks"),
            SettingsMenuOption::NumberOfPlayers => String::from_str("# of Players"),
        }
    }
}

/// The settings entry at a given index.
pub open spec fn settings_option_at(i: int) -> SettingsMenuOption {
    if i == 0 {
        SettingsMenuOption::NumberOfDecks
    } else {
        SettingsMenuOption::NumberOfPlayers
    }
}

/// One saturating step of a settings value: a decrement below 1 is a
/// no-op, as is a step that would leave the value's machine range.
pub open spec fn settings_value_step(v: i8, increment: i8) -> i8 {
    if increment < 0 && v < 2 {
        v
    } else if v + increment > 127 || v + increment < -128 {
        v
    } else {
        (v + increment) as i8
    }
}

/// The settings screen: the active index and the two adjustable values.
#[derive(Clone, Copy, Debug, PartialEq, Eq, Structural)]
pub struct SettingsScreen {
    pub active_menu_index: i8,
    pub number_of_decks_value: i8,
    pub number_of_players_value: i8,
}

/// The screen with its index moved one saturating step.
pub open spec fn settings_moved(s: SettingsScreen, step: int) -> SettingsScreen {
    SettingsScreen {
        active_menu_index: nav_step(s.active_menu_index as int, step, 2) as i8,
        ..s
    }
}

/// The screen with the active entry's value stepped.
pub open spec fn settings_value_moved(s: SettingsScreen, increment: i8) -> SettingsScreen {
    if s.active_menu_index == 0 {
        SettingsScreen {
            number_of_decks_value: settings_value_step(s.number_of_decks_value, increment),
            ..s
        }
    } else {
        SettingsScreen {
            number_of_players_value: settings_value_step(s.number_of_players_value, increment),
            ..s
        }
    }
}

/// What one key event does to the settings screen.  Releases refresh and
/// change nothing; `j`/Down and `k`/Up step the index; `l`/Right and
/// `h`/Left step the active value; `m` returns to the main menu; `q`
/// exits; every other key refreshes and changes nothing.
pub open spec fn settings_step(s: SettingsScreen, ev: KeyEvent) -> (SettingsScreen, ModelResponse) {
    if ev.kind is Release {
        (s, ModelResponse::Refresh)
    } else {
        match ev.code {
            KeyCode::Char(c) => if c == 'q' {
                (s, ModelResponse::Exit)
            } else if c == 'j' {
                (settings_moved(s, 1), ModelResponse::Refresh)
            } else if c == 'k' {
                (settings_moved(s, -1), ModelResponse::Refresh)
            } else if c == 'm' {
                (s, ModelResponse::NavToMainMenu)
            } else if c == 'l' {
                (settings_value_moved(s, 1i8), ModelResponse::Refresh)
            } else if c == 'h' {
                (settings_value_moved(s, -1i8), ModelResponse::Refresh)
            } else {
                (s, ModelResponse::Refresh)
            },
            KeyCode::Down => (settings_moved(s, 1), ModelResponse::Refresh),
            KeyCode::Up => (settings_moved(s, -1), ModelResponse::Refresh),
            KeyCode::Right => (settings_value_moved(s, 1i8), ModelResponse::Refresh),
            KeyCode::Left => (settings_value_moved(s, -1i8), ModelResponse::Refresh),
            _ => (s, ModelResponse::Refresh),
        }
    }
}

/// A freshly constructed settings screen: cursor on the first entry, six
/// decks, one player.
pub open spec fn initial_settings() -> SettingsScreen {
    SettingsScreen {
        active_menu_index: 0i8,
        number_of_decks_value: 6i8,
        number_of_players_value: 1i8,
    }
}

impl SettingsScreen {
    /// The active index stays inside the settings menu.
    pub open spec fn wf(&self) -> bool {
        0 <= self.active_menu_index < 2
    }

    pub fn new() -> (s: SettingsScreen)
        ensures
            s == initial_settings(),
            s.wf(),
    {
        SettingsScreen {
            active_menu_index: 0,
            number_of_decks_value: 6,
            number_of_players_value: 1,
        }
    }

    /// Step the value of the active entry by `increment`, never below 1 by
    /// a decrement and never outside the value's machine range.
    pub fn increment_current_menu_item(&mut self, increment: i8)
        requires
            old(self).wf(),
        ensures
            *final(self) == settings_value_moved(*old(self), increment),
            final(self).wf(),
    {
        if self.active_menu_index == 0 {
            if increment < 0 && self.number_of_decks_value < 2 {
                return;
            }
            let sum: i16 = self.number_of_decks_value as i16 + increment as i16;
            if sum > 127 || sum < -128 {
                return;
            }
            self.number_of_decks_value = sum as i8;
        } else {
            if increment < 0 && self.number_of_players_value < 2 {
                return;
            }
            let sum: i16 = self.number_of_players_value as i16 + increment as i16;
            if sum > 127 || sum < -128 {
                return;
            }
            self.number_of_players_value = sum as i8;
        }
    }

    /// Consume one key event and return the navigation response.
    pub fn update(&mut self, ev: &KeyEvent) -> (r: ModelResponse)
        requires
            old(self).wf(),
        ensures
            *final(self) == settings_step(*old(self), *ev).0,
            r == settings_step(*old(self), *ev).1,
            final(self).wf(),
    {
        if matches!(ev.kind, KeyEventKind::Release) {
            return ModelResponse::Refresh;
        }
        match ev.code {
            KeyCode::Char(c) => {
                if c == 'q' {
                    ModelResponse::Exit
                } else if c == 'j' {
                    self.increment_menu_index(1);
                    ModelResponse::Refresh
                } else if c == 'k' {
                    self.increment_menu_index(-1);
                    ModelResponse::Refresh
                } else if c == 'm' {
                    ModelResponse::NavToMainMenu
                } else if c == 'l' {
                    self.increment_current_menu_item(1);
                    ModelResponse::Refresh
                } else if c == 'h' {
                    self.increment_current_menu_item(-1);
                    ModelResponse::Refresh
                } else {
                    ModelResponse::Refresh
                }
            },
            KeyCode::Down => {
                self.increment_menu_index(1);
                ModelResponse::Refresh
            },
            KeyCode::Up => {
                self.increment_menu_index(-1);
                ModelResponse::Refresh
            },
            KeyCode::Right => {
                self.increment_current_menu_item(1);
                ModelResponse::Refresh
            },
            KeyCode::Left => {
                self.increment_current_menu_item(-1);
                ModelResponse::Refresh
            },
            _ => ModelResponse::Refresh,
        }
    }

    /// The value shown beside the settings entry at index `i`.
    pub open spec fn value_at(&self, i: int) -> i8 {
        if i == 0 {
            self.number_of_decks_value
        } else {
            self.number_of_players_value
        }
    }

    /// The text of the settings body line for item `i`: the label and its
    /// current value, preceded by the cursor marker when the item is
    /// active.
    pub open spec fn settings_line_rep(&self, i: int) -> Seq<char> {
        let marker: Seq<char> = if i == self.active_menu_index as int {
            "> "@
        } else {
            Seq::<char>::empty()
        };
        marker + settings_option_at(i).label() + ": < "@ + signed_dec_rep(self.value_at(i) as int)
            + " >"@
    }

    /// The settings body: one line per entry, the active one marked.
    pub fn render_menu_body(&self) -> (lines: Vec<MenuLine>)
        requires
            self.wf(),
        ensures
            lines@.len() == 2,
            forall|i: int|
                0 <= i < 2 ==> (#[trigger] lines@[i]).text@ == self.settings_line_rep(i)
                    && lines@[i].active == (i == self.active_menu_index as int),
    {
        let mut lines: Vec<MenuLine> = Vec::new();
        let mut i: i8 = 0;
        while i < 2
            invariant
                0 <= i <= 2,
                self.wf(),
                lines@.len() == i as int,
                forall|j: int|
                    0 <= j < i as int ==> (#[trigger] lines@[j]).text@ == self.settings_line_rep(j)
                        && lines@[j].active == (j == self.active_menu_index as int),
            decreases 2 - i as int,
        {
            let item = if i == 0 {
                SettingsMenuOption::NumberOfDecks
            } else {
                SettingsMenuOption::NumberOfPlayers
            };
            let value = if i == 0 {
                self.number_of_decks_value
            } else {
                self.number_of_players_value
            };
            let active = i == self.active_menu_index;
            let mut text = if active {
                String::from_str("> ")
            } else {
                String::new()
            };
            text.append(item.to_string().as_str());
            text.append(": < ");
            text.append(i8_to_string(value).as_str());
            text.append(" >");
            lines.push(MenuLine { text, active });
            i = i + 1;
        }
        lines
    }
}

impl MenuNavigation for SettingsScreen {
    open spec fn menu_len(&self) -> int {
        2
    }

    open spec fn menu_index(&self) -> int {
        self.active_menu_index as int
    }

    open spec fn with_index(&self, index: i8) -> Self {
        SettingsScreen { active_menu_index: index, ..*self }
    }

    fn get_menu_length(&self) -> (l: usize) {
        SETTINGS_ITEM_COUNT
    }

    fn get_menu_index(&self) -> (i: i8) {
        self.active_menu_index
    }

    fn set_menu_index(&mut self, index: i8) {
        self.active_menu_index = index;
    }
}

} // verus!
