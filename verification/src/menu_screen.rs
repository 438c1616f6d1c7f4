//! The main menu screen: a bounded list of navigation targets.

use vstd::prelude::*;
use crate::input::{KeyCode, KeyEvent, KeyEventKind};
use crate::model::ModelResponse;
use crate::navigation::{nav_step, MenuNavigation};
use crate::ui::MenuLine;

verus! {

/// The number of entries of the main menu.
pub const MAIN_MENU_ITEM_COUNT: usize = 5;

/// The entries of the main menu, in display order.
#[derive(Clone, Copy, Debug, PartialEq, Eq, Structural)]
pub enum MainMenuOption {
    Play,
    Continue,
    Tutorial,
    HighScores,
    Settings,
}

impl MainMenuOption {
    /// The label of this entry as the menu shows it.
    pub open spec fn label(self) -> Seq<char> {
        match self {
            MainMenuOption::Play => "Play"@,
            MainMenuOption::Continue => "Continue"@,
            MainMenuOption::Tutorial => "Tutorial"@,
            MainMenuOption::HighScores => "High Scores"@,
            MainMenuOption::Settings => "Settings"@,
        }
    }

    pub fn to_string(&self) -> (s: String)
        ensures
            s@ == self.label(),
    {
        match self {
            MainMenuOption::Play => String::from_str("Play"),
            MainMenuOption::Continue => String::from_str("Continue"),
            MainMenuOption::Tutorial => String::from_str("Tutorial"),
            MainMenuOption::HighScores => String::from_str("High Scores"),
            MainMenuOption::Settings => String::from_str("Settings"),
        }
    }
}

/// The main menu entry at a given index.
pub open spec fn main_menu_option_at(i: int) -> MainMenuOption {
    if i == 0 {
        MainMenuOption::Play
    } else if i == 1 {
        MainMenuOption::Continue
    } else if i == 2 {
        MainMenuOption::Tutorial
    } else if i == 3 {
        MainMenuOption::HighScores
    } else {
        MainMenuOption::Settings
    }
}

/// The main menu entry at a given index, as executable code reads it.
pub fn main_menu_item(i: i8) -> (o: MainMenuOption)
    requires
        0 <= i < 5,
    ensures
        o == main_menu_option_at(i as int),
{
    if i == 0 {
        MainMenuOption::Play
    } else if i == 1 {
        MainMenuOption::Continue
    } else if i == 2 {
        MainMenuOption::Tutorial
    } else if i == 3 {
        MainMenuOption::HighScores
    } else {
        MainMenuOption::Settings
    }
}

/// The navigation response confirming the main menu entry at index `i`.
pub open spec fn main_menu_target(i: int) -> ModelResponse {
    match main_menu_option_at(i) {
        MainMenuOption::Play => ModelResponse::NavToGame,
        MainMenuOption::Continue => ModelResponse::NavToGame,
        MainMenuOption::Tutorial => ModelResponse::NavToTutorial,
        MainMenuOption::HighScores => ModelResponse::NavToHighScores,
        MainMenuOption::Settings => ModelResponse::NavToSettings,
    }
}

/// The main menu screen: its whole state is the active index.
#[derive(Clone, Debug, PartialEq, Eq)]
pub struct MenuScreen {
    pub active_menu_index: i8,
}

/// A freshly constructed main menu: the cursor stands on the first entry.
pub open spec fn initial_menu() -> MenuScreen {
    MenuScreen { active_menu_index: 0i8 }
}

/// What one key event does to the menu: the screen afterwards and the
/// response returned.  Releases refresh and change nothing; `j`/Down and
/// `k`/Up step the index with saturation; Enter confirms the active entry;
/// `q` exits; every other key refreshes and changes nothing.
pub open spec fn menu_step(s: MenuScreen, ev: KeyEvent) -> (MenuScreen, ModelResponse) {
    if ev.kind is Release {
        (s, ModelResponse::Refresh)
    } else {
        match ev.code {
            KeyCode::Char(c) => if c == 'q' {
                (s, ModelResponse::Exit)
            } else if c == 'j' {
                (menu_moved(s, 1), ModelResponse::Refresh)
            } else if c == 'k' {
                (menu_moved(s, -1), ModelResponse::Refresh)
            } else {
                (s, ModelResponse::Refresh)
            },
            KeyCode::Down => (menu_moved(s, 1), ModelResponse::Refresh),
            KeyCode::Up => (menu_moved(s, -1), ModelResponse::Refresh),
            KeyCode::Enter => (s, main_menu_target(s.active_menu_index as int)),
            _ => (s, ModelResponse::Refresh),
        }
    }
}

/// The menu with its index moved one saturating step.
pub open spec fn menu_moved(s: MenuScreen, step: int) -> MenuScreen {
    MenuScreen { active_menu_index: nav_step(s.active_menu_index as int, step, 5) as i8 }
}

impl MenuScreen {
    /// The active index stays inside the menu.
    pub open spec fn wf(&self) -> bool {
        0 <= self.active_menu_index < 5
    }

    pub fn new() -> (s: MenuScreen)
        ensures
            s == initial_menu(),
            s.wf(),
    {
        MenuScreen { active_menu_index: 0 }
    }

    /// Consume one key event and return the navigation response.
    pub fn update(&mut self, ev: &KeyEvent) -> (r: ModelResponse)
        requires
            old(self).wf(),
        ensures
            *final(self) == menu_step(*old(self), *ev).0,
            r == menu_step(*old(self), *ev).1,
            final(self).wf(),
    {
        if matches!(ev.kind, KeyEventKind::Release) {
            return ModelResponse::Refresh;
        }
        match ev.code {
            KeyCode::Char(c) => {
                if c == 'q' {
                    ModelResponse::Exit
                } else if c == 'j' {
                    self.increment_menu_index(1);
                    ModelResponse::Refresh
                } else if c == 'k' {
                    self.increment_menu_index(-1);
                    ModelResponse::Refresh
                } else {
                    ModelResponse::Refresh
                }
            },
            KeyCode::Down => {
                self.increment_menu_index(1);
                ModelResponse::Refresh
            },
            KeyCode::Up => {
                self.increment_menu_index(-1);
                ModelResponse::Refresh
            },
            KeyCode::Enter => {
                match main_menu_item(self.active_menu_index) {
                    MainMenuOption::Play => ModelResponse::NavToGame,
                    MainMenuOption::Continue => ModelResponse::NavToGame,
                    MainMenuOption::Tutorial => ModelResponse::NavToTutorial,
                    MainMenuOption::HighScores => ModelResponse::NavToHighScores,
                    MainMenuOption::Settings => ModelResponse::NavToSettings,
                }
            },
            _ => ModelResponse::Refresh,
        }
    }

    /// The text of the menu body line for item `i`: the label, preceded by
    /// the cursor marker when the item is active.
    pub open spec fn menu_line_rep(&self, i: int) -> Seq<char> {
        if i == self.active_menu_index as int {
            "> "@ + main_menu_option_at(i).label()
        } else {
            main_menu_option_at(i).label()
        }
    }

    /// The menu body: one line per entry, the active one marked.
    pub fn render_menu_body(&self) -> (lines: Vec<MenuLine>)
        requires
            self.wf(),
        ensures
            lines@.len() == 5,
            forall|i: int|
                0 <= i < 5 ==> (#[trigger] lines@[i]).text@ == self.menu_line_rep(i)
                    && lines@[i].active == (i == self.active_menu_index as int),
    {
        let mut lines: Vec<MenuLine> = Vec::new();
        let mut i: i8 = 0;
        while i < 5
            invariant
                0 <= i <= 5,
                self.wf(),
                lines@.len() == i as int,
                forall|j: int|
                    0 <= j < i as int ==> (#[trigger] lines@[j]).text@ == self.menu_line_rep(j)
                        && lines@[j].active == (j == self.active_menu_index as int),
            decreases 5 - i as int,
        {
            let item = main_menu_item(i);
            let active = i == self.active_menu_index;
            let mut text = if active {
                String::from_str("> ")
            } else {
                String::new()
            };
            text.append(item.to_string().as_str());
            lines.push(MenuLine { text, active });
            i = i + 1;
        }
        lines
    }
}

impl MenuNavigation for MenuScreen {
    open spec fn menu_len(&self) -> int {
        5
    }

    open spec fn menu_index(&self) -> int {
        self.active_menu_index as int
    }

    open spec fn with_index(&self, index: i8) -> Self {
        MenuScreen { active_menu_index: index }
    }

    fn get_menu_length(&self) -> (l: usize) {
        MAIN_MENU_ITEM_COUNT
    }

    fn get_menu_index(&self) -> (i: i8) {
        self.active_menu_index
    }

    fn set_menu_index(&mut self, index: i8) {
        self.active_menu_index = index;
    }
}

} // verus!
