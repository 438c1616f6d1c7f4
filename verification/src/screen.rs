//! The polymorphic screen and the main loop's decisions.
//!
//! The main loop owns exactly one screen at a time.  Each iteration it
//! renders, gathers one logical input unit as the screen's input mode
//! asks, hands the event to the screen's update, and interprets the
//! returned navigation response: keep redrawing, replace the screen, or
//! terminate.  A replaced screen is dropped whole; the one constructed for
//! a navigation target always starts from its initial state.

use vstd::prelude::*;
use crate::app::CurrentScreen;
use crate::game_screen::{
    game_input_mode, game_input_mode_spec, game_step, initial_game_screen, EngineAction, GamePhase,
    GameScreen, GameScreenV,
};
use crate::input::{is_release_event, KeyCode, KeyEvent, KeyEventKind};
use crate::menu_screen::{initial_menu, menu_step, MenuScreen};
use crate::model::{InputMode, ModelResponse};
use crate::settings_screen::{initial_settings, settings_step, SettingsScreen};

verus! {

/// A screen for a navigation target whose content is not built yet: it
/// shows its title and offers only the escape keys.
#[derive(Clone, Debug, PartialEq, Eq)]
pub struct PlaceholderScreen {
    pub title: String,
}

/// What one key event does to a placeholder screen: `q` exits, `m`
/// returns to the main menu, everything else — releases included —
/// refreshes; the state never changes.
pub open spec fn placeholder_response(ev: KeyEvent) -> ModelResponse {
    if ev.kind is Release {
        ModelResponse::Refresh
    } else {
        match ev.code {
            KeyCode::Char(c) => if c == 'q' {
                ModelResponse::Exit
            } else if c == 'm' {
                ModelResponse::NavToMainMenu
            } else {
                ModelResponse::Refresh
            },
            _ => ModelResponse::Refresh,
        }
    }
}

impl PlaceholderScreen {
    pub fn new(title: String) -> (s: PlaceholderScreen)
        ensures
            s == (PlaceholderScreen { title }),
    {
        PlaceholderScreen { title }
    }

    /// Consume one key event and return the navigation response.
    pub fn update(&mut self, ev: &KeyEvent) -> (r: ModelResponse)
        ensures
            *final(self) == *old(self),
            r == placeholder_response(*ev),
    {
        if matches!(ev.kind, KeyEventKind::Release) {
            return ModelResponse::Refresh;
        }
        match ev.code {
            KeyCode::Char(c) => {
                if c == 'q' {
                    ModelResponse::Exit
                } else if c == 'm' {
                    ModelResponse::NavToMainMenu
                } else {
                    ModelResponse::Refresh
                }
            },
            _ => ModelResponse::Refresh,
        }
    }
}

/// The one active screen, as the main loop owns it.
#[derive(Clone, Debug, PartialEq, Eq)]
pub enum Screen {
    Menu(MenuScreen),
    Settings(SettingsScreen),
    Game(GameScreen),
    Placeholder(PlaceholderScreen),
}

impl Screen {
    pub open spec fn wf(&self) -> bool {
        match self {
            Screen::Menu(m) => m.wf(),
            Screen::Settings(s) => s.wf(),
            Screen::Game(_) => true,
            Screen::Placeholder(_) => true,
        }
    }

    /// How this screen gathers its next input unit.  Only the game screen
    /// varies, and it re-derives the answer from the fresh phase snapshot.
    pub fn input_mode(&self, phase: Option<&GamePhase>) -> (m: InputMode)
        requires
            (*self) is Game ==> phase is Some,
        ensures
            (*self) is Game ==> (phase matches Some(p) ==> m == game_input_mode_spec(*p)),
            !((*self) is Game) ==> m == InputMode::Blocking,
    {
        match self {
            Screen::Game(_) => game_input_mode(phase.unwrap()),
            _ => InputMode::Blocking,
        }
    }

    /// Consume one logical input unit — a key event, or a timed poll that
    /// produced none — and return the navigation response together with
    /// the engine call to perform.  A release-kind event always refreshes
    /// and leaves every screen unchanged.
    pub fn update(&mut self, phase: Option<&GamePhase>, ev: Option<KeyEvent>) -> (r: (
        ModelResponse,
        EngineAction,
    ))
        requires
            old(self).wf(),
            (*old(self)) is Game ==> phase is Some,
        ensures
            final(self).wf(),
            is_release_event(ev) ==> *final(self) == *old(self) && r == (
                ModelResponse::Refresh,
                EngineAction::Idle,
            ),
            *old(self) matches Screen::Menu(m) ==> (ev matches Some(e) ==> *final(self)
                == Screen::Menu(menu_step(m, e).0) && r == (menu_step(m, e).1, EngineAction::Idle)),
            *old(self) matches Screen::Settings(s) ==> (ev matches Some(e) ==> *final(self)
                == Screen::Settings(settings_step(s, e).0) && r == (
                settings_step(s, e).1,
                EngineAction::Idle,
            )),
            *old(self) matches Screen::Placeholder(p) ==> (ev matches Some(e) ==> *final(self)
                == *old(self) && r == (placeholder_response(e), EngineAction::Idle)),
            *old(self) matches Screen::Game(g) ==> (phase matches Some(ph) ==> (*final(self) matches
                Screen::Game(g2) && g2@ == game_step(g@, *ph, ev).0 && r == (
                game_step(g@, *ph, ev).1,
                game_step(g@, *ph, ev).2,
            ))),
            !((*old(self)) is Game) && ev is None ==> *final(self) == *old(self) && r == (
                ModelResponse::Refresh,
                EngineAction::Idle,
            ),
    {
        match self {
            Screen::Menu(m) => match ev {
                Some(e) => (m.update(&e), EngineAction::Idle),
                None => (ModelResponse::Refresh, EngineAction::Idle),
            },
            Screen::Settings(s) => match ev {
                Some(e) => (s.update(&e), EngineAction::Idle),
                None => (ModelResponse::Refresh, EngineAction::Idle),
            },
            Screen::Placeholder(p) => match ev {
                Some(e) => (p.update(&e), EngineAction::Idle),
                None => (ModelResponse::Refresh, EngineAction::Idle),
            },
            Screen::Game(g) => g.update(phase.unwrap(), ev),
        }
    }

    /// The fresh screen for a navigation target.  Whatever the target, the
    /// screen starts from its initial state; in particular the main menu's
    /// active index is reset to the first entry.
    pub fn screen_for(target: CurrentScreen) -> (s: Screen)
        ensures
            s.wf(),
            target is Menu ==> s == Screen::Menu(initial_menu()),
            target is Settings ==> s == Screen::Settings(initial_settings()),
            target is Play ==> (s matches Screen::Game(g) && g@ == initial_game_screen()),
            target is Tutorial ==> (s matches Screen::Placeholder(p) && p.title@ == "Tutorial"@),
            target is HighScores ==> (s matches Screen::Placeholder(p) && p.title@
                == "High Scores"@),
    {
        match target {
            CurrentScreen::Menu => Screen::Menu(MenuScreen::new()),
            CurrentScreen::Settings => Screen::Settings(SettingsScreen::new()),
            CurrentScreen::Play => Screen::Game(GameScreen::new()),
            CurrentScreen::Tutorial => Screen::Placeholder(
                PlaceholderScreen::new(String::from_str("Tutorial")),
            ),
            CurrentScreen::HighScores => Screen::Placeholder(
                PlaceholderScreen::new(String::from_str("High Scores")),
            ),
        }
    }
}

/// What the main loop does with a navigation response.
#[derive(Clone, Copy, Debug, PartialEq, Eq, Structural)]
pub enum LoopDirective {
    /// Redraw and run another cycle with the same screen.
    Redraw,
    /// Terminate the application with success.
    Terminate,
    /// Drop the current screen and construct the one for this target.
    Switch(CurrentScreen),
}

/// The main loop's reading of a navigation response.  Anything it does not
/// recognize as an exit or a switch — including a plain refresh — means
/// another cycle with the same screen.
pub open spec fn route_spec(r: ModelResponse) -> LoopDirective {
    match r {
        ModelResponse::Exit => LoopDirective::Terminate,
        ModelResponse::NavToMainMenu => LoopDirective::Switch(CurrentScreen::Menu),
        ModelResponse::NavToGame => LoopDirective::Switch(CurrentScreen::Play),
        ModelResponse::NavToSettings => LoopDirective::Switch(CurrentScreen::Settings),
        ModelResponse::NavToTutorial => LoopDirective::Switch(CurrentScreen::Tutorial),
        ModelResponse::NavToHighScores => LoopDirective::Switch(CurrentScreen::HighScores),
        _ => LoopDirective::Redraw,
    }
}

/// See `route_spec`.
pub fn route(r: &ModelResponse) -> (d: LoopDirective)
    ensures
        d == route_spec(*r),
{
    match r {
        ModelResponse::Exit => LoopDirective::Terminate,
        ModelResponse::NavToMainMenu => LoopDirective::Switch(CurrentScreen::Menu),
        ModelResponse::NavToGame => LoopDirective::Switch(CurrentScreen::Play),
        ModelResponse::NavToSettings => LoopDirective::Switch(CurrentScreen::Settings),
        ModelResponse::NavToTutorial => LoopDirective::Switch(CurrentScreen::Tutorial),
        ModelResponse::NavToHighScores => LoopDirective::Switch(CurrentScreen::HighScores),
        _ => LoopDirective::Redraw,
    }
}

/// Law: a release-kind key event yields a refresh and changes nothing, on
/// every screen and in every phase.
pub proof fn lemma_release_refreshes(
    menu: MenuScreen,
    settings: SettingsScreen,
    g: GameScreenV,
    phase: GamePhase,
    ev: KeyEvent,
)
    requires
        ev.kind is Release,
    ensures
        menu_step(menu, ev) == (menu, ModelResponse::Refresh),
        settings_step(settings, ev) == (settings, ModelResponse::Refresh),
        game_step(g, phase, Some(ev)) == (g, ModelResponse::Refresh, EngineAction::Idle),
        placeholder_response(ev) == ModelResponse::Refresh,
{
}

/// Law: leaving the settings screen for the main menu with the `m` key
/// always lands on a menu whose active index is reset to the first entry,
/// whatever the settings screen's own cursor held.
pub proof fn lemma_menu_return_resets_index(s: SettingsScreen, ev: KeyEvent)
    requires
        ev.kind is Press,
        ev.code == KeyCode::Char('m'),
    ensures
        settings_step(s, ev) == (s, ModelResponse::NavToMainMenu),
        route_spec(ModelResponse::NavToMainMenu) == LoopDirective::Switch(CurrentScreen::Menu),
        initial_menu().active_menu_index == 0,
{
}

} // verus!
