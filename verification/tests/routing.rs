use blackjack_tui::app::CurrentScreen;
use blackjack_tui::game_screen::{EngineAction, GamePhase};
use blackjack_tui::input::{KeyCode, KeyEvent};
use blackjack_tui::model::{InputMode, ModelResponse};
use blackjack_tui::navigation::MenuNavigation;
use blackjack_tui::screen::{route, LoopDirective, PlaceholderScreen, Screen};
use blackjack_tui::settings_screen::SettingsScreen;

#[test]
fn responses_route_to_the_loop_directives() {
    assert_eq!(route(&ModelResponse::Exit), LoopDirective::Terminate);
    assert_eq!(route(&ModelResponse::Refresh), LoopDirective::Redraw);
    assert_eq!(route(&ModelResponse::NoOp), LoopDirective::Redraw);
    assert_eq!(route(&ModelResponse::QuitGame), LoopDirective::Redraw);
    assert_eq!(
        route(&ModelResponse::NavToMainMenu),
        LoopDirective::Switch(CurrentScreen::Menu)
    );
    assert_eq!(route(&ModelResponse::NavToGame), LoopDirective::Switch(CurrentScreen::Play));
    assert_eq!(
        route(&ModelResponse::NavToSettings),
        LoopDirective::Switch(CurrentScreen::Settings)
    );
    assert_eq!(
        route(&ModelResponse::NavToTutorial),
        LoopDirective::Switch(CurrentScreen::Tutorial)
    );
    assert_eq!(
        route(&ModelResponse::NavToHighScores),
        LoopDirective::Switch(CurrentScreen::HighScores)
    );
}

#[test]
fn settings_menu_key_returns_to_a_reset_main_menu() {
    let mut settings = SettingsScreen::new();
    settings.increment_menu_index(1);
    let response = settings.update(&KeyEvent::press(KeyCode::Char('m')));
    assert_eq!(response, ModelResponse::NavToMainMenu);
    match route(&response) {
        LoopDirective::Switch(target) => {
            assert_eq!(target, CurrentScreen::Menu);
            match Screen::screen_for(target) {
                Screen::Menu(menu) => assert_eq!(menu.get_menu_index(), 0),
                other => panic!("expected the menu screen, got {other:?}"),
            }
        },
        other => panic!("expected a screen switch, got {other:?}"),
    }
}

#[test]
fn every_screen_treats_a_release_as_a_refresh() {
    let release = Some(KeyEvent::release(KeyCode::Char('q')));
    let phase = GamePhase::WaitingForBet { bankroll: 10 };

    let mut screen = Screen::screen_for(CurrentScreen::Menu);
    let before = screen.clone();
    assert_eq!(
        screen.update(None, release),
        (ModelResponse::Refresh, EngineAction::Idle)
    );
    assert_eq!(screen, before);

    let mut screen = Screen::screen_for(CurrentScreen::Settings);
    let before = screen.clone();
    assert_eq!(
        screen.update(None, release),
        (ModelResponse::Refresh, EngineAction::Idle)
    );
    assert_eq!(screen, before);

    let mut screen = Screen::screen_for(CurrentScreen::Tutorial);
    let before = screen.clone();
    assert_eq!(
        screen.update(None, release),
        (ModelResponse::Refresh, EngineAction::Idle)
    );
    assert_eq!(screen, before);

    let mut screen = Screen::screen_for(CurrentScreen::Play);
    let before = screen.clone();
    assert_eq!(
        screen.update(Some(&phase), release),
        (ModelResponse::Refresh, EngineAction::Idle)
    );
    assert_eq!(screen, before);
}

#[test]
fn screen_for_builds_each_target_fresh() {
    match Screen::screen_for(CurrentScreen::Play) {
        Screen::Game(game) => {
            assert_eq!(game.user_bet, 0);
            assert_eq!(game.dealer_message, "PLACE YOUR BET");
            assert!(game.cursor_visible);
        },
        other => panic!("expected the game screen, got {other:?}"),
    }
    match Screen::screen_for(CurrentScreen::Tutorial) {
        Screen::Placeholder(p) => assert_eq!(p.title, "Tutorial"),
        other => panic!("expected a placeholder screen, got {other:?}"),
    }
    match Screen::screen_for(CurrentScreen::HighScores) {
        Screen::Placeholder(p) => assert_eq!(p.title, "High Scores"),
        other => panic!("expected a placeholder screen, got {other:?}"),
    }
}

#[test]
fn placeholder_offers_the_escape_keys() {
    let mut screen = PlaceholderScreen::new(String::from("Tutorial"));
    assert_eq!(screen.update(&KeyEvent::press(KeyCode::Char('q'))), ModelResponse::Exit);
    assert_eq!(
        screen.update(&KeyEvent::press(KeyCode::Char('m'))),
        ModelResponse::NavToMainMenu
    );
    assert_eq!(screen.update(&KeyEvent::press(KeyCode::Char('x'))), ModelResponse::Refresh);
    assert_eq!(screen.title, "Tutorial");
}

#[test]
fn input_modes_follow_the_phase() {
    let menu = Screen::screen_for(CurrentScreen::Menu);
    assert_eq!(menu.input_mode(None), InputMode::Blocking);
    let game = Screen::screen_for(CurrentScreen::Play);
    assert_eq!(
        game.input_mode(Some(&GamePhase::WaitingForBet { bankroll: 0 })),
        InputMode::Timed(500)
    );
    assert_eq!(
        game.input_mode(Some(&GamePhase::WaitingToDeal { bet: 1, bankroll: 0 })),
        InputMode::Immediate
    );
    assert_eq!(
        game.input_mode(Some(&GamePhase::DealerTurn { hands: vec![] })),
        InputMode::Blocking
    );
}

#[test]
fn game_screen_update_through_the_screen_union() {
    let mut screen = Screen::screen_for(CurrentScreen::Play);
    let phase = GamePhase::WaitingForBet { bankroll: 30 };
    let five = Some(KeyEvent::press(KeyCode::Char('5')));
    assert_eq!(
        screen.update(Some(&phase), five),
        (ModelResponse::Refresh, EngineAction::Idle)
    );
    let enter = Some(KeyEvent::press(KeyCode::Enter));
    assert_eq!(
        screen.update(Some(&phase), enter),
        (ModelResponse::Refresh, EngineAction::AcceptBet(5))
    );
}
