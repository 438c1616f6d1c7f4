use blackjack_tui::app::{App, CurrentScreen};
use blackjack_tui::input::{KeyCode, KeyEvent};
use blackjack_tui::menu_screen::{MainMenuOption, MenuScreen};
use blackjack_tui::model::ModelResponse;
use blackjack_tui::navigation::MenuNavigation;
use blackjack_tui::settings_screen::{SettingsMenuOption, SettingsScreen};

#[test]
fn menu_decrements_saturate_at_zero() {
    let mut menu = MenuScreen::new();
    assert_eq!(menu.get_menu_index(), 0);
    for _ in 0..10 {
        menu.increment_menu_index(-1);
        assert_eq!(menu.get_menu_index(), 0);
    }
}

#[test]
fn menu_increments_saturate_at_last_index() {
    let mut menu = MenuScreen::new();
    for _ in 0..10 {
        menu.increment_menu_index(1);
        assert!(menu.get_menu_index() <= 4);
    }
    assert_eq!(menu.get_menu_index(), 4);
}

#[test]
fn menu_index_stays_in_bounds_from_any_start() {
    for start in 0..5i8 {
        let mut menu = MenuScreen::new();
        menu.set_menu_index(start);
        for step in [1i8, -1, 1, 1, -1, -1, -1, 1] {
            menu.increment_menu_index(step);
            assert!(menu.get_menu_index() >= 0);
            assert!(menu.get_menu_index() < 5);
        }
    }
}

#[test]
fn settings_menu_saturates_both_ways() {
    let mut settings = SettingsScreen::new();
    settings.increment_menu_index(-1);
    assert_eq!(settings.get_menu_index(), 0);
    settings.increment_menu_index(1);
    assert_eq!(settings.get_menu_index(), 1);
    settings.increment_menu_index(1);
    assert_eq!(settings.get_menu_index(), 1);
}

#[test]
fn menu_scenario_down_down_enter_reaches_third_entry() {
    let mut menu = MenuScreen::new();
    let down = KeyEvent::press(KeyCode::Down);
    assert_eq!(menu.update(&down), ModelResponse::Refresh);
    assert_eq!(menu.update(&down), ModelResponse::Refresh);
    let enter = KeyEvent::press(KeyCode::Enter);
    assert_eq!(menu.update(&enter), ModelResponse::NavToTutorial);
}

#[test]
fn menu_enter_maps_each_index_to_its_target() {
    let expected = [
        ModelResponse::NavToGame,
        ModelResponse::NavToGame,
        ModelResponse::NavToTutorial,
        ModelResponse::NavToHighScores,
        ModelResponse::NavToSettings,
    ];
    for (i, want) in expected.iter().enumerate() {
        let mut menu = MenuScreen::new();
        menu.set_menu_index(i as i8);
        let got = menu.update(&KeyEvent::press(KeyCode::Enter));
        assert_eq!(got, *want);
    }
}

#[test]
fn menu_vim_keys_move_the_cursor() {
    let mut menu = MenuScreen::new();
    assert_eq!(menu.update(&KeyEvent::press(KeyCode::Char('j'))), ModelResponse::Refresh);
    assert_eq!(menu.get_menu_index(), 1);
    assert_eq!(menu.update(&KeyEvent::press(KeyCode::Char('k'))), ModelResponse::Refresh);
    assert_eq!(menu.get_menu_index(), 0);
}

#[test]
fn menu_quit_key_exits() {
    let mut menu = MenuScreen::new();
    assert_eq!(menu.update(&KeyEvent::press(KeyCode::Char('q'))), ModelResponse::Exit);
}

#[test]
fn menu_unmapped_key_refreshes_without_change() {
    let mut menu = MenuScreen::new();
    let before = menu.clone();
    assert_eq!(menu.update(&KeyEvent::press(KeyCode::Char('x'))), ModelResponse::Refresh);
    assert_eq!(menu, before);
}

#[test]
fn main_menu_labels() {
    assert_eq!(MainMenuOption::Play.to_string(), "Play");
    assert_eq!(MainMenuOption::Continue.to_string(), "Continue");
    assert_eq!(MainMenuOption::Tutorial.to_string(), "Tutorial");
    assert_eq!(MainMenuOption::HighScores.to_string(), "High Scores");
    assert_eq!(MainMenuOption::Settings.to_string(), "Settings");
}

#[test]
fn settings_labels() {
    assert_eq!(SettingsMenuOption::NumberOfDecks.to_string(), "Number of Decks");
    assert_eq!(SettingsMenuOption::NumberOfPlayers.to_string(), "# of Players");
}

#[test]
fn settings_value_never_drops_below_one() {
    let mut settings = SettingsScreen::new();
    settings.increment_menu_index(1);
    assert_eq!(settings.number_of_players_value, 1);
    settings.increment_current_menu_item(-1);
    assert_eq!(settings.number_of_players_value, 1);
    settings.increment_current_menu_item(1);
    assert_eq!(settings.number_of_players_value, 2);
    settings.increment_current_menu_item(-1);
    assert_eq!(settings.number_of_players_value, 1);
}

#[test]
fn settings_value_saturates_at_the_machine_bound() {
    let mut settings = SettingsScreen::new();
    settings.number_of_decks_value = 127;
    settings.increment_current_menu_item(1);
    assert_eq!(settings.number_of_decks_value, 127);
}

#[test]
fn settings_arrow_keys_step_the_active_value() {
    let mut settings = SettingsScreen::new();
    assert_eq!(
        settings.update(&KeyEvent::press(KeyCode::Right)),
        ModelResponse::Refresh
    );
    assert_eq!(settings.number_of_decks_value, 7);
    assert_eq!(
        settings.update(&KeyEvent::press(KeyCode::Char('h'))),
        ModelResponse::Refresh
    );
    assert_eq!(settings.number_of_decks_value, 6);
}

#[test]
fn app_new_starts_on_menu() {
    let app = App::new();
    assert_eq!(app.current_screen, CurrentScreen::Menu);
    assert_eq!(app.active_menu_index, 0);
}

#[test]
fn app_increment_clamps_to_menu_bounds() {
    let mut app = App::new();
    app.increment_active_menu_index(-1);
    assert_eq!(app.active_menu_index, 0);
    app.increment_active_menu_index(3);
    assert_eq!(app.active_menu_index, 3);
    app.increment_active_menu_index(5);
    assert_eq!(app.active_menu_index, 4);
}

#[test]
fn app_set_current_screen_resets_index() {
    let mut app = App::new();
    app.increment_active_menu_index(2);
    app.set_current_screen(CurrentScreen::Settings);
    assert_eq!(app.current_screen, CurrentScreen::Settings);
    assert_eq!(app.active_menu_index, 0);
}

#[test]
fn app_determine_current_screen_follows_the_menu() {
    let expected = [
        CurrentScreen::Play,
        CurrentScreen::Menu,
        CurrentScreen::Tutorial,
        CurrentScreen::HighScores,
        CurrentScreen::Settings,
    ];
    for (i, want) in expected.iter().enumerate() {
        let mut app = App::new();
        app.increment_active_menu_index(i as i8);
        app.determine_current_screen();
        assert_eq!(app.current_screen, *want);
    }
}
