use blackjack_tui::game_screen::{GamePhase, GameScreen, HandLabel};
use blackjack_tui::input::{KeyCode, KeyEvent};
use blackjack_tui::numerals::{i8_to_string, u64_to_string};
use blackjack_tui::settings_screen::SettingsScreen;
use blackjack_tui::menu_screen::MenuScreen;
use blackjack_tui::ui::render_footer_spans;

fn hand(cards: &str, outcome: Option<&str>) -> HandLabel {
    HandLabel { cards: String::from(cards), outcome: outcome.map(String::from) }
}

#[test]
fn numerals_render_exactly() {
    assert_eq!(u64_to_string(0), "0");
    assert_eq!(u64_to_string(7), "7");
    assert_eq!(u64_to_string(1234), "1234");
    assert_eq!(u64_to_string(1000000), "1000000");
    assert_eq!(i8_to_string(6), "6");
    assert_eq!(i8_to_string(-5), "-5");
    assert_eq!(i8_to_string(-128), "-128");
    assert_eq!(i8_to_string(127), "127");
}

#[test]
fn active_hand_indicator_follows_the_active_index() {
    let screen = GameScreen::new();
    let hands = vec![hand("A♠ K♦", None), hand("7♣ 7♥", None)];
    let phase = GamePhase::PlayerTurn { hands, active_hand_index: 1 };
    let lines = screen.render_player_hands(&phase);
    assert_eq!(lines.len(), 2);
    assert_eq!(lines[0], "Cards A♠ K♦");
    assert_eq!(lines[1], "Cards 7♣ 7♥ <");
}

#[test]
fn indicator_disappears_once_the_round_advances() {
    let screen = GameScreen::new();
    let hands = vec![hand("A♠ K♦", Some("Win")), hand("7♣ 7♥", Some("Bust"))];
    let complete = GamePhase::RoundComplete { hands: hands.clone() };
    let lines = screen.render_player_hands(&complete);
    assert_eq!(lines.len(), 2);
    assert_eq!(lines[0], "Cards A♠ K♦ - Win");
    assert_eq!(lines[1], "Cards 7♣ 7♥ - Bust");
    let dealer = GamePhase::DealerTurn { hands };
    let lines = screen.render_player_hands(&dealer);
    assert_eq!(lines[0], "Cards A♠ K♦ - Win");
    assert_eq!(lines[1], "Cards 7♣ 7♥ - Bust");
}

#[test]
fn empty_hands_render_a_placeholder_line() {
    let screen = GameScreen::new();
    let phase = GamePhase::PlayerTurn { hands: vec![], active_hand_index: 0 };
    let lines = screen.render_player_hands(&phase);
    assert_eq!(lines, vec![String::from("No Cards")]);
}

#[test]
fn bet_entry_line_shows_prompt_digits_and_cursor() {
    let mut screen = GameScreen::new();
    let phase = GamePhase::WaitingForBet { bankroll: 100 };
    let lines = screen.render_player_hands(&phase);
    assert_eq!(lines, vec![String::from("BET: $█")]);
    screen.handle_waiting_for_bet(100, Some(KeyEvent::press(KeyCode::Char('5'))));
    screen.handle_waiting_for_bet(100, Some(KeyEvent::press(KeyCode::Char('0'))));
    let lines = screen.render_player_hands(&phase);
    assert_eq!(lines, vec![String::from("BET: $50█")]);
    screen.handle_waiting_for_bet(100, None);
    let lines = screen.render_player_hands(&phase);
    assert_eq!(lines, vec![String::from("BET: $50 ")]);
}

#[test]
fn dealing_phase_renders_no_player_lines() {
    let screen = GameScreen::new();
    let phase = GamePhase::WaitingToDeal { bet: 50, bankroll: 100 };
    let lines = screen.render_player_hands(&phase);
    assert!(lines.is_empty());
}

#[test]
fn dealer_and_player_sections_render_their_texts() {
    let mut screen = GameScreen::new();
    let (title, message) = screen.render_dealer_section();
    assert_eq!(title, " Dealer ");
    assert_eq!(message, "PLACE YOUR BET");
    screen.user_bet = 50;
    screen.bankroll = 200;
    let (title, bet, bank) = screen.render_player_section();
    assert_eq!(title, " Jack ");
    assert_eq!(bet, " Bet: $50 ");
    assert_eq!(bank, " Bank: $200 ");
}

#[test]
fn menu_body_marks_only_the_active_line() {
    let mut menu = MenuScreen::new();
    let lines = menu.render_menu_body();
    assert_eq!(lines.len(), 5);
    assert_eq!(lines[0].text, "> Play");
    assert!(lines[0].active);
    assert_eq!(lines[1].text, "Continue");
    assert!(!lines[1].active);
    menu.update(&KeyEvent::press(KeyCode::Down));
    let lines = menu.render_menu_body();
    assert_eq!(lines[0].text, "Play");
    assert!(!lines[0].active);
    assert_eq!(lines[1].text, "> Continue");
    assert!(lines[1].active);
}

#[test]
fn settings_body_shows_labels_and_values() {
    let settings = SettingsScreen::new();
    let lines = settings.render_menu_body();
    assert_eq!(lines.len(), 2);
    assert_eq!(lines[0].text, "> Number of Decks: < 6 >");
    assert!(lines[0].active);
    assert_eq!(lines[1].text, "# of Players: < 1 >");
    assert!(!lines[1].active);
}

#[test]
fn settings_body_tracks_value_changes() {
    let mut settings = SettingsScreen::new();
    settings.update(&KeyEvent::press(KeyCode::Char('l')));
    let lines = settings.render_menu_body();
    assert_eq!(lines[0].text, "> Number of Decks: < 7 >");
}

#[test]
fn footer_spans_list_the_global_keys() {
    let spans = render_footer_spans();
    assert_eq!(spans, vec![
        String::from(" Q "),
        String::from(" Quit "),
        String::from(" M "),
        String::from(" Menu "),
    ]);
}

#[test]
fn identical_state_renders_identical_frames() {
    let screen = GameScreen::new();
    let hands = vec![hand("A♠", None)];
    let phase = GamePhase::PlayerTurn { hands, active_hand_index: 0 };
    let first = screen.render_player_hands(&phase);
    let second = screen.render_player_hands(&phase);
    assert_eq!(first, second);
}
