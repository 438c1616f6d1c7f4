//! The game screen: bridges the engine's turn-based phase machine to
//! terminal input and rendering without implementing any game rules.
//!
//! Each update cycle takes a fresh phase snapshot — the screen never caches
//! a mode of its own — together with at most one key event, and returns the
//! navigation response plus the engine call the surrounding loop must
//! perform.  The engine itself stays outside the library; it is modeled
//! here only by the plain values the screen reads from it.

use vstd::prelude::*;
use crate::input::{digit_value, is_digit_key, is_release_event, KeyCode, KeyEvent, KeyEventKind};
use crate::model::{InputMode, ModelResponse};
use crate::numerals::{dec_rep, u64_to_string};

verus! {

/// One hand as the screen renders it: the card summary the engine reports
/// and, once the hand is settled, its outcome label.
#[derive(Clone, Debug, PartialEq, Eq)]
pub struct HandLabel {
    pub cards: String,
    pub outcome: Option<String>,
}

/// The engine's phase snapshot, read fresh every update cycle.
#[derive(Clone, Debug, PartialEq, Eq)]
pub enum GamePhase {
    /// The engine waits for a bet; it reports the player's bankroll.
    WaitingForBet { bankroll: u64 },
    /// A bet is committed; the engine is ready to deal.
    WaitingToDeal { bet: u64, bankroll: u64 },
    /// The player acts on the hand at `active_hand_index`.
    PlayerTurn { hands: Vec<HandLabel>, active_hand_index: usize },
    /// The dealer resolves; the player only watches.
    DealerTurn { hands: Vec<HandLabel> },
    /// The round is settled.
    RoundComplete { hands: Vec<HandLabel> },
}

/// A player decision, applied to one hand.
#[derive(Clone, Copy, Debug, PartialEq, Eq, Structural)]
pub enum GameAction {
    Hit,
    Stand,
    Double,
    Split,
}

/// The engine call an update cycle asks the surrounding loop to perform.
#[derive(Clone, Copy, Debug, PartialEq, Eq, Structural)]
pub enum EngineAction {
    /// No engine call this cycle.
    Idle,
    /// Commit the entered bet.
    AcceptBet(u64),
    /// Deal the initial cards.
    Deal,
    /// Apply a player action to the hand at the given index.
    PlayerMove(GameAction, usize),
}

/// The game screen's state, as the contracts see it.
#[verifier::ext_equal]
pub struct GameScreenV {
    pub dealer_name: Seq<char>,
    pub dealer_message: Seq<char>,
    pub input_prompt: Seq<char>,
    pub cursor_visible: bool,
    pub user_bet: u64,
    pub bankroll: u64,
}

/// The game screen.  It holds only display state: the bet-entry buffer,
/// the blinking-cursor flag, the prompt texts and the last seen bankroll.
/// The current phase is deliberately not stored; every cycle re-derives
/// its behavior from the snapshot passed in.
#[derive(Clone, Debug, PartialEq, Eq)]
pub struct GameScreen {
    pub dealer_name: String,
    pub dealer_message: String,
    pub input_prompt: String,
    pub cursor_visible: bool,
    pub user_bet: u64,
    pub bankroll: u64,
}

impl View for GameScreen {
    type V = GameScreenV;

    open spec fn view(&self) -> GameScreenV {
        GameScreenV {
            dealer_name: self.dealer_name@,
            dealer_message: self.dealer_message@,
            input_prompt: self.input_prompt@,
            cursor_visible: self.cursor_visible,
            user_bet: self.user_bet,
            bankroll: self.bankroll,
        }
    }
}

/// A freshly constructed game screen: empty bet buffer, visible cursor,
/// and the bet prompt up.
pub open spec fn initial_game_screen() -> GameScreenV {
    GameScreenV {
        dealer_name: "Dealer McGee"@,
        dealer_message: "PLACE YOUR BET"@,
        input_prompt: "BET: $"@,
        cursor_visible: true,
        user_bet: 0,
        bankroll: 0,
    }
}

/// One digit appended to the bet buffer: the value grows tenfold plus the
/// digit, and a digit that would overflow the buffer is rejected, leaving
/// the buffer as it was.
pub open spec fn bet_digit_step(bet: u64, d: int) -> u64 {
    if bet * 10 + d <= u64::MAX {
        (bet * 10 + d) as u64
    } else {
        bet
    }
}

/// What one bet-entry cycle does, given the reported bankroll and at most
/// one key event.  A release changes nothing; a timed-out poll (no event)
/// toggles the cursor blink; digits grow the buffer; Enter commits the
/// buffer to the engine and clears it; `m` and `q` navigate away.
pub open spec fn bet_step(v: GameScreenV, bankroll: u64, ev: Option<KeyEvent>) -> (
    GameScreenV,
    ModelResponse,
    EngineAction,
) {
    if is_release_event(ev) {
        (v, ModelResponse::Refresh, EngineAction::Idle)
    } else {
        let base = GameScreenV {
            bankroll,
            dealer_message: "PLACE YOUR BET"@,
            input_prompt: "BET: $"@,
            ..v
        };
        match ev {
            None => (
                GameScreenV { cursor_visible: !v.cursor_visible, ..base },
                ModelResponse::Refresh,
                EngineAction::Idle,
            ),
            Some(e) => match e.code {
                KeyCode::Char(c) => if is_digit_key(c) {
                    (
                        GameScreenV { user_bet: bet_digit_step(v.user_bet, digit_value(c)), ..base },
                        ModelResponse::Refresh,
                        EngineAction::Idle,
                    )
                } else if c == 'm' {
                    (base, ModelResponse::NavToMainMenu, EngineAction::Idle)
                } else if c == 'q' {
                    (base, ModelResponse::Exit, EngineAction::Idle)
                } else {
                    (base, ModelResponse::Refresh, EngineAction::Idle)
                },
                KeyCode::Enter => (
                    GameScreenV { user_bet: 0, ..base },
                    ModelResponse::Refresh,
                    EngineAction::AcceptBet(v.user_bet),
                ),
                _ => (base, ModelResponse::Refresh, EngineAction::Idle),
            },
        }
    }
}

/// What the dealing cycle does: the transition is fully automatic.  The
/// bet buffer is cleared — the phase has moved away from bet entry — the
/// prompt is taken down, and the engine is told to deal.
pub open spec fn deal_step(v: GameScreenV) -> (GameScreenV, ModelResponse, EngineAction) {
    (
        GameScreenV {
            dealer_message: "DEALING..."@,
            input_prompt: ""@,
            cursor_visible: false,
            user_bet: 0,
            ..v
        },
        ModelResponse::Refresh,
        EngineAction::Deal,
    )
}

/// What one player-turn cycle does.  Action keys ask the engine to apply
/// the decision to the active hand; `m` and `q` navigate away; anything
/// else is ignored.  The bet buffer stays cleared.
pub open spec fn player_turn_step(v: GameScreenV, active_hand_index: usize, ev: Option<KeyEvent>)
    -> (GameScreenV, ModelResponse, EngineAction) {
    if is_release_event(ev) {
        (v, ModelResponse::Refresh, EngineAction::Idle)
    } else {
        let base = GameScreenV { user_bet: 0, ..v };
        match ev {
            None => (base, ModelResponse::Refresh, EngineAction::Idle),
            Some(e) => match e.code {
                KeyCode::Char(c) => if c == 'h' {
                    (
                        base,
                        ModelResponse::Refresh,
                        EngineAction::PlayerMove(GameAction::Hit, active_hand_index),
                    )
                } else if c == 's' {
                    (
                        base,
                        ModelResponse::Refresh,
                        EngineAction::PlayerMove(GameAction::Stand, active_hand_index),
                    )
                } else if c == 'd' {
                    (
                        base,
                        ModelResponse::Refresh,
                        EngineAction::PlayerMove(GameAction::Double, active_hand_index),
                    )
                } else if c == 'p' {
                    (
                        base,
                        ModelResponse::Refresh,
                        EngineAction::PlayerMove(GameAction::Split, active_hand_index),
                    )
                } else if c == 'm' {
                    (base, ModelResponse::NavToMainMenu, EngineAction::Idle)
                } else if c == 'q' {
                    (base, ModelResponse::Exit, EngineAction::Idle)
                } else {
                    (base, ModelResponse::Refresh, EngineAction::Idle)
                },
                _ => (base, ModelResponse::Refresh, EngineAction::Idle),
            },
        }
    }
}

/// What a dealer-turn or settled-round cycle does: the read only
/// re-renders, but `m` and `q` still provide the escape path out of the
/// screen.  The bet buffer stays cleared.
pub open spec fn watch_step(v: GameScreenV, ev: Option<KeyEvent>) -> (
    GameScreenV,
    ModelResponse,
    EngineAction,
) {
    if is_release_event(ev) {
        (v, ModelResponse::Refresh, EngineAction::Idle)
    } else {
        let base = GameScreenV { user_bet: 0, ..v };
        match ev {
            Some(e) => match e.code {
                KeyCode::Char(c) => if c == 'm' {
                    (base, ModelResponse::NavToMainMenu, EngineAction::Idle)
                } else if c == 'q' {
                    (base, ModelResponse::Exit, EngineAction::Idle)
                } else {
                    (base, ModelResponse::Refresh, EngineAction::Idle)
                },
                _ => (base, ModelResponse::Refresh, EngineAction::Idle),
            },
            None => (base, ModelResponse::Refresh, EngineAction::Idle),
        }
    }
}

/// One whole update cycle: dispatch on the fresh phase snapshot.
pub open spec fn game_step(v: GameScreenV, phase: GamePhase, ev: Option<KeyEvent>) -> (
    GameScreenV,
    ModelResponse,
    EngineAction,
) {
    match phase {
        GamePhase::WaitingForBet { bankroll } => bet_step(v, bankroll, ev),
        GamePhase::WaitingToDeal { .. } => if is_release_event(ev) {
            (v, ModelResponse::Refresh, EngineAction::Idle)
        } else {
            deal_step(v)
        },
        GamePhase::PlayerTurn { hands: _, active_hand_index } => player_turn_step(
            v,
            active_hand_index,
            ev,
        ),
        GamePhase::DealerTurn { .. } => watch_step(v, ev),
        GamePhase::RoundComplete { .. } => watch_step(v, ev),
    }
}

/// The rendered bet amount: the digits entered so far, or the empty
/// string — never the numeral 0 — while the buffer is empty.
pub open spec fn bet_amount_rep(bet: u64) -> Seq<char> {
    if bet == 0 {
        Seq::<char>::empty()
    } else {
        dec_rep(bet as nat)
    }
}

/// The blinking cursor glyph: a block while visible, a space while not.
pub open spec fn cursor_rep(visible: bool) -> Seq<char> {
    if visible {
        "█"@
    } else {
        " "@
    }
}

/// The bet-entry line: prompt, accumulated digits, cursor glyph.
pub open spec fn bet_line_rep(v: GameScreenV) -> Seq<char> {
    v.input_prompt + bet_amount_rep(v.user_bet) + cursor_rep(v.cursor_visible)
}

/// One hand's line: its card summary, an outcome label once settled, and
/// the trailing active-hand indicator exactly when `active` holds.
pub open spec fn hand_line_rep(h: HandLabel, active: bool) -> Seq<char> {
    let summary = match h.outcome {
        Some(o) => "Cards "@ + h.cards@ + " - "@ + o@,
        None => "Cards "@ + h.cards@,
    };
    if active {
        summary + " <"@
    } else {
        summary
    }
}

/// The hand lines of a turn phase: one line per hand, the hand at
/// `active_index` marked only when `mark_active` holds, and a placeholder
/// line when there are no hands.
pub open spec fn hands_lines_rep(hands: Seq<HandLabel>, active_index: int, mark_active: bool)
    -> Seq<Seq<char>> {
    if hands.len() == 0 {
        seq!["No Cards"@]
    } else {
        Seq::new(hands.len(), |i: int| hand_line_rep(hands[i], mark_active && i == active_index))
    }
}

/// The player area's lines for each phase.  The active-hand indicator is
/// shown only while the phase is the player's turn.
pub open spec fn player_hands_rep(v: GameScreenV, phase: GamePhase) -> Seq<Seq<char>> {
    match phase {
        GamePhase::WaitingForBet { .. } => seq![bet_line_rep(v)],
        GamePhase::WaitingToDeal { .. } => Seq::<Seq<char>>::empty(),
        GamePhase::PlayerTurn { hands, active_hand_index } => hands_lines_rep(
            hands@,
            active_hand_index as int,
            true,
        ),
        GamePhase::DealerTurn { hands } => hands_lines_rep(hands@, 0, false),
        GamePhase::RoundComplete { hands } => hands_lines_rep(hands@, 0, false),
    }
}

/// The committed-bet label of the player area.
pub open spec fn bet_label_rep(v: GameScreenV) -> Seq<char> {
    " Bet: $"@ + dec_rep(v.user_bet as nat) + " "@
}

/// The bankroll label of the player area.
pub open spec fn bank_label_rep(v: GameScreenV) -> Seq<char> {
    " Bank: $"@ + dec_rep(v.bankroll as nat) + " "@
}

/// One hand's line as executable text: see `hand_line_rep`.
pub fn hand_line_text(h: &HandLabel, active: bool) -> (t: String)
    ensures
        t@ == hand_line_rep(*h, active),
{
    let mut t = String::from_str("Cards ");
    t.append(h.cards.as_str());
    match &h.outcome {
        Some(o) => {
            t.append(" - ");
            t.append(o.as_str());
        },
        None => {},
    }
    if active {
        t.append(" <");
    }
    proof {
        assert(t@ =~= hand_line_rep(*h, active));
    }
    t
}

/// The hand lines of a turn phase as executable text: see
/// `hands_lines_rep`.
fn render_hand_lines(hands: &Vec<HandLabel>, active_index: usize, mark_active: bool) -> (lines:
    Vec<String>)
    ensures
        lines@.len() == hands_lines_rep(hands@, active_index as int, mark_active).len(),
        forall|i: int|
            0 <= i < lines@.len() ==> (#[trigger] lines@[i])@ == hands_lines_rep(
                hands@,
                active_index as int,
                mark_active,
            )[i],
{
    let ghost rep = hands_lines_rep(hands@, active_index as int, mark_active);
    if hands.len() == 0 {
        let mut lines: Vec<String> = Vec::new();
        lines.push(String::from_str("No Cards"));
        lines
    } else {
        let mut lines: Vec<String> = Vec::new();
        let mut i: usize = 0;
        while i < hands.len()
            invariant
                0 <= i <= hands@.len(),
                hands@.len() > 0,
                rep == hands_lines_rep(hands@, active_index as int, mark_active),
                lines@.len() == i as int,
                forall|j: int| 0 <= j < i as int ==> (#[trigger] lines@[j])@ == rep[j],
            decreases hands@.len() - i as int,
        {
            let active = mark_active && i == active_index;
            lines.push(hand_line_text(&hands[i], active));
            i = i + 1;
        }
        lines
    }
}

/// Law: the rendered bet amount is the empty string exactly while the
/// buffer holds no digits — in particular a fresh game screen renders a
/// blank amount, never the numeral 0.
pub proof fn lemma_blank_bet_amount(bet: u64)
    ensures
        bet_amount_rep(bet).len() == 0 <==> bet == 0,
        bet_amount_rep(initial_game_screen().user_bet) == Seq::<char>::empty(),
{
    if bet != 0 {
        if bet < 10 {
            assert(bet_amount_rep(bet).len() == 1);
        } else {
            assert(bet_amount_rep(bet).len() == dec_rep((bet / 10) as nat).len() + 1);
        }
    }
}

/// Law: the active-hand indicator is rendered only while the phase is the
/// player's turn.  During the player's turn exactly the active hand's line
/// carries the trailing indicator; once the round has advanced to the
/// dealer's turn or to settlement, no hand's line carries it, whatever
/// index was last active.
pub proof fn lemma_indicator_only_in_player_turn(
    v: GameScreenV,
    hands: Vec<HandLabel>,
    active_hand_index: usize,
    i: int,
)
    requires
        0 <= i < hands@.len(),
    ensures
        player_hands_rep(v, GamePhase::PlayerTurn { hands, active_hand_index })[i]
            == hand_line_rep(hands@[i], i == active_hand_index as int),
        player_hands_rep(v, GamePhase::DealerTurn { hands })[i] == hand_line_rep(
            hands@[i],
            false,
        ),
        player_hands_rep(v, GamePhase::RoundComplete { hands })[i] == hand_line_rep(
            hands@[i],
            false,
        ),
        hand_line_rep(hands@[i], true) == hand_line_rep(hands@[i], false) + " <"@,
{
}

/// How the game screen gathers input for the next cycle, re-derived from
/// the fresh phase snapshot: a timed poll during bet entry so the cursor
/// keeps blinking, no read at all while dealing is pending, and a blocking
/// read otherwise.
pub open spec fn game_input_mode_spec(phase: GamePhase) -> InputMode {
    match phase {
        GamePhase::WaitingForBet { .. } => InputMode::Timed(500),
        GamePhase::WaitingToDeal { .. } => InputMode::Immediate,
        GamePhase::PlayerTurn { .. } => InputMode::Blocking,
        GamePhase::DealerTurn { .. } => InputMode::Blocking,
        GamePhase::RoundComplete { .. } => InputMode::Blocking,
    }
}

/// See `game_input_mode_spec`.
pub fn game_input_mode(phase: &GamePhase) -> (m: InputMode)
    ensures
        m == game_input_mode_spec(*phase),
{
    match phase {
        GamePhase::WaitingForBet { .. } => InputMode::Timed(500),
        GamePhase::WaitingToDeal { .. } => InputMode::Immediate,
        _ => InputMode::Blocking,
    }
}

impl GameScreen {
    pub fn new() -> (s: GameScreen)
        ensures
            s@ == initial_game_screen(),
    {
        let s = GameScreen {
            dealer_name: String::from_str("Dealer McGee"),
            dealer_message: String::from_str("PLACE YOUR BET"),
            input_prompt: String::from_str("BET: $"),
            cursor_visible: true,
            user_bet: 0,
            bankroll: 0,
        };
        proof {
            assert(s@ =~= initial_game_screen());
        }
        s
    }

    /// One bet-entry cycle: see `bet_step` for the full account.
    pub fn handle_waiting_for_bet(&mut self, bankroll: u64, ev: Option<KeyEvent>) -> (r: (
        ModelResponse,
        EngineAction,
    ))
        ensures
            final(self)@ == bet_step(old(self)@, bankroll, ev).0,
            r.0 == bet_step(old(self)@, bankroll, ev).1,
            r.1 == bet_step(old(self)@, bankroll, ev).2,
            is_release_event(ev) ==> *final(self) == *old(self),
    {
        if let Some(e) = ev {
            if matches!(e.kind, KeyEventKind::Release) {
                return (ModelResponse::Refresh, EngineAction::Idle);
            }
        }
        self.bankroll = bankroll;
        self.dealer_message = String::from_str("PLACE YOUR BET");
        self.input_prompt = String::from_str("BET: $");
        let result = match ev {
            None => {
                self.cursor_visible = !self.cursor_visible;
                (ModelResponse::Refresh, EngineAction::Idle)
            },
            Some(e) => match e.code {
                KeyCode::Char(c) => {
                    let code = c as u32;
                    if 48 <= code && code <= 57 {
                        let d = (code - 48) as u64;
                        match self.user_bet.checked_mul(10) {
                            Some(grown) => match grown.checked_add(d) {
                                Some(next) => {
                                    self.user_bet = next;
                                },
                                None => {},
                            },
                            None => {},
                        }
                        (ModelResponse::Refresh, EngineAction::Idle)
                    } else if c == 'm' {
                        (ModelResponse::NavToMainMenu, EngineAction::Idle)
                    } else if c == 'q' {
                        (ModelResponse::Exit, EngineAction::Idle)
                    } else {
                        (ModelResponse::Refresh, EngineAction::Idle)
                    }
                },
                KeyCode::Enter => {
                    let committed = self.user_bet;
                    self.user_bet = 0;
                    (ModelResponse::Refresh, EngineAction::AcceptBet(committed))
                },
                _ => (ModelResponse::Refresh, EngineAction::Idle),
            },
        };
        proof {
            assert(self@ =~= bet_step(old(self)@, bankroll, ev).0);
        }
        result
    }

    /// The dealing cycle: no input is read; the engine is told to deal and
    /// the screen refreshes.
    pub fn handle_waiting_to_deal(&mut self, _bet: u64, _bankroll: u64) -> (r: (
        ModelResponse,
        EngineAction,
    ))
        ensures
            final(self)@ == deal_step(old(self)@).0,
            r.0 == deal_step(old(self)@).1,
            r.1 == deal_step(old(self)@).2,
    {
        self.dealer_message = String::from_str("DEALING...");
        self.input_prompt = String::new();
        self.cursor_visible = false;
        self.user_bet = 0;
        proof {
            reveal_strlit("");
            assert(self@ =~= deal_step(old(self)@).0);
        }
        (ModelResponse::Refresh, EngineAction::Deal)
    }

    /// One player-turn cycle: see `player_turn_step` for the full account.
    pub fn handle_player_turn(&mut self, active_hand_index: usize, ev: Option<KeyEvent>) -> (r: (
        ModelResponse,
        EngineAction,
    ))
        ensures
            final(self)@ == player_turn_step(old(self)@, active_hand_index, ev).0,
            r.0 == player_turn_step(old(self)@, active_hand_index, ev).1,
            r.1 == player_turn_step(old(self)@, active_hand_index, ev).2,
            is_release_event(ev) ==> *final(self) == *old(self),
    {
        if let Some(e) = ev {
            if matches!(e.kind, KeyEventKind::Release) {
                return (ModelResponse::Refresh, EngineAction::Idle);
            }
        }
        self.user_bet = 0;
        match ev {
            None => (ModelResponse::Refresh, EngineAction::Idle),
            Some(e) => match e.code {
                KeyCode::Char(c) => {
                    if c == 'h' {
                        (
                            ModelResponse::Refresh,
                            EngineAction::PlayerMove(GameAction::Hit, active_hand_index),
                        )
                    } else if c == 's' {
                        (
                            ModelResponse::Refresh,
                            EngineAction::PlayerMove(GameAction::Stand, active_hand_index),
                        )
                    } else if c == 'd' {
                        (
                            ModelResponse::Refresh,
                            EngineAction::PlayerMove(GameAction::Double, active_hand_index),
                        )
                    } else if c == 'p' {
                        (
                            ModelResponse::Refresh,
                            EngineAction::PlayerMove(GameAction::Split, active_hand_index),
                        )
                    } else if c == 'm' {
                        (ModelResponse::NavToMainMenu, EngineAction::Idle)
                    } else if c == 'q' {
                        (ModelResponse::Exit, EngineAction::Idle)
                    } else {
                        (ModelResponse::Refresh, EngineAction::Idle)
                    }
                },
                _ => (ModelResponse::Refresh, EngineAction::Idle),
            },
        }
    }

    /// One whole update cycle against a fresh phase snapshot.
    pub fn update(&mut self, phase: &GamePhase, ev: Option<KeyEvent>) -> (r: (
        ModelResponse,
        EngineAction,
    ))
        ensures
            final(self)@ == game_step(old(self)@, *phase, ev).0,
            r.0 == game_step(old(self)@, *phase, ev).1,
            r.1 == game_step(old(self)@, *phase, ev).2,
            is_release_event(ev) ==> *final(self) == *old(self),
    {
        if let Some(e) = ev {
            if matches!(e.kind, KeyEventKind::Release) {
                return (ModelResponse::Refresh, EngineAction::Idle);
            }
        }
        match phase {
            GamePhase::WaitingForBet { bankroll } => self.handle_waiting_for_bet(*bankroll, ev),
            GamePhase::WaitingToDeal { bet, bankroll } => self.handle_waiting_to_deal(
                *bet,
                *bankroll,
            ),
            GamePhase::PlayerTurn { hands: _, active_hand_index } => self.handle_player_turn(
                *active_hand_index,
                ev,
            ),
            GamePhase::DealerTurn { .. } => {
                self.user_bet = 0;
                self.watch_keys(ev)
            },
            GamePhase::RoundComplete { .. } => {
                self.user_bet = 0;
                self.watch_keys(ev)
            },
        }
    }

    /// The bet amount as the bet-entry line shows it: the digits entered
    /// so far, and the empty string — never the numeral 0 — before any
    /// digit is entered.
    pub fn bet_amount_text(&self) -> (s: String)
        ensures
            s@ == bet_amount_rep(self.user_bet),
    {
        if self.user_bet == 0 {
            String::new()
        } else {
            u64_to_string(self.user_bet)
        }
    }

    /// The lines of the player area, a pure function of screen state and
    /// the fresh phase snapshot: the bet-entry line during bet entry, one
    /// line per hand while hands are on the table — the active hand marked
    /// only during the player's turn — and a placeholder line when a turn
    /// phase reports no hands.
    pub fn render_player_hands(&self, phase: &GamePhase) -> (lines: Vec<String>)
        ensures
            lines@.len() == player_hands_rep(self@, *phase).len(),
            forall|i: int|
                0 <= i < lines@.len() ==> (#[trigger] lines@[i])@ == player_hands_rep(
                    self@,
                    *phase,
                )[i],
    {
        match phase {
            GamePhase::WaitingForBet { .. } => {
                let mut line = self.input_prompt.clone();
                line.append(self.bet_amount_text().as_str());
                if self.cursor_visible {
                    line.append("█");
                } else {
                    line.append(" ");
                }
                let mut lines: Vec<String> = Vec::new();
                proof {
                    assert(line@ =~= bet_line_rep(self@));
                }
                lines.push(line);
                lines
            },
            GamePhase::WaitingToDeal { .. } => Vec::new(),
            GamePhase::PlayerTurn { hands, active_hand_index } => render_hand_lines(
                hands,
                *active_hand_index,
                true,
            ),
            GamePhase::DealerTurn { hands } => render_hand_lines(hands, 0, false),
            GamePhase::RoundComplete { hands } => render_hand_lines(hands, 0, false),
        }
    }

    /// The dealer area's texts: its title and the dealer's message.
    pub fn render_dealer_section(&self) -> (t: (String, String))
        ensures
            t.0@ == " Dealer "@,
            t.1@ == self@.dealer_message,
    {
        (String::from_str(" Dealer "), self.dealer_message.clone())
    }

    /// The player area's texts: its title, the committed-bet label and the
    /// bankroll label.
    pub fn render_player_section(&self) -> (t: (String, String, String))
        ensures
            t.0@ == " Jack "@,
            t.1@ == bet_label_rep(self@),
            t.2@ == bank_label_rep(self@),
    {
        let mut bet = String::from_str(" Bet: $");
        bet.append(u64_to_string(self.user_bet).as_str());
        bet.append(" ");
        let mut bank = String::from_str(" Bank: $");
        bank.append(u64_to_string(self.bankroll).as_str());
        bank.append(" ");
        proof {
            assert(bet@ =~= bet_label_rep(self@));
            assert(bank@ =~= bank_label_rep(self@));
        }
        (String::from_str(" Jack "), bet, bank)
    }

    /// The escape keys of the watch-only cycles.
    fn watch_keys(&self, ev: Option<KeyEvent>) -> (r: (ModelResponse, EngineAction))
        requires
            !is_release_event(ev),
        ensures
            r.0 == watch_step(self@, ev).1,
            r.1 == watch_step(self@, ev).2,
    {
        match ev {
            Some(e) => match e.code {
                KeyCode::Char(c) => {
                    if c == 'm' {
                        (ModelResponse::NavToMainMenu, EngineAction::Idle)
                    } else if c == 'q' {
                        (ModelResponse::Exit, EngineAction::Idle)
                    } else {
                        (ModelResponse::Refresh, EngineAction::Idle)
                    }
                },
                _ => (ModelResponse::Refresh, EngineAction::Idle),
            },
            None => (ModelResponse::Refresh, EngineAction::Idle),
        }
    }
}

} // verus!
