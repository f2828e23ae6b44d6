use atlas_observer::client::state::ClientState;
use atlas_observer::game::state::{GameState, GameTimers, Player};
use atlas_observer::game::{GameChar, Moon};
use atlas_observer::memory::addresses::{ClientMode, GameMode, LocalPlayer};
use atlas_observer::validation::result::{MatchResult, SenderRole, StateError};
use atlas_observer::validation::thread::{
    report_failure_message, FailureDetail, ThreadAction, ValidationRun,
};
use atlas_observer::validation::validator::{MatchState, Validator, Validity};
use atlas_observer::client::http::ClientError;

fn players(s1: u32, s2: u32) -> [Player; 2] {
    [
        Player { character: GameChar::Akiha, moon: Moon::Half, score: s1 },
        Player { character: GameChar::Seifuku, moon: Moon::Crescent, score: s2 },
    ]
}

fn in_game(mode: GameMode, client_mode: ClientMode, s1: u32, s2: u32, real: u32) -> GameState {
    GameState::InGame {
        local_player: LocalPlayer::P1,
        client_mode,
        game_mode: mode,
        timers: GameTimers::new(10000, 1200, real),
        players: players(s1, s2),
    }
}

fn not_in_game(mode: GameMode, client_mode: ClientMode) -> GameState {
    GameState::NotInGame { game_mode: mode, client_mode, host_position: 1 }
}

fn validator() -> Validator {
    Validator::new(&ClientState::PlayingRanked("SESSION".to_string())).unwrap()
}

fn error_text(e: StateError) -> String {
    match e {
        StateError::MatchResultError(m) => m,
        StateError::SessionNotFound | StateError::ClockBeforeEpoch => panic!("unexpected error"),
    }
}

#[test]
fn match_result_for_host() {
    let r = MatchResult::new_at(
        "abc".to_string(),
        ClientMode::Host,
        1,
        players(2, 1),
        GameTimers::new(10000, 1200, 4000),
        1700000000,
    )
    .unwrap();
    assert_eq!(r.session_id(), "abc");
    assert_eq!(r.host_position(), Some(1));
    assert_eq!(r.sender_role(), SenderRole::Host);
    assert_eq!(r.real_timer(), 4000);
    assert_eq!(r.timestamp(), 1700000000);
    let (p1, p2) = r.players();
    assert_eq!(p1.score, 2);
    assert_eq!(p2.character, GameChar::Seifuku);
}

#[test]
fn match_result_for_client_has_no_host_position() {
    let r = MatchResult::new_at(
        "abc".to_string(),
        ClientMode::Client,
        2,
        players(0, 2),
        GameTimers::new(1, 2, 241),
        5,
    )
    .unwrap();
    assert_eq!(r.host_position(), None);
    assert_eq!(r.sender_role(), SenderRole::Client);
}

#[test]
fn match_result_needs_a_player_role() {
    let e = MatchResult::new_at(
        "abc".to_string(),
        ClientMode::SpectateNetplay,
        1,
        players(2, 1),
        GameTimers::new(1, 2, 4000),
        5,
    )
    .unwrap_err();
    assert_eq!(error_text(e), "role state mut be host or client");
}

#[test]
fn match_result_needs_ten_seconds() {
    let e = MatchResult::new_at(
        "abc".to_string(),
        ClientMode::Host,
        1,
        players(2, 1),
        GameTimers::new(1, 2, 240),
        5,
    )
    .unwrap_err();
    assert_eq!(error_text(e), "match must be at least 10 seconds long in real time");
}

#[test]
fn match_result_needs_a_winner() {
    let e = MatchResult::new_at(
        "abc".to_string(),
        ClientMode::Host,
        1,
        players(1, 1),
        GameTimers::new(1, 2, 4000),
        5,
    )
    .unwrap_err();
    assert_eq!(error_text(e), "invalid score: p1: 1, p2: 1");
}

#[test]
fn match_result_checks_role_before_length() {
    let e = MatchResult::new_at(
        "abc".to_string(),
        ClientMode::Offline,
        1,
        players(1, 1),
        GameTimers::new(1, 2, 3),
        5,
    )
    .unwrap_err();
    assert_eq!(error_text(e), "role state mut be host or client");
}

#[test]
fn match_result_new_takes_the_clock() {
    let r = MatchResult::new(
        "abc".to_string(),
        ClientMode::Host,
        1,
        players(2, 0),
        GameTimers::new(10000, 1200, 4000),
    )
    .unwrap();
    assert!(r.timestamp() > 1_600_000_000);
}

#[test]
fn match_duration_is_rounded_to_seconds() {
    let make = |real: u32| {
        MatchResult::new_at("s".to_string(), ClientMode::Host, 1, players(2, 1), GameTimers::new(0, 0, real), 0)
            .unwrap()
    };
    assert_eq!(make(4000).duration_minutes_seconds(), (2, 47));
    assert_eq!(make(1452).duration_minutes_seconds(), (1, 1));
    assert_eq!(make(1451).duration_minutes_seconds(), (1, 0));
    assert_eq!(make(1440).duration_minutes_seconds(), (1, 0));
}

#[test]
fn validator_needs_a_session() {
    assert!(matches!(Validator::new(&ClientState::Idle), Err(StateError::SessionNotFound)));
    assert!(matches!(
        Validator::new(&ClientState::WaitingForOpponent),
        Err(StateError::SessionNotFound)
    ));
    let v = validator();
    assert_eq!(v.get_session(), "SESSION");
}

#[test]
fn regular_match_finishes_once() {
    let mut v = validator();
    assert!(matches!(v.validate(not_in_game(GameMode::CharSelect, ClientMode::Host)), Ok(Validity::Valid)));
    assert!(matches!(v.validate(not_in_game(GameMode::CharSelect, ClientMode::Host)), Ok(Validity::Valid)));
    assert!(matches!(v.validate(in_game(GameMode::InGame, ClientMode::Host, 0, 0, 10)), Ok(Validity::Valid)));
    assert!(matches!(v.validate(in_game(GameMode::InGame, ClientMode::Host, 1, 0, 3000)), Ok(Validity::Valid)));
    match v.validate(in_game(GameMode::Retry, ClientMode::Host, 2, 1, 4000)) {
        Ok(Validity::MatchFinished(r)) => {
            assert_eq!(r.session_id(), "SESSION");
            assert_eq!(r.host_position(), Some(1));
            assert_eq!(r.real_timer(), 4000);
        }
        other => panic!("expected a finished match, got {:?}", other),
    }
    assert!(matches!(v.validate(in_game(GameMode::Retry, ClientMode::Host, 2, 1, 4000)), Ok(Validity::Valid)));
    assert!(matches!(v.validate(not_in_game(GameMode::CharSelect, ClientMode::Host)), Ok(Validity::Valid)));
}

fn play_to_retry_menu(v: &mut Validator) {
    v.validate(not_in_game(GameMode::CharSelect, ClientMode::Host)).unwrap();
    v.validate(in_game(GameMode::InGame, ClientMode::Host, 1, 0, 3000)).unwrap();
    assert!(matches!(
        v.validate(in_game(GameMode::Retry, ClientMode::Host, 2, 1, 4000)),
        Ok(Validity::MatchFinished(_))
    ));
    assert!(matches!(v.validate(in_game(GameMode::Retry, ClientMode::Host, 2, 1, 4000)), Ok(Validity::Valid)));
}

#[test]
fn leaving_the_retry_menu_goes_back_to_idle() {
    let mut v = validator();
    play_to_retry_menu(&mut v);
    assert!(matches!(v.validate(not_in_game(GameMode::Unknown, ClientMode::Host)), Ok(Validity::Valid)));
    match v.validate(not_in_game(GameMode::InGame, ClientMode::Host)) {
        Ok(Validity::Invalid(reason)) => {
            assert_eq!(reason, "invalid match state detected before InGame")
        }
        other => panic!("expected an invalid match, got {:?}", other),
    }
    let mut w = validator();
    play_to_retry_menu(&mut w);
    assert!(matches!(w.validate(not_in_game(GameMode::MainMenu, ClientMode::Host)), Ok(Validity::Valid)));
    assert!(matches!(w.validate(not_in_game(GameMode::CharSelect, ClientMode::Host)), Ok(Validity::Valid)));
}

#[test]
fn rematch_through_loading_stays_valid() {
    let mut v = validator();
    play_to_retry_menu(&mut v);
    assert!(matches!(v.validate(not_in_game(GameMode::Loading, ClientMode::Host)), Ok(Validity::Valid)));
    assert!(matches!(v.validate(in_game(GameMode::InGame, ClientMode::Host, 0, 0, 10)), Ok(Validity::Valid)));
}

#[test]
fn finished_match_with_bad_result_is_an_error() {
    let mut v = validator();
    v.validate(not_in_game(GameMode::CharSelect, ClientMode::Client)).unwrap();
    v.validate(in_game(GameMode::InGame, ClientMode::Client, 1, 1, 100)).unwrap();
    let e = v.validate(in_game(GameMode::Retry, ClientMode::Client, 1, 1, 100));
    match e {
        Err(StateError::MatchResultError(m)) => {
            assert_eq!(m, "match must be at least 10 seconds long in real time")
        }
        other => panic!("expected an error, got {:?}", other),
    }
}

#[test]
fn match_without_char_select_is_invalid() {
    let mut v = validator();
    match v.validate(in_game(GameMode::InGame, ClientMode::Host, 0, 0, 10)) {
        Ok(Validity::Invalid(reason)) => {
            assert_eq!(reason, "invalid match state detected before InGame")
        }
        other => panic!("expected invalid, got {:?}", other),
    }
    // Invalid stays invalid.
    match v.validate(not_in_game(GameMode::Title, ClientMode::Host)) {
        Ok(Validity::Invalid(reason)) => {
            assert_eq!(reason, "invalid match state detected before InGame")
        }
        other => panic!("expected invalid, got {:?}", other),
    }
    match v.validate(not_in_game(GameMode::CharSelect, ClientMode::Host)) {
        Ok(Validity::Invalid(reason)) => {
            assert_eq!(reason, "invalid match state detected before CharSelect")
        }
        other => panic!("expected invalid, got {:?}", other),
    }
}

#[test]
fn replay_menu_is_invalid() {
    let mut v = validator();
    match v.validate(not_in_game(GameMode::ReplayMenu, ClientMode::Host)) {
        Ok(Validity::Invalid(reason)) => {
            assert_eq!(reason, "invalid match state detected before ReplayMenu")
        }
        other => panic!("expected invalid, got {:?}", other),
    }
}

#[test]
fn spectators_are_invalid_and_keep_the_phase() {
    let mut v = validator();
    v.validate(not_in_game(GameMode::CharSelect, ClientMode::Host)).unwrap();
    match v.validate(not_in_game(GameMode::InGame, ClientMode::SpectateNetplay)) {
        Ok(Validity::Invalid(reason)) => assert_eq!(reason, "invalid client mode: SpectateNetplay"),
        other => panic!("expected invalid, got {:?}", other),
    }
    // The phase did not move: the match itself may still follow character select.
    assert!(matches!(v.validate(in_game(GameMode::InGame, ClientMode::Host, 0, 0, 1)), Ok(Validity::Valid)));
}

#[test]
fn invalid_mode_names_the_screen() {
    match MatchState::invalid_mode(&GameMode::Retry) {
        MatchState::Invalid(r) => assert_eq!(r, "invalid match state detected before Retry"),
        _ => panic!("expected invalid"),
    }
}

#[test]
fn validator_thread_steps() {
    assert_eq!(report_failure_message(&ClientError::ServerError(408)), "Report failed: request timeout");
    assert_eq!(report_failure_message(&ClientError::ServerError(500)), "Failed to send match result to the server");
    assert_eq!(report_failure_message(&ClientError::RequestError), "Failed to send match result to the server");
}

#[test]
fn validation_run_reports_and_stops_at_the_first_break() {
    let (none, actions) = ValidationRun::open(&ClientState::Idle);
    assert!(none.is_none());
    assert!(matches!(
        &actions[0],
        ThreadAction::Error { context: "Failed to start validator", detail: FailureDetail::State(StateError::SessionNotFound) }
    ));
    assert!(matches!(&actions[1], ThreadAction::Log(m) if m == "Internal error, no session id found"));
    assert_eq!(actions.len(), 2);

    let (run, actions) = ValidationRun::open(&ClientState::PlayingRanked("S".to_string()));
    let mut run = run.unwrap();
    assert!(actions.is_empty());
    assert!(!run.is_finished());
    assert!(run.receive(Some(not_in_game(GameMode::CharSelect, ClientMode::Host))).is_empty());
    assert!(run.receive(Some(in_game(GameMode::InGame, ClientMode::Host, 1, 0, 3000))).is_empty());
    let actions = run.receive(Some(in_game(GameMode::Retry, ClientMode::Host, 2, 1, 4000)));
    assert_eq!(actions.len(), 2);
    assert!(matches!(&actions[0], ThreadAction::Log(m) if m == "Sending match to the server..."));
    match &actions[1] {
        ThreadAction::Send(r) => assert_eq!(r.session_id(), "S"),
        other => panic!("expected a result to send, got {:?}", other),
    }
    assert!(!run.is_finished());
    assert!(run.receive(Some(in_game(GameMode::Retry, ClientMode::Host, 2, 1, 4000))).is_empty());
    let actions = run.receive(Some(not_in_game(GameMode::ReplayMenu, ClientMode::Host)));
    assert_eq!(actions.len(), 3);
    assert!(matches!(&actions[0], ThreadAction::Error { context: "Invalid game state", detail: FailureDetail::Reason(_) }));
    assert!(matches!(&actions[1], ThreadAction::Log(m) if m == "Invalid game state"));
    assert!(matches!(&actions[2], ThreadAction::Log(m) if m == "Stopped validating game state"));
    assert!(run.is_finished());

    let (run, _) = ValidationRun::open(&ClientState::PlayingRanked("S".to_string()));
    let mut run = run.unwrap();
    run.receive(Some(not_in_game(GameMode::CharSelect, ClientMode::Client)));
    run.receive(Some(in_game(GameMode::InGame, ClientMode::Client, 1, 1, 100)));
    let actions = run.receive(Some(in_game(GameMode::Retry, ClientMode::Client, 1, 1, 100)));
    assert!(matches!(
        &actions[0],
        ThreadAction::Error { context: "Failed to validate game state", detail: FailureDetail::State(StateError::MatchResultError(_)) }
    ));
    assert!(matches!(&actions[2], ThreadAction::Log(m) if m == "Stopped validating game state"));
    assert!(run.is_finished());

    let (run, _) = ValidationRun::open(&ClientState::PlayingRanked("S".to_string()));
    let mut run = run.unwrap();
    let actions = run.receive(None);
    assert_eq!(actions.len(), 1);
    assert!(matches!(&actions[0], ThreadAction::Log(m) if m == "Stopped validating game state"));
    assert!(run.is_finished());
}

#[test]
fn match_result_text_form() {
    let make = |real: u32| {
        MatchResult::new_at("s".to_string(), ClientMode::Host, 1, players(2, 1), GameTimers::new(0, 0, real), 0)
            .unwrap()
    };
    assert_eq!(make(4000).describe(), "Half-Akiha (2x1) Crescent-Seifuku | Duration: 2:47");
    assert_eq!(make(1452).describe(), "Half-Akiha (2x1) Crescent-Seifuku | Duration: 1:01");
    assert_eq!(make(14400).describe(), "Half-Akiha (2x1) Crescent-Seifuku | Duration: 10:00");
}
