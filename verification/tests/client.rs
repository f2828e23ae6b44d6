use atlas_observer::client::http::{token_check_step, TokenStep};
use atlas_observer::client::models::ValidationResponse;
use atlas_observer::config::{load_failure, ConfigError, LoadFailure};
use atlas_observer::runner::{queue_response_step, QueueStep};
use atlas_observer::client::http::{
    bearer_auth, cancel_queue_outcome, is_success, queue_request_outcome, request_url,
    send_result_check, send_result_outcome, validate_token_outcome, ClientError, MATCH_PATH,
    QUEUE_PATH,
};
use atlas_observer::client::manager::{result_path, result_response_outcome, ClientError as PlayerClientError};
use atlas_observer::client::models::MatchedResponse;
use atlas_observer::client::state::ClientState;
use atlas_observer::config::{Config, ConfigFile, SERVER_URL};
use atlas_observer::runner::{
    cancel_command_state, paired_state, queue_failure_message, queue_finished,
    start_command_state, Queue,
};
use atlas_observer::ui::{command_action, commands_hint, exit_countdown, AppCommand, UiAction};

#[test]
fn client_state_session() {
    assert_eq!(ClientState::PlayingRanked("id".to_string()).session(), Some(&"id".to_string()));
    assert_eq!(ClientState::Idle.session(), None);
    assert_eq!(ClientState::Exit.session(), None);
    let s = ClientState::PlayingRanked("x".to_string());
    assert_eq!(s.duplicate(), s);
}

#[test]
fn status_codes() {
    assert!(is_success(200));
    assert!(is_success(201));
    assert!(is_success(299));
    assert!(!is_success(300));
    assert!(!is_success(199));
    assert!(validate_token_outcome(200).is_ok());
    assert!(matches!(validate_token_outcome(401), Err(ClientError::AuthorizationError)));
    assert!(matches!(validate_token_outcome(500), Err(ClientError::ServerError(500))));
    assert!(send_result_outcome(201).is_ok());
    assert!(matches!(send_result_outcome(409), Err(ClientError::ServerError(409))));
    assert!(queue_request_outcome(200).is_ok());
    assert!(matches!(queue_request_outcome(408), Err(ClientError::ServerError(408))));
    assert!(matches!(queue_request_outcome(404), Err(ClientError::NotFoundError)));
    assert!(matches!(queue_request_outcome(503), Err(ClientError::ServerError(503))));
}

#[test]
fn results_are_sent_only_while_playing() {
    assert!(send_result_check(&ClientState::PlayingRanked("s".to_string())).is_ok());
    match send_result_check(&ClientState::WaitingForOpponent) {
        Err(ClientError::InvalidStateError(s)) => assert_eq!(s, ClientState::WaitingForOpponent),
        other => panic!("unexpected {:?}", other),
    }
}

#[test]
fn cancel_queue_messages() {
    assert_eq!(cancel_queue_outcome(200, Some("bye".to_string())).unwrap(), "bye");
    assert_eq!(cancel_queue_outcome(204, None).unwrap(), "Queue successfully canceled");
    assert!(matches!(cancel_queue_outcome(500, None), Err(ClientError::ServerError(500))));
}

#[test]
fn urls_and_headers() {
    assert_eq!(request_url("https://x.org", MATCH_PATH), "https://x.org/api/match");
    assert_eq!(request_url("https://x.org", QUEUE_PATH), "https://x.org/api/queue");
    assert_eq!(bearer_auth("tok"), "Bearer tok");
    assert_eq!(result_path("http://s", 42), "http://s/api/match?playerId=42");
    assert_eq!(result_path("http://s", 0), "http://s/api/match?playerId=0");
    assert_eq!(result_path("http://s", 4294967295), "http://s/api/match?playerId=4294967295");
}

#[test]
fn config_defaults() {
    let c = Config::new();
    assert_eq!(c.server_url, SERVER_URL);
    assert!(c.token.is_empty());
    assert!(c.needs_token());
    let c = Config::for_server("http://localhost:8080");
    assert_eq!(c.server_url, "http://localhost:8080");
    assert!(c.needs_token());
    let c = Config::from_file_contents(ConfigFile { token: "t".to_string() }, SERVER_URL);
    assert!(!c.needs_token());
    assert_eq!(c.token, "t");
    let saved = c.file_contents();
    let back = Config::from_file_contents(saved, &c.server_url);
    assert_eq!(back.token, c.token);
    assert_eq!(back.server_url, c.server_url);
}

#[test]
fn host_and_join_commands_enter_ranked_mode() {
    for cmd in ["host", "host ABC", "join ABC", "join   x"] {
        assert!(matches!(command_action(cmd, &ClientState::Idle), UiAction::Send(AppCommand::Start)), "{}", cmd);
    }
    for cmd in ["join", "hostABC", "joinABC", "hosting", "Host"] {
        match command_action(cmd, &ClientState::Idle) {
            UiAction::Reject(m) => assert_eq!(m, format!("Invalid command '{}'", cmd)),
            _ => panic!("expected a refusal of {}", cmd),
        }
    }
    assert!(matches!(command_action("host ABC", &ClientState::WaitingForOpponent), UiAction::Reject(_)));
}

#[test]
fn typed_commands() {
    assert!(matches!(command_action("start", &ClientState::Idle), UiAction::Send(AppCommand::Start)));
    match command_action("start", &ClientState::WaitingForOpponent) {
        UiAction::Reject(m) => assert_eq!(m, "Invalid command 'start'"),
        _ => panic!("expected a refusal"),
    }
    assert!(matches!(
        command_action("stop", &ClientState::WaitingForOpponent),
        UiAction::Send(AppCommand::Stop)
    ));
    assert!(matches!(command_action("stop", &ClientState::Idle), UiAction::Reject(_)));
    assert!(matches!(
        command_action("exit", &ClientState::PlayingRanked("s".to_string())),
        UiAction::Send(AppCommand::Exit)
    ));
    match command_action("dance", &ClientState::Idle) {
        UiAction::Reject(m) => assert_eq!(m, "Invalid command 'dance'"),
        _ => panic!("expected a refusal"),
    }
    assert_eq!(commands_hint(&ClientState::Idle), "Commands: start | exit");
    assert_eq!(commands_hint(&ClientState::WaitingForOpponent), "Commands: stop | exit");
    assert_eq!(commands_hint(&ClientState::Exit), "Commands: stop | exit");
    assert_eq!(
        commands_hint(&ClientState::PlayingRanked("s".to_string())),
        "Commands: exit (please, close MBAA first)"
    );
    assert_eq!(exit_countdown(3), (false, 2));
    assert_eq!(exit_countdown(0), (true, 0));
}

#[test]
fn runner_decisions() {
    assert_eq!(start_command_state(AppCommand::Start), Some(ClientState::WaitingForOpponent));
    assert_eq!(start_command_state(AppCommand::Exit), Some(ClientState::Exit));
    assert_eq!(start_command_state(AppCommand::Stop), None);
    assert_eq!(cancel_command_state(AppCommand::Stop), Some(ClientState::Idle));
    assert_eq!(cancel_command_state(AppCommand::Exit), Some(ClientState::Exit));
    assert_eq!(cancel_command_state(AppCommand::Start), None);
    assert_eq!(queue_finished(true), Queue::Canceled);
    assert_eq!(queue_finished(false), Queue::Matched);
    let resp = MatchedResponse { session_id: "S1".to_string(), opponent_discord_username: "o".to_string() };
    assert_eq!(paired_state(&resp), ClientState::PlayingRanked("S1".to_string()));
    assert_eq!(
        queue_failure_message(&ClientError::ServerError(408), true),
        Some("Queue request expired, could not pair players")
    );
    assert_eq!(queue_failure_message(&ClientError::RequestError, false), Some("No response from the server"));
    assert_eq!(queue_failure_message(&ClientError::NotFoundError, true), None);
    assert_eq!(
        queue_failure_message(&ClientError::NotFoundError, false),
        Some("Error trying to send queue request, check logs for details")
    );
}

#[test]
fn token_and_queue_steps() {

    let ok = Ok(ValidationResponse { discord_username: "shiki".to_string() });
    match token_check_step(&ok) {
        TokenStep::LoggedIn(m) => assert_eq!(m, "Logged as shiki"),
        other => panic!("unexpected {:?}", other),
    }
    assert!(matches!(token_check_step(&Err(ClientError::AuthorizationError)), TokenStep::AskNewToken));
    assert!(matches!(token_check_step(&Err(ClientError::ServerError(500))), TokenStep::GiveUp));

    assert!(matches!(load_failure(&ConfigError::FileNotFound), LoadFailure::CreateDefault));
    match load_failure(&ConfigError::ParseError("token".to_string())) {
        LoadFailure::Report(m) => {
            assert_eq!(m, "'token' field in config.toml has incorrect formatting or is invalid.")
        }
        other => panic!("unexpected {:?}", other),
    }
    match load_failure(&ConfigError::ReadError("denied".to_string())) {
        LoadFailure::Report(m) => {
            assert_eq!(m, "Failed to load config, try giving this app reading/writting permission")
        }
        other => panic!("unexpected {:?}", other),
    }

    let paired = Ok(MatchedResponse { session_id: "S9".to_string(), opponent_discord_username: "arc".to_string() });
    match queue_response_step(&paired, false) {
        QueueStep::Pair { message, state } => {
            assert_eq!(message, "Connected to arc");
            assert_eq!(state, ClientState::PlayingRanked("S9".to_string()));
        }
        other => panic!("unexpected {:?}", other),
    }
    match queue_response_step(&Err(ClientError::ServerError(408)), true) {
        QueueStep::Fail { reason } => assert_eq!(reason, Some("Queue request expired, could not pair players")),
        other => panic!("unexpected {:?}", other),
    }
    match queue_response_step(&Err(ClientError::NotFoundError), true) {
        QueueStep::Fail { reason } => assert_eq!(reason, None),
        other => panic!("unexpected {:?}", other),
    }
}

#[test]
fn player_result_outcomes() {
    assert!(result_response_outcome(Ok(201)).is_ok());
    assert!(result_response_outcome(Ok(200)).is_ok());
    assert!(matches!(result_response_outcome(Ok(404)), Err(PlayerClientError::ServerError(404))));
    assert!(matches!(result_response_outcome(Ok(199)), Err(PlayerClientError::ServerError(199))));
    match result_response_outcome(Err("timed out".to_string())) {
        Err(PlayerClientError::RequestError(m)) => assert_eq!(m, "timed out"),
        other => panic!("expected a request error, got {:?}", other),
    }
}
