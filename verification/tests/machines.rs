use atlas_observer::client::ClientState;
use atlas_observer::game::state::{GameState, GameTimers, Player};
use atlas_observer::game::{GameChar, Moon};
use atlas_observer::memory::addresses::{ClientMode, GameMode, LocalPlayer};
use atlas_observer::memory::process::MemoryError;
use atlas_observer::memory::watcher::{WatchAction, WatchAnswer, WatchRequest, Watcher};
use atlas_observer::runner::{
    connected_message, worker_mark, CommandPoll, IdsPoll, QueueStep, RunAction, RunAnswer,
    RunRequest, Runner, WorkerMark,
};
use atlas_observer::ui::{AppCommand, InputLine, Key, KeyOutcome};

fn logs(actions: &[WatchAction]) -> Vec<String> {
    actions
        .iter()
        .filter_map(|a| match a {
            WatchAction::Log(m) => Some(m.clone()),
            _ => None,
        })
        .collect()
}

fn game_state(mode: GameMode) -> GameState {
    GameState::InGame {
        local_player: LocalPlayer::P1,
        client_mode: ClientMode::Host,
        game_mode: mode,
        timers: GameTimers::new(0, 0, 0),
        players: [Player { character: GameChar::Nero, moon: Moon::Crescent, score: 0 }; 2],
    }
}

#[test]
fn watcher_full_session() {
    let mut w = Watcher::new();
    assert!(matches!(w.request(), WatchRequest::IsMeltyRunning));
    let a = w.answer(WatchAnswer::Flag(true));
    assert_eq!(logs(&a), vec!["MBAA session detected. Restart MBAA.exe"]);
    assert!(matches!(a[1], WatchAction::Sleep(2000)));
    // MBAA still runs, no cancel: wait.
    assert!(w.answer(WatchAnswer::Flag(true)).is_empty());
    assert!(matches!(w.request(), WatchRequest::IsCanceled));
    assert!(matches!(w.answer(WatchAnswer::Flag(false))[0], WatchAction::Sleep(2000)));
    // MBAA closed: attach.
    assert!(w.answer(WatchAnswer::Flag(false)).is_empty());
    assert!(matches!(w.request(), WatchRequest::IsCanceled));
    assert!(w.answer(WatchAnswer::Flag(false)).is_empty());
    assert!(matches!(w.request(), WatchRequest::Attach));
    let a = w.answer(WatchAnswer::Attached(Err(MemoryError::MultipleProcessesError("MBAA.exe".to_string()))));
    assert_eq!(logs(&a), vec!["Error: Multiple 'MBAA.exe' processes detected"]);
    w.answer(WatchAnswer::Flag(false));
    let a = w.answer(WatchAnswer::Attached(Err(MemoryError::MultipleProcessesError("MBAA.exe".to_string()))));
    assert!(logs(&a).is_empty());
    w.answer(WatchAnswer::Flag(false));
    let a = w.answer(WatchAnswer::Attached(Ok(())));
    assert_eq!(logs(&a), vec!["Attached to MBAA and CCCaster"]);
    assert!(matches!(a[1], WatchAction::StartClock));
    w.answer(WatchAnswer::Flag(false));
    assert!(matches!(w.request(), WatchRequest::PollSessionIds));
    let a = w.answer(WatchAnswer::SessionIds(Ok(vec![]), 3));
    assert!(matches!(a[0], WatchAction::Sleep(1000)));
    w.answer(WatchAnswer::Flag(false));
    w.answer(WatchAnswer::SessionIds(Ok(vec!["Ab1".to_string()]), 4));
    assert!(matches!(w.request(), WatchRequest::SendIds));
    assert_eq!(w.pending_ids().unwrap(), &vec!["Ab1".to_string()]);
    w.answer(WatchAnswer::Flag(true));
    // The cancel mark is checked before the pairing mark.
    assert!(matches!(w.request(), WatchRequest::IsCanceled));
    assert!(w.answer(WatchAnswer::Flag(false)).is_empty());
    assert!(matches!(w.request(), WatchRequest::IsPaired));
    assert!(matches!(w.answer(WatchAnswer::Flag(false))[0], WatchAction::Sleep(1000)));
    assert!(matches!(w.request(), WatchRequest::IsCanceled));
    w.answer(WatchAnswer::Flag(false));
    w.answer(WatchAnswer::Flag(true));
    assert!(matches!(w.request(), WatchRequest::PollGameState));
    let not_in_game = GameState::NotInGame { game_mode: GameMode::CharSelect, client_mode: ClientMode::Host, host_position: 1 };
    let a = w.answer(WatchAnswer::Game(Ok(not_in_game)));
    assert_eq!(logs(&a), vec!["Waiting for the match to start..."]);
    assert!(matches!(w.request(), WatchRequest::SendState(GameState::NotInGame { .. })));
    assert!(matches!(w.answer(WatchAnswer::Flag(true))[0], WatchAction::Sleep(16)));
    let a = w.answer(WatchAnswer::Game(Ok(game_state(GameMode::InGame))));
    assert_eq!(logs(&a), vec!["Playing a match..."]);
    w.answer(WatchAnswer::Flag(true));
    let a = w.answer(WatchAnswer::Game(Ok(game_state(GameMode::InGame))));
    assert!(logs(&a).is_empty());
    w.answer(WatchAnswer::Flag(true));
    let a = w.answer(WatchAnswer::Game(Err(MemoryError::ReadFailed("x".to_string()))));
    assert!(matches!(a[0], WatchAction::Sleep(1000)));
    assert!(matches!(w.request(), WatchRequest::IsMeltyRunning));
    let a = w.answer(WatchAnswer::Flag(false));
    assert_eq!(logs(&a), vec!["Game closed"]);
    assert!(matches!(a[1], WatchAction::Detach));
    assert!(w.is_done());
    assert!(matches!(w.request(), WatchRequest::Finished));
}

#[test]
fn watcher_stops_when_canceled_even_if_paired() {
    let mut w = Watcher::new();
    w.answer(WatchAnswer::Flag(false));
    w.answer(WatchAnswer::Flag(false));
    w.answer(WatchAnswer::Flag(false));
    w.answer(WatchAnswer::Attached(Ok(())));
    w.answer(WatchAnswer::Flag(false));
    w.answer(WatchAnswer::SessionIds(Ok(vec!["Ab1".to_string()]), 1));
    w.answer(WatchAnswer::Flag(true));
    // Both marks are set: the cancel is seen first and no game state is read.
    assert!(matches!(w.request(), WatchRequest::IsCanceled));
    assert!(w.answer(WatchAnswer::Flag(true)).is_empty());
    assert!(w.is_done());
    assert!(matches!(w.request(), WatchRequest::Finished));
}

#[test]
fn watcher_gives_up_on_unsupported_caster_and_times_out() {
    let mut w = Watcher::new();
    let a = w.answer(WatchAnswer::Flag(false));
    assert_eq!(logs(&a), vec!["Waiting for MBAA and CCCaster"]);
    w.answer(WatchAnswer::Flag(false));
    w.answer(WatchAnswer::Flag(false));
    let a = w.answer(WatchAnswer::Attached(Err(MemoryError::InvalidCCCaster)));
    assert_eq!(logs(&a), vec!["Invalid version"]);
    assert!(matches!(a[1], WatchAction::SetCanceled));
    assert!(w.is_done());

    let mut w = Watcher::new();
    w.answer(WatchAnswer::Flag(false));
    w.answer(WatchAnswer::Flag(false));
    w.answer(WatchAnswer::Flag(false));
    w.answer(WatchAnswer::Attached(Ok(())));
    w.answer(WatchAnswer::Flag(false));
    let a = w.answer(WatchAnswer::SessionIds(Ok(vec![]), 15));
    assert_eq!(logs(&a), vec!["Could not find session, matching players is not possible"]);
    assert!(w.is_done());
}

#[test]
fn watcher_stops_on_cancel() {
    let mut w = Watcher::new();
    w.answer(WatchAnswer::Flag(false));
    w.answer(WatchAnswer::Flag(false));
    let a = w.answer(WatchAnswer::Flag(true));
    assert!(a.is_empty());
    assert!(w.is_done());
}

fn run_logs(actions: &[RunAction]) -> Vec<String> {
    actions
        .iter()
        .filter_map(|a| match a {
            RunAction::Log(m) => Some(m.clone()),
            _ => None,
        })
        .collect()
}

#[test]
fn runner_matched_session() {
    let mut r = Runner::new();
    assert!(matches!(r.request(), RunRequest::RecvCommand));
    assert!(r.answer(RunAnswer::Command(Some(AppCommand::Start))).is_empty());
    assert!(matches!(r.request(), RunRequest::ChangeState(ClientState::WaitingForOpponent)));
    let a = r.answer(RunAnswer::Flag(true));
    assert_eq!(run_logs(&a), vec!["Ranked mode enabled"]);
    assert!(matches!(a[1], RunAction::SpawnMemoryWorker));
    assert!(matches!(r.request(), RunRequest::TryRecvCommand));
    assert!(r.answer(RunAnswer::Polled(CommandPoll::Empty)).is_empty());
    assert!(matches!(r.request(), RunRequest::TryRecvIds));
    assert!(matches!(r.answer(RunAnswer::Ids(IdsPoll::Empty))[0], RunAction::Sleep(500)));
    r.answer(RunAnswer::Polled(CommandPoll::Received(AppCommand::Start)));
    let a = r.answer(RunAnswer::Ids(IdsPoll::Received(vec!["id".to_string()])));
    assert_eq!(run_logs(&a), vec!["Sending queue request to the server"]);
    assert!(matches!(&a[1], RunAction::SpawnQueueWorker(ids) if ids == &vec!["id".to_string()]));
    r.answer(RunAnswer::Polled(CommandPoll::Empty));
    assert!(matches!(r.request(), RunRequest::IsQueueWorkerFinished));
    assert!(matches!(r.answer(RunAnswer::Flag(false))[0], RunAction::Sleep(500)));
    r.answer(RunAnswer::Polled(CommandPoll::Empty));
    r.answer(RunAnswer::Flag(true));
    assert!(matches!(r.request(), RunRequest::IsCanceled));
    let a = r.answer(RunAnswer::Flag(false));
    assert!(matches!(a[0], RunAction::RunValidation));
    assert!(matches!(a[1], RunAction::ResetFlags));
    assert!(matches!(r.request(), RunRequest::RecvCommand));
}

#[test]
fn runner_cancels_and_exits() {
    let mut r = Runner::new();
    r.answer(RunAnswer::Command(Some(AppCommand::Start)));
    r.answer(RunAnswer::Flag(true));
    assert!(r.answer(RunAnswer::Polled(CommandPoll::Received(AppCommand::Stop))).is_empty());
    assert!(matches!(r.request(), RunRequest::ChangeState(ClientState::Idle)));
    let a = r.answer(RunAnswer::Flag(true));
    assert!(matches!(a[0], RunAction::SetCanceled));
    assert_eq!(run_logs(&a), vec!["Ranked mode disabled"]);
    assert!(matches!(a.last(), Some(RunAction::ResetFlags)));
    // A closed command channel is reported while queued.
    r.answer(RunAnswer::Command(Some(AppCommand::Start)));
    r.answer(RunAnswer::Flag(true));
    r.answer(RunAnswer::Polled(CommandPoll::Empty));
    r.answer(RunAnswer::Ids(IdsPoll::Received(vec!["id".to_string()])));
    let a = r.answer(RunAnswer::Polled(CommandPoll::Received(AppCommand::Exit)));
    assert!(matches!(a[0], RunAction::SetCanceled));
    assert!(matches!(r.request(), RunRequest::ChangeState(ClientState::Exit)));
    r.answer(RunAnswer::Flag(true));
    assert!(matches!(r.request(), RunRequest::SendCancelQueue));
    let a = r.answer(RunAnswer::Flag(false));
    assert_eq!(run_logs(&a), vec!["Internal error while queueing", "Atlas stopped running"]);
    assert!(r.is_stopped());

    let mut r = Runner::new();
    r.answer(RunAnswer::Command(Some(AppCommand::Exit)));
    assert!(matches!(r.request(), RunRequest::ChangeState(ClientState::Exit)));
    let a = r.answer(RunAnswer::Flag(false));
    assert_eq!(run_logs(&a), vec!["Internal error, could not exit Atlas", "Atlas stopped running"]);
    assert!(r.is_stopped());
    assert!(matches!(r.request(), RunRequest::Finished));
    assert_eq!(connected_message("Rival"), "Connected to Rival");
}

#[test]
fn runner_watcher_gone() {
    let mut r = Runner::new();
    let a = r.answer(RunAnswer::Command(None));
    assert_eq!(run_logs(&a), vec!["Error trying to receive command. Check logs for details"]);
    r.answer(RunAnswer::Command(Some(AppCommand::Start)));
    r.answer(RunAnswer::Flag(true));
    let a = r.answer(RunAnswer::Polled(CommandPoll::Disconnected));
    assert_eq!(run_logs(&a), vec!["Error trying to receive command"]);
    r.answer(RunAnswer::Ids(IdsPoll::Disconnected));
    assert!(matches!(r.request(), RunRequest::ChangeState(ClientState::Idle)));
    let a = r.answer(RunAnswer::Flag(false));
    assert_eq!(run_logs(&a), vec!["Failed to exit ranked mode", "Atlas stopped running"]);
    assert!(r.is_stopped());
}

#[test]
fn input_line_editing() {
    let mut line = InputLine::new();
    for c in "  sta".chars() {
        assert!(matches!(line.handle_key(Key::Char(c), false, true), KeyOutcome::Nothing));
    }
    line.append_str("rtx ");
    assert_eq!(line.text(), "  startx ");
    line.handle_key(Key::Backspace, false, true);
    line.handle_key(Key::Backspace, false, true);
    assert_eq!(line.text(), "  start");
    line.handle_key(Key::Char('!'), false, false);
    assert_eq!(line.text(), "  start");
    assert!(matches!(line.handle_key(Key::Char('x'), true, true), KeyOutcome::Command(AppCommand::Exit)));
    assert!(matches!(line.handle_key(Key::Char('v'), true, true), KeyOutcome::Paste));
    assert!(matches!(line.handle_key(Key::Up, false, true), KeyOutcome::ScrollUp));
    assert!(matches!(line.handle_key(Key::Down, false, true), KeyOutcome::ScrollDown));
    match line.handle_key(Key::Enter, false, true) {
        KeyOutcome::Submit(cmd) => assert_eq!(cmd, "start"),
        other => panic!("unexpected {:?}", other),
    }
    assert_eq!(line.text(), "");
    line.handle_key(Key::Backspace, false, true);
    assert_eq!(line.text(), "");
    match line.handle_key(Key::Enter, false, true) {
        KeyOutcome::Submit(cmd) => assert_eq!(cmd, ""),
        other => panic!("unexpected {:?}", other),
    }
    line.append_str("\t a b \n");
    match line.handle_key(Key::Enter, false, true) {
        KeyOutcome::Submit(cmd) => assert_eq!(cmd, "a b"),
        other => panic!("unexpected {:?}", other),
    }
}

#[test]
fn queue_worker_leaves_one_mark() {
    let pair = QueueStep::Pair {
        message: "Connected to x".to_string(),
        state: ClientState::PlayingRanked("s".to_string()),
    };
    assert!(matches!(worker_mark(&pair, true), WorkerMark::Paired));
    assert!(matches!(
        worker_mark(&pair, false),
        WorkerMark::Canceled(Some("Internal error while starting ranked match"))
    ));
    let fail = QueueStep::Fail { reason: Some("No response from the server") };
    assert!(matches!(worker_mark(&fail, true), WorkerMark::Canceled(Some("No response from the server"))));
    assert!(matches!(worker_mark(&QueueStep::Fail { reason: None }, false), WorkerMark::Canceled(None)));
}
