use vstd::prelude::*;

use crate::client::http::ClientError;
use crate::client::models::MatchedResponse;
use crate::client::state::ClientState;
use crate::memory::reader::texts;
use crate::ui::AppCommand;

verus! {

/// What can stop the ranked-mode runner.
#[derive(Debug)]
pub enum RunnerError {
    StateError(ClientError),
    UIChannelDroppedError,
    MemoryChannelDroppedError,
}

/// How waiting for an opponent ended.
#[derive(Debug, Clone, Copy, PartialEq, Eq, Structural)]
pub enum Queue {
    Matched,
    Canceled,
}

/// The state a command asks for while the runner waits to start: `start` enters the queue,
/// `exit` closes; `stop` means nothing there.
pub fn start_command_state(cmd: AppCommand) -> (r: Option<ClientState>)
    ensures
        cmd == AppCommand::Start ==> r == Some(ClientState::WaitingForOpponent),
        cmd == AppCommand::Exit ==> r == Some(ClientState::Exit),
        cmd == AppCommand::Stop ==> r is None,
{
    match cmd {
        AppCommand::Start => Some(ClientState::WaitingForOpponent),
        AppCommand::Exit => Some(ClientState::Exit),
        AppCommand::Stop => None,
    }
}

/// The state a command asks for while ranked mode is on: `stop` goes back to idle, `exit`
/// closes; `start` means nothing there.
pub fn cancel_command_state(cmd: AppCommand) -> (r: Option<ClientState>)
    ensures
        cmd == AppCommand::Stop ==> r == Some(ClientState::Idle),
        cmd == AppCommand::Exit ==> r == Some(ClientState::Exit),
        cmd == AppCommand::Start ==> r is None,
{
    match cmd {
        AppCommand::Stop => Some(ClientState::Idle),
        AppCommand::Exit => Some(ClientState::Exit),
        AppCommand::Start => None,
    }
}

/// How waiting ends once the queue request is answered: canceled if the player or the
/// request canceled it, else matched.
pub fn queue_finished(is_canceled: bool) -> (r: Queue)
    ensures
        r == if is_canceled { Queue::Canceled } else { Queue::Matched },
{
    if is_canceled {
        Queue::Canceled
    } else {
        Queue::Matched
    }
}

/// The state of a client paired by the server: playing in the session the server named.
pub fn paired_state(response: &MatchedResponse) -> (r: ClientState)
    ensures
        r matches ClientState::PlayingRanked(id) && id@ == response.session_id@,
{
    ClientState::PlayingRanked(response.session_id.clone())
}

/// Whether a client error is the server's request timeout (408).
pub open spec fn is_timeout(err: ClientError) -> bool {
    err matches ClientError::ServerError(s) && s == 408
}

/// What the player is told when the queue request fails: an expired queue, a silent server,
/// nothing if the player canceled, or a general message.
pub open spec fn queue_failure_text(err: ClientError, is_canceled: bool) -> Option<Seq<char>> {
    if is_timeout(err) {
        Some("Queue request expired, could not pair players"@)
    } else if err is RequestError {
        Some("No response from the server"@)
    } else if is_canceled {
        None
    } else {
        Some("Error trying to send queue request, check logs for details"@)
    }
}

/// What the player is told when the queue request fails (see `queue_failure_text`).
pub fn queue_failure_message(err: &ClientError, is_canceled: bool) -> (r: Option<&'static str>)
    ensures
        match r {
            Some(m) => queue_failure_text(*err, is_canceled) == Some(m@),
            None => queue_failure_text(*err, is_canceled) is None,
        },
{
    match err {
        ClientError::ServerError(408) => Some("Queue request expired, could not pair players"),
        ClientError::RequestError => Some("No response from the server"),
        _ => {
            if is_canceled {
                None
            } else {
                Some("Error trying to send queue request, check logs for details")
            }
        },
    }
}

/// The message when the server pairs the player with an opponent.
pub fn connected_message(opponent: &str) -> (r: String)
    ensures
        r@ == "Connected to "@ + opponent@,
{
    let mut msg = String::from_str("Connected to ");
    msg.append(opponent);
    msg
}

/// What the queue worker does with the server's answer to the queue request.
#[derive(Debug)]
pub enum QueueStep {
    /// Paired: tell the player, and record this state.
    Pair { message: String, state: ClientState },
    /// Not paired: tell the player (unless there is nothing to say) and mark the queue as
    /// canceled.
    Fail { reason: Option<&'static str> },
}

/// Decides what follows the answer to a queue request.
pub fn queue_response_step(outcome: &Result<MatchedResponse, ClientError>, is_canceled: bool) -> (r:
    QueueStep)
    ensures
        match *outcome {
            Ok(resp) => r matches QueueStep::Pair { message, state } && message@ == "Connected to "@
                + resp.opponent_discord_username@ && (state matches ClientState::PlayingRanked(id)
                && id@ == resp.session_id@),
            Err(e) => r matches QueueStep::Fail { reason } && match reason {
                Some(m) => queue_failure_text(e, is_canceled) == Some(m@),
                None => queue_failure_text(e, is_canceled) is None,
            },
        },
{
    match outcome {
        Ok(resp) => QueueStep::Pair {
            message: connected_message(resp.opponent_discord_username.as_str()),
            state: paired_state(resp),
        },
        Err(e) => QueueStep::Fail { reason: queue_failure_message(e, is_canceled) },
    }
}

/// The mark the queue worker leaves when it is done: exactly one of the two.
#[derive(Debug, Clone, Copy)]
pub enum WorkerMark {
    /// The players are paired.
    Paired,
    /// The queue is canceled, after telling the player this (if anything).
    Canceled(Option<&'static str>),
}

/// How the queue worker ends, given its step and, for a pairing, whether the paired state
/// could be recorded: paired when it was; otherwise canceled, with the reason to tell.
pub fn worker_mark(step: &QueueStep, state_recorded: bool) -> (r: WorkerMark)
    ensures
        match *step {
            QueueStep::Pair { .. } => if state_recorded {
                r == WorkerMark::Paired
            } else {
                r matches WorkerMark::Canceled(Some(m)) && m@
                    == "Internal error while starting ranked match"@
            },
            QueueStep::Fail { reason } => r == WorkerMark::Canceled(reason),
        },
{
    match step {
        QueueStep::Pair { .. } => {
            if state_recorded {
                WorkerMark::Paired
            } else {
                WorkerMark::Canceled(Some("Internal error while starting ranked match"))
            }
        },
        QueueStep::Fail { reason } => WorkerMark::Canceled(*reason),
    }
}

/// The outcome of a look at the command channel that does not wait.
pub enum CommandPoll {
    Received(AppCommand),
    Empty,
    Disconnected,
}

/// The outcome of a look at the session id channel that does not wait.
pub enum IdsPoll {
    Received(Vec<String>),
    Empty,
    Disconnected,
}

/// Where the ranked-mode runner stands. It waits for `start`, enters the queue, waits for the
/// memory watcher's session ids, asks the server for an opponent, and once paired validates the
/// match; `stop` and `exit` cancel along the way.
pub enum RunPhase {
    /// Waiting for a command.
    WaitingStart,
    /// Recording that the observer closes.
    Exiting,
    /// Recording that the client waits for an opponent.
    EnteringQueue,
    /// Looking for a cancel while the watcher reads session ids.
    AcquireCancelCheck,
    /// Recording the state a cancel asked for, while reading ids.
    CancelAcquire(ClientState),
    /// Looking for the session ids.
    AcquireIds,
    /// The watcher went away: recording that the client is idle again.
    LeavingAfterDrop,
    /// Looking for a cancel while the server pairs players.
    QueueCancelCheck,
    /// Recording the state a cancel asked for, while queued.
    CancelQueue(ClientState),
    /// Telling the server the queue is canceled.
    SendingCancel,
    /// Seeing whether the queue request was answered.
    QueueWorkerCheck,
    /// The queue request was answered: seeing whether it was canceled.
    QueueOutcome,
    /// Recording that the client is idle again after a canceled queue.
    LeavingQueue,
    /// The runner has stopped.
    Stopped,
}

/// What the runner asks of the program that runs it.
#[derive(Debug)]
pub enum RunRequest {
    /// Answer `Command`: the next command, waiting for it (`None` if the channel is closed).
    RecvCommand,
    /// Answer `Polled`: a command if one is waiting.
    TryRecvCommand,
    /// Answer `Flag`: whether the client state could be set to this one (and announced).
    ChangeState(ClientState),
    /// Answer `Ids`: session ids if the watcher sent them.
    TryRecvIds,
    /// Answer `Flag`: whether the queue request has been answered.
    IsQueueWorkerFinished,
    /// Answer `Flag`: whether ranked mode was canceled.
    IsCanceled,
    /// Answer `Flag`: whether the server accepted the cancellation of the queue.
    SendCancelQueue,
    /// Nothing more to do.
    Finished,
}

/// The answer to a request.
pub enum RunAnswer {
    Command(Option<AppCommand>),
    Polled(CommandPoll),
    Flag(bool),
    Ids(IdsPoll),
}

/// What the program that runs the runner does, in order, after an answer.
#[derive(Debug)]
pub enum RunAction {
    /// Tell the player.
    Log(String),
    /// Wait this many milliseconds.
    Sleep(u64),
    /// Clear the canceled and paired marks.
    ResetFlags,
    /// Mark ranked mode as canceled.
    SetCanceled,
    /// Start the memory watcher.
    SpawnMemoryWorker,
    /// Send the queue request for these session ids.
    SpawnQueueWorker(Vec<String>),
    /// Validate the paired match until the watcher stops.
    RunValidation,
}

/// The value of a `RunAction`.
pub enum RunActionView {
    Log(Seq<char>),
    Sleep(u64),
    ResetFlags,
    SetCanceled,
    SpawnMemoryWorker,
    SpawnQueueWorker(Seq<Seq<char>>),
    RunValidation,
}

pub open spec fn run_action_view(a: RunAction) -> RunActionView {
    match a {
        RunAction::Log(m) => RunActionView::Log(m@),
        RunAction::Sleep(ms) => RunActionView::Sleep(ms),
        RunAction::ResetFlags => RunActionView::ResetFlags,
        RunAction::SetCanceled => RunActionView::SetCanceled,
        RunAction::SpawnMemoryWorker => RunActionView::SpawnMemoryWorker,
        RunAction::SpawnQueueWorker(ids) => RunActionView::SpawnQueueWorker(texts(ids@)),
        RunAction::RunValidation => RunActionView::RunValidation,
    }
}

pub open spec fn run_actions_view(v: Seq<RunAction>) -> Seq<RunActionView> {
    v.map_values(|a: RunAction| run_action_view(a))
}

/// The state a look at the command channel asks for, if it found a cancel command.
pub open spec fn polled_cancel(poll: CommandPoll) -> Option<ClientState> {
    match poll {
        CommandPoll::Received(AppCommand::Stop) => Some(ClientState::Idle),
        CommandPoll::Received(AppCommand::Exit) => Some(ClientState::Exit),
        _ => None,
    }
}

/// The messages when a look at the command channel found it closed.
pub open spec fn poll_logs(poll: CommandPoll) -> Seq<RunActionView> {
    if poll is Disconnected {
        seq![RunActionView::Log("Error trying to receive command"@)]
    } else {
        seq![]
    }
}

pub open spec fn stop_with(msg: Seq<char>) -> (RunPhase, Seq<RunActionView>) {
    (RunPhase::Stopped, seq![RunActionView::Log(msg), RunActionView::Log("Atlas stopped running"@)])
}

pub open spec fn restart(logs: Seq<RunActionView>) -> (RunPhase, Seq<RunActionView>) {
    (RunPhase::WaitingStart, logs.push(RunActionView::ResetFlags))
}

/// One step of the runner: the phase after an answer, and the actions to perform.
pub open spec fn run_step(p: RunPhase, a: RunAnswer) -> (RunPhase, Seq<RunActionView>) {
    match (p, a) {
        (RunPhase::WaitingStart, RunAnswer::Command(cmd)) => match cmd {
            None => restart(
                seq![RunActionView::Log("Error trying to receive command. Check logs for details"@)],
            ),
            Some(AppCommand::Start) => (RunPhase::EnteringQueue, seq![]),
            Some(AppCommand::Exit) => (RunPhase::Exiting, seq![]),
            Some(AppCommand::Stop) => restart(seq![]),
        },
        (RunPhase::Exiting, RunAnswer::Flag(ok)) => (
            RunPhase::Stopped,
            if ok {
                seq![RunActionView::Log("Atlas stopped running"@)]
            } else {
                seq![
                    RunActionView::Log("Internal error, could not exit Atlas"@),
                    RunActionView::Log("Atlas stopped running"@),
                ]
            },
        ),
        (RunPhase::EnteringQueue, RunAnswer::Flag(ok)) => if ok {
            (
                RunPhase::AcquireCancelCheck,
                seq![RunActionView::Log("Ranked mode enabled"@), RunActionView::SpawnMemoryWorker],
            )
        } else {
            stop_with("Error trying to start ranked mode, check logs for details"@)
        },
        (RunPhase::AcquireCancelCheck, RunAnswer::Polled(poll)) => match polled_cancel(poll) {
            Some(state) => (RunPhase::CancelAcquire(state), poll_logs(poll)),
            None => (RunPhase::AcquireIds, poll_logs(poll)),
        },
        (RunPhase::CancelAcquire(_), RunAnswer::Flag(ok)) => restart(
            if ok {
                seq![RunActionView::SetCanceled, RunActionView::Log("Ranked mode disabled"@)]
            } else {
                seq![
                    RunActionView::Log(
                        "Internal error trying to cancel ranked mode, check logs for details"@,
                    ),
                    RunActionView::SetCanceled,
                    RunActionView::Log("Ranked mode disabled"@),
                ]
            },
        ),
        (RunPhase::AcquireIds, RunAnswer::Ids(poll)) => match poll {
            IdsPoll::Received(ids) => (
                RunPhase::QueueCancelCheck,
                seq![
                    RunActionView::Log("Sending queue request to the server"@),
                    RunActionView::SpawnQueueWorker(texts(ids@)),
                ],
            ),
            IdsPoll::Empty => (RunPhase::AcquireCancelCheck, seq![RunActionView::Sleep(500)]),
            IdsPoll::Disconnected => (RunPhase::LeavingAfterDrop, seq![]),
        },
        (RunPhase::LeavingAfterDrop, RunAnswer::Flag(ok)) => if ok {
            restart(seq![RunActionView::Log("Ranked mode disabled"@)])
        } else {
            stop_with("Failed to exit ranked mode"@)
        },
        (RunPhase::QueueCancelCheck, RunAnswer::Polled(poll)) => match polled_cancel(poll) {
            Some(state) => (
                RunPhase::CancelQueue(state),
                poll_logs(poll).push(RunActionView::SetCanceled),
            ),
            None => (RunPhase::QueueWorkerCheck, poll_logs(poll)),
        },
        (RunPhase::CancelQueue(_), RunAnswer::Flag(ok)) => (
            RunPhase::SendingCancel,
            if ok {
                seq![]
            } else {
                seq![RunActionView::Log("Error trying to execute cancel command"@)]
            },
        ),
        (RunPhase::SendingCancel, RunAnswer::Flag(ok)) => if ok {
            restart(seq![])
        } else {
            stop_with("Internal error while queueing"@)
        },
        (RunPhase::QueueWorkerCheck, RunAnswer::Flag(finished)) => if finished {
            (RunPhase::QueueOutcome, seq![])
        } else {
            (RunPhase::QueueCancelCheck, seq![RunActionView::Sleep(500)])
        },
        (RunPhase::QueueOutcome, RunAnswer::Flag(canceled)) => if canceled {
            (RunPhase::LeavingQueue, seq![])
        } else {
            restart(seq![RunActionView::RunValidation])
        },
        (RunPhase::LeavingQueue, RunAnswer::Flag(ok)) => restart(
            if ok {
                seq![]
            } else {
                seq![RunActionView::Log("Error trying to go back to idle"@)]
            },
        ),
        _ => (RunPhase::Stopped, seq![]),
    }
}

/// The ranked-mode runner: decides, from the answers it is given, what the program that runs
/// it asks and does next.
pub struct Runner {
    phase: RunPhase,
}

impl View for Runner {
    type V = RunPhase;

    closed spec fn view(&self) -> RunPhase {
        self.phase
    }
}

fn say(msg: &str) -> (a: RunAction)
    ensures
        run_action_view(a) == RunActionView::Log(msg@),
{
    RunAction::Log(String::from_str(msg))
}

impl Runner {
    /// A runner waiting for the first command (with both marks cleared).
    pub fn new() -> (r: Runner)
        ensures
            r@ == RunPhase::WaitingStart,
    {
        Runner { phase: RunPhase::WaitingStart }
    }

    /// Whether the runner has stopped.
    pub fn is_stopped(&self) -> (r: bool)
        ensures
            r == (self@ is Stopped),
    {
        matches!(self.phase, RunPhase::Stopped)
    }

    /// What the runner asks next.
    pub fn request(&self) -> (r: RunRequest)
        ensures
            match self@ {
                RunPhase::WaitingStart => r is RecvCommand,
                RunPhase::Exiting => r == RunRequest::ChangeState(ClientState::Exit),
                RunPhase::EnteringQueue => r == RunRequest::ChangeState(
                    ClientState::WaitingForOpponent,
                ),
                RunPhase::AcquireCancelCheck | RunPhase::QueueCancelCheck => r is TryRecvCommand,
                RunPhase::CancelAcquire(s) | RunPhase::CancelQueue(s) => r
                    == RunRequest::ChangeState(s),
                RunPhase::AcquireIds => r is TryRecvIds,
                RunPhase::LeavingAfterDrop | RunPhase::LeavingQueue => r == RunRequest::ChangeState(
                    ClientState::Idle,
                ),
                RunPhase::SendingCancel => r is SendCancelQueue,
                RunPhase::QueueWorkerCheck => r is IsQueueWorkerFinished,
                RunPhase::QueueOutcome => r is IsCanceled,
                RunPhase::Stopped => r is Finished,
            },
    {
        match &self.phase {
            RunPhase::WaitingStart => RunRequest::RecvCommand,
            RunPhase::Exiting => RunRequest::ChangeState(ClientState::Exit),
            RunPhase::EnteringQueue => RunRequest::ChangeState(ClientState::WaitingForOpponent),
            RunPhase::AcquireCancelCheck | RunPhase::QueueCancelCheck => RunRequest::TryRecvCommand,
            RunPhase::CancelAcquire(s) | RunPhase::CancelQueue(s) => RunRequest::ChangeState(
                s.duplicate(),
            ),
            RunPhase::AcquireIds => RunRequest::TryRecvIds,
            RunPhase::LeavingAfterDrop | RunPhase::LeavingQueue => RunRequest::ChangeState(
                ClientState::Idle,
            ),
            RunPhase::SendingCancel => RunRequest::SendCancelQueue,
            RunPhase::QueueWorkerCheck => RunRequest::IsQueueWorkerFinished,
            RunPhase::QueueOutcome => RunRequest::IsCanceled,
            RunPhase::Stopped => RunRequest::Finished,
        }
    }

    /// Takes the answer to the current request and returns what to do, in order. An answer of
    /// another kind than the one asked for stops the machine.
    pub fn answer(&mut self, a: RunAnswer) -> (actions: Vec<RunAction>)
        ensures
            final(self)@ == run_step(old(self)@, a).0,
            run_actions_view(actions@) == run_step(old(self)@, a).1,
    {
        let mut actions: Vec<RunAction> = Vec::new();
        let mut reset = false;
        let next = match (&self.phase, a) {
            (RunPhase::WaitingStart, RunAnswer::Command(cmd)) => match cmd {
                None => {
                    actions.push(say("Error trying to receive command. Check logs for details"));
                    reset = true;
                    RunPhase::WaitingStart
                },
                Some(cmd) => match start_command_state(cmd) {
                    Some(ClientState::WaitingForOpponent) => RunPhase::EnteringQueue,
                    Some(_) => RunPhase::Exiting,
                    None => {
                        reset = true;
                        RunPhase::WaitingStart
                    },
                },
            },
            (RunPhase::Exiting, RunAnswer::Flag(ok)) => {
                if !ok {
                    actions.push(say("Internal error, could not exit Atlas"));
                }
                actions.push(say("Atlas stopped running"));
                RunPhase::Stopped
            },
            (RunPhase::EnteringQueue, RunAnswer::Flag(ok)) => {
                if ok {
                    actions.push(say("Ranked mode enabled"));
                    actions.push(RunAction::SpawnMemoryWorker);
                    RunPhase::AcquireCancelCheck
                } else {
                    actions.push(say("Error trying to start ranked mode, check logs for details"));
                    actions.push(say("Atlas stopped running"));
                    RunPhase::Stopped
                }
            },
            (RunPhase::AcquireCancelCheck, RunAnswer::Polled(poll)) => {
                let cancel = self.poll_cancel(&poll, &mut actions);
                match cancel {
                    Some(state) => RunPhase::CancelAcquire(state),
                    None => RunPhase::AcquireIds,
                }
            },
            (RunPhase::CancelAcquire(_), RunAnswer::Flag(ok)) => {
                if !ok {
                    actions.push(
                        say("Internal error trying to cancel ranked mode, check logs for details"),
                    );
                }
                actions.push(RunAction::SetCanceled);
                actions.push(say("Ranked mode disabled"));
                reset = true;
                RunPhase::WaitingStart
            },
            (RunPhase::AcquireIds, RunAnswer::Ids(poll)) => match poll {
                IdsPoll::Received(ids) => {
                    actions.push(say("Sending queue request to the server"));
                    actions.push(RunAction::SpawnQueueWorker(ids));
                    RunPhase::QueueCancelCheck
                },
                IdsPoll::Empty => {
                    actions.push(RunAction::Sleep(500));
                    RunPhase::AcquireCancelCheck
                },
                IdsPoll::Disconnected => RunPhase::LeavingAfterDrop,
            },
            (RunPhase::LeavingAfterDrop, RunAnswer::Flag(ok)) => {
                if ok {
                    actions.push(say("Ranked mode disabled"));
                    reset = true;
                    RunPhase::WaitingStart
                } else {
                    actions.push(say("Failed to exit ranked mode"));
                    actions.push(say("Atlas stopped running"));
                    RunPhase::Stopped
                }
            },
            (RunPhase::QueueCancelCheck, RunAnswer::Polled(poll)) => {
                let cancel = self.poll_cancel(&poll, &mut actions);
                match cancel {
                    Some(state) => {
                        actions.push(RunAction::SetCanceled);
                        RunPhase::CancelQueue(state)
                    },
                    None => RunPhase::QueueWorkerCheck,
                }
            },
            (RunPhase::CancelQueue(_), RunAnswer::Flag(ok)) => {
                if !ok {
                    actions.push(say("Error trying to execute cancel command"));
                }
                RunPhase::SendingCancel
            },
            (RunPhase::SendingCancel, RunAnswer::Flag(ok)) => {
                if ok {
                    reset = true;
                    RunPhase::WaitingStart
                } else {
                    actions.push(say("Internal error while queueing"));
                    actions.push(say("Atlas stopped running"));
                    RunPhase::Stopped
                }
            },
            (RunPhase::QueueWorkerCheck, RunAnswer::Flag(finished)) => {
                if finished {
                    RunPhase::QueueOutcome
                } else {
                    actions.push(RunAction::Sleep(500));
                    RunPhase::QueueCancelCheck
                }
            },
            (RunPhase::QueueOutcome, RunAnswer::Flag(canceled)) => match queue_finished(canceled) {
                Queue::Canceled => RunPhase::LeavingQueue,
                Queue::Matched => {
                    actions.push(RunAction::RunValidation);
                    reset = true;
                    RunPhase::WaitingStart
                },
            },
            (RunPhase::LeavingQueue, RunAnswer::Flag(ok)) => {
                if !ok {
                    actions.push(say("Error trying to go back to idle"));
                }
                reset = true;
                RunPhase::WaitingStart
            },
            _ => RunPhase::Stopped,
        };
        if reset {
            actions.push(RunAction::ResetFlags);
        }
        self.phase = next;
        proof {
            assert(run_actions_view(actions@) =~= run_step(old(self)@, a).1);
        }
        actions
    }

    /// The state a look at the command channel asks for; a closed channel is reported.
    fn poll_cancel(&self, poll: &CommandPoll, actions: &mut Vec<RunAction>) -> (r: Option<
        ClientState,
    >)
        ensures
            r == polled_cancel(*poll),
            run_actions_view(final(actions)@) == run_actions_view(old(actions)@) + poll_logs(
                *poll,
            ),
    {
        let ghost before = actions@;
        let r = match poll {
            CommandPoll::Received(cmd) => cancel_command_state(*cmd),
            CommandPoll::Empty => None,
            CommandPoll::Disconnected => {
                actions.push(say("Error trying to receive command"));
                None
            },
        };
        assert(run_actions_view(actions@) =~= run_actions_view(before) + poll_logs(*poll));
        r
    }
}

/// A cancel found while the watcher reads session ids ends, whether or not the new state could
/// be recorded, in the canceled mark and a return to waiting for a command.
pub proof fn lemma_cancel_returns_to_start(p: RunPhase, ok: bool)
    requires
        p is CancelAcquire,
    ensures
        run_step(p, RunAnswer::Flag(ok)).0 is WaitingStart,
        run_step(p, RunAnswer::Flag(ok)).1.contains(RunActionView::SetCanceled),
{
    let acts = run_step(p, RunAnswer::Flag(ok)).1;
    if ok {
        assert(acts[0] == RunActionView::SetCanceled);
    } else {
        assert(acts[1] == RunActionView::SetCanceled);
    }
}

/// While the runner waits for a command: `start` goes on to enter the queue, `exit` goes on to
/// close the observer, and `stop` (or a closed command channel) keeps waiting, with both marks
/// cleared.
pub proof fn lemma_waiting_commands()
    ensures
        run_step(RunPhase::WaitingStart, RunAnswer::Command(Some(AppCommand::Start)))
            == (RunPhase::EnteringQueue, Seq::<RunActionView>::empty()),
        run_step(RunPhase::WaitingStart, RunAnswer::Command(Some(AppCommand::Exit)))
            == (RunPhase::Exiting, Seq::<RunActionView>::empty()),
        run_step(RunPhase::WaitingStart, RunAnswer::Command(Some(AppCommand::Stop)))
            == (RunPhase::WaitingStart, seq![RunActionView::ResetFlags]),
        run_step(RunPhase::WaitingStart, RunAnswer::Command(None)).0 == RunPhase::WaitingStart,
{
    assert(run_step(RunPhase::WaitingStart, RunAnswer::Command(Some(AppCommand::Start))).1
        =~= Seq::<RunActionView>::empty());
    assert(run_step(RunPhase::WaitingStart, RunAnswer::Command(Some(AppCommand::Exit))).1
        =~= Seq::<RunActionView>::empty());
    assert(run_step(RunPhase::WaitingStart, RunAnswer::Command(Some(AppCommand::Stop))).1
        =~= seq![RunActionView::ResetFlags]);
}

/// Once the queue request was answered without a cancel, the match is validated and the
/// runner waits for the next command; a canceled queue records idle instead.
pub proof fn lemma_paired_queue_validates()
    ensures
        run_step(RunPhase::QueueOutcome, RunAnswer::Flag(false)) == (
            RunPhase::WaitingStart,
            seq![RunActionView::RunValidation, RunActionView::ResetFlags],
        ),
        run_step(RunPhase::QueueOutcome, RunAnswer::Flag(true)).0 == RunPhase::LeavingQueue,
{
    assert(run_step(RunPhase::QueueOutcome, RunAnswer::Flag(false)).1 =~= seq![
        RunActionView::RunValidation,
        RunActionView::ResetFlags,
    ]);
}

/// A stop while queued, once the state is recorded and the server accepted the cancel, returns
/// the runner to waiting for the next start command, with both marks cleared.
pub proof fn lemma_queue_cancel_returns_to_start(state: ClientState, recorded: bool)
    ensures
        run_step(RunPhase::CancelQueue(state), RunAnswer::Flag(recorded)).0
            == RunPhase::SendingCancel,
        run_step(RunPhase::SendingCancel, RunAnswer::Flag(true)) == (
            RunPhase::WaitingStart,
            seq![RunActionView::ResetFlags],
        ),
{
}

/// A yes never stops the runner, except to close the observer: among the phases that ask a
/// yes-or-no question, the runner stops on a yes only when it was recording that it exits.
pub proof fn lemma_yes_stops_only_on_exit(p: RunPhase)
    requires
        !(p is WaitingStart || p is AcquireCancelCheck || p is AcquireIds || p is QueueCancelCheck
            || p is Stopped),
    ensures
        run_step(p, RunAnswer::Flag(true)).0 is Stopped ==> p is Exiting,
{
}

/// A match is validated only after the queue request was answered without a cancel.
pub proof fn lemma_validation_needs_pairing(p: RunPhase, a: RunAnswer)
    requires
        run_step(p, a).1.contains(RunActionView::RunValidation),
    ensures
        p is QueueOutcome,
        a == RunAnswer::Flag(false),
{
    let acts = run_step(p, a).1;
    let k = choose|k: int| 0 <= k < acts.len() && acts[k] == RunActionView::RunValidation;
    if !(p is QueueOutcome && a == RunAnswer::Flag(false)) {
        assert(acts[k] != RunActionView::RunValidation);
    }
}

/// Every return to waiting for a command clears the canceled and paired marks.
pub proof fn lemma_restart_clears_marks(p: RunPhase, a: RunAnswer)
    requires
        run_step(p, a).0 is WaitingStart,
    ensures
        run_step(p, a).1.len() > 0,
        run_step(p, a).1.last() == RunActionView::ResetFlags,
{
}

/// Once stopped, the runner stays stopped and does nothing.
pub proof fn lemma_stopped_is_final(a: RunAnswer)
    ensures
        run_step(RunPhase::Stopped, a).0 is Stopped,
        run_step(RunPhase::Stopped, a).1.len() == 0,
{
}

} // verus!
