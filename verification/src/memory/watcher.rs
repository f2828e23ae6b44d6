use vstd::prelude::*;

use crate::game::state::GameState;
use crate::memory::process::MemoryError;
use crate::memory::reader::texts;
use crate::memory::thread::{
    attach_failure_step, clean_start_message, multiple_processes_message, report_gamestate,
    report_message, session_poll_step, AttachStep, SessionPoll, SESSION_POLL_TIMEOUT_SECS,
};

verus! {

/// Where the memory watcher stands. The watcher waits until no MBAA from an earlier session
/// runs, attaches to MBAA and CCCaster, reads the session ids, hands them over, waits until the
/// players are paired, then reads the game state again and again and hands each one over.
pub enum WatchPhase {
    /// About to see whether MBAA already runs.
    Start,
    /// Waiting for a running MBAA to close.
    CleanWait,
    /// MBAA still runs: check for a cancel before waiting again.
    CleanCancelCheck,
    /// Check for a cancel before the next attempt to attach.
    AttachCancelCheck { logged_multiple: bool },
    /// About to attach.
    Attaching { logged_multiple: bool },
    /// Check for a cancel before the next look for session ids.
    IdsCancelCheck,
    /// About to look for session ids.
    PollingIds,
    /// About to hand over the session ids found.
    SendingIds(Vec<String>),
    /// No cancel was found: about to see whether the players are paired.
    PairCheck,
    /// Check for a cancel before looking whether the players are paired.
    PairCancelCheck,
    /// About to read the game state.
    Polling { was_in_game: bool },
    /// About to hand over a game state.
    SendingState { state: GameState, was_in_game: bool },
    /// A read failed: about to see whether MBAA was closed.
    FailureCheck,
    /// The watcher has stopped.
    Done,
}

/// The milliseconds between two reads of the game state.
pub const GAME_STATE_READ_INTERVAL_MS: u64 = 16;

/// The value of a `WatchPhase`.
pub enum PhaseView {
    Start,
    CleanWait,
    CleanCancelCheck,
    AttachCancelCheck(bool),
    Attaching(bool),
    IdsCancelCheck,
    PollingIds,
    SendingIds(Seq<Seq<char>>),
    PairCheck,
    PairCancelCheck,
    Polling(bool),
    SendingState(GameState, bool),
    FailureCheck,
    Done,
}

impl View for WatchPhase {
    type V = PhaseView;

    open spec fn view(&self) -> PhaseView {
        match self {
            WatchPhase::Start => PhaseView::Start,
            WatchPhase::CleanWait => PhaseView::CleanWait,
            WatchPhase::CleanCancelCheck => PhaseView::CleanCancelCheck,
            WatchPhase::AttachCancelCheck { logged_multiple } => PhaseView::AttachCancelCheck(
                *logged_multiple,
            ),
            WatchPhase::Attaching { logged_multiple } => PhaseView::Attaching(*logged_multiple),
            WatchPhase::IdsCancelCheck => PhaseView::IdsCancelCheck,
            WatchPhase::PollingIds => PhaseView::PollingIds,
            WatchPhase::SendingIds(ids) => PhaseView::SendingIds(texts(ids@)),
            WatchPhase::PairCheck => PhaseView::PairCheck,
            WatchPhase::PairCancelCheck => PhaseView::PairCancelCheck,
            WatchPhase::Polling { was_in_game } => PhaseView::Polling(*was_in_game),
            WatchPhase::SendingState { state, was_in_game } => PhaseView::SendingState(
                *state,
                *was_in_game,
            ),
            WatchPhase::FailureCheck => PhaseView::FailureCheck,
            WatchPhase::Done => PhaseView::Done,
        }
    }
}

/// What the watcher asks of the program that runs it.
#[derive(Debug)]
pub enum WatchRequest {
    /// Answer `Flag`: whether an MBAA process runs.
    IsMeltyRunning,
    /// Answer `Flag`: whether ranked mode was canceled.
    IsCanceled,
    /// Answer `Attached`: the outcome of attaching to MBAA and CCCaster.
    Attach,
    /// Answer `SessionIds`: the ids read from CCCaster, and the seconds since the clock started.
    PollSessionIds,
    /// Answer `Flag`: whether the pending ids were handed over.
    SendIds,
    /// Answer `Flag`: whether the players are paired.
    IsPaired,
    /// Answer `Game`: the game state read from memory.
    PollGameState,
    /// Answer `Flag`: whether this state was handed over.
    SendState(GameState),
    /// Nothing more to do.
    Finished,
}

/// The answer to a request.
pub enum WatchAnswer {
    Flag(bool),
    Attached(Result<(), MemoryError>),
    SessionIds(Result<Vec<String>, MemoryError>, u64),
    Game(Result<GameState, MemoryError>),
}

/// What the program that runs the watcher does, in order, after an answer.
#[derive(Debug)]
pub enum WatchAction {
    /// Tell the player.
    Log(String),
    /// Wait this many milliseconds.
    Sleep(u64),
    /// Mark ranked mode as canceled.
    SetCanceled,
    /// Start the clock that times the look for session ids.
    StartClock,
    /// Close the handles to the game's processes.
    Detach,
}

/// The value of a `WatchAction`.
pub enum ActionView {
    Log(Seq<char>),
    Sleep(u64),
    SetCanceled,
    StartClock,
    Detach,
}

pub open spec fn action_view(a: WatchAction) -> ActionView {
    match a {
        WatchAction::Log(m) => ActionView::Log(m@),
        WatchAction::Sleep(ms) => ActionView::Sleep(ms),
        WatchAction::SetCanceled => ActionView::SetCanceled,
        WatchAction::StartClock => ActionView::StartClock,
        WatchAction::Detach => ActionView::Detach,
    }
}

pub open spec fn actions_view(v: Seq<WatchAction>) -> Seq<ActionView> {
    v.map_values(|a: WatchAction| action_view(a))
}

/// One step of the watcher: the phase after an answer, and the actions to perform.
pub open spec fn watch_step(p: PhaseView, a: WatchAnswer) -> (PhaseView, Seq<ActionView>) {
    match (p, a) {
        (PhaseView::Start, WatchAnswer::Flag(running)) => (
            PhaseView::CleanWait,
            if running {
                seq![ActionView::Log("MBAA session detected. Restart MBAA.exe"@), ActionView::Sleep(2000)]
            } else {
                seq![ActionView::Log("Waiting for MBAA and CCCaster"@)]
            },
        ),
        (PhaseView::CleanWait, WatchAnswer::Flag(running)) => if running {
            (PhaseView::CleanCancelCheck, seq![])
        } else {
            (PhaseView::AttachCancelCheck(false), seq![])
        },
        (PhaseView::CleanCancelCheck, WatchAnswer::Flag(canceled)) => if canceled {
            (PhaseView::Done, seq![])
        } else {
            (PhaseView::CleanWait, seq![ActionView::Sleep(2000)])
        },
        (PhaseView::AttachCancelCheck(logged), WatchAnswer::Flag(canceled)) => if canceled {
            (PhaseView::Done, seq![])
        } else {
            (PhaseView::Attaching(logged), seq![])
        },
        (PhaseView::Attaching(logged), WatchAnswer::Attached(outcome)) => match outcome {
            Ok(()) => (
                PhaseView::IdsCancelCheck,
                seq![ActionView::Log("Attached to MBAA and CCCaster"@), ActionView::StartClock],
            ),
            Err(MemoryError::InvalidCCCaster) => (
                PhaseView::Done,
                seq![ActionView::Log("Invalid version"@), ActionView::SetCanceled],
            ),
            Err(MemoryError::MultipleProcessesError(process)) => if logged {
                (PhaseView::AttachCancelCheck(true), seq![ActionView::Sleep(2000)])
            } else {
                (
                    PhaseView::AttachCancelCheck(true),
                    seq![
                        ActionView::Log(multiple_processes_message(process@)),
                        ActionView::Sleep(2000),
                    ],
                )
            },
            Err(_) => (PhaseView::AttachCancelCheck(logged), seq![ActionView::Sleep(2000)]),
        },
        (PhaseView::IdsCancelCheck, WatchAnswer::Flag(canceled)) => if canceled {
            (PhaseView::Done, seq![])
        } else {
            (PhaseView::PollingIds, seq![])
        },
        (PhaseView::PollingIds, WatchAnswer::SessionIds(outcome, elapsed)) => match outcome {
            Ok(ids) => if ids@.len() > 0 {
                (PhaseView::SendingIds(texts(ids@)), seq![])
            } else if elapsed >= SESSION_POLL_TIMEOUT_SECS {
                (
                    PhaseView::Done,
                    seq![ActionView::Log("Could not find session, matching players is not possible"@)],
                )
            } else {
                (PhaseView::IdsCancelCheck, seq![ActionView::Sleep(1000)])
            },
            Err(_) => (
                PhaseView::Done,
                seq![ActionView::Log("Something went wrong, failed to read session ids"@)],
            ),
        },
        (PhaseView::SendingIds(_), WatchAnswer::Flag(sent)) => if sent {
            (PhaseView::PairCancelCheck, seq![])
        } else {
            (PhaseView::Done, seq![ActionView::Log("Internal error, check logs for details"@)])
        },
        (PhaseView::PairCancelCheck, WatchAnswer::Flag(canceled)) => if canceled {
            (PhaseView::Done, seq![])
        } else {
            (PhaseView::PairCheck, seq![])
        },
        (PhaseView::PairCheck, WatchAnswer::Flag(paired)) => if paired {
            (PhaseView::Polling(true), seq![])
        } else {
            (PhaseView::PairCancelCheck, seq![ActionView::Sleep(1000)])
        },
        (PhaseView::Polling(was), WatchAnswer::Game(outcome)) => match outcome {
            Ok(state) => (
                PhaseView::SendingState(state, state is InGame),
                match report_message(state is InGame, was) {
                    Some(m) => seq![ActionView::Log(m)],
                    None => seq![],
                },
            ),
            Err(_) => (PhaseView::FailureCheck, seq![ActionView::Sleep(1000)]),
        },
        (PhaseView::SendingState(_, was), WatchAnswer::Flag(sent)) => if sent {
            (PhaseView::Polling(was), seq![ActionView::Sleep(GAME_STATE_READ_INTERVAL_MS)])
        } else {
            (PhaseView::Done, seq![ActionView::Log("Internal error, stopped reading MBAA"@)])
        },
        (PhaseView::FailureCheck, WatchAnswer::Flag(running)) => (
            PhaseView::Done,
            if running {
                seq![
                    ActionView::Log("Something went wrong while reading MBAA/CCCaster"@),
                    ActionView::Log("Make sure you're using the right CCCaster version"@),
                    ActionView::Detach,
                ]
            } else {
                seq![ActionView::Log("Game closed"@), ActionView::Detach]
            },
        ),
        _ => (PhaseView::Done, seq![]),
    }
}

/// The memory watcher: decides, from the answers it is given, what the program that runs it
/// asks and does next.
pub struct Watcher {
    phase: WatchPhase,
}

impl View for Watcher {
    type V = PhaseView;

    closed spec fn view(&self) -> PhaseView {
        self.phase@
    }
}

fn log(msg: &str) -> (a: WatchAction)
    ensures
        action_view(a) == ActionView::Log(msg@),
{
    WatchAction::Log(String::from_str(msg))
}

impl Watcher {
    pub fn new() -> (r: Watcher)
        ensures
            r@ == PhaseView::Start,
    {
        Watcher { phase: WatchPhase::Start }
    }

    /// Whether the watcher has stopped.
    pub fn is_done(&self) -> (r: bool)
        ensures
            r == (self@ is Done),
    {
        matches!(self.phase, WatchPhase::Done)
    }

    /// What the watcher asks next.
    pub fn request(&self) -> (r: WatchRequest)
        ensures
            match self@ {
                PhaseView::Start | PhaseView::CleanWait | PhaseView::FailureCheck => r is IsMeltyRunning,
                PhaseView::CleanCancelCheck | PhaseView::AttachCancelCheck(_)
                | PhaseView::IdsCancelCheck | PhaseView::PairCancelCheck => r is IsCanceled,
                PhaseView::Attaching(_) => r is Attach,
                PhaseView::PollingIds => r is PollSessionIds,
                PhaseView::SendingIds(_) => r is SendIds,
                PhaseView::PairCheck => r is IsPaired,
                PhaseView::Polling(_) => r is PollGameState,
                PhaseView::SendingState(s, _) => r == WatchRequest::SendState(s),
                PhaseView::Done => r is Finished,
            },
    {
        match &self.phase {
            WatchPhase::Start | WatchPhase::CleanWait | WatchPhase::FailureCheck => WatchRequest::IsMeltyRunning,
            WatchPhase::CleanCancelCheck | WatchPhase::AttachCancelCheck { .. }
            | WatchPhase::IdsCancelCheck | WatchPhase::PairCancelCheck => WatchRequest::IsCanceled,
            WatchPhase::Attaching { .. } => WatchRequest::Attach,
            WatchPhase::PollingIds => WatchRequest::PollSessionIds,
            WatchPhase::SendingIds(_) => WatchRequest::SendIds,
            WatchPhase::PairCheck => WatchRequest::IsPaired,
            WatchPhase::Polling { .. } => WatchRequest::PollGameState,
            WatchPhase::SendingState { state, .. } => WatchRequest::SendState(*state),
            WatchPhase::Done => WatchRequest::Finished,
        }
    }

    /// The session ids waiting to be handed over, if the watcher is about to hand them over.
    pub fn pending_ids(&self) -> (r: Option<&Vec<String>>)
        ensures
            match self@ {
                PhaseView::SendingIds(ids) => r matches Some(v) && texts(v@) == ids,
                _ => r is None,
            },
    {
        match &self.phase {
            WatchPhase::SendingIds(ids) => Some(ids),
            _ => None,
        }
    }

    /// Takes the answer to the current request and returns what to do, in order. An answer of
    /// another kind than the one asked for stops the machine.
    pub fn answer(&mut self, a: WatchAnswer) -> (actions: Vec<WatchAction>)
        ensures
            final(self)@ == watch_step(old(self)@, a).0,
            actions_view(actions@) == watch_step(old(self)@, a).1,
    {
        let mut actions: Vec<WatchAction> = Vec::new();
        let next = match (&self.phase, a) {
            (WatchPhase::Start, WatchAnswer::Flag(running)) => {
                actions.push(log(clean_start_message(running)));
                if running {
                    actions.push(WatchAction::Sleep(2000));
                }
                WatchPhase::CleanWait
            },
            (WatchPhase::CleanWait, WatchAnswer::Flag(running)) => {
                if running {
                    WatchPhase::CleanCancelCheck
                } else {
                    WatchPhase::AttachCancelCheck { logged_multiple: false }
                }
            },
            (WatchPhase::CleanCancelCheck, WatchAnswer::Flag(canceled)) => {
                if canceled {
                    WatchPhase::Done
                } else {
                    actions.push(WatchAction::Sleep(2000));
                    WatchPhase::CleanWait
                }
            },
            (WatchPhase::AttachCancelCheck { logged_multiple }, WatchAnswer::Flag(canceled)) => {
                if canceled {
                    WatchPhase::Done
                } else {
                    WatchPhase::Attaching { logged_multiple: *logged_multiple }
                }
            },
            (WatchPhase::Attaching { logged_multiple }, WatchAnswer::Attached(outcome)) => {
                match outcome {
                    Ok(()) => {
                        actions.push(log("Attached to MBAA and CCCaster"));
                        actions.push(WatchAction::StartClock);
                        WatchPhase::IdsCancelCheck
                    },
                    Err(err) => {
                        let (step, logged) = attach_failure_step(&err, *logged_multiple);
                        match step {
                            AttachStep::GiveUp => {
                                actions.push(log("Invalid version"));
                                actions.push(WatchAction::SetCanceled);
                                WatchPhase::Done
                            },
                            AttachStep::LogAndRetry(msg) => {
                                actions.push(WatchAction::Log(msg));
                                actions.push(WatchAction::Sleep(2000));
                                WatchPhase::AttachCancelCheck { logged_multiple: logged }
                            },
                            AttachStep::Retry => {
                                actions.push(WatchAction::Sleep(2000));
                                WatchPhase::AttachCancelCheck { logged_multiple: logged }
                            },
                        }
                    },
                }
            },
            (WatchPhase::IdsCancelCheck, WatchAnswer::Flag(canceled)) => {
                if canceled {
                    WatchPhase::Done
                } else {
                    WatchPhase::PollingIds
                }
            },
            (WatchPhase::PollingIds, WatchAnswer::SessionIds(outcome, elapsed)) => {
                match outcome {
                    Ok(ids) => {
                        match session_poll_step(ids.len(), elapsed) {
                            SessionPoll::Ready => WatchPhase::SendingIds(ids),
                            SessionPoll::TimedOut => {
                                actions.push(
                                    log("Could not find session, matching players is not possible"),
                                );
                                WatchPhase::Done
                            },
                            SessionPoll::Wait => {
                                actions.push(WatchAction::Sleep(1000));
                                WatchPhase::IdsCancelCheck
                            },
                        }
                    },
                    Err(_) => {
                        actions.push(log("Something went wrong, failed to read session ids"));
                        WatchPhase::Done
                    },
                }
            },
            (WatchPhase::SendingIds(_), WatchAnswer::Flag(sent)) => {
                if sent {
                    WatchPhase::PairCancelCheck
                } else {
                    actions.push(log("Internal error, check logs for details"));
                    WatchPhase::Done
                }
            },
            (WatchPhase::PairCancelCheck, WatchAnswer::Flag(canceled)) => {
                if canceled {
                    WatchPhase::Done
                } else {
                    WatchPhase::PairCheck
                }
            },
            (WatchPhase::PairCheck, WatchAnswer::Flag(paired)) => {
                if paired {
                    WatchPhase::Polling { was_in_game: true }
                } else {
                    actions.push(WatchAction::Sleep(1000));
                    WatchPhase::PairCancelCheck
                }
            },
            (WatchPhase::Polling { was_in_game }, WatchAnswer::Game(outcome)) => {
                match outcome {
                    Ok(state) => {
                        let mut in_game = *was_in_game;
                        if let Some(msg) = report_gamestate(&state, &mut in_game) {
                            actions.push(log(msg));
                        }
                        WatchPhase::SendingState { state, was_in_game: in_game }
                    },
                    Err(_) => {
                        actions.push(WatchAction::Sleep(1000));
                        WatchPhase::FailureCheck
                    },
                }
            },
            (WatchPhase::SendingState { was_in_game, .. }, WatchAnswer::Flag(sent)) => {
                if sent {
                    actions.push(WatchAction::Sleep(GAME_STATE_READ_INTERVAL_MS));
                    WatchPhase::Polling { was_in_game: *was_in_game }
                } else {
                    actions.push(log("Internal error, stopped reading MBAA"));
                    WatchPhase::Done
                }
            },
            (WatchPhase::FailureCheck, WatchAnswer::Flag(running)) => {
                if running {
                    actions.push(log("Something went wrong while reading MBAA/CCCaster"));
                    actions.push(log("Make sure you're using the right CCCaster version"));
                } else {
                    actions.push(log("Game closed"));
                }
                actions.push(WatchAction::Detach);
                WatchPhase::Done
            },
            _ => WatchPhase::Done,
        };
        self.phase = next;
        proof {
            assert(actions_view(actions@) =~= watch_step(old(self)@, a).1);
        }
        actions
    }
}

/// A cancel seen while the watcher checks for one stops it at once, with nothing more done.
pub proof fn lemma_cancel_stops(p: PhaseView)
    requires
        p is CleanCancelCheck || p is AttachCancelCheck || p is IdsCancelCheck
            || p is PairCancelCheck,
    ensures
        watch_step(p, WatchAnswer::Flag(true)).0 is Done,
        watch_step(p, WatchAnswer::Flag(true)).1.len() == 0,
{
}

/// Game states are read only once the players are paired: the reading phase is entered from
/// the pairing check when it says yes, or after a state was handed over.
pub proof fn lemma_reading_needs_pairing(p: PhaseView, a: WatchAnswer)
    requires
        watch_step(p, a).0 is Polling,
    ensures
        (p is PairCheck && a == WatchAnswer::Flag(true)) || p is SendingState,
{
}

/// The players are looked at for pairing only right after a check found no cancel, so a
/// cancel seen while waiting for the pairing stops the watcher before any game state is read.
pub proof fn lemma_pairing_checked_after_cancel(p: PhaseView, a: WatchAnswer)
    requires
        watch_step(p, a).0 is PairCheck,
    ensures
        p is PairCancelCheck,
        a == WatchAnswer::Flag(false),
{
}

/// Session ids are handed over only right after a look that found some.
pub proof fn lemma_ids_handed_over_are_found(p: PhaseView, a: WatchAnswer)
    requires
        watch_step(p, a).0 is SendingIds,
    ensures
        p is PollingIds,
        watch_step(p, a).0 matches PhaseView::SendingIds(ids) && ids.len() > 0,
{
}

/// An unsupported CCCaster cancels ranked mode and stops the watcher.
pub proof fn lemma_unsupported_caster_cancels(logged: bool)
    ensures
        watch_step(
            PhaseView::Attaching(logged),
            WatchAnswer::Attached(Err(MemoryError::InvalidCCCaster)),
        ) == (PhaseView::Done, seq![ActionView::Log("Invalid version"@), ActionView::SetCanceled]),
{
}

/// A failed attach is retried, whatever went wrong, unless CCCaster is an unsupported version:
/// the watcher waits two seconds and checks for a cancel before the next attempt, and it
/// never stops on such a failure. Errors other than several processes of one name leave the
/// watcher exactly as it was and only wait.
pub proof fn lemma_failed_attach_retries(logged: bool, e: MemoryError)
    requires
        !(e is InvalidCCCaster),
    ensures
        watch_step(PhaseView::Attaching(logged), WatchAnswer::Attached(Err(e))).0 is AttachCancelCheck,
        watch_step(PhaseView::Attaching(logged), WatchAnswer::Attached(Err(e))).1.last()
            == ActionView::Sleep(2000),
        !(e is MultipleProcessesError) ==> watch_step(
            PhaseView::Attaching(logged),
            WatchAnswer::Attached(Err(e)),
        ) == (PhaseView::AttachCancelCheck(logged), seq![ActionView::Sleep(2000)]),
{
}

/// The look for session ids: ids found are handed over; none found is retried after a second,
/// until 15 seconds have passed, when the watcher gives up and says so.
pub proof fn lemma_session_ids_search(ids: Vec<String>, elapsed: u64)
    ensures
        ids@.len() > 0 ==> watch_step(
            PhaseView::PollingIds,
            WatchAnswer::SessionIds(Ok(ids), elapsed),
        ).0 == PhaseView::SendingIds(texts(ids@)),
        ids@.len() == 0 && elapsed < 15 ==> watch_step(
            PhaseView::PollingIds,
            WatchAnswer::SessionIds(Ok(ids), elapsed),
        ) == (PhaseView::IdsCancelCheck, seq![ActionView::Sleep(1000)]),
        ids@.len() == 0 && elapsed >= 15 ==> watch_step(
            PhaseView::PollingIds,
            WatchAnswer::SessionIds(Ok(ids), elapsed),
        ).0 is Done,
{
}

/// Attaching stops the watcher only when CCCaster is an unsupported version; any other
/// outcome keeps it going.
pub proof fn lemma_attach_stops_only_on_unsupported_version(
    logged: bool,
    outcome: Result<(), MemoryError>,
)
    ensures
        watch_step(PhaseView::Attaching(logged), WatchAnswer::Attached(outcome)).0 is Done
            <==> outcome matches Err(MemoryError::InvalidCCCaster),
{
}

/// Several processes of one name are reported once: after that, a failed attach only waits
/// before the next try.
pub proof fn lemma_multiple_processes_reported_once(e: MemoryError)
    requires
        !(e is InvalidCCCaster),
    ensures
        watch_step(PhaseView::Attaching(true), WatchAnswer::Attached(Err(e))) == (
            PhaseView::AttachCancelCheck(true),
            seq![ActionView::Sleep(2000)],
        ),
{
}

/// Once stopped, the watcher stays stopped and does nothing.
pub proof fn lemma_done_is_final(a: WatchAnswer)
    ensures
        watch_step(PhaseView::Done, a) == (PhaseView::Done, Seq::<ActionView>::empty()),
{
    assert(watch_step(PhaseView::Done, a).1 =~= Seq::<ActionView>::empty());
}

/// The handles to the game are closed only after a read of the game state failed, and then
/// the watcher stops.
pub proof fn lemma_detach_only_after_failed_read(p: PhaseView, a: WatchAnswer)
    requires
        watch_step(p, a).1.contains(ActionView::Detach),
    ensures
        p is FailureCheck,
        watch_step(p, a).0 is Done,
{
    let acts = watch_step(p, a).1;
    let k = choose|k: int| 0 <= k < acts.len() && acts[k] == ActionView::Detach;
    if !(p is FailureCheck) {
        assert(acts[k] != ActionView::Detach);
    }
}


/// The phases the watcher passes through from `p` when it is given these answers in turn:
/// `p` first, then the phase after each answer.
pub open spec fn watch_trace(p: PhaseView, answers: Seq<WatchAnswer>) -> Seq<PhaseView>
    decreases answers.len(),
{
    if answers.len() == 0 {
        seq![p]
    } else {
        seq![p] + watch_trace(watch_step(p, answers[0]).0, answers.drop_first())
    }
}

/// How far along the watcher is: looking for the session ids, handing them over, waiting for
/// the pairing, reading the game, stopped.
spec fn stage(p: PhaseView) -> int {
    match p {
        PhaseView::SendingIds(_) => 1,
        PhaseView::PairCheck | PhaseView::PairCancelCheck => 2,
        PhaseView::Polling(_) | PhaseView::SendingState(_, _) | PhaseView::FailureCheck => 3,
        PhaseView::Done => 4,
        _ => 0,
    }
}

proof fn lemma_step_stage(p: PhaseView, a: WatchAnswer)
    ensures
        stage(watch_step(p, a).0) >= stage(p),
        stage(watch_step(p, a).0) == 1 ==> stage(p) == 0,
        stage(p) < 2 && 2 <= stage(watch_step(p, a).0) <= 3 ==> p is SendingIds && a
            == WatchAnswer::Flag(true),
        stage(p) < 3 && stage(watch_step(p, a).0) == 3 ==> p is PairCheck && a == WatchAnswer::Flag(
            true,
        ),
{
}

proof fn lemma_trace_shape(p: PhaseView, answers: Seq<WatchAnswer>)
    ensures
        watch_trace(p, answers).len() == answers.len() + 1,
        watch_trace(p, answers)[0] == p,
        forall|i: int|
            0 <= i < answers.len() ==> #[trigger] watch_trace(p, answers)[i + 1] == watch_step(
                watch_trace(p, answers)[i],
                answers[i],
            ).0,
    decreases answers.len(),
{
    if answers.len() > 0 {
        let q = watch_step(p, answers[0]).0;
        let rest = answers.drop_first();
        lemma_trace_shape(q, rest);
        let t = watch_trace(p, answers);
        assert forall|i: int| 0 <= i < answers.len() implies #[trigger] t[i + 1] == watch_step(
            t[i],
            answers[i],
        ).0 by {
            if i > 0 {
                assert(t[i + 1] == watch_trace(q, rest)[i]);
                assert(t[i] == watch_trace(q, rest)[(i - 1) + 1 - 1]);
                assert(answers[i] == rest[i - 1]);
                assert(watch_trace(q, rest)[(i - 1) + 1] == watch_step(
                    watch_trace(q, rest)[i - 1],
                    rest[i - 1],
                ).0);
            }
        }
    }
}

proof fn lemma_trace_monotone(p: PhaseView, answers: Seq<WatchAnswer>, i: int, j: int)
    requires
        0 <= i <= j <= answers.len(),
    ensures
        stage(watch_trace(p, answers)[i]) <= stage(watch_trace(p, answers)[j]),
    decreases j - i,
{
    lemma_trace_shape(p, answers);
    if i < j {
        let t = watch_trace(p, answers);
        lemma_trace_monotone(p, answers, i, j - 1);
        assert(t[(j - 1) + 1] == watch_step(t[j - 1], answers[j - 1]).0);
        lemma_step_stage(t[j - 1], answers[j - 1]);
    }
}

proof fn lemma_trace_crossing(p: PhaseView, answers: Seq<WatchAnswer>, s: int, j: int) -> (m: int)
    requires
        0 <= j <= answers.len(),
        stage(watch_trace(p, answers)[0]) < s <= stage(watch_trace(p, answers)[j]),
    ensures
        0 <= m < j,
        stage(watch_trace(p, answers)[m]) < s <= stage(watch_trace(p, answers)[m + 1]),
    decreases j,
{
    let t = watch_trace(p, answers);
    if stage(t[j - 1]) < s {
        j - 1
    } else {
        lemma_trace_crossing(p, answers, s, j - 1)
    }
}

/// What the watcher does over any run from its start, whatever the answers: it hands over
/// session ids at most once, and it reads or hands over a game state only after the ids were
/// handed over (the hand-over said yes) and, later, the players were found paired.
pub proof fn lemma_ids_once_then_states(answers: Seq<WatchAnswer>)
    ensures
        ({
            let t = watch_trace(PhaseView::Start, answers);
            &&& forall|i: int, j: int|
                0 <= i < j < t.len() && #[trigger] t[i] is SendingIds ==> !(#[trigger] t[j] is SendingIds)
            &&& forall|j: int|
                0 <= j < t.len() && (#[trigger] t[j] is Polling || t[j] is SendingState) ==> exists|
                    i: int,
                    k: int,
                |
                    #![trigger t[i], t[k]]
                    0 <= i < k < j && t[i] is SendingIds && answers[i] == WatchAnswer::Flag(true)
                        && t[k] is PairCheck && answers[k] == WatchAnswer::Flag(true)
        }),
{
    let t = watch_trace(PhaseView::Start, answers);
    lemma_trace_shape(PhaseView::Start, answers);
    assert forall|i: int, j: int|
        0 <= i < j < t.len() && #[trigger] t[i] is SendingIds implies !(#[trigger] t[j] is SendingIds) by {
        assert(t[i + 1] == watch_step(t[i], answers[i]).0);
        lemma_step_stage(t[i], answers[i]);
        lemma_trace_monotone(PhaseView::Start, answers, i + 1, j);
    }
    assert forall|j: int| 0 <= j < t.len() && (#[trigger] t[j] is Polling || t[j] is SendingState) implies exists|
        i: int,
        k: int,
    |
        #![trigger t[i], t[k]]
        0 <= i < k < j && t[i] is SendingIds && answers[i] == WatchAnswer::Flag(true) && t[k] is PairCheck
            && answers[k] == WatchAnswer::Flag(true) by {
        let m1 = lemma_trace_crossing(PhaseView::Start, answers, 2, j);
        let m2 = lemma_trace_crossing(PhaseView::Start, answers, 3, j);
        assert(t[m1 + 1] == watch_step(t[m1], answers[m1]).0);
        assert(t[m2 + 1] == watch_step(t[m2], answers[m2]).0);
        lemma_step_stage(t[m1], answers[m1]);
        lemma_step_stage(t[m2], answers[m2]);
        lemma_trace_monotone(PhaseView::Start, answers, m1 + 1, j);
        lemma_trace_monotone(PhaseView::Start, answers, m2 + 1, j);
        if m2 <= m1 {
            lemma_trace_monotone(PhaseView::Start, answers, m2, m1);
        }
        assert(0 <= m1 < m2 < j);
    }
}

} // verus!
