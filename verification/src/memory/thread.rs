use vstd::prelude::*;

use crate::game::state::GameState;
use crate::memory::process::MemoryError;

verus! {

/// How long the watcher looks for session ids before it gives up, in seconds.
pub const SESSION_POLL_TIMEOUT_SECS: u64 = 15;

/// What the watcher tells the player before waiting for a fresh game: MBAA must be restarted
/// when it already runs.
pub fn clean_start_message(melty_running: bool) -> (r: &'static str)
    ensures
        melty_running ==> r@ == "MBAA session detected. Restart MBAA.exe"@,
        !melty_running ==> r@ == "Waiting for MBAA and CCCaster"@,
{
    if melty_running {
        "MBAA session detected. Restart MBAA.exe"
    } else {
        "Waiting for MBAA and CCCaster"
    }
}

/// What the watcher does after a failed attempt to attach to the game.
pub enum AttachStep {
    /// Wait and try again, silently.
    Retry,
    /// Tell the player, then wait and try again.
    LogAndRetry(String),
    /// This CCCaster is not supported: tell the player and stop ranked mode.
    GiveUp,
}

/// The message of a multiple-processes error, as the player sees it.
pub open spec fn multiple_processes_message(process: Seq<char>) -> Seq<char> {
    "Error: Multiple '"@ + process + "' processes detected"@
}

/// Decides what follows a failed attach. An unsupported CCCaster ends the attempt; several
/// processes of one name are reported once; anything else is retried silently. Returns the
/// step and whether several processes have been reported by now.
pub fn attach_failure_step(err: &MemoryError, has_logged_err: bool) -> (r: (AttachStep, bool))
    ensures
        match *err {
            MemoryError::InvalidCCCaster => r.0 is GiveUp && r.1 == has_logged_err,
            MemoryError::MultipleProcessesError(p) => if has_logged_err {
                r.0 is Retry && r.1
            } else {
                &&& r.0 matches AttachStep::LogAndRetry(msg)
                &&& msg@ == multiple_processes_message(p@)
                &&& r.1
            },
            _ => r.0 is Retry && r.1 == has_logged_err,
        },
{
    match err {
        MemoryError::InvalidCCCaster => (AttachStep::GiveUp, has_logged_err),
        MemoryError::MultipleProcessesError(process) => {
            if has_logged_err {
                (AttachStep::Retry, true)
            } else {
                let mut msg = String::from_str("Error: Multiple '");
                msg.append(process.as_str());
                msg.append("' processes detected");
                (AttachStep::LogAndRetry(msg), true)
            }
        },
        _ => (AttachStep::Retry, has_logged_err),
    }
}

/// What the watcher does after looking for session ids.
#[derive(Debug, Clone, Copy, PartialEq, Eq, Structural)]
pub enum SessionPoll {
    /// Ids were found.
    Ready,
    /// None yet: wait a second and look again.
    Wait,
    /// None within the time allowed.
    TimedOut,
}

/// Decides what follows a look for session ids that found `found` of them, `elapsed_secs`
/// seconds after the first look.
pub fn session_poll_step(found: usize, elapsed_secs: u64) -> (r: SessionPoll)
    ensures
        found > 0 ==> r == SessionPoll::Ready,
        found == 0 && elapsed_secs >= SESSION_POLL_TIMEOUT_SECS ==> r == SessionPoll::TimedOut,
        found == 0 && elapsed_secs < SESSION_POLL_TIMEOUT_SECS ==> r == SessionPoll::Wait,
{
    if found > 0 {
        SessionPoll::Ready
    } else if elapsed_secs >= SESSION_POLL_TIMEOUT_SECS {
        SessionPoll::TimedOut
    } else {
        SessionPoll::Wait
    }
}

/// The message given when the watcher sees a state: a match starting or ending, or nothing
/// when it is as before.
pub open spec fn report_message(in_game: bool, was_in_game: bool) -> Option<Seq<char>> {
    if in_game == was_in_game {
        None
    } else if in_game {
        Some("Playing a match..."@)
    } else {
        Some("Waiting for the match to start..."@)
    }
}

/// Tells the player when a match starts or ends: `was_in_game` becomes whether the state shows
/// a match, and a message is given exactly when that changes.
pub fn report_gamestate(state: &GameState, was_in_game: &mut bool) -> (r: Option<&'static str>)
    ensures
        *final(was_in_game) == (*state is InGame),
        match r {
            Some(m) => report_message(*state is InGame, *old(was_in_game)) == Some(m@),
            None => report_message(*state is InGame, *old(was_in_game)) is None,
        },
{
    let in_game = matches!(state, GameState::InGame { .. });
    if !in_game && *was_in_game {
        *was_in_game = false;
        Some("Waiting for the match to start...")
    } else if in_game && !*was_in_game {
        *was_in_game = true;
        Some("Playing a match...")
    } else {
        None
    }
}

/// Each change is reported once: after a state has been reported, reporting a state of the
/// same kind again says nothing.
pub proof fn lemma_report_once(in_game: bool, was_in_game: bool)
    ensures
        report_message(in_game, in_game) is None,
        report_message(in_game, was_in_game) is Some <==> in_game != was_in_game,
{
}

} // verus!
