use vstd::prelude::*;

use crate::client::http::ClientError;
use crate::client::state::ClientState;
use crate::game::state::GameState;
use crate::memory::addresses::ClientMode;
use crate::validation::result::{result_rejection, MatchResult, MatchResultView, StateError};
use crate::validation::validator::{
    next_phase, phase_after, plays_match, validation_outcome, MatchPhase, Validator, Validity,
};

verus! {

/// What the player is told when a result could not be sent: a timeout, or a general message.
pub fn report_failure_message(err: &ClientError) -> (r: &'static str)
    ensures
        (*err matches ClientError::ServerError(s) && s == 408) ==> r@
            == "Report failed: request timeout"@,
        !(*err matches ClientError::ServerError(s) && s == 408) ==> r@
            == "Failed to send match result to the server"@,
{
    match err {
        ClientError::ServerError(408) => "Report failed: request timeout",
        _ => "Failed to send match result to the server",
    }
}


/// What a validated game state meant for the run of the validator thread.
pub enum RunKind {
    /// The match goes on.
    Continue,
    /// A finished match was handed over to be sent.
    Report,
    /// The match broke the rules: the run stops.
    StopInvalid,
    /// Validation failed: the run stops.
    StopFailed,
}

/// The kind of a validation outcome.
pub open spec fn run_kind(r: Result<Validity, StateError>) -> RunKind {
    match r {
        Ok(Validity::Valid) => RunKind::Continue,
        Ok(Validity::MatchFinished(_)) => RunKind::Report,
        Ok(Validity::Invalid(_)) => RunKind::StopInvalid,
        Err(_) => RunKind::StopFailed,
    }
}

/// Whether a game state, taken in a phase, finishes a match that keeps every rule: this machine
/// plays the match, the state shows the match as the retry menu follows it, and the result
/// breaks no rule.
pub open spec fn finishes_by_the_rules(phase: MatchPhase, state: GameState) -> bool {
    &&& plays_match(state.spec_client_mode())
    &&& next_phase(phase, state.spec_game_mode()) is MatchFinished
    &&& state matches GameState::InGame { client_mode, timers, players, .. } && result_rejection(
        client_mode,
        timers.spec_real_timer(),
        players@[0].score,
        players@[1].score,
    ) is None
}

/// What kinds a state may give in a phase: a finished match by the rules is reported (or, if
/// the clock reads before 1970, fails); a finished match that breaks a rule fails; a state
/// whose client mode is neither host nor client, or a phase that turns invalid, stops the run
/// as invalid; anything else continues.
pub open spec fn kind_fits(phase: MatchPhase, state: GameState, k: RunKind) -> bool {
    if !plays_match(state.spec_client_mode()) {
        k is StopInvalid
    } else if state is InGame && next_phase(phase, state.spec_game_mode()) is MatchFinished {
        if finishes_by_the_rules(phase, state) {
            k is Report || k is StopFailed
        } else {
            k is StopFailed
        }
    } else if next_phase(phase, state.spec_game_mode()) is Invalid {
        k is StopInvalid
    } else {
        k is Continue
    }
}

/// Whether a run of the validator thread went this way: it started idle, each state moved the
/// phase and gave a kind that fits it, and only the last state may have stopped the run.
pub open spec fn run_fits(phases: Seq<MatchPhase>, states: Seq<GameState>, kinds: Seq<RunKind>) -> bool {
    &&& phases.len() == states.len() + 1
    &&& kinds.len() == states.len()
    &&& phases[0] == MatchPhase::Idle
    &&& forall|i: int|
        0 <= i < states.len() ==> #[trigger] phases[i + 1] == phase_after(phases[i], states[i])
            && kind_fits(phases[i], states[i], kinds[i])
    &&& forall|i: int| 0 <= i < kinds.len() - 1 ==> (#[trigger] kinds[i] is Continue || kinds[i] is Report)
}

proof fn lemma_outcome_kind(
    phase: MatchPhase,
    session: Seq<char>,
    state: GameState,
    r: Result<Validity, StateError>,
)
    requires
        validation_outcome(phase, session, state, r),
    ensures
        kind_fits(phase, state, run_kind(r)),
{
}

/// The kinds of a sequence of validation outcomes.
pub open spec fn kinds_of(results: Seq<Result<Validity, StateError>>) -> Seq<RunKind> {
    results.map_values(|r: Result<Validity, StateError>| run_kind(r))
}

/// What the validator thread's error log holds beside the context.
#[derive(Debug)]
pub enum FailureDetail {
    /// Why the match broke the rules.
    Reason(String),
    /// Why validation failed.
    State(StateError),
}

/// What the program that runs the validator thread does, in order.
#[derive(Debug)]
pub enum ThreadAction {
    /// Tell the player.
    Log(String),
    /// Write an error, with its context, to the error log.
    Error { context: &'static str, detail: FailureDetail },
    /// Send this finished match to the server.
    Send(MatchResult),
}

/// The value of a `FailureDetail`.
pub enum FailureDetailView {
    Reason(Seq<char>),
    State(StateError),
}

/// The value of a `ThreadAction`.
pub enum ThreadActionView {
    Log(Seq<char>),
    Error(Seq<char>, FailureDetailView),
    Send(MatchResultView),
}

pub open spec fn thread_action_view(a: ThreadAction) -> ThreadActionView {
    match a {
        ThreadAction::Log(m) => ThreadActionView::Log(m@),
        ThreadAction::Error { context, detail } => ThreadActionView::Error(
            context@,
            match detail {
                FailureDetail::Reason(r) => FailureDetailView::Reason(r@),
                FailureDetail::State(e) => FailureDetailView::State(e),
            },
        ),
        ThreadAction::Send(r) => ThreadActionView::Send(r@),
    }
}

pub open spec fn thread_actions_view(v: Seq<ThreadAction>) -> Seq<ThreadActionView> {
    v.map_values(|a: ThreadAction| thread_action_view(a))
}

/// After a finished match: a log line, then the result is sent. After a broken rule or a
/// failed validation: an error log line, a log line, and the closing line. After a valid
/// state: no action.
pub open spec fn verdict_actions(r: Result<Validity, StateError>) -> Seq<ThreadActionView> {
    match r {
        Ok(Validity::Valid) => seq![],
        Ok(Validity::MatchFinished(res)) => seq![
            ThreadActionView::Log("Sending match to the server..."@),
            ThreadActionView::Send(res@),
        ],
        Ok(Validity::Invalid(reason)) => seq![
            ThreadActionView::Error("Invalid game state"@, FailureDetailView::Reason(reason@)),
            ThreadActionView::Log("Invalid game state"@),
            ThreadActionView::Log("Stopped validating game state"@),
        ],
        Err(e) => seq![
            ThreadActionView::Error("Failed to validate game state"@, FailureDetailView::State(e)),
            ThreadActionView::Log("Failed to validate game state"@),
            ThreadActionView::Log("Stopped validating game state"@),
        ],
    }
}

/// How many results a sequence of actions sends.
pub open spec fn count_sends(v: Seq<ThreadActionView>) -> nat
    decreases v.len(),
{
    if v.len() == 0 {
        0
    } else {
        (if v.last() is Send {
            1nat
        } else {
            0nat
        }) + count_sends(v.drop_last())
    }
}

/// A verdict sends exactly one result when it is a finished match, and none otherwise.
pub proof fn lemma_verdict_sends(r: Result<Validity, StateError>)
    ensures
        count_sends(verdict_actions(r)) == if r matches Ok(Validity::MatchFinished(_)) {
            1nat
        } else {
            0nat
        },
{
    let v = verdict_actions(r);
    reveal_with_fuel(count_sends, 4);
    if v.len() == 2 {
        assert(v.drop_last().drop_last() =~= Seq::<ThreadActionView>::empty());
    } else if v.len() == 3 {
        assert(v.drop_last().drop_last().drop_last() =~= Seq::<ThreadActionView>::empty());
    }
}

/// The run of the validator thread over the game states of one ranked session: it validates
/// each state it receives and stops at the first one that breaks the rules or cannot be
/// validated, or when no more states come.
pub struct ValidationRun {
    validator: Validator,
    stopped: bool,
    closed: bool,
    phases: Ghost<Seq<MatchPhase>>,
    states: Ghost<Seq<GameState>>,
    results: Ghost<Seq<Result<Validity, StateError>>>,
}

impl ValidationRun {
    /// The phases the run went through, starting idle.
    pub closed spec fn phases(&self) -> Seq<MatchPhase> {
        self.phases@
    }

    /// The game states the run took, in order.
    pub closed spec fn states(&self) -> Seq<GameState> {
        self.states@
    }

    /// The verdict on each state, in order.
    pub closed spec fn results(&self) -> Seq<Result<Validity, StateError>> {
        self.results@
    }

    /// What each state meant, in order.
    pub open spec fn kinds(&self) -> Seq<RunKind> {
        kinds_of(self.results())
    }

    /// Whether the last state stopped the run.
    pub closed spec fn stopped(&self) -> bool {
        self.stopped
    }

    /// Whether no more states came.
    pub closed spec fn closed(&self) -> bool {
        self.closed
    }

    /// Whether the run is over, by a stop or because no more states came.
    pub open spec fn finished(&self) -> bool {
        self.stopped() || self.closed()
    }

    /// The session the run validates.
    pub closed spec fn session(&self) -> Seq<char> {
        self.validator.session()
    }

    /// What every run keeps: its history fits `run_fits`, the validator stands in the last
    /// phase, and the run is stopped exactly when its last state stopped it.
    pub closed spec fn well_formed(&self) -> bool {
        &&& self.results@.len() == self.states@.len()
        &&& run_fits(self.phases@, self.states@, kinds_of(self.results@))
        &&& self.validator.phase() == self.phases@.last()
        &&& self.stopped == (self.results@.len() > 0 && (kinds_of(self.results@).last() is StopInvalid
            || kinds_of(self.results@).last() is StopFailed))
    }

    /// Starts a run for the ranked session the client plays. When it plays none there is no
    /// run: the error is logged and the player is told.
    pub fn open(client_state: &ClientState) -> (r: (Option<Self>, Vec<ThreadAction>))
        ensures
            match client_state.spec_session() {
                Some(id) => r.0 matches Some(run) && run.session() == id && run.states().len() == 0
                    && !run.finished() && run.well_formed() && run_fits(
                    run.phases(),
                    run.states(),
                    run.kinds(),
                ) && r.1@.len() == 0,
                None => r.0 is None && thread_actions_view(r.1@) == seq![
                    ThreadActionView::Error(
                        "Failed to start validator"@,
                        FailureDetailView::State(StateError::SessionNotFound),
                    ),
                    ThreadActionView::Log("Internal error, no session id found"@),
                ],
            },
    {
        match Validator::new(client_state) {
            Ok(validator) => {
                let phases: Ghost<Seq<MatchPhase>> = Ghost(Seq::empty().push(MatchPhase::Idle));
                let states: Ghost<Seq<GameState>> = Ghost(Seq::empty());
                let results: Ghost<Seq<Result<Validity, StateError>>> = Ghost(Seq::empty());
                let run = ValidationRun {
                    validator,
                    stopped: false,
                    closed: false,
                    phases,
                    states,
                    results,
                };
                proof {
                    assert(kinds_of(results@) =~= Seq::<RunKind>::empty());
                }
                (Some(run), Vec::new())
            },
            Err(e) => {
                let mut actions: Vec<ThreadAction> = Vec::new();
                actions.push(
                    ThreadAction::Error {
                        context: "Failed to start validator",
                        detail: FailureDetail::State(e),
                    },
                );
                actions.push(ThreadAction::Log(String::from_str("Internal error, no session id found")));
                proof {
                    assert(thread_actions_view(actions@) =~= seq![
                        ThreadActionView::Error(
                            "Failed to start validator"@,
                            FailureDetailView::State(StateError::SessionNotFound),
                        ),
                        ThreadActionView::Log("Internal error, no session id found"@),
                    ]);
                }
                (None, actions)
            },
        }
    }

    /// Whether the run is over.
    pub fn is_finished(&self) -> (r: bool)
        ensures
            r == self.finished(),
    {
        self.stopped || self.closed
    }

    fn take(&mut self, state: GameState) -> (r: Result<Validity, StateError>)
        requires
            !old(self).stopped(),
            old(self).well_formed(),
        ensures
            final(self).well_formed(),
            validation_outcome(old(self).phases().last(), old(self).session(), state, r),
            final(self).session() == old(self).session(),
            final(self).states() == old(self).states().push(state),
            final(self).phases() == old(self).phases().push(
                phase_after(old(self).phases().last(), state),
            ),
            final(self).results() == old(self).results().push(r),
            final(self).stopped() == (r is Err || r matches Ok(Validity::Invalid(_))),
            final(self).closed() == old(self).closed(),
    {
        let ghost phase = self.validator.phase();
        let r = self.validator.validate(state);
        proof {
            lemma_outcome_kind(phase, self.validator.session(), state, r);
        }
        let stop = match &r {
            Ok(Validity::Valid) | Ok(Validity::MatchFinished(_)) => false,
            _ => true,
        };
        self.stopped = stop;
        let ghost old_phases = self.phases@;
        let ghost old_states = self.states@;
        let ghost old_results = self.results@;
        self.phases = Ghost(self.phases@.push(phase_after(phase, state)));
        self.states = Ghost(self.states@.push(state));
        self.results = Ghost(self.results@.push(r));
        proof {
            let n = old_states.len();
            let kinds = kinds_of(self.results@);
            let old_kinds = kinds_of(old_results);
            assert(kinds =~= old_kinds.push(run_kind(r)));
            assert forall|i: int| 0 <= i < self.states@.len() implies #[trigger] self.phases@[i + 1]
                == phase_after(self.phases@[i], self.states@[i]) && kind_fits(
                self.phases@[i],
                self.states@[i],
                kinds[i],
            ) by {
                if i < n {
                    assert(old_phases[i + 1] == phase_after(old_phases[i], old_states[i]));
                    assert(kinds[i] == old_kinds[i]);
                }
            }
            assert forall|i: int| 0 <= i < kinds.len() - 1 implies (#[trigger] kinds[i] is Continue
                || kinds[i] is Report) by {
                assert(kinds[i] == old_kinds[i]);
                if i < old_kinds.len() - 1 {
                } else {
                    assert(!(old_kinds.last() is StopInvalid || old_kinds.last() is StopFailed));
                }
            }
        }
        r
    }

    /// Takes what the state channel gave: a game state, or nothing when it closed. A state is
    /// validated as `validation_outcome` describes for the run's phase and joins the run, and
    /// the thread does `verdict_actions` of the verdict; the run stops when the verdict is
    /// invalid or an error. When no state came, the run ends and the player is told.
    pub fn receive(&mut self, received: Option<GameState>) -> (actions: Vec<ThreadAction>)
        requires
            !old(self).finished(),
            old(self).well_formed(),
        ensures
            final(self).well_formed(),
            final(self).session() == old(self).session(),
            match received {
                None => {
                    &&& final(self).closed()
                    &&& !final(self).stopped()
                    &&& final(self).states() == old(self).states()
                    &&& final(self).phases() == old(self).phases()
                    &&& final(self).results() == old(self).results()
                    &&& thread_actions_view(actions@) == seq![
                        ThreadActionView::Log("Stopped validating game state"@),
                    ]
                },
                Some(state) => {
                    let r = final(self).results().last();
                    &&& !final(self).closed()
                    &&& validation_outcome(old(self).phases().last(), old(self).session(), state, r)
                    &&& final(self).states() == old(self).states().push(state)
                    &&& final(self).phases() == old(self).phases().push(
                        phase_after(old(self).phases().last(), state),
                    )
                    &&& final(self).results() == old(self).results().push(r)
                    &&& final(self).stopped() == (r is Err || r matches Ok(Validity::Invalid(_)))
                    &&& thread_actions_view(actions@) == verdict_actions(r)
                },
            },
    {
        let mut actions: Vec<ThreadAction> = Vec::new();
        match received {
            None => {
                self.closed = true;
                actions.push(ThreadAction::Log(String::from_str("Stopped validating game state")));
                proof {
                    assert(thread_actions_view(actions@) =~= seq![
                        ThreadActionView::Log("Stopped validating game state"@),
                    ]);
                }
            },
            Some(state) => {
                let r = self.take(state);
                let ghost rv = r;
                match r {
                    Ok(Validity::Valid) => {},
                    Ok(Validity::MatchFinished(res)) => {
                        actions.push(ThreadAction::Log(String::from_str("Sending match to the server...")));
                        actions.push(ThreadAction::Send(res));
                    },
                    Ok(Validity::Invalid(reason)) => {
                        actions.push(
                            ThreadAction::Error {
                                context: "Invalid game state",
                                detail: FailureDetail::Reason(reason),
                            },
                        );
                        actions.push(ThreadAction::Log(String::from_str("Invalid game state")));
                        actions.push(ThreadAction::Log(String::from_str("Stopped validating game state")));
                    },
                    Err(e) => {
                        actions.push(
                            ThreadAction::Error {
                                context: "Failed to validate game state",
                                detail: FailureDetail::State(e),
                            },
                        );
                        actions.push(ThreadAction::Log(String::from_str("Failed to validate game state")));
                        actions.push(ThreadAction::Log(String::from_str("Stopped validating game state")));
                    },
                }
                proof {
                    assert(thread_actions_view(actions@) =~= verdict_actions(rv));
                }
            },
        }
        actions
    }
}

/// The law of a run of the validator thread: only its last state can stop it, every state
/// before the last that finishes a match by the rules is sent to the server exactly once, a
/// state is sent only if it finishes a match by the rules, and no state is sent twice.
pub proof fn lemma_run_sends_each_finished_match_once(
    phases: Seq<MatchPhase>,
    states: Seq<GameState>,
    results: Seq<Result<Validity, StateError>>,
)
    requires
        results.len() == states.len(),
        run_fits(phases, states, kinds_of(results)),
    ensures
        forall|i: int|
            0 <= i < results.len() - 1 ==> !(#[trigger] kinds_of(results)[i] is StopInvalid
                || kinds_of(results)[i] is StopFailed),
        forall|i: int|
            0 <= i < states.len() - 1 && #[trigger] finishes_by_the_rules(phases[i], states[i])
                ==> count_sends(verdict_actions(results[i])) == 1,
        forall|i: int|
            0 <= i < states.len() && count_sends(#[trigger] verdict_actions(results[i])) > 0
                ==> finishes_by_the_rules(phases[i], states[i]),
        forall|i: int| 0 <= i < states.len() ==> count_sends(#[trigger] verdict_actions(results[i])) <= 1,
{
    let kinds = kinds_of(results);
    assert forall|i: int|
        0 <= i < states.len() - 1 && #[trigger] finishes_by_the_rules(phases[i], states[i]) implies count_sends(
        verdict_actions(results[i]),
    ) == 1 by {
        assert(phases[i + 1] == phase_after(phases[i], states[i]));
        assert(kinds[i] is Continue || kinds[i] is Report);
        lemma_verdict_sends(results[i]);
    }
    assert forall|i: int|
        0 <= i < states.len() && count_sends(#[trigger] verdict_actions(results[i])) > 0 implies finishes_by_the_rules(
        phases[i],
        states[i],
    ) by {
        assert(phases[i + 1] == phase_after(phases[i], states[i]));
        lemma_verdict_sends(results[i]);
        assert(kinds[i] is Report);
    }
    assert forall|i: int| 0 <= i < states.len() implies count_sends(
        #[trigger] verdict_actions(results[i]),
    ) <= 1 by {
        lemma_verdict_sends(results[i]);
    }
}

} // verus!
