use vstd::prelude::*;

use crate::client::state::ClientState;
use crate::game::state::{GameState, GameTimers, Player};
use crate::memory::addresses::{client_mode_name, game_mode_name, ClientMode, GameMode};
use crate::validation::result::{
    expected_result, lemma_result_records_sender, result_rejection, MatchResult, SenderRole,
    StateError,
};

verus! {

/// Where a ranked match stands, as the validator sees it.
#[derive(Debug, PartialEq, Eq)]
pub enum MatchState {
    /// Before character select, and again once the game leaves the retry menu for a screen
    /// outside the match (a loading screen, which leads to a rematch, keeps the retry menu).
    Idle,
    WaitingInCharSelect,
    InGame,
    RetryMenu,
    /// Holds only once per match, then the retry menu follows.
    MatchFinished,
    Invalid(String),
}

/// The value of a `MatchState`.
pub enum MatchPhase {
    Idle,
    WaitingInCharSelect,
    InGame,
    RetryMenu,
    MatchFinished,
    Invalid(Seq<char>),
}

impl View for MatchState {
    type V = MatchPhase;

    open spec fn view(&self) -> MatchPhase {
        match self {
            MatchState::Idle => MatchPhase::Idle,
            MatchState::WaitingInCharSelect => MatchPhase::WaitingInCharSelect,
            MatchState::InGame => MatchPhase::InGame,
            MatchState::RetryMenu => MatchPhase::RetryMenu,
            MatchState::MatchFinished => MatchPhase::MatchFinished,
            MatchState::Invalid(reason) => MatchPhase::Invalid(reason@),
        }
    }
}

/// The reason given when a screen shows up out of order.
pub open spec fn invalid_reason(game_mode: GameMode) -> Seq<char> {
    "invalid match state detected before "@ + game_mode_name(game_mode)
}

/// The reason given when this machine is neither the host nor the client of the match.
pub open spec fn invalid_client_reason(client_mode: ClientMode) -> Seq<char> {
    "invalid client mode: "@ + client_mode_name(client_mode)
}

/// Whether a screen may follow a phase: character select only before a match, the match
/// only after character select, the retry menu or the match itself, and the retry menu only
/// after a match. Other screens may come at any time.
pub open spec fn valid_before(phase: MatchPhase, game_mode: GameMode) -> bool {
    match game_mode {
        GameMode::CharSelect => phase is Idle || phase is RetryMenu || phase is InGame
            || phase is WaitingInCharSelect,
        GameMode::InGame => phase is RetryMenu || phase is InGame || phase is WaitingInCharSelect,
        GameMode::Retry => phase is InGame || phase is RetryMenu || phase is MatchFinished,
        _ => true,
    }
}

/// Whether the game, showing this screen after the retry menu, has left the match: any screen
/// but character select, the match, the retry menu, the loading screen before a rematch and
/// the replay menu.
pub open spec fn leaves_match(game_mode: GameMode) -> bool {
    !(game_mode == GameMode::CharSelect || game_mode == GameMode::InGame || game_mode
        == GameMode::Retry || game_mode == GameMode::Loading || game_mode == GameMode::ReplayMenu)
}

/// The phase after the game shows a screen. A screen out of order, or the replay menu,
/// makes the match invalid; the retry menu right after a match finishes it; leaving the retry
/// menu for a screen outside the match goes back to idle.
pub open spec fn next_phase(phase: MatchPhase, game_mode: GameMode) -> MatchPhase {
    if !valid_before(phase, game_mode) {
        MatchPhase::Invalid(invalid_reason(game_mode))
    } else {
        match game_mode {
            GameMode::CharSelect => MatchPhase::WaitingInCharSelect,
            GameMode::InGame => MatchPhase::InGame,
            GameMode::Retry => if phase is InGame {
                MatchPhase::MatchFinished
            } else {
                MatchPhase::RetryMenu
            },
            GameMode::ReplayMenu => MatchPhase::Invalid(invalid_reason(game_mode)),
            _ => if (phase is RetryMenu || phase is MatchFinished) && leaves_match(game_mode) {
                MatchPhase::Idle
            } else {
                phase
            },
        }
    }
}

/// Whether this machine plays in the match: it is the host or the client.
pub open spec fn plays_match(client_mode: ClientMode) -> bool {
    client_mode == ClientMode::Host || client_mode == ClientMode::Client
}

/// The phase after a game state: unchanged when this machine does not play the match, else
/// moved by `next_phase`.
pub open spec fn phase_after(phase: MatchPhase, state: GameState) -> MatchPhase {
    if plays_match(state.spec_client_mode()) {
        next_phase(phase, state.spec_game_mode())
    } else {
        phase
    }
}

/// What validating a game state in a phase gives, for a session. A state whose client mode is
/// neither host nor client is invalid. Otherwise, when the phase becomes `MatchFinished` on a
/// state that shows a match, the result is built: a broken rule is the error, else the result
/// (or the error of a clock that reads before 1970); any other invalid phase is reported with
/// its reason, and every other phase as valid.
pub open spec fn validation_outcome(
    phase: MatchPhase,
    session: Seq<char>,
    state: GameState,
    r: Result<Validity, StateError>,
) -> bool {
    if !plays_match(state.spec_client_mode()) {
        r matches Ok(Validity::Invalid(msg)) && msg@ == invalid_client_reason(
            state.spec_client_mode(),
        )
    } else {
        let next = next_phase(phase, state.spec_game_mode());
        match state {
            GameState::InGame { local_player, client_mode, timers, players, .. } => {
                if next is MatchFinished {
                    match result_rejection(
                        client_mode,
                        timers.spec_real_timer(),
                        players@[0].score,
                        players@[1].score,
                    ) {
                        Some(msg) => r matches Err(StateError::MatchResultError(m)) && m@ == msg,
                        None => (r matches Ok(Validity::MatchFinished(res)) && res@
                            == expected_result(
                            session,
                            client_mode,
                            crate::memory::addresses::local_player_code(local_player),
                            players,
                            timers.spec_real_timer(),
                            res@.timestamp,
                        )) || r matches Err(StateError::ClockBeforeEpoch),
                    }
                } else {
                    match next {
                        MatchPhase::Invalid(reason) => r matches Ok(Validity::Invalid(m)) && m@
                            == reason,
                        _ => r matches Ok(Validity::Valid),
                    }
                }
            },
            GameState::NotInGame { .. } => match next {
                MatchPhase::Invalid(reason) => r matches Ok(Validity::Invalid(m)) && m@ == reason,
                _ => r matches Ok(Validity::Valid),
            },
        }
    }
}

impl Default for MatchState {
    fn default() -> (r: Self)
        ensures
            r@ == MatchPhase::Idle,
    {
        MatchState::Idle
    }
}

impl MatchState {
    /// The invalid state for a screen that showed up out of order.
    pub fn invalid_mode(game_mode: &GameMode) -> (r: MatchState)
        ensures
            r@ == MatchPhase::Invalid(invalid_reason(*game_mode)),
    {
        let mut reason = String::from_str("invalid match state detected before ");
        reason.append(game_mode.name());
        MatchState::Invalid(reason)
    }

    fn is_valid_before(&self, game_mode: &GameMode) -> (r: bool)
        ensures
            r == valid_before(self@, *game_mode),
    {
        match game_mode {
            GameMode::CharSelect => matches!(
                self,
                MatchState::Idle | MatchState::RetryMenu | MatchState::InGame
                    | MatchState::WaitingInCharSelect
            ),
            GameMode::InGame => matches!(
                self,
                MatchState::RetryMenu | MatchState::InGame | MatchState::WaitingInCharSelect
            ),
            GameMode::Retry => matches!(
                self,
                MatchState::InGame | MatchState::RetryMenu | MatchState::MatchFinished
            ),
            _ => true,
        }
    }
}

/// What one game state means for the match.
#[derive(Debug)]
pub enum Validity {
    Valid,
    Invalid(String),
    MatchFinished(MatchResult),
}

/// Follows the screens of one ranked session and tells when the match breaks the rules or
/// finishes.
pub struct Validator {
    matchstate: MatchState,
    session_id: String,
}

impl Validator {
    /// The phase the validator is in.
    pub closed spec fn phase(&self) -> MatchPhase {
        self.matchstate@
    }

    /// The session the validator checks.
    pub closed spec fn session(&self) -> Seq<char> {
        self.session_id@
    }

    /// Starts validating the ranked session that the client is playing; fails when the
    /// client plays none.
    pub fn new(client_state: &ClientState) -> (r: Result<Self, StateError>)
        ensures
            match client_state.spec_session() {
                Some(id) => r matches Ok(v) && v.phase() == MatchPhase::Idle && v.session() == id,
                None => r matches Err(StateError::SessionNotFound),
            },
    {
        let session_id = match client_state.session() {
            Some(s) => s.clone(),
            None => return Err(StateError::SessionNotFound),
        };
        Ok(Validator { matchstate: MatchState::default(), session_id })
    }

    fn validate_client_mode(&self, client_mode: &ClientMode) -> (r: Result<(), String>)
        ensures
            match r {
                Ok(()) => *client_mode == ClientMode::Host || *client_mode == ClientMode::Client,
                Err(msg) => !(*client_mode == ClientMode::Host || *client_mode == ClientMode::Client)
                    && msg@ == invalid_client_reason(*client_mode),
            },
    {
        if !client_mode.is_player() {
            let mut msg = String::from_str("invalid client mode: ");
            msg.append(client_mode.name());
            return Err(msg);
        }
        Ok(())
    }

    /// Takes the next game state: the phase moves by `phase_after`, and the verdict is the one
    /// `validation_outcome` describes.
    pub fn validate(&mut self, state: GameState) -> (r: Result<Validity, StateError>)
        ensures
            final(self).session() == old(self).session(),
            final(self).phase() == phase_after(old(self).phase(), state),
            validation_outcome(old(self).phase(), old(self).session(), state, r),
    {
        if let Err(msg) = self.validate_client_mode(state.client_mode()) {
            return Ok(Validity::Invalid(msg));
        }

        self.update_matchstate(state.game_mode());

        if let GameState::InGame { local_player, client_mode, timers, players, .. } = state {
            if matches!(self.matchstate, MatchState::MatchFinished) {
                return self.handle_match_finished(local_player.as_u8(), client_mode, players, timers);
            }
        }

        match &self.matchstate {
            MatchState::Invalid(reason) => Ok(Validity::Invalid(reason.clone())),
            _ => Ok(Validity::Valid),
        }
    }

    /// The session the validator checks.
    pub fn get_session(&self) -> (r: String)
        ensures
            r@ == self.session(),
    {
        self.session_id.clone()
    }

    fn handle_match_finished(
        &self,
        local_player: u8,
        client_mode: ClientMode,
        players: [Player; 2],
        timers: GameTimers,
    ) -> (r: Result<Validity, StateError>)
        ensures
            match result_rejection(
                client_mode,
                timers.spec_real_timer(),
                players@[0].score,
                players@[1].score,
            ) {
                Some(msg) => r matches Err(StateError::MatchResultError(m)) && m@ == msg,
                None => (r matches Ok(Validity::MatchFinished(res)) && res@ == expected_result(
                    self.session(),
                    client_mode,
                    local_player,
                    players,
                    timers.spec_real_timer(),
                    res@.timestamp,
                )) || r matches Err(StateError::ClockBeforeEpoch),
            },
    {
        let session_id = self.get_session();
        let result = MatchResult::new(session_id, client_mode, local_player, players, timers)?;
        Ok(Validity::MatchFinished(result))
    }

    fn update_matchstate(&mut self, game_mode: &GameMode)
        ensures
            final(self).phase() == next_phase(old(self).phase(), *game_mode),
            final(self).session() == old(self).session(),
    {
        if !self.matchstate.is_valid_before(game_mode) {
            self.matchstate = MatchState::invalid_mode(game_mode);
            return;
        }
        match game_mode {
            GameMode::CharSelect => self.matchstate = MatchState::WaitingInCharSelect,
            GameMode::InGame => self.matchstate = MatchState::InGame,
            GameMode::Retry => {
                if matches!(self.matchstate, MatchState::InGame) {
                    self.matchstate = MatchState::MatchFinished;
                    return;
                }
                self.matchstate = MatchState::RetryMenu;
            },
            GameMode::ReplayMenu => self.matchstate = MatchState::invalid_mode(game_mode),
            GameMode::Loading => (),
            _ => {
                if matches!(self.matchstate, MatchState::RetryMenu | MatchState::MatchFinished) {
                    self.matchstate = MatchState::Idle;
                }
            },
        }
    }
}


/// Once a match is invalid it stays invalid, whatever screen comes next.
pub proof fn lemma_invalid_is_absorbing(reason: Seq<char>, game_mode: GameMode)
    ensures
        next_phase(MatchPhase::Invalid(reason), game_mode) is Invalid,
{
}

/// A match enters the finished phase exactly when the retry menu follows the match itself.
pub proof fn lemma_finish_needs_match_then_retry(phase: MatchPhase, game_mode: GameMode)
    requires
        !(phase is MatchFinished),
    ensures
        next_phase(phase, game_mode) is MatchFinished <==> (phase is InGame && game_mode
            == GameMode::Retry),
{
}

/// A finished match is reported once: when the next screen shows a match again (the match or
/// its retry menu), the phase is no longer finished.
pub proof fn lemma_finish_is_reported_once(game_mode: GameMode)
    requires
        game_mode == GameMode::InGame || game_mode == GameMode::Retry,
    ensures
        !(next_phase(MatchPhase::MatchFinished, game_mode) is MatchFinished),
{
}

/// Leaving the retry menu for a screen outside the match goes back to idle, so that the next
/// match must start at character select.
pub proof fn lemma_leaving_retry_menu_resets(phase: MatchPhase, game_mode: GameMode)
    requires
        phase is RetryMenu || phase is MatchFinished,
        leaves_match(game_mode),
    ensures
        next_phase(phase, game_mode) == MatchPhase::Idle,
        next_phase(next_phase(phase, game_mode), GameMode::InGame) == MatchPhase::Invalid(
            invalid_reason(GameMode::InGame),
        ),
        next_phase(next_phase(phase, game_mode), GameMode::CharSelect)
            == MatchPhase::WaitingInCharSelect,
{
}

/// A finished match comes only from a state that shows the match, and its result is that
/// match's: the session validated, the players and timer read, and for a host, the host's own
/// position (the player read from memory).
pub proof fn lemma_finished_result_is_the_match(
    phase: MatchPhase,
    session: Seq<char>,
    state: GameState,
    r: Result<Validity, StateError>,
)
    requires
        validation_outcome(phase, session, state, r),
        r matches Ok(Validity::MatchFinished(_)),
    ensures
        match (state, r) {
            (
                GameState::InGame { local_player, client_mode, players, timers, .. },
                Ok(Validity::MatchFinished(res)),
            ) => {
                &&& res@.session_id == session
                &&& res@.p1 == players@[0] && res@.p2 == players@[1]
                &&& res@.real_timer == timers.spec_real_timer()
                &&& client_mode == ClientMode::Host ==> res@.host_position == Some(
                    crate::memory::addresses::local_player_code(local_player),
                ) && res@.sender_role == SenderRole::Host
                &&& client_mode == ClientMode::Client ==> res@.host_position is None
                    && res@.sender_role == SenderRole::Client
            },
            _ => false,
        },
{
    match (state, r) {
        (
            GameState::InGame { local_player, client_mode, players, timers, .. },
            Ok(Validity::MatchFinished(res)),
        ) => {
            lemma_result_records_sender(
                session,
                client_mode,
                crate::memory::addresses::local_player_code(local_player),
                players,
                timers.spec_real_timer(),
                res@.timestamp,
            );
        },
        _ => {},
    }
}

/// The order of the screens of a match: character select may come before a match, between
/// matches or again; the match only after character select, the retry menu or the match
/// itself; the retry menu only after a match (finishing it the first time) or the retry menu.
/// A screen out of that order makes the match invalid, naming the screen.
pub proof fn lemma_screen_order(phase: MatchPhase)
    ensures
        (phase is Idle || phase is RetryMenu || phase is InGame || phase is WaitingInCharSelect)
            ==> next_phase(phase, GameMode::CharSelect) == MatchPhase::WaitingInCharSelect,
        !(phase is Idle || phase is RetryMenu || phase is InGame || phase is WaitingInCharSelect)
            ==> next_phase(phase, GameMode::CharSelect) == MatchPhase::Invalid(
            invalid_reason(GameMode::CharSelect),
        ),
        (phase is RetryMenu || phase is InGame || phase is WaitingInCharSelect) ==> next_phase(
            phase,
            GameMode::InGame,
        ) == MatchPhase::InGame,
        !(phase is RetryMenu || phase is InGame || phase is WaitingInCharSelect) ==> next_phase(
            phase,
            GameMode::InGame,
        ) == MatchPhase::Invalid(invalid_reason(GameMode::InGame)),
        phase is InGame ==> next_phase(phase, GameMode::Retry) == MatchPhase::MatchFinished,
        (phase is RetryMenu || phase is MatchFinished) ==> next_phase(phase, GameMode::Retry)
            == MatchPhase::RetryMenu,
        !(phase is InGame || phase is RetryMenu || phase is MatchFinished) ==> next_phase(
            phase,
            GameMode::Retry,
        ) == MatchPhase::Invalid(invalid_reason(GameMode::Retry)),
{
}

/// The loading screen never changes the phase, whatever it is: it sits between character
/// select (or the retry menu) and the match.
pub proof fn lemma_loading_keeps_phase(phase: MatchPhase)
    ensures
        next_phase(phase, GameMode::Loading) == phase,
{
}

/// Outside the retry menu, a screen other than character select, the match, the retry menu and
/// the replay menu leaves the phase as it was.
pub proof fn lemma_other_screens_keep_phase(phase: MatchPhase, game_mode: GameMode)
    requires
        game_mode != GameMode::CharSelect,
        game_mode != GameMode::InGame,
        game_mode != GameMode::Retry,
        game_mode != GameMode::ReplayMenu,
        !(phase is RetryMenu),
        !(phase is MatchFinished),
    ensures
        next_phase(phase, game_mode) == phase,
{
}

/// The regular way into a match is valid: wherever character select may come, character
/// select, the loading screen and then the match end in the match, not in an invalid phase.
pub proof fn lemma_select_load_play(start: MatchPhase)
    requires
        start is Idle || start is RetryMenu || start is InGame || start is WaitingInCharSelect,
    ensures
        next_phase(start, GameMode::CharSelect) == MatchPhase::WaitingInCharSelect,
        next_phase(MatchPhase::WaitingInCharSelect, GameMode::Loading)
            == MatchPhase::WaitingInCharSelect,
        next_phase(
            next_phase(next_phase(start, GameMode::CharSelect), GameMode::Loading),
            GameMode::InGame,
        ) == MatchPhase::InGame,
{
}

/// A rematch is valid: from the retry menu, the loading screen and then the match keep the
/// match going.
pub proof fn lemma_rematch_through_loading()
    ensures
        next_phase(next_phase(MatchPhase::RetryMenu, GameMode::Loading), GameMode::InGame)
            == MatchPhase::InGame,
{
}

/// The replay menu makes any match invalid.
pub proof fn lemma_replay_menu_invalidates(phase: MatchPhase)
    ensures
        next_phase(phase, GameMode::ReplayMenu) == MatchPhase::Invalid(
            invalid_reason(GameMode::ReplayMenu),
        ),
{
}

/// A regular match, read any number of times on each screen, finishes: from idle or from the
/// retry menu of the previous match, character select, then the match, then the retry menu.
pub proof fn lemma_regular_match_finishes(start: MatchPhase, select_reads: nat, match_reads: nat)
    requires
        start is Idle || start is RetryMenu,
        select_reads >= 1,
        match_reads >= 1,
    ensures
        ({
            let selecting = repeat_screen(start, GameMode::CharSelect, select_reads);
            let playing = repeat_screen(selecting, GameMode::InGame, match_reads);
            &&& selecting is WaitingInCharSelect
            &&& playing is InGame
            &&& next_phase(playing, GameMode::Retry) is MatchFinished
        }),
{
    lemma_repeat_settles(start, GameMode::CharSelect, select_reads);
    let selecting = repeat_screen(start, GameMode::CharSelect, select_reads);
    lemma_repeat_settles(selecting, GameMode::InGame, match_reads);
}

/// The phase after the game shows the same screen `n` times in a row.
pub open spec fn repeat_screen(phase: MatchPhase, game_mode: GameMode, n: nat) -> MatchPhase
    decreases n,
{
    if n == 0 {
        phase
    } else {
        next_phase(repeat_screen(phase, game_mode, (n - 1) as nat), game_mode)
    }
}

proof fn lemma_repeat_settles(phase: MatchPhase, game_mode: GameMode, n: nat)
    requires
        n >= 1,
        game_mode == GameMode::CharSelect ==> (phase is Idle || phase is RetryMenu || phase is InGame
            || phase is WaitingInCharSelect),
        game_mode == GameMode::InGame ==> (phase is RetryMenu || phase is InGame
            || phase is WaitingInCharSelect),
        game_mode == GameMode::CharSelect || game_mode == GameMode::InGame,
    ensures
        game_mode == GameMode::CharSelect ==> repeat_screen(phase, game_mode, n) is WaitingInCharSelect,
        game_mode == GameMode::InGame ==> repeat_screen(phase, game_mode, n) is InGame,
    decreases n,
{
    reveal_with_fuel(repeat_screen, 2);
    if n > 1 {
        lemma_repeat_settles(phase, game_mode, (n - 1) as nat);
    }
}

} // verus!
