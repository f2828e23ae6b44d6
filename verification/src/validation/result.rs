use vstd::prelude::*;

use crate::game::character::{char_name, moon_name};
use crate::game::state::{GameTimers, Player};
use crate::memory::addresses::ClientMode;
use crate::text::{decimal_text, u32_to_decimal};

verus! {

/// Why a result could not be built or a validation could not start.
#[derive(Debug)]
pub enum StateError {
    MatchResultError(String),
    SessionNotFound,
    /// The system clock reads a time before the Unix epoch, so the result cannot be stamped.
    ClockBeforeEpoch,
}

/// Which side of the netplay session reports a result.
#[derive(Debug, Clone, Copy, PartialEq, Eq, Structural)]
pub enum SenderRole {
    Host,
    Client,
}

/// The real timer counts 24 frames a second; a ranked match lasts more than this many
/// frames (10 seconds).
pub const MIN_MATCH_FRAMES: u32 = 240;

/// The result of a finished ranked match, as it is reported to the server.
#[derive(Debug)]
pub struct MatchResult {
    host_position: Option<u8>,
    sender_role: SenderRole,
    p1: Player,
    p2: Player,
    session_id: String,
    real_timer: u32,
    timestamp: u64,
}

/// The content of a match result.
pub struct MatchResultView {
    pub host_position: Option<u8>,
    pub sender_role: SenderRole,
    pub p1: Player,
    pub p2: Player,
    pub session_id: Seq<char>,
    pub real_timer: u32,
    pub timestamp: u64,
}

impl View for MatchResult {
    type V = MatchResultView;

    closed spec fn view(&self) -> MatchResultView {
        MatchResultView {
            host_position: self.host_position,
            sender_role: self.sender_role,
            p1: self.p1,
            p2: self.p2,
            session_id: self.session_id@,
            real_timer: self.real_timer,
            timestamp: self.timestamp,
        }
    }
}

/// What every match result satisfies: it lasted more than the minimum, it has a winner,
/// and it names the host's position exactly when the host sends it.
pub open spec fn valid_result(v: MatchResultView) -> bool {
    &&& v.real_timer > MIN_MATCH_FRAMES
    &&& v.p1.score != v.p2.score
    &&& (v.sender_role == SenderRole::Host) == (v.host_position is Some)
}

/// Why a match with these values yields no result, if it yields one: the first rule it
/// breaks, in the order the rules are checked.
pub open spec fn result_rejection(
    client_mode: ClientMode,
    real_timer: u32,
    p1_score: u32,
    p2_score: u32,
) -> Option<Seq<char>> {
    if !(client_mode == ClientMode::Host || client_mode == ClientMode::Client) {
        Some("role state mut be host or client"@)
    } else if real_timer <= MIN_MATCH_FRAMES {
        Some("match must be at least 10 seconds long in real time"@)
    } else if p1_score == p2_score {
        Some(
            "invalid score: p1: "@ + decimal_text(p1_score) + ", p2: "@ + decimal_text(
                p2_score,
            ),
        )
    } else {
        None
    }
}

/// The result built from a match that breaks no rule.
pub open spec fn expected_result(
    session_id: Seq<char>,
    client_mode: ClientMode,
    local_player: u8,
    players: [Player; 2],
    real_timer: u32,
    timestamp: u64,
) -> MatchResultView {
    MatchResultView {
        host_position: if client_mode == ClientMode::Host {
            Some(local_player)
        } else {
            None
        },
        sender_role: if client_mode == ClientMode::Host {
            SenderRole::Host
        } else {
            SenderRole::Client
        },
        p1: players@[0],
        p2: players@[1],
        session_id,
        real_timer,
        timestamp,
    }
}

/// A number below one hundred written with at least two digits.
pub open spec fn two_digit_text(n: u32) -> Seq<char> {
    if n < 10 {
        "0"@ + decimal_text(n)
    } else {
        decimal_text(n)
    }
}

/// A match result as the log shows it: player one's moon and character, the score, player
/// two's moon and character, and the duration as minutes and two-digit seconds.
pub open spec fn match_description(v: MatchResultView) -> Seq<char> {
    let secs = (v.real_timer + 12) / 24;
    moon_name(v.p1.moon) + "-"@ + char_name(v.p1.character) + " ("@ + decimal_text(v.p1.score)
        + "x"@ + decimal_text(v.p2.score) + ") "@ + moon_name(v.p2.moon) + "-"@ + char_name(
        v.p2.character,
    ) + " | Duration: "@ + decimal_text((secs / 60) as u32) + ":"@ + two_digit_text(
        (secs % 60) as u32,
    )
}

/// When a finished match gives a result: exactly when this machine is the host or the client,
/// the match lasted more than 240 frames (ten seconds at 24 frames a second), and the scores
/// differ.
pub proof fn lemma_result_rules(client_mode: ClientMode, real_timer: u32, p1_score: u32, p2_score: u32)
    ensures
        result_rejection(client_mode, real_timer, p1_score, p2_score) is None <==> (
        (client_mode == ClientMode::Host || client_mode == ClientMode::Client) && real_timer > 240
            && p1_score != p2_score),
{
}

/// What a result records of its sender: a host's result names the host's own position (the
/// player it plays) and the host role; a client's result names no position and the client
/// role. The players, session, timer and timestamp are taken as given.
pub proof fn lemma_result_records_sender(
    session_id: Seq<char>,
    client_mode: ClientMode,
    local_player: u8,
    players: [Player; 2],
    real_timer: u32,
    timestamp: u64,
)
    ensures
        ({
            let v = expected_result(
                session_id,
                client_mode,
                local_player,
                players,
                real_timer,
                timestamp,
            );
            &&& client_mode == ClientMode::Host ==> v.host_position == Some(local_player)
                && v.sender_role == SenderRole::Host
            &&& client_mode != ClientMode::Host ==> v.host_position is None && v.sender_role
                == SenderRole::Client
            &&& v.p1 == players@[0] && v.p2 == players@[1]
            &&& v.session_id == session_id && v.real_timer == real_timer && v.timestamp == timestamp
        }),
{
}

/// Reads the system clock: the whole seconds since the Unix epoch, from std's
/// `SystemTime::now` measured with `duration_since(UNIX_EPOCH)`, or `None` when the clock reads
/// a time before the epoch (the case in which `duration_since` returns an error). Nothing more
/// is claimed of the value: it is the time.
#[verifier::external_body]
fn get_unix_timestamp_u64() -> Option<u64> {
    std::time::SystemTime::now().duration_since(std::time::UNIX_EPOCH).ok().map(|d| d.as_secs())
}

impl MatchResult {
    #[verifier::type_invariant]
    spec fn well_formed(self) -> bool {
        valid_result(self@)
    }

    /// Builds the result of a finished match, stamped with the current time: the clock's
    /// reading is handed to `new_at`. A broken rule is reported before a clock that reads a
    /// time before the Unix epoch, which fails a match that breaks no rule.
    pub fn new(
        session_id: String,
        client_mode: ClientMode,
        local_player: u8,
        players: [Player; 2],
        timers: GameTimers,
    ) -> (r: Result<Self, StateError>)
        ensures
            match result_rejection(
                client_mode,
                timers.spec_real_timer(),
                players@[0].score,
                players@[1].score,
            ) {
                Some(msg) => r matches Err(StateError::MatchResultError(m)) && m@ == msg,
                None => (r matches Ok(res) && res@ == expected_result(
                    session_id@,
                    client_mode,
                    local_player,
                    players,
                    timers.spec_real_timer(),
                    res@.timestamp,
                )) || r matches Err(StateError::ClockBeforeEpoch),
            },
            r matches Ok(res) ==> {
                &&& client_mode == ClientMode::Host ==> res@.host_position == Some(local_player)
                    && res@.sender_role == SenderRole::Host
                &&& client_mode == ClientMode::Client ==> res@.host_position is None
                    && res@.sender_role == SenderRole::Client
                &&& res@.p1 == players@[0] && res@.p2 == players@[1]
                &&& res@.session_id == session_id@
                &&& res@.real_timer == timers.spec_real_timer()
            },
    {
        match get_unix_timestamp_u64() {
            Some(now) => Self::new_at(session_id, client_mode, local_player, players, timers, now),
            None => match Self::new_at(session_id, client_mode, local_player, players, timers, 0) {
                Err(e) => Err(e),
                Ok(_) => Err(StateError::ClockBeforeEpoch),
            },
        }
    }

    /// Builds the result of a finished match with the given timestamp. It fails with the
    /// first rule the match breaks: the sender must be the host or the client, the match must
    /// last more than `MIN_MATCH_FRAMES` frames, and the scores must differ.
    pub fn new_at(
        session_id: String,
        client_mode: ClientMode,
        local_player: u8,
        players: [Player; 2],
        timers: GameTimers,
        timestamp: u64,
    ) -> (r: Result<Self, StateError>)
        ensures
            match result_rejection(
                client_mode,
                timers.spec_real_timer(),
                players@[0].score,
                players@[1].score,
            ) {
                Some(msg) => r matches Err(StateError::MatchResultError(m)) && m@ == msg,
                None => r matches Ok(res) && res@ == expected_result(
                    session_id@,
                    client_mode,
                    local_player,
                    players,
                    timers.spec_real_timer(),
                    timestamp,
                ),
            },
            r matches Ok(res) ==> {
                &&& client_mode == ClientMode::Host ==> res@.host_position == Some(local_player)
                    && res@.sender_role == SenderRole::Host
                &&& client_mode == ClientMode::Client ==> res@.host_position is None
                    && res@.sender_role == SenderRole::Client
                &&& res@.p1 == players@[0] && res@.p2 == players@[1]
                &&& res@.session_id == session_id@
                &&& res@.real_timer == timers.spec_real_timer()
            },
            r matches Ok(res) ==> res@.timestamp == timestamp,
    {
        let p1 = players[0];
        let p2 = players[1];
        let real_timer = timers.real_timer();

        let sender_role;
        let host_position;
        match client_mode {
            ClientMode::Host => {
                sender_role = SenderRole::Host;
                host_position = Some(local_player);
            },
            ClientMode::Client => {
                sender_role = SenderRole::Client;
                host_position = None;
            },
            _ => {
                return Err(
                    StateError::MatchResultError(
                        String::from_str("role state mut be host or client"),
                    ),
                );
            },
        }

        if real_timer <= MIN_MATCH_FRAMES {
            return Err(
                StateError::MatchResultError(
                    String::from_str("match must be at least 10 seconds long in real time"),
                ),
            );
        }

        if p1.score == p2.score {
            let mut msg = String::from_str("invalid score: p1: ");
            let s1 = u32_to_decimal(p1.score);
            msg.append(s1.as_str());
            msg.append(", p2: ");
            let s2 = u32_to_decimal(p2.score);
            msg.append(s2.as_str());
            return Err(StateError::MatchResultError(msg));
        }

        Ok(MatchResult { host_position, sender_role, p1, p2, session_id, real_timer, timestamp })
    }

    /// The session this result belongs to.
    pub fn session_id(&self) -> (r: &String)
        ensures
            r@ == self@.session_id,
    {
        &self.session_id
    }

    /// The position of the host, given when the host sends the result.
    pub fn host_position(&self) -> (r: Option<u8>)
        ensures
            r == self@.host_position,
            (r is Some) == (self@.sender_role == SenderRole::Host),
    {
        proof {
            use_type_invariant(self);
        }
        self.host_position
    }

    pub fn sender_role(&self) -> (r: SenderRole)
        ensures
            r == self@.sender_role,
    {
        self.sender_role
    }

    /// Player one and player two.
    pub fn players(&self) -> (r: (Player, Player))
        ensures
            r == (self@.p1, self@.p2),
            r.0.score != r.1.score,
    {
        proof {
            use_type_invariant(self);
        }
        (self.p1, self.p2)
    }

    /// The length of the match in frames, 24 to a second.
    pub fn real_timer(&self) -> (r: u32)
        ensures
            r == self@.real_timer,
            r > MIN_MATCH_FRAMES,
    {
        proof {
            use_type_invariant(self);
        }
        self.real_timer
    }

    /// When the result was built, in seconds since the Unix epoch.
    pub fn timestamp(&self) -> (r: u64)
        ensures
            r == self@.timestamp,
    {
        self.timestamp
    }

    /// The result as the log shows it (see `match_description`).
    pub fn describe(&self) -> (r: String)
        ensures
            r@ == match_description(self@),
    {
        let (mins, secs) = self.duration_minutes_seconds();
        let mut out = String::from_str(self.p1.moon.name());
        out.append("-");
        out.append(self.p1.character.name());
        out.append(" (");
        out.append(u32_to_decimal(self.p1.score).as_str());
        out.append("x");
        out.append(u32_to_decimal(self.p2.score).as_str());
        out.append(") ");
        out.append(self.p2.moon.name());
        out.append("-");
        out.append(self.p2.character.name());
        out.append(" | Duration: ");
        out.append(u32_to_decimal(mins).as_str());
        out.append(":");
        if secs < 10 {
            out.append("0");
        }
        out.append(u32_to_decimal(secs).as_str());
        proof {
            reveal_strlit("0");
        }
        out
    }

    /// The length of the match as whole minutes and remaining seconds, the seconds being
    /// the frame count divided by 24 and rounded to the nearest, halves up.
    pub fn duration_minutes_seconds(&self) -> (r: (u32, u32))
        ensures
            r.0 == (self@.real_timer + 12) / 24 / 60,
            r.1 == (self@.real_timer + 12) / 24 % 60,
    {
        let secs: u32 = self.real_timer / 24 + if self.real_timer % 24 >= 12 { 1u32 } else { 0u32 };
        assert(secs == (self.real_timer + 12) / 24);
        (secs / 60, secs % 60)
    }
}

} // verus!
