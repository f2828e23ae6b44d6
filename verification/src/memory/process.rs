use vstd::prelude::*;

use crate::game::character::{char_from_id, moon_from_code};
use crate::game::state::{GameState, GameTimers, Player};
use crate::game::{GameChar, Moon};
use crate::memory::addresses::{
    client_mode_code, client_mode_from_raw, local_player_code, local_player_from_raw, ClientMode,
    GameMode, LocalPlayer,
};

verus! {

/// What can go wrong while finding the game's processes and reading their memory.
#[derive(Debug)]
pub enum MemoryError {
    ModuleNotFound(String),
    QueryFailed(String),
    ProcessNotFound(String),
    InvalidCCCaster,
    InvalidMBAA,
    MultipleProcessesError(String),
    OpenProcessFailed(u32),
    ReadFailed(String),
    ParseFailed(&'static str, u32),
}

/// The file name of the game's process.
pub const MBAA: &'static str = "MBAA.exe";

/// The file name of the CCCaster process (and module) this observer supports.
pub const CASTER: &'static str = "cccaster.v3.1.exe";

/// Picks the one process of a name; none or several are errors.
pub fn single_pid(pids: &Vec<u32>, name: &str) -> (r: Result<u32, MemoryError>)
    ensures
        pids@.len() == 0 ==> (r matches Err(MemoryError::ProcessNotFound(n)) && n@ == name@),
        pids@.len() == 1 ==> r == Ok::<u32, MemoryError>(pids@[0]),
        pids@.len() > 1 ==> (r matches Err(MemoryError::MultipleProcessesError(n)) && n@ == name@),
{
    if pids.len() == 0 {
        return Err(MemoryError::ProcessNotFound(String::from_str(name)));
    }
    if pids.len() > 1 {
        return Err(MemoryError::MultipleProcessesError(String::from_str(name)));
    }
    Ok(pids[0])
}

/// Decodes the local player byte; a value that names no player is a parse error.
pub fn read_local_player(raw: u8) -> (r: Result<LocalPlayer, MemoryError>)
    ensures
        match local_player_from_raw(raw) {
            Some(p) => r == Ok::<LocalPlayer, MemoryError>(p),
            None => r matches Err(MemoryError::ParseFailed(what, v)) && what@ == "local_player"@
                && v == raw as u32,
        },
{
    match LocalPlayer::from_raw(raw) {
        Some(p) => Ok(p),
        None => Err(MemoryError::ParseFailed("local_player", raw as u32)),
    }
}

/// Decodes the client mode byte; a value that names no mode is a parse error.
pub fn read_client_mode(raw: u8) -> (r: Result<ClientMode, MemoryError>)
    ensures
        match client_mode_from_raw(raw) {
            Some(m) => r == Ok::<ClientMode, MemoryError>(m),
            None => r matches Err(MemoryError::ParseFailed(what, v)) && what@ == "client mode"@
                && v == raw as u32,
        },
{
    match ClientMode::from_raw(raw) {
        Some(m) => Ok(m),
        None => Err(MemoryError::ParseFailed("client mode", raw as u32)),
    }
}

/// Builds a player from the values read for it; an unknown character or moon is a parse error,
/// the character being checked first.
pub fn parse_player(char_u32: u32, moon_u32: u32, score: u32) -> (r: Result<Player, MemoryError>)
    ensures
        match (char_from_id(char_u32), moon_from_code(moon_u32)) {
            (Some(c), Some(m)) => r == Ok::<Player, MemoryError>(
                Player { character: c, moon: m, score },
            ),
            (None, _) => r matches Err(MemoryError::ParseFailed(what, v)) && what@ == "character"@
                && v == char_u32,
            (Some(_), None) => r matches Err(MemoryError::ParseFailed(what, v)) && what@
                == "moon"@ && v == moon_u32,
        },
{
    let character = match GameChar::from_id(char_u32) {
        Some(c) => c,
        None => return Err(MemoryError::ParseFailed("character", char_u32)),
    };
    let moon = match Moon::from_code(moon_u32) {
        Some(m) => m,
        None => return Err(MemoryError::ParseFailed("moon", moon_u32)),
    };
    Ok(Player { character, moon, score })
}

/// The state that one read of memory shows. Timers and players are read only on screens that
/// show a match (see `GameMode::shows_match`); when they were read the state is in game, else
/// it records the local player's position as the host position.
pub fn game_state_from_reads(
    game_mode: GameMode,
    local_player: LocalPlayer,
    client_mode: ClientMode,
    match_data: Option<(GameTimers, [Player; 2])>,
) -> (r: GameState)
    ensures
        match match_data {
            Some((timers, players)) => r == GameState::InGame {
                local_player,
                client_mode,
                game_mode,
                timers,
                players,
            },
            None => r == GameState::NotInGame {
                game_mode,
                client_mode,
                host_position: local_player_code(local_player),
            },
        },
{
    match match_data {
        Some((timers, players)) => GameState::InGame {
            local_player,
            client_mode,
            game_mode,
            timers,
            players,
        },
        None => GameState::NotInGame {
            game_mode,
            client_mode,
            host_position: local_player.as_u8(),
        },
    }
}

/// What was learned of one process named like CCCaster.
pub enum CasterProbe {
    /// The process could not be opened.
    NotOpened,
    /// The CCCaster module was not found in it.
    NoModule,
    /// The module was found but its client mode could not be read.
    Unreadable,
    /// The module was found and its client mode byte read.
    ClientMode(u8),
}

/// Whether a probe shows a CCCaster that takes part in netplay: its client mode byte names a
/// known mode.
pub open spec fn probe_accepted(p: CasterProbe) -> bool {
    p matches CasterProbe::ClientMode(raw) && client_mode_from_raw(raw) matches Some(m) && m
        != ClientMode::Unknown
}

/// Whether a probe found the CCCaster module in its process.
pub open spec fn probe_found_module(p: CasterProbe) -> bool {
    p is Unreadable || p is ClientMode
}

/// The search for a valid CCCaster among the processes of that name, probed one at a time.
pub struct CasterSearch {
    pub any_found: bool,
}

impl CasterSearch {
    pub fn new() -> (r: CasterSearch)
        ensures
            !r.any_found,
    {
        CasterSearch { any_found: false }
    }

    /// Takes the next probe; tells whether that process is the one to attach to.
    pub fn observe(&mut self, probe: &CasterProbe) -> (accept: bool)
        ensures
            accept == probe_accepted(*probe),
            final(self).any_found == (old(self).any_found || probe_found_module(*probe)),
    {
        match probe {
            CasterProbe::NotOpened | CasterProbe::NoModule => false,
            CasterProbe::Unreadable => {
                self.any_found = true;
                false
            },
            CasterProbe::ClientMode(raw) => {
                self.any_found = true;
                match ClientMode::from_raw(*raw) {
                    Some(m) => !matches!(m, ClientMode::Unknown),
                    None => false,
                }
            },
        }
    }

    /// The error when no probe was accepted: no CCCaster module at all, or only ones that are
    /// not in netplay.
    pub fn finish(&self) -> (e: MemoryError)
        ensures
            self.any_found ==> e is InvalidCCCaster,
            !self.any_found ==> (e matches MemoryError::ProcessNotFound(n) && n@ == CASTER@),
    {
        if !self.any_found {
            return MemoryError::ProcessNotFound(String::from_str(CASTER));
        }
        MemoryError::InvalidCCCaster
    }
}

/// Which CCCaster is attached to: one whose client mode byte names a mode other than
/// `Unknown` (bytes 1 to 6), so the host's and the client's CCCaster are both accepted; a byte
/// of 0 or above 6, a process that could not be opened, a missing module or an unreadable
/// byte is never accepted.
pub proof fn lemma_probe_acceptance(raw: u8, m: ClientMode)
    ensures
        probe_accepted(CasterProbe::ClientMode(raw)) <==> (1 <= raw && raw <= 6),
        m != ClientMode::Unknown ==> probe_accepted(CasterProbe::ClientMode(client_mode_code(m))),
        probe_accepted(CasterProbe::ClientMode(client_mode_code(ClientMode::Host))),
        probe_accepted(CasterProbe::ClientMode(client_mode_code(ClientMode::Client))),
        !probe_accepted(CasterProbe::NotOpened),
        !probe_accepted(CasterProbe::NoModule),
        !probe_accepted(CasterProbe::Unreadable),
{
}

} // verus!
