use vstd::prelude::*;

use crate::game::{GameChar, Moon};
use crate::memory::addresses::{ClientMode, GameMode, LocalPlayer};

verus! {

/// One player of a match: the character, the moon style and the rounds won.
#[derive(Debug, Clone, Copy, PartialEq, Eq, Structural)]
pub struct Player {
    pub character: GameChar,
    pub score: u32,
    pub moon: Moon,
}

/// The three frame counters of a match.
#[derive(Debug, Clone, Copy)]
pub struct GameTimers {
    world_timer: u32,
    round_timer: u32,
    real_timer: u32,
}

impl GameTimers {
    /// The world timer counter.
    pub closed spec fn spec_world_timer(&self) -> u32 {
        self.world_timer
    }

    /// The round timer counter.
    pub closed spec fn spec_round_timer(&self) -> u32 {
        self.round_timer
    }

    /// The real timer counter: frames since the match began, 24 to a second.
    pub closed spec fn spec_real_timer(&self) -> u32 {
        self.real_timer
    }

    pub fn new(world_timer: u32, round_timer: u32, real_timer: u32) -> (r: Self)
        ensures
            r.spec_world_timer() == world_timer,
            r.spec_round_timer() == round_timer,
            r.spec_real_timer() == real_timer,
    {
        GameTimers { world_timer, round_timer, real_timer }
    }

    pub fn world_timer(&self) -> (r: u32)
        ensures
            r == self.spec_world_timer(),
    {
        self.world_timer
    }

    pub fn round_timer(&self) -> (r: u32)
        ensures
            r == self.spec_round_timer(),
    {
        self.round_timer
    }

    pub fn real_timer(&self) -> (r: u32)
        ensures
            r == self.spec_real_timer(),
    {
        self.real_timer
    }
}

/// What one read of the game's memory shows.
#[derive(Debug, Clone, Copy)]
pub enum GameState {
    /// A match is on screen (or its retry menu): timers and players are known.
    InGame {
        local_player: LocalPlayer,
        client_mode: ClientMode,
        game_mode: GameMode,
        timers: GameTimers,
        players: [Player; 2],
    },
    /// Any other screen.
    NotInGame { game_mode: GameMode, client_mode: ClientMode, host_position: u8 },
}

impl GameState {
    /// The client mode recorded in a state, whichever its kind.
    pub open spec fn spec_client_mode(self) -> ClientMode {
        match self {
            GameState::InGame { client_mode, .. } => client_mode,
            GameState::NotInGame { client_mode, .. } => client_mode,
        }
    }

    /// The game mode recorded in a state, whichever its kind.
    pub open spec fn spec_game_mode(self) -> GameMode {
        match self {
            GameState::InGame { game_mode, .. } => game_mode,
            GameState::NotInGame { game_mode, .. } => game_mode,
        }
    }

    pub fn client_mode(&self) -> (r: &ClientMode)
        ensures
            *r == self.spec_client_mode(),
    {
        match self {
            GameState::InGame { client_mode, .. } => client_mode,
            GameState::NotInGame { client_mode, .. } => client_mode,
        }
    }

    pub fn game_mode(&self) -> (r: &GameMode)
        ensures
            *r == self.spec_game_mode(),
    {
        match self {
            GameState::InGame { game_mode, .. } => game_mode,
            GameState::NotInGame { game_mode, .. } => game_mode,
        }
    }
}

} // verus!
