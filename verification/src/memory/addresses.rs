use vstd::prelude::*;

verus! {

/// What CCCaster is doing on this machine: hosting or joining a netplay match, or something else.
#[derive(Debug, Clone, Copy, PartialEq, Eq, Structural)]
pub enum ClientMode {
    Unknown,
    Host,
    Client,
    SpectateNetplay,
    SpectateBroadcast,
    Broadcast,
    Offline,
}

/// The client mode that CCCaster stores under a byte, if any.
pub open spec fn client_mode_from_raw(v: u8) -> Option<ClientMode> {
    if v == 0 {
        Some(ClientMode::Unknown)
    } else if v == 1 {
        Some(ClientMode::Host)
    } else if v == 2 {
        Some(ClientMode::Client)
    } else if v == 3 {
        Some(ClientMode::SpectateNetplay)
    } else if v == 4 {
        Some(ClientMode::SpectateBroadcast)
    } else if v == 5 {
        Some(ClientMode::Broadcast)
    } else if v == 6 {
        Some(ClientMode::Offline)
    } else {
        None
    }
}

/// The byte under which CCCaster stores a client mode.
pub open spec fn client_mode_code(m: ClientMode) -> u8 {
    match m {
        ClientMode::Unknown => 0,
        ClientMode::Host => 1,
        ClientMode::Client => 2,
        ClientMode::SpectateNetplay => 3,
        ClientMode::SpectateBroadcast => 4,
        ClientMode::Broadcast => 5,
        ClientMode::Offline => 6,
    }
}

/// The name of a client mode, as it appears in messages.
pub open spec fn client_mode_name(m: ClientMode) -> Seq<char> {
    match m {
        ClientMode::Unknown => "Unknown"@,
        ClientMode::Host => "Host"@,
        ClientMode::Client => "Client"@,
        ClientMode::SpectateNetplay => "SpectateNetplay"@,
        ClientMode::SpectateBroadcast => "SpectateBroadcast"@,
        ClientMode::Broadcast => "Broadcast"@,
        ClientMode::Offline => "Offline"@,
    }
}

impl ClientMode {
    /// Decodes the client mode byte read from CCCaster.
    pub fn from_raw(v: u8) -> (r: Option<ClientMode>)
        ensures
            r == client_mode_from_raw(v),
    {
        match v {
            0 => Some(ClientMode::Unknown),
            1 => Some(ClientMode::Host),
            2 => Some(ClientMode::Client),
            3 => Some(ClientMode::SpectateNetplay),
            4 => Some(ClientMode::SpectateBroadcast),
            5 => Some(ClientMode::Broadcast),
            6 => Some(ClientMode::Offline),
            _ => None,
        }
    }

    /// Whether this machine takes part in the netplay match as one of its two players.
    pub fn is_player(&self) -> (r: bool)
        ensures
            r == (*self == ClientMode::Host || *self == ClientMode::Client),
    {
        match self {
            ClientMode::Host | ClientMode::Client => true,
            _ => false,
        }
    }

    /// The name of this client mode.
    pub fn name(&self) -> (r: &'static str)
        ensures
            r@ == client_mode_name(*self),
    {
        match self {
            ClientMode::Unknown => "Unknown",
            ClientMode::Host => "Host",
            ClientMode::Client => "Client",
            ClientMode::SpectateNetplay => "SpectateNetplay",
            ClientMode::SpectateBroadcast => "SpectateBroadcast",
            ClientMode::Broadcast => "Broadcast",
            ClientMode::Offline => "Offline",
        }
    }
}

/// Decoding the byte of a client mode gives that mode back, and a decoded byte is the
/// code of the mode it decodes to.
pub proof fn lemma_client_mode_roundtrip(m: ClientMode, v: u8)
    ensures
        client_mode_from_raw(client_mode_code(m)) == Some(m),
        client_mode_from_raw(v) matches Some(n) ==> client_mode_code(n) == v,
{
}

/// The screen the game is on.
#[derive(Debug, Clone, Copy, PartialEq, Eq, Structural)]
pub enum GameMode {
    Startup,
    Opening,
    Title,
    LoadingDemo,
    HighScores,
    MainMenu,
    CharSelect,
    Loading,
    InGame,
    Retry,
    ReplayMenu,
    Unknown,
}

/// The screen that the game stores under a value; a value that names no screen is `Unknown`.
pub open spec fn game_mode_from_raw(v: u32) -> GameMode {
    if v == 65535 {
        GameMode::Startup
    } else if v == 3 {
        GameMode::Opening
    } else if v == 2 {
        GameMode::Title
    } else if v == 13 {
        GameMode::LoadingDemo
    } else if v == 11 {
        GameMode::HighScores
    } else if v == 25 {
        GameMode::MainMenu
    } else if v == 20 {
        GameMode::CharSelect
    } else if v == 8 {
        GameMode::Loading
    } else if v == 1 {
        GameMode::InGame
    } else if v == 5 {
        GameMode::Retry
    } else if v == 26 {
        GameMode::ReplayMenu
    } else {
        GameMode::Unknown
    }
}

/// The value under which the game stores a screen; `Unknown` has none.
pub open spec fn game_mode_code(m: GameMode) -> Option<u32> {
    match m {
        GameMode::Startup => Some(65535),
        GameMode::Opening => Some(3),
        GameMode::Title => Some(2),
        GameMode::LoadingDemo => Some(13),
        GameMode::HighScores => Some(11),
        GameMode::MainMenu => Some(25),
        GameMode::CharSelect => Some(20),
        GameMode::Loading => Some(8),
        GameMode::InGame => Some(1),
        GameMode::Retry => Some(5),
        GameMode::ReplayMenu => Some(26),
        GameMode::Unknown => None,
    }
}

/// The name of a screen, as it appears in messages.
pub open spec fn game_mode_name(m: GameMode) -> Seq<char> {
    match m {
        GameMode::Startup => "Startup"@,
        GameMode::Opening => "Opening"@,
        GameMode::Title => "Title"@,
        GameMode::LoadingDemo => "LoadingDemo"@,
        GameMode::HighScores => "HighScores"@,
        GameMode::MainMenu => "MainMenu"@,
        GameMode::CharSelect => "CharSelect"@,
        GameMode::Loading => "Loading"@,
        GameMode::InGame => "InGame"@,
        GameMode::Retry => "Retry"@,
        GameMode::ReplayMenu => "ReplayMenu"@,
        GameMode::Unknown => "Unknown"@,
    }
}

impl GameMode {
    /// Decodes the game mode value read from MBAA; unknown values give `Unknown`.
    pub fn from_raw(v: u32) -> (r: GameMode)
        ensures
            r == game_mode_from_raw(v),
    {
        match v {
            65535 => GameMode::Startup,
            3 => GameMode::Opening,
            2 => GameMode::Title,
            13 => GameMode::LoadingDemo,
            11 => GameMode::HighScores,
            25 => GameMode::MainMenu,
            20 => GameMode::CharSelect,
            8 => GameMode::Loading,
            1 => GameMode::InGame,
            5 => GameMode::Retry,
            26 => GameMode::ReplayMenu,
            _ => GameMode::Unknown,
        }
    }

    /// Whether the game shows a match on this screen, so that timers and players can be read.
    pub fn shows_match(&self) -> (r: bool)
        ensures
            r == (*self == GameMode::InGame || *self == GameMode::Retry),
    {
        match self {
            GameMode::InGame | GameMode::Retry => true,
            _ => false,
        }
    }

    /// The name of this screen.
    pub fn name(&self) -> (r: &'static str)
        ensures
            r@ == game_mode_name(*self),
    {
        match self {
            GameMode::Startup => "Startup",
            GameMode::Opening => "Opening",
            GameMode::Title => "Title",
            GameMode::LoadingDemo => "LoadingDemo",
            GameMode::HighScores => "HighScores",
            GameMode::MainMenu => "MainMenu",
            GameMode::CharSelect => "CharSelect",
            GameMode::Loading => "Loading",
            GameMode::InGame => "InGame",
            GameMode::Retry => "Retry",
            GameMode::ReplayMenu => "ReplayMenu",
            GameMode::Unknown => "Unknown",
        }
    }
}

/// Decoding the value of a known screen gives that screen back.
pub proof fn lemma_game_mode_roundtrip(m: GameMode)
    ensures
        game_mode_code(m) matches Some(v) ==> game_mode_from_raw(v) == m,
{
}

/// Which of the two players this machine controls, as CCCaster stores it.
#[derive(Debug, Clone, Copy, PartialEq, Eq, Structural)]
pub enum LocalPlayer {
    Unknown,
    P1,
    P2,
}

/// The byte under which CCCaster stores the local player.
pub open spec fn local_player_code(p: LocalPlayer) -> u8 {
    match p {
        LocalPlayer::Unknown => 0,
        LocalPlayer::P1 => 1,
        LocalPlayer::P2 => 2,
    }
}

/// The local player that CCCaster stores under a byte, if any.
pub open spec fn local_player_from_raw(v: u8) -> Option<LocalPlayer> {
    if v == 0 {
        Some(LocalPlayer::Unknown)
    } else if v == 1 {
        Some(LocalPlayer::P1)
    } else if v == 2 {
        Some(LocalPlayer::P2)
    } else {
        None
    }
}

impl LocalPlayer {
    /// Decodes the local player byte read from CCCaster.
    pub fn from_raw(v: u8) -> (r: Option<LocalPlayer>)
        ensures
            r == local_player_from_raw(v),
    {
        match v {
            0 => Some(LocalPlayer::Unknown),
            1 => Some(LocalPlayer::P1),
            2 => Some(LocalPlayer::P2),
            _ => None,
        }
    }

    /// The byte of this local player: 0 when unknown, else the player's position.
    pub fn as_u8(&self) -> (r: u8)
        ensures
            r == local_player_code(*self),
    {
        match self {
            LocalPlayer::Unknown => 0,
            LocalPlayer::P1 => 1,
            LocalPlayer::P2 => 2,
        }
    }
}

/// Decoding the byte of a local player gives that player back, and a decoded byte is
/// the code of the player it decodes to.
pub proof fn lemma_local_player_roundtrip(p: LocalPlayer, v: u8)
    ensures
        local_player_from_raw(local_player_code(p)) == Some(p),
        local_player_from_raw(v) matches Some(q) ==> local_player_code(q) == v,
{
}

} // verus!
