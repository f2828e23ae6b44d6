use vstd::prelude::*;

verus! {

/// Where the client stands in ranked mode.
#[derive(Debug, Clone, PartialEq, Eq)]
pub enum ClientState {
    /// Not in ranked.
    Idle,
    /// Queuing for ranked.
    WaitingForOpponent,
    /// Playing ranked, in the session with this id.
    PlayingRanked(String),
    Exit,
}

impl ClientState {
    /// The session id of a ranked match being played, if any.
    pub open spec fn spec_session(self) -> Option<Seq<char>> {
        match self {
            ClientState::PlayingRanked(id) => Some(id@),
            _ => None,
        }
    }

    pub fn session(&self) -> (r: Option<&String>)
        ensures
            match *self {
                ClientState::PlayingRanked(id) => r == Some(&id),
                _ => r is None,
            },
    {
        match self {
            ClientState::PlayingRanked(id) => Some(id),
            _ => None,
        }
    }

    /// A copy of this state, equal to it.
    pub fn duplicate(&self) -> (r: ClientState)
        ensures
            r == *self,
    {
        match self {
            ClientState::Idle => ClientState::Idle,
            ClientState::WaitingForOpponent => ClientState::WaitingForOpponent,
            ClientState::PlayingRanked(id) => ClientState::PlayingRanked(id.clone()),
            ClientState::Exit => ClientState::Exit,
        }
    }
}

} // verus!
