use vstd::prelude::*;

verus! {

/// The server's answer to a token check.
#[derive(Debug)]
pub struct ValidationResponse {
    pub discord_username: String,
}

/// A request to be paired with an opponent, naming the session ids read from CCCaster.
#[derive(Debug)]
pub struct QueueRequest {
    pub session_ids: Vec<String>,
}

/// The server's answer once two players are paired.
#[derive(Debug)]
pub struct MatchedResponse {
    pub session_id: String,
    pub opponent_discord_username: String,
}

} // verus!
