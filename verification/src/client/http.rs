use vstd::prelude::*;

use crate::client::models::{MatchedResponse, ValidationResponse};
use crate::client::state::ClientState;

verus! {

/// What can go wrong when talking to the ranking server.
#[derive(Debug)]
pub enum ClientError {
    RequestError,
    ServerError(u16),
    AuthorizationError,
    StateError,
    InvalidStateError(ClientState),
    ParseError(String),
    NotFoundError,
}

/// The path of the token check.
pub const VALIDATE_PATH: &'static str = "auth/validate";
/// The path to which match results are sent.
pub const MATCH_PATH: &'static str = "api/match";
/// The path of the ranked queue.
pub const QUEUE_PATH: &'static str = "api/queue";
/// The message when the server cancels a queue without saying anything.
pub const QUEUE_CANCELED: &'static str = "Queue successfully canceled";

/// Whether an HTTP status is a success (2xx).
pub open spec fn status_is_success(status: u16) -> bool {
    200 <= status <= 299
}

pub fn is_success(status: u16) -> (r: bool)
    ensures
        r == status_is_success(status),
{
    200 <= status && status <= 299
}

/// The address of a path on the server.
pub fn request_url(server_url: &str, path: &str) -> (r: String)
    ensures
        r@ == server_url@ + "/"@ + path@,
{
    let mut url = String::from_str(server_url);
    url.append("/");
    url.append(path);
    url
}

/// The value of the authorization header for a token.
pub fn bearer_auth(token: &str) -> (r: String)
    ensures
        r@ == "Bearer "@ + token@,
{
    let mut value = String::from_str("Bearer ");
    value.append(token);
    value
}

/// What the status of a token check means: a success carries the user's name, 401 means the
/// token is refused, anything else is a server error.
pub fn validate_token_outcome(status: u16) -> (r: Result<(), ClientError>)
    ensures
        status_is_success(status) ==> r is Ok,
        status == 401 ==> r matches Err(ClientError::AuthorizationError),
        !status_is_success(status) && status != 401 ==> (r matches Err(
            ClientError::ServerError(s),
        ) && s == status),
{
    if is_success(status) {
        Ok(())
    } else if status == 401 {
        Err(ClientError::AuthorizationError)
    } else {
        Err(ClientError::ServerError(status))
    }
}

/// Whether a result may be sent in a client state: only while playing ranked; else the state
/// is reported back in the error.
pub fn send_result_check(state: &ClientState) -> (r: Result<(), ClientError>)
    ensures
        *state is PlayingRanked ==> r is Ok,
        !(*state is PlayingRanked) ==> (r matches Err(ClientError::InvalidStateError(s)) && s
            == *state),
{
    match state {
        ClientState::PlayingRanked(_) => Ok(()),
        _ => Err(ClientError::InvalidStateError(state.duplicate())),
    }
}

/// What the status of a sent result means: a success, or a server error.
pub fn send_result_outcome(status: u16) -> (r: Result<(), ClientError>)
    ensures
        status_is_success(status) ==> r is Ok,
        !status_is_success(status) ==> (r matches Err(ClientError::ServerError(s)) && s
            == status),
{
    if is_success(status) {
        Ok(())
    } else {
        Err(ClientError::ServerError(status))
    }
}

/// What the status of a queue request means: 408 is a server error (the queue expired), 404
/// means the session was not found, a success carries the pairing, anything else is a server
/// error.
pub fn queue_request_outcome(status: u16) -> (r: Result<(), ClientError>)
    ensures
        status == 404 ==> r matches Err(ClientError::NotFoundError),
        status_is_success(status) ==> r is Ok,
        !status_is_success(status) && status != 404 ==> (r matches Err(
            ClientError::ServerError(s),
        ) && s == status),
{
    if status == 408 {
        Err(ClientError::ServerError(status))
    } else if status == 404 {
        Err(ClientError::NotFoundError)
    } else if is_success(status) {
        Ok(())
    } else {
        Err(ClientError::ServerError(status))
    }
}

/// What the answer to a queue cancellation means: on success the server's message, or a
/// default one when its body could not be read; otherwise a server error.
pub fn cancel_queue_outcome(status: u16, body: Option<String>) -> (r: Result<String, ClientError>)
    ensures
        status_is_success(status) ==> match body {
            Some(msg) => r matches Ok(m) && m@ == msg@,
            None => r matches Ok(m) && m@ == QUEUE_CANCELED@,
        },
        !status_is_success(status) ==> (r matches Err(ClientError::ServerError(s)) && s
            == status),
{
    if is_success(status) {
        match body {
            Some(msg) => Ok(msg),
            None => Ok(String::from_str(QUEUE_CANCELED)),
        }
    } else {
        Err(ClientError::ServerError(status))
    }
}

/// What follows a token check at start-up.
#[derive(Debug)]
pub enum TokenStep {
    /// The token is valid: tell the player under which name they are logged in.
    LoggedIn(String),
    /// The token was refused: ask for a new one and check again.
    AskNewToken,
    /// The server could not check it: give up.
    GiveUp,
}

/// Decides what follows a token check.
pub fn token_check_step(outcome: &Result<ValidationResponse, ClientError>) -> (r: TokenStep)
    ensures
        match *outcome {
            Ok(resp) => r matches TokenStep::LoggedIn(m) && m@ == "Logged as "@
                + resp.discord_username@,
            Err(ClientError::AuthorizationError) => r is AskNewToken,
            Err(_) => r is GiveUp,
        },
{
    match outcome {
        Ok(resp) => {
            let mut msg = String::from_str("Logged as ");
            msg.append(resp.discord_username.as_str());
            TokenStep::LoggedIn(msg)
        },
        Err(ClientError::AuthorizationError) => TokenStep::AskNewToken,
        Err(_) => TokenStep::GiveUp,
    }
}

} // verus!
