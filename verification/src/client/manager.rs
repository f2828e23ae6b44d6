use vstd::prelude::*;

use crate::client::http::{is_success, status_is_success};
use crate::text::{decimal_text, u32_to_decimal};

verus! {

/// What can go wrong when a result is sent with a player id.
#[derive(Debug)]
pub enum ClientError {
    RequestError(String),
    ServerError(u16),
}

/// The address to which a match result is sent on behalf of a player.
pub open spec fn match_result_url_text(server_url: Seq<char>, player_id: u32) -> Seq<char> {
    server_url + "/api/match?playerId="@ + decimal_text(player_id)
}

/// The address to which a match result is sent on behalf of a player.
pub fn result_path(server_url: &str, player_id: u32) -> (r: String)
    ensures
        r@ == match_result_url_text(server_url@, player_id),
{
    let mut url = String::from_str(server_url);
    url.append("/api/match?playerId=");
    let id = u32_to_decimal(player_id);
    url.append(id.as_str());
    url
}

/// What sending a result on behalf of a player comes to: a request that failed carries its
/// message; a response with a success status is accepted; any other status is a server error.
pub fn result_response_outcome(sent: Result<u16, String>) -> (r: Result<(), ClientError>)
    ensures
        match sent {
            Err(msg) => r matches Err(ClientError::RequestError(m)) && m@ == msg@,
            Ok(status) => if status_is_success(status) {
                r is Ok
            } else {
                r matches Err(ClientError::ServerError(s)) && s == status
            },
        },
{
    match sent {
        Err(msg) => Err(ClientError::RequestError(msg)),
        Ok(status) => {
            if is_success(status) {
                Ok(())
            } else {
                Err(ClientError::ServerError(status))
            }
        },
    }
}

} // verus!
