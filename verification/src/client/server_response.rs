use vstd::prelude::*;

verus! {

/// The server's answer to a token check.
#[derive(Debug)]
pub struct ValidationResponse {
    pub discord_username: String,
}

} // verus!
