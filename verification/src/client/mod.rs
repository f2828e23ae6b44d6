//! The client side of the ranking server: the client's state, the server's answers and how
//! requests and responses are judged.

pub mod http;
pub mod manager;
pub mod models;
pub mod server_response;
pub mod state;

pub use state::ClientState;
