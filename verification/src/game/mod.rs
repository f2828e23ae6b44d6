//! What the game shows of a match: characters, moons and the state read from memory.

pub mod character;
pub mod state;

pub use character::{GameChar, Moon};
