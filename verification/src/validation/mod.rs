//! Checking that a ranked match follows the rules, and the result it produces.

pub mod result;
pub mod thread;
pub mod validator;

pub use validator::{Validator, Validity};
