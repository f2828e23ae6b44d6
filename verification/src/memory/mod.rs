//! Reading MBAA and CCCaster: the values found in their memory and what they mean.

pub mod addresses;
pub mod process;
pub mod reader;
pub mod thread;
pub mod watcher;
