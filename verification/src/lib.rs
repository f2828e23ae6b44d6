//! Atlas Observer: watches MBAACC netplay matches, checks that they follow the rules of
//! ranked play and builds the result that is reported to the ranking server.

pub mod client;
pub mod config;
pub mod game;
pub mod memory;
pub mod runner;
pub mod text;
pub mod ui;
pub mod validation;
