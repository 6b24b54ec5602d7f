//! Decision logic of a supervisor that runs a game server until a chosen
//! time of day: when to shut down, which warnings to announce, what to say,
//! and who holds the launch lock.

pub mod config;
pub mod console;
pub mod input;
pub mod lock;
pub mod notify;
pub mod reminder;
pub mod schedule;
pub mod supervisor;
pub mod text;
