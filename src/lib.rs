//! Student roster editing, a simulated class-assignment task with progress
//! reporting, and the shared application state that holds them.

pub mod student;
pub mod text;
pub mod roster;
pub mod progress;
pub mod state;
