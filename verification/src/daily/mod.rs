//! The daily-lottery program's side of the registry.
pub mod begin_reveal_phase;
pub mod error;
pub mod registry;
pub mod state;
