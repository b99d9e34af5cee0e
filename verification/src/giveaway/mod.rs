//! The giveaway program's side of the registry, and its retired timing instructions.
pub mod begin_upload_phase;
pub mod error;
pub mod extend_active_deadline;
pub mod registry;
pub mod state;
