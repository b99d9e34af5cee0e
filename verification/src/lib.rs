pub mod binding;
pub mod bytes;
pub mod codec;
pub mod daily;
pub mod giveaway;
pub mod hashing;
pub mod laws;
pub mod loader;
pub mod pda;
pub mod processor;
pub mod registry;
pub mod text;
pub mod wire;
