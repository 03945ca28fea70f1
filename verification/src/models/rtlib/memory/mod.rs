//! Memories.

pub mod rom;

pub use self::rom::Rom1kx8;
