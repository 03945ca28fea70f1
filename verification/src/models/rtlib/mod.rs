//! Models at the level of registers: vectors in, vectors out.

pub mod arithmic;
pub mod component;
pub mod inputs;
pub mod memory;

pub use self::component::VectorComponent;
