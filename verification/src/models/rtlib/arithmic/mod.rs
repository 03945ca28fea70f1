//! Arithmetic on vectors.

pub mod add;
pub mod twoscomplement;

pub use self::twoscomplement::TwosComplement;
