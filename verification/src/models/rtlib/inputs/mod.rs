//! Inputs that hold vectors.

pub mod ivector;

pub use self::ivector::VectorInput;
