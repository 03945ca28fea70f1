//! Models that compute: gates, and the inputs and outputs of a circuit.

pub mod component;
pub mod gates;
pub mod inputs;
pub mod outputs;
pub mod rtlib;

pub use self::component::Component;
