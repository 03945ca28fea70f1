//! Ports: the connection points of models and signals.

pub mod portconnector;
pub mod portdirection;
pub mod pport;

pub use self::portdirection::{
    Dir, InOut, Input, MaybeRead, MaybeWrite, Off, Output, PortDirection, Read, Write,
};
pub use self::portconnector::{DirectionMismatch, PortConnector};
pub use self::pport::Port;
