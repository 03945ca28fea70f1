//! The directions of ports, in one place.

pub use crate::port::portdirection::{
    Dir, InOut, Input, MaybeRead, MaybeWrite, Off, Output, PortDirection, Read, Write,
};
