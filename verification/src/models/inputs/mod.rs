//! Inputs of a circuit.

use vstd::prelude::*;
use crate::logicbit::ieee1164::Ieee1164;
use crate::port::portdirection::Output;
use crate::port::pport::Port;

pub mod switch;

verus! {

/// A switch: a port that its holder writes and a signal reads.
pub type Switch = Port<Ieee1164, Output>;

} // verus!
