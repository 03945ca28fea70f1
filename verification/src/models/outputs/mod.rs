//! Outputs of a circuit.

use vstd::prelude::*;
use crate::logicbit::ieee1164::Ieee1164;
use crate::port::portdirection::Input;
use crate::port::pport::Port;

pub mod led;

verus! {

/// A light: a port that a signal writes and its holder reads.
pub type Led = Port<Ieee1164, Input>;

} // verus!
