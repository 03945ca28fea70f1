//! An input that holds a vector.

use vstd::prelude::*;
use crate::logicbit::ieee1164::Ieee1164;
use crate::logicbit::logicvector::LogicVector;
use crate::network::Network;
use crate::port::portdirection::Output;
use crate::port::pport::Port;

verus! {

/// An input of a circuit that holds a vector.
#[derive(Debug)]
pub struct VectorInput {
    /// The port that a signal reads.
    pub port: Port<LogicVector, Output>,
}

impl VectorInput {
    /// Creates the input with a port of its own of `width` uninitialized
    /// bits.
    pub fn with_width(net: &mut Network<LogicVector>, width: u8) -> (input: Self)
        requires
            old(net)@.consistent(),
            1 <= width <= 128,
        ensures
            final(net)@ == old(net)@.with_port(LogicVector::uniform_spec(Ieee1164::_U(), width)),
            final(net)@.consistent(),
            input.port.index() == old(net)@.ports.len(),
    {
        Self::with_logicvector(net, LogicVector::from_ieee_value(Ieee1164::_U(), width))
    }

    /// Creates the input with a port of its own that holds `lv`.
    pub fn with_logicvector(net: &mut Network<LogicVector>, lv: LogicVector) -> (input: Self)
        requires
            old(net)@.consistent(),
        ensures
            final(net)@ == old(net)@.with_port(lv),
            final(net)@.consistent(),
            input.port.index() == old(net)@.ports.len(),
    {
        proof {
            net@.lemma_with_port(lv);
        }
        VectorInput { port: Port::new(net, lv) }
    }
}

} // verus!
