//! The two's complement of a vector.

use vstd::prelude::*;
use crate::logicbit::ieee1164::Ieee1164;
use crate::logicbit::logicvector::LogicVector;
use crate::network::{Network, NetworkState};
use crate::port::portconnector::PortConnector;
use crate::port::portdirection::{Input, Output};
use crate::port::pport::Port;
use crate::Updateable;

verus! {

/// The two's complement: its output is the negative of its operand, cut to
/// the width of the output. Where the operand spells no number every bit
/// of the output is uninitialized.
#[derive(Debug)]
pub struct TwosComplement {
    /// The operand.
    pub a: Port<LogicVector, Input>,
    /// The two's complement of the operand.
    pub y: Port<LogicVector, Output>,
}

impl Clone for TwosComplement {
    fn clone(&self) -> (r: Self)
        ensures
            r == *self,
    {
        *self
    }
}

impl Copy for TwosComplement {

}

impl TwosComplement {
    /// Creates the model with ports of its own, each `width` uninitialized
    /// bits wide and not connected.
    pub fn new(net: &mut Network<LogicVector>, width: u8) -> (model: Self)
        requires
            old(net)@.consistent(),
            1 <= width <= 128,
        ensures
            final(net)@ == old(net)@.with_port(
                LogicVector::uniform_spec(Ieee1164::_U(), width),
            ).with_port(
                LogicVector::uniform_spec(Ieee1164::_U(), width),
            ),
            final(net)@.consistent(),
            model.a.index() == old(net)@.ports.len(),
            model.y.index() == old(net)@.ports.len() + 1,
    {
        let ghost before = net@;
        let blank = LogicVector::from_ieee_value(Ieee1164::_U(), width);
        let a = Port::new(net, blank);
        let y = Port::new(net, blank);
        proof {
            before.lemma_with_port(blank);
            let s1 = before.with_port(blank);
            s1.lemma_with_port(blank);
        }
        TwosComplement { a, y }
    }

    /// The value that the model puts out for the values that the network
    /// holds. It has the width that the output has.
    pub open spec fn output(&self, net: NetworkState<LogicVector>) -> LogicVector {
        let a = net.ports[self.a.index() as int].value;
        let y = net.ports[self.y.index() as int].value;
        match a.int_value() {
            Some(x) => LogicVector::truncated_spec(0u128.wrapping_sub(x), y.spec_width()),
            None => LogicVector::uniform_spec(Ieee1164::_U(), y.spec_width()),
        }
    }
}

impl Updateable for TwosComplement {
    type Value = LogicVector;

    open spec fn ports(&self) -> Set<usize> {
        set![self.a.index(), self.y.index()]
    }

    open spec fn signals(&self) -> Set<usize> {
        Set::empty()
    }

    open spec fn step(&self, net: NetworkState<LogicVector>) -> NetworkState<LogicVector> {
        net.with_value(self.y.index(), self.output(net))
    }

    open spec fn changes(&self, net: NetworkState<LogicVector>) -> bool {
        net.ports[self.y.index() as int].value != self.output(net)
    }

    fn is_ready(&self, net: &Network<LogicVector>) -> (r: bool) {
        proof {
            assert(self.ports().contains(self.a.index()));
            assert(self.ports().contains(self.y.index()));
        }
        self.a.is_valid(net) && self.y.is_valid(net)
    }

    fn update(&self, net: &mut Network<LogicVector>) -> (changed: bool) {
        proof {
            assert(self.ports().contains(self.a.index()));
            assert(self.ports().contains(self.y.index()));
        }
        let a = self.a.value(net);
        let width = PortConnector::<LogicVector, Input>::from_id(self.y.id()).value(
            net,
        ).unwrap().width();
        let value = match a.as_u128() {
            Some(x) => LogicVector::truncated(0u128.wrapping_sub(x), width),
            None => LogicVector::from_ieee_value(Ieee1164::_U(), width),
        };
        proof {
            net@.lemma_with_value(self.y.index(), value);
        }
        let before = self.y.replace(net, value);
        before != value
    }
}

} // verus!
