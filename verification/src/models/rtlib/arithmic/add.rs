//! An adder of vectors.

use vstd::prelude::*;
use crate::logicbit::ieee1164::Ieee1164;
use crate::logicbit::logicvector::LogicVector;
use crate::network::{Network, NetworkState};
use crate::port::portconnector::PortConnector;
use crate::port::portdirection::{Input, Output};
use crate::port::pport::Port;
use crate::Updateable;

verus! {

/// An adder: its output is the sum of its operands, cut to the width of the
/// output. Where an operand spells no number every bit of the output is
/// uninitialized.
#[derive(Debug)]
pub struct Add {
    /// The first operand.
    pub a: Port<LogicVector, Input>,
    /// The second operand.
    pub b: Port<LogicVector, Input>,
    /// The sum.
    pub s: Port<LogicVector, Output>,
}

impl Clone for Add {
    fn clone(&self) -> (r: Self)
        ensures
            r == *self,
    {
        *self
    }
}

impl Copy for Add {

}

impl Add {
    /// Creates the model with ports of its own, each `width` uninitialized
    /// bits wide and not connected.
    pub fn new(net: &mut Network<LogicVector>, width: u8) -> (model: Self)
        requires
            old(net)@.consistent(),
            1 <= width <= 128,
        ensures
            final(net)@ == old(net)@.with_port(
                LogicVector::uniform_spec(Ieee1164::_U(), width),
            ).with_port(
                LogicVector::uniform_spec(Ieee1164::_U(), width),
            ).with_port(
                LogicVector::uniform_spec(Ieee1164::_U(), width),
            ),
            final(net)@.consistent(),
            model.a.index() == old(net)@.ports.len(),
            model.b.index() == old(net)@.ports.len() + 1,
            model.s.index() == old(net)@.ports.len() + 2,
    {
        let ghost before = net@;
        let blank = LogicVector::from_ieee_value(Ieee1164::_U(), width);
        let a = Port::new(net, blank);
        let b = Port::new(net, blank);
        let s = Port::new(net, blank);
        proof {
            before.lemma_with_port(blank);
            let s1 = before.with_port(blank);
            s1.lemma_with_port(blank);
            let s2 = s1.with_port(blank);
            s2.lemma_with_port(blank);
        }
        Add { a, b, s }
    }

    /// The value that the model puts out for the values that the network
    /// holds. It has the width that the output has.
    pub open spec fn output(&self, net: NetworkState<LogicVector>) -> LogicVector {
        let a = net.ports[self.a.index() as int].value;
        let b = net.ports[self.b.index() as int].value;
        let s = net.ports[self.s.index() as int].value;
        match (a.int_value(), b.int_value()) {
            (Some(x), Some(y)) => LogicVector::truncated_spec(x.wrapping_add(y), s.spec_width()),
            _ => LogicVector::uniform_spec(Ieee1164::_U(), s.spec_width()),
        }
    }
}

impl Updateable for Add {
    type Value = LogicVector;

    open spec fn ports(&self) -> Set<usize> {
        set![self.a.index(), self.b.index(), self.s.index()]
    }

    open spec fn signals(&self) -> Set<usize> {
        Set::empty()
    }

    open spec fn step(&self, net: NetworkState<LogicVector>) -> NetworkState<LogicVector> {
        net.with_value(self.s.index(), self.output(net))
    }

    open spec fn changes(&self, net: NetworkState<LogicVector>) -> bool {
        net.ports[self.s.index() as int].value != self.output(net)
    }

    fn is_ready(&self, net: &Network<LogicVector>) -> (r: bool) {
        proof {
            assert(self.ports().contains(self.a.index()));
            assert(self.ports().contains(self.b.index()));
            assert(self.ports().contains(self.s.index()));
        }
        self.a.is_valid(net) && self.b.is_valid(net) && self.s.is_valid(net)
    }

    fn update(&self, net: &mut Network<LogicVector>) -> (changed: bool) {
        proof {
            assert(self.ports().contains(self.a.index()));
            assert(self.ports().contains(self.b.index()));
            assert(self.ports().contains(self.s.index()));
        }
        let a = self.a.value(net);
        let b = self.b.value(net);
        let width = PortConnector::<LogicVector, Input>::from_id(self.s.id()).value(
            net,
        ).unwrap().width();
        let value = match (a.as_u128(), b.as_u128()) {
            (Some(x), Some(y)) => LogicVector::truncated(x.wrapping_add(y), width),
            _ => LogicVector::from_ieee_value(Ieee1164::_U(), width),
        };
        proof {
            net@.lemma_with_value(self.s.index(), value);
        }
        let before = self.s.replace(net, value);
        before != value
    }
}

} // verus!
