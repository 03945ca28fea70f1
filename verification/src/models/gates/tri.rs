//! A tri-state buffer: with the enable input high the output is the input,

use vstd::prelude::*;
use crate::dump::IterPorts;
use crate::logicbit::ieee1164::Ieee1164;
use crate::network::{Network, NetworkState};
use crate::port::portdirection::{Input, Output};
use crate::port::pport::Port;
use crate::Updateable;

verus! {

/// A tri-state buffer: with the enable input high the output is the input,
/// with it low the output is high impedance, and `X` otherwise.
#[derive(Debug)]
pub struct TriBuffer {
    /// The input.
    pub a: Port<Ieee1164, Input>,
    /// The enable input.
    pub s: Port<Ieee1164, Input>,
    /// The output.
    pub z: Port<Ieee1164, Output>,
}

impl Clone for TriBuffer {
    fn clone(&self) -> (r: Self)
        ensures
            r == *self,
    {
        *self
    }
}

impl Copy for TriBuffer {

}

impl TriBuffer {
    /// Creates the model with ports of its own, all uninitialized and not
    /// connected.
    pub fn new(net: &mut Network<Ieee1164>) -> (model: Self)
        requires
            old(net)@.consistent(),
        ensures
            final(net)@ == old(net)@.with_port(Ieee1164::_U()).with_port(Ieee1164::_U()).with_port(Ieee1164::_U()),
            final(net)@.consistent(),
            model.a.index() == old(net)@.ports.len(),
            model.s.index() == old(net)@.ports.len() + 1,
            model.z.index() == old(net)@.ports.len() + 2,
    {
        let (a, s, z) = crate::models::gates::two_inputs(net);
        TriBuffer { a, s, z }
    }

    /// Creates the model with ports of its own, all uninitialized and not
    /// connected.
    pub fn default(net: &mut Network<Ieee1164>) -> (model: Self)
        requires
            old(net)@.consistent(),
        ensures
            final(net)@ == old(net)@.with_port(Ieee1164::_U()).with_port(Ieee1164::_U()).with_port(Ieee1164::_U()),
            final(net)@.consistent(),
            model.a.index() == old(net)@.ports.len(),
            model.s.index() == old(net)@.ports.len() + 1,
            model.z.index() == old(net)@.ports.len() + 2,
    {
        Self::new(net)
    }

    /// The value that the model puts out for the inputs that the network
    /// holds.
    pub open spec fn output(&self, net: NetworkState<Ieee1164>) -> Ieee1164 {
        let a = net.ports[self.a.index() as int].value;
        let s = net.ports[self.s.index() as int].value;
        if s.high() {
            a
        } else if s.low() {
            Ieee1164::_Z()
        } else {
            Ieee1164::_X()
        }
    }
}

impl Updateable for TriBuffer {
    type Value = Ieee1164;

    open spec fn ports(&self) -> Set<usize> {
        set![self.a.index(), self.s.index(), self.z.index()]
    }

    open spec fn signals(&self) -> Set<usize> {
        Set::empty()
    }

    open spec fn step(&self, net: NetworkState<Ieee1164>) -> NetworkState<Ieee1164> {
        net.with_value(self.z.index(), self.output(net))
    }

    open spec fn changes(&self, net: NetworkState<Ieee1164>) -> bool {
        net.ports[self.z.index() as int].value != self.output(net)
    }

    fn is_ready(&self, net: &Network<Ieee1164>) -> (r: bool) {
        proof {
            assert(self.ports().contains(self.a.index()));
            assert(self.ports().contains(self.s.index()));
            assert(self.ports().contains(self.z.index()));
        }
        self.a.is_valid(net) && self.s.is_valid(net) && self.z.is_valid(net)
    }

    fn update(&self, net: &mut Network<Ieee1164>) -> (changed: bool) {
        proof {
            assert(self.ports().contains(self.a.index()));
            assert(self.ports().contains(self.s.index()));
            assert(self.ports().contains(self.z.index()));
        }
        let a = self.a.value(net);
        let s = self.s.value(net);
        let value = if s.is_1H() {
            a
        } else if s.is_0L() {
            Ieee1164::_Z()
        } else {
            Ieee1164::_X()
        };
        proof {
            net@.lemma_with_value(self.z.index(), value);
        }
        let before = self.z.replace(net, value);
        before != value
    }
}

impl IterPorts for TriBuffer {
    open spec fn named_ports(&self) -> Seq<(&'static str, usize)> {
        seq![("a", self.a.index()), ("s", self.s.index()), ("z", self.z.index())]
    }

    fn iter_ports(&self) -> (ports: Vec<(&'static str, Port<Ieee1164, Input>)>) {
        let mut ports: Vec<(&'static str, Port<Ieee1164, Input>)> = Vec::new();
        ports.push(("a", Port::from_id(self.a.id())));
        ports.push(("s", Port::from_id(self.s.id())));
        ports.push(("z", Port::from_id(self.z.id())));
        ports
    }
}

} // verus!
