//! A light that shows a value of any kind.

use vstd::prelude::*;
use crate::network::Network;
use crate::port::portdirection::Input;
use crate::port::pport::Port;

verus! {

/// An output of a circuit: an input port whose value its holder reads.
#[derive(Debug)]
pub struct Led<T> {
    /// The port that a signal writes.
    pub input: Port<T, Input>,
}

impl<T: Copy> Led<T> {
    /// Creates a light with a port of its own that holds `value`.
    pub fn new_with_value(net: &mut Network<T>, value: T) -> (led: Self)
        ensures
            final(net)@ == old(net)@.with_port(value),
            final(net)@.wf(),
            led.input.index() == old(net)@.ports.len(),
    {
        Led { input: Port::new(net, value) }
    }

    /// The value that the light shows.
    pub fn value(&self, net: &Network<T>) -> (r: T)
        requires
            net@.has_port(self.input.index()),
        ensures
            r == net@.ports[self.input.index() as int].value,
    {
        self.input.value(net)
    }
}

} // verus!
