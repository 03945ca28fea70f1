//! A switch that holds a value of any kind.

use vstd::prelude::*;
use crate::network::Network;
use crate::port::portdirection::Output;
use crate::port::pport::Port;

verus! {

/// An input of a circuit: an output port with a value that its holder sets.
#[derive(Debug)]
pub struct Switch<T> {
    /// The port that a signal reads.
    pub output: Port<T, Output>,
}

impl<T> Switch<T> {
    /// Creates a switch with a port of its own that holds `value`.
    pub fn new_with_value(net: &mut Network<T>, value: T) -> (switch: Self)
        ensures
            final(net)@ == old(net)@.with_port(value),
            final(net)@.wf(),
            switch.output.index() == old(net)@.ports.len(),
    {
        Switch { output: Port::new(net, value) }
    }

    /// Sets the value of the switch.
    pub fn set_value(&self, net: &mut Network<T>, value: T)
        requires
            old(net)@.has_port(self.output.index()),
        ensures
            final(net)@ == old(net)@.with_value(self.output.index(), value),
            final(net)@.wf(),
    {
        let _ = self.output.replace(net, value);
    }
}

} // verus!
