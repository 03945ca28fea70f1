//! The port: a handle to one value of a network, typed by its direction.

use vstd::prelude::*;
use core::marker::PhantomData;
use crate::network::{state_of, Network, PortState};
use crate::port::portdirection::{Dir, MaybeRead, MaybeWrite, PortDirection, Read, Write};

verus! {

/// A port of a model or of a signal: a handle to a value in a network.
///
/// The direction says what the holder may do with the value: read an input,
/// write an output, both with an in-out port. Copies of a port name the same
/// value.
#[derive(Debug)]
pub struct Port<T, D: PortDirection> {
    id: usize,
    marker: PhantomData<(T, D)>,
}

impl<T, D: PortDirection> Clone for Port<T, D> {
    fn clone(&self) -> (r: Self)
        ensures
            r == *self,
    {
        Port { id: self.id, marker: PhantomData }
    }
}

impl<T, D: PortDirection> Copy for Port<T, D> {

}

impl<T, D: PortDirection> PartialEq for Port<T, D> {
    /// Two ports are equal when they name the same value.
    fn eq(&self, other: &Port<T, D>) -> (r: bool) {
        self.id == other.id
    }
}

impl<T, D: PortDirection> Eq for Port<T, D> {

}

impl<T, D: PortDirection> vstd::std_specs::cmp::PartialEqSpecImpl for Port<T, D> {
    open spec fn obeys_eq_spec() -> bool {
        true
    }

    open spec fn eq_spec(&self, other: &Port<T, D>) -> bool {
        self.index() == other.index()
    }
}

impl<T, D: PortDirection> Port<T, D> {
    /// The number of the port in its network.
    pub closed spec fn index(&self) -> usize {
        self.id
    }

    /// The number of the port in its network.
    pub fn id(&self) -> (i: usize)
        ensures
            i == self.index(),
    {
        self.id
    }

    /// Creates a port with a value. It is not connected.
    pub fn new(net: &mut Network<T>, value: T) -> (port: Self)
        ensures
            final(net)@ == old(net)@.with_port(value),
            final(net)@.wf(),
            port.index() == old(net)@.ports.len(),
    {
        let (mut cells, wires) = net.take();
        let id = cells.len();
        cells.push(PortState { value, live: true, link: None });
        proof {
            assert(state_of(cells@, wires@) =~= old(net)@.with_port(value));
            old(net)@.lemma_port_added(value);
        }
        net.put(cells, wires);
        Port { id, marker: PhantomData }
    }

    /// Creates a port with the default value of its type. It is not
    /// connected.
    pub fn default(net: &mut Network<T>) -> (port: Self) where T: Default
        ensures
            final(net)@ == old(net)@.with_port(final(net)@.ports.last().value),
            call_ensures(T::default, (), final(net)@.ports.last().value),
            final(net)@.wf(),
            port.index() == old(net)@.ports.len(),
    {
        Self::new(net, T::default())
    }

    /// A handle to the port with number `id`, whatever its direction was.
    pub(crate) fn from_id(id: usize) -> (port: Self)
        ensures
            port.index() == id,
    {
        Port { id, marker: PhantomData }
    }

    /// Whether the port is still around in the network.
    pub fn is_valid(&self, net: &Network<T>) -> (r: bool)
        ensures
            r == net@.has_port(self.index()),
    {
        self.id < net.cells.len() && net.cells[self.id].live
    }

    /// Whether the port is connected to a signal.
    pub fn is_connected(&self, net: &Network<T>) -> (r: bool)
        requires
            net@.has_port(self.index()),
        ensures
            r == net@.ports[self.index() as int].link is Some,
    {
        net.cells[self.id].link.is_some()
    }

    /// Releases the port: its signal will forget it at its next update.
    /// Every copy of the handle is void afterwards.
    pub fn release(self, net: &mut Network<T>)
        requires
            old(net)@.has_port(self.index()),
        ensures
            final(net)@ == old(net)@.without_port(self.index()),
            final(net)@.wf(),
    {
        let (mut cells, wires) = net.take();
        cells[self.id].live = false;
        proof {
            assert(state_of(cells@, wires@) =~= old(net)@.without_port(self.id));
            old(net)@.lemma_port_released(self.id);
        }
        net.put(cells, wires);
    }
}

impl<T: Copy, W: MaybeWrite> Port<T, Dir<Read, W>> where Dir<Read, W>: PortDirection {
    /// The value of the port.
    pub fn value(&self, net: &Network<T>) -> (r: T)
        requires
            net@.has_port(self.index()),
        ensures
            r == net@.ports[self.index() as int].value,
    {
        net.cells[self.id].value
    }
}

impl<T, W: MaybeWrite> Port<T, Dir<Read, W>> where Dir<Read, W>: PortDirection {
    /// Hands the value of the port to `f`.
    pub fn with_value<F: FnOnce(&T)>(&self, net: &Network<T>, f: F)
        requires
            net@.has_port(self.index()),
            f.requires((&net@.ports[self.index() as int].value,)),
        ensures
            f.ensures((&net@.ports[self.index() as int].value,), ()),
    {
        f(&net.cells[self.id].value)
    }
}

impl<T, R: MaybeRead> Port<T, Dir<R, Write>> where Dir<R, Write>: PortDirection {
    /// Replaces the value of the port and returns the value it had.
    pub fn replace(&self, net: &mut Network<T>, value: T) -> (r: T)
        requires
            old(net)@.has_port(self.index()),
        ensures
            final(net)@ == old(net)@.with_value(self.index(), value),
            final(net)@.wf(),
            r == old(net)@.ports[self.index() as int].value,
    {
        let (mut cells, wires) = net.take();
        let mut value = value;
        core::mem::swap(&mut cells[self.id].value, &mut value);
        proof {
            let after = state_of(cells@, wires@);
            assert(after =~= old(net)@.with_value(self.id, after.ports[self.id as int].value));
            old(net)@.lemma_value_replaced(self.id, after.ports[self.id as int].value);
        }
        net.put(cells, wires);
        value
    }

    /// Lets `f` change the value of the port in place. The network is taken
    /// apart for the time of the call: if `f` panics, it is left empty.
    pub fn with_value_mut<F: FnOnce(&mut T)>(&self, net: &mut Network<T>, f: F)
        requires
            old(net)@.has_port(self.index()),
            forall|x: &mut T| *x == old(net)@.ports[self.index() as int].value ==> f.requires((x,)),
        ensures
            final(net)@ == old(net)@.with_value(
                self.index(),
                final(net)@.ports[self.index() as int].value,
            ),
            final(net)@.wf(),
            exists|x: &mut T|
                *x == old(net)@.ports[self.index() as int].value
                    && *final(x) == final(net)@.ports[self.index() as int].value
                    && f.ensures((x,), ()),
    {
        let (mut cells, wires) = net.take();
        let cell = &mut cells[self.id].value;
        f(cell);
        proof {
            let after = state_of(cells@, wires@);
            assert(after =~= old(net)@.with_value(self.id, after.ports[self.id as int].value));
            old(net)@.lemma_value_replaced(self.id, after.ports[self.id as int].value);
        }
        net.put(cells, wires);
    }

}

} // verus!
