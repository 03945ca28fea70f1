//! The connector: the handle that a signal keeps of a port.

use vstd::prelude::*;
use core::marker::PhantomData;
use crate::network::{state_of, Network};
use crate::port::portdirection::{Dir, Input, MaybeRead, MaybeWrite, Output, PortDirection, Read, Write};
use crate::port::pport::Port;

verus! {

/// Why a port has no connector of a direction: its own direction does not
/// allow what the connector is for.
#[derive(Debug, Clone, Copy, PartialEq, Eq, Hash, Structural)]
pub struct DirectionMismatch;

/// The handle that a signal keeps of a port. It does not keep the port
/// around: once the port is released the connector is void.
///
/// The direction is that of the signal: a signal reads through an input
/// connector and writes through an output connector.
#[derive(Debug)]
pub struct PortConnector<T, D: PortDirection> {
    id: usize,
    marker: PhantomData<(T, D)>,
}

impl<T, D: PortDirection> Clone for PortConnector<T, D> {
    fn clone(&self) -> (r: Self)
        ensures
            r == *self,
    {
        PortConnector { id: self.id, marker: PhantomData }
    }
}

impl<T, D: PortDirection> Copy for PortConnector<T, D> {

}

impl<T, D: PortDirection> PortConnector<T, D> {
    /// The number of the port in its network.
    pub closed spec fn index(&self) -> usize {
        self.id
    }

    /// The connector of the port with number `id`.
    pub(crate) fn from_id(id: usize) -> (c: Self)
        ensures
            c.index() == id,
    {
        PortConnector { id, marker: PhantomData }
    }

    /// The port, if it is still around.
    fn to_port(&self, net: &Network<T>) -> (r: Option<Port<T, D>>)
        ensures
            r is Some <==> net@.has_port(self.index()),
            r matches Some(p) ==> p.index() == self.index(),
    {
        if self.is_valid(net) {
            Some(Port::from_id(self.id))
        } else {
            None
        }
    }

    /// Whether the port is still around.
    pub fn is_valid(&self, net: &Network<T>) -> (r: bool)
        ensures
            r == net@.has_port(self.index()),
    {
        self.id < net.cells.len() && net.cells[self.id].live
    }

    /// Whether both connectors are valid and name the same port.
    pub fn same_port(&self, other: &PortConnector<T, D>, net: &Network<T>) -> (r: bool)
        ensures
            r == (net@.has_port(self.index()) && self.index() == other.index()),
    {
        match (self.to_port(net), other.to_port(net)) {
            (Some(a), Some(b)) => a == b,
            _ => false,
        }
    }
}

impl<T: Copy, W: MaybeWrite> PortConnector<T, Dir<Read, W>> where Dir<Read, W>: PortDirection {
    /// The value of the port, if it is still around.
    pub fn value(&self, net: &Network<T>) -> (r: Option<T>)
        ensures
            r == if net@.has_port(self.index()) {
                Some(net@.ports[self.index() as int].value)
            } else {
                None
            },
    {
        if self.is_valid(net) {
            Some(net.cells[self.id].value)
        } else {
            None
        }
    }
}

impl<T, R: MaybeRead> PortConnector<T, Dir<R, Write>> where Dir<R, Write>: PortDirection {
    /// Sets the value of the port, if it is still around.
    pub fn set_value(&self, net: &mut Network<T>, value: T)
        ensures
            final(net)@ == if old(net)@.has_port(self.index()) {
                old(net)@.with_value(self.index(), value)
            } else {
                old(net)@
            },
            final(net)@.wf(),
    {
        if self.is_valid(net) {
            let (mut cells, wires) = net.take();
            cells[self.id].value = value;
            proof {
                assert(state_of(cells@, wires@) =~= old(net)@.with_value(self.id, value));
                old(net)@.lemma_value_replaced(self.id, value);
            }
            net.put(cells, wires);
        } else {
            net.check();
        }
    }
}

impl<T> PortConnector<T, Input> {
    /// The connector through which a signal reads a port. Only a port that
    /// its holder can write has one: an output or an in-out port.
    pub fn try_from_port<D: PortDirection>(port: &Port<T, D>) -> (r: Result<Self, DirectionMismatch>)
        ensures
            r is Ok <==> D::output() || D::inout(),
            r matches Ok(c) ==> c.index() == port.index(),
    {
        if D::is_output() || D::is_inout() {
            Ok(PortConnector::from_id(port.id()))
        } else {
            Err(DirectionMismatch)
        }
    }
}

impl<T> PortConnector<T, Output> {
    /// The connector through which a signal writes a port. Only a port that
    /// its holder can read has one: an input or an in-out port.
    pub fn try_from_port<D: PortDirection>(port: &Port<T, D>) -> (r: Result<Self, DirectionMismatch>)
        ensures
            r is Ok <==> D::input() || D::inout(),
            r matches Ok(c) ==> c.index() == port.index(),
    {
        if D::is_input() || D::is_inout() {
            Ok(PortConnector::from_id(port.id()))
        } else {
            Err(DirectionMismatch)
        }
    }
}

} // verus!
