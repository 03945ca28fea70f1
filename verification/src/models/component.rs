//! One type for everything that a circuit of scalars updates.

use vstd::prelude::*;
use crate::logicbit::ieee1164::Ieee1164;
use crate::models::gates::{
    AndGate, Buffer, Inverter, Mux, NandGate, NorGate, OrGate, TriBuffer, WeakBuffer, WeakInverter,
    XnorGate, XorGate,
};
use crate::network::{Network, NetworkState};
use crate::signal::Signal;
use crate::Updateable;

verus! {

/// A member of a circuit of scalars: a signal or one of the gates.
#[derive(Debug)]
pub enum Component {
    /// A signal.
    Signal(Signal<Ieee1164>),
    /// An `AndGate`.
    And(AndGate),
    /// A `NandGate`.
    Nand(NandGate),
    /// An `OrGate`.
    Or(OrGate),
    /// A `NorGate`.
    Nor(NorGate),
    /// A `XorGate`.
    Xor(XorGate),
    /// A `XnorGate`.
    Xnor(XnorGate),
    /// A `Buffer`.
    Buffer(Buffer),
    /// An `Inverter`.
    Inverter(Inverter),
    /// A `WeakBuffer`.
    WeakBuffer(WeakBuffer),
    /// A `WeakInverter`.
    WeakInverter(WeakInverter),
    /// A `Mux`.
    Mux(Mux),
    /// A `TriBuffer`.
    TriBuffer(TriBuffer),
}

impl Clone for Component {
    fn clone(&self) -> (r: Self)
        ensures
            r == *self,
    {
        *self
    }
}

impl Copy for Component {

}

impl Updateable for Component {
    type Value = Ieee1164;

    open spec fn ports(&self) -> Set<usize> {
        match *self {
            Component::Signal(m) => m.ports(),
            Component::And(m) => m.ports(),
            Component::Nand(m) => m.ports(),
            Component::Or(m) => m.ports(),
            Component::Nor(m) => m.ports(),
            Component::Xor(m) => m.ports(),
            Component::Xnor(m) => m.ports(),
            Component::Buffer(m) => m.ports(),
            Component::Inverter(m) => m.ports(),
            Component::WeakBuffer(m) => m.ports(),
            Component::WeakInverter(m) => m.ports(),
            Component::Mux(m) => m.ports(),
            Component::TriBuffer(m) => m.ports(),
        }
    }

    open spec fn signals(&self) -> Set<usize> {
        match *self {
            Component::Signal(m) => m.signals(),
            Component::And(m) => m.signals(),
            Component::Nand(m) => m.signals(),
            Component::Or(m) => m.signals(),
            Component::Nor(m) => m.signals(),
            Component::Xor(m) => m.signals(),
            Component::Xnor(m) => m.signals(),
            Component::Buffer(m) => m.signals(),
            Component::Inverter(m) => m.signals(),
            Component::WeakBuffer(m) => m.signals(),
            Component::WeakInverter(m) => m.signals(),
            Component::Mux(m) => m.signals(),
            Component::TriBuffer(m) => m.signals(),
        }
    }

    open spec fn step(&self, net: NetworkState<Ieee1164>) -> NetworkState<Ieee1164> {
        match *self {
            Component::Signal(m) => m.step(net),
            Component::And(m) => m.step(net),
            Component::Nand(m) => m.step(net),
            Component::Or(m) => m.step(net),
            Component::Nor(m) => m.step(net),
            Component::Xor(m) => m.step(net),
            Component::Xnor(m) => m.step(net),
            Component::Buffer(m) => m.step(net),
            Component::Inverter(m) => m.step(net),
            Component::WeakBuffer(m) => m.step(net),
            Component::WeakInverter(m) => m.step(net),
            Component::Mux(m) => m.step(net),
            Component::TriBuffer(m) => m.step(net),
        }
    }

    open spec fn changes(&self, net: NetworkState<Ieee1164>) -> bool {
        match *self {
            Component::Signal(m) => m.changes(net),
            Component::And(m) => m.changes(net),
            Component::Nand(m) => m.changes(net),
            Component::Or(m) => m.changes(net),
            Component::Nor(m) => m.changes(net),
            Component::Xor(m) => m.changes(net),
            Component::Xnor(m) => m.changes(net),
            Component::Buffer(m) => m.changes(net),
            Component::Inverter(m) => m.changes(net),
            Component::WeakBuffer(m) => m.changes(net),
            Component::WeakInverter(m) => m.changes(net),
            Component::Mux(m) => m.changes(net),
            Component::TriBuffer(m) => m.changes(net),
        }
    }

    fn is_ready(&self, net: &Network<Ieee1164>) -> (r: bool) {
        match self {
            Component::Signal(m) => m.is_ready(net),
            Component::And(m) => m.is_ready(net),
            Component::Nand(m) => m.is_ready(net),
            Component::Or(m) => m.is_ready(net),
            Component::Nor(m) => m.is_ready(net),
            Component::Xor(m) => m.is_ready(net),
            Component::Xnor(m) => m.is_ready(net),
            Component::Buffer(m) => m.is_ready(net),
            Component::Inverter(m) => m.is_ready(net),
            Component::WeakBuffer(m) => m.is_ready(net),
            Component::WeakInverter(m) => m.is_ready(net),
            Component::Mux(m) => m.is_ready(net),
            Component::TriBuffer(m) => m.is_ready(net),
        }
    }

    fn update(&self, net: &mut Network<Ieee1164>) -> (changed: bool) {
        match self {
            Component::Signal(m) => Updateable::update(m, net),
            Component::And(m) => m.update(net),
            Component::Nand(m) => m.update(net),
            Component::Or(m) => m.update(net),
            Component::Nor(m) => m.update(net),
            Component::Xor(m) => m.update(net),
            Component::Xnor(m) => m.update(net),
            Component::Buffer(m) => m.update(net),
            Component::Inverter(m) => m.update(net),
            Component::WeakBuffer(m) => m.update(net),
            Component::WeakInverter(m) => m.update(net),
            Component::Mux(m) => m.update(net),
            Component::TriBuffer(m) => m.update(net),
        }
    }
}

impl From<Signal<Ieee1164>> for Component {
    fn from(model: Signal<Ieee1164>) -> (r: Component) {
        Component::Signal(model)
    }
}

impl vstd::std_specs::convert::FromSpecImpl<Signal<Ieee1164>> for Component {
    open spec fn obeys_from_spec() -> bool {
        true
    }

    open spec fn from_spec(model: Signal<Ieee1164>) -> Component {
        Component::Signal(model)
    }
}

impl From<AndGate> for Component {
    fn from(model: AndGate) -> (r: Component) {
        Component::And(model)
    }
}

impl vstd::std_specs::convert::FromSpecImpl<AndGate> for Component {
    open spec fn obeys_from_spec() -> bool {
        true
    }

    open spec fn from_spec(model: AndGate) -> Component {
        Component::And(model)
    }
}

impl From<NandGate> for Component {
    fn from(model: NandGate) -> (r: Component) {
        Component::Nand(model)
    }
}

impl vstd::std_specs::convert::FromSpecImpl<NandGate> for Component {
    open spec fn obeys_from_spec() -> bool {
        true
    }

    open spec fn from_spec(model: NandGate) -> Component {
        Component::Nand(model)
    }
}

impl From<OrGate> for Component {
    fn from(model: OrGate) -> (r: Component) {
        Component::Or(model)
    }
}

impl vstd::std_specs::convert::FromSpecImpl<OrGate> for Component {
    open spec fn obeys_from_spec() -> bool {
        true
    }

    open spec fn from_spec(model: OrGate) -> Component {
        Component::Or(model)
    }
}

impl From<NorGate> for Component {
    fn from(model: NorGate) -> (r: Component) {
        Component::Nor(model)
    }
}

impl vstd::std_specs::convert::FromSpecImpl<NorGate> for Component {
    open spec fn obeys_from_spec() -> bool {
        true
    }

    open spec fn from_spec(model: NorGate) -> Component {
        Component::Nor(model)
    }
}

impl From<XorGate> for Component {
    fn from(model: XorGate) -> (r: Component) {
        Component::Xor(model)
    }
}

impl vstd::std_specs::convert::FromSpecImpl<XorGate> for Component {
    open spec fn obeys_from_spec() -> bool {
        true
    }

    open spec fn from_spec(model: XorGate) -> Component {
        Component::Xor(model)
    }
}

impl From<XnorGate> for Component {
    fn from(model: XnorGate) -> (r: Component) {
        Component::Xnor(model)
    }
}

impl vstd::std_specs::convert::FromSpecImpl<XnorGate> for Component {
    open spec fn obeys_from_spec() -> bool {
        true
    }

    open spec fn from_spec(model: XnorGate) -> Component {
        Component::Xnor(model)
    }
}

impl From<Buffer> for Component {
    fn from(model: Buffer) -> (r: Component) {
        Component::Buffer(model)
    }
}

impl vstd::std_specs::convert::FromSpecImpl<Buffer> for Component {
    open spec fn obeys_from_spec() -> bool {
        true
    }

    open spec fn from_spec(model: Buffer) -> Component {
        Component::Buffer(model)
    }
}

impl From<Inverter> for Component {
    fn from(model: Inverter) -> (r: Component) {
        Component::Inverter(model)
    }
}

impl vstd::std_specs::convert::FromSpecImpl<Inverter> for Component {
    open spec fn obeys_from_spec() -> bool {
        true
    }

    open spec fn from_spec(model: Inverter) -> Component {
        Component::Inverter(model)
    }
}

impl From<WeakBuffer> for Component {
    fn from(model: WeakBuffer) -> (r: Component) {
        Component::WeakBuffer(model)
    }
}

impl vstd::std_specs::convert::FromSpecImpl<WeakBuffer> for Component {
    open spec fn obeys_from_spec() -> bool {
        true
    }

    open spec fn from_spec(model: WeakBuffer) -> Component {
        Component::WeakBuffer(model)
    }
}

impl From<WeakInverter> for Component {
    fn from(model: WeakInverter) -> (r: Component) {
        Component::WeakInverter(model)
    }
}

impl vstd::std_specs::convert::FromSpecImpl<WeakInverter> for Component {
    open spec fn obeys_from_spec() -> bool {
        true
    }

    open spec fn from_spec(model: WeakInverter) -> Component {
        Component::WeakInverter(model)
    }
}

impl From<Mux> for Component {
    fn from(model: Mux) -> (r: Component) {
        Component::Mux(model)
    }
}

impl vstd::std_specs::convert::FromSpecImpl<Mux> for Component {
    open spec fn obeys_from_spec() -> bool {
        true
    }

    open spec fn from_spec(model: Mux) -> Component {
        Component::Mux(model)
    }
}

impl From<TriBuffer> for Component {
    fn from(model: TriBuffer) -> (r: Component) {
        Component::TriBuffer(model)
    }
}

impl vstd::std_specs::convert::FromSpecImpl<TriBuffer> for Component {
    open spec fn obeys_from_spec() -> bool {
        true
    }

    open spec fn from_spec(model: TriBuffer) -> Component {
        Component::TriBuffer(model)
    }
}

} // verus!
