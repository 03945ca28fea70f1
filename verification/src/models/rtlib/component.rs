//! One type for everything that a circuit of vectors updates.

use vstd::prelude::*;
use crate::logicbit::logicvector::LogicVector;
use crate::models::rtlib::arithmic::add;
use crate::models::rtlib::arithmic::twoscomplement::TwosComplement;
use crate::network::{Network, NetworkState};
use crate::signal::Signal;
use crate::Updateable;

verus! {

/// A member of a circuit of vectors: a signal or one of the models.
#[derive(Debug)]
pub enum VectorComponent {
    /// A signal.
    Signal(Signal<LogicVector>),
    /// An `Add`.
    Add(add::Add),
    /// A `TwosComplement`.
    TwosComplement(TwosComplement),
}

impl Clone for VectorComponent {
    fn clone(&self) -> (r: Self)
        ensures
            r == *self,
    {
        *self
    }
}

impl Copy for VectorComponent {

}

impl Updateable for VectorComponent {
    type Value = LogicVector;

    open spec fn ports(&self) -> Set<usize> {
        match *self {
            VectorComponent::Signal(m) => m.ports(),
            VectorComponent::Add(m) => m.ports(),
            VectorComponent::TwosComplement(m) => m.ports(),
        }
    }

    open spec fn signals(&self) -> Set<usize> {
        match *self {
            VectorComponent::Signal(m) => m.signals(),
            VectorComponent::Add(m) => m.signals(),
            VectorComponent::TwosComplement(m) => m.signals(),
        }
    }

    open spec fn step(&self, net: NetworkState<LogicVector>) -> NetworkState<LogicVector> {
        match *self {
            VectorComponent::Signal(m) => m.step(net),
            VectorComponent::Add(m) => m.step(net),
            VectorComponent::TwosComplement(m) => m.step(net),
        }
    }

    open spec fn changes(&self, net: NetworkState<LogicVector>) -> bool {
        match *self {
            VectorComponent::Signal(m) => m.changes(net),
            VectorComponent::Add(m) => m.changes(net),
            VectorComponent::TwosComplement(m) => m.changes(net),
        }
    }

    fn is_ready(&self, net: &Network<LogicVector>) -> (r: bool) {
        match self {
            VectorComponent::Signal(m) => m.is_ready(net),
            VectorComponent::Add(m) => m.is_ready(net),
            VectorComponent::TwosComplement(m) => m.is_ready(net),
        }
    }

    fn update(&self, net: &mut Network<LogicVector>) -> (changed: bool) {
        match self {
            VectorComponent::Signal(m) => Updateable::update(m, net),
            VectorComponent::Add(m) => m.update(net),
            VectorComponent::TwosComplement(m) => m.update(net),
        }
    }
}

impl From<Signal<LogicVector>> for VectorComponent {
    fn from(model: Signal<LogicVector>) -> (r: VectorComponent) {
        VectorComponent::Signal(model)
    }
}

impl vstd::std_specs::convert::FromSpecImpl<Signal<LogicVector>> for VectorComponent {
    open spec fn obeys_from_spec() -> bool {
        true
    }

    open spec fn from_spec(model: Signal<LogicVector>) -> VectorComponent {
        VectorComponent::Signal(model)
    }
}

impl From<add::Add> for VectorComponent {
    fn from(model: add::Add) -> (r: VectorComponent) {
        VectorComponent::Add(model)
    }
}

impl vstd::std_specs::convert::FromSpecImpl<add::Add> for VectorComponent {
    open spec fn obeys_from_spec() -> bool {
        true
    }

    open spec fn from_spec(model: add::Add) -> VectorComponent {
        VectorComponent::Add(model)
    }
}

impl From<TwosComplement> for VectorComponent {
    fn from(model: TwosComplement) -> (r: VectorComponent) {
        VectorComponent::TwosComplement(model)
    }
}

impl vstd::std_specs::convert::FromSpecImpl<TwosComplement> for VectorComponent {
    open spec fn obeys_from_spec() -> bool {
        true
    }

    open spec fn from_spec(model: TwosComplement) -> VectorComponent {
        VectorComponent::TwosComplement(model)
    }
}

} // verus!
