//! A digital network simulator over the nine-valued logic of IEEE 1164.
//!
//! The library has two halves.
//!
//! The first is the logic: the scalar [`Ieee1164`] with its operators and
//! its resolution of several drivers on one wire, and the vector
//! [`LogicVector`] of 1 to 128 such scalars, packed into nine bit masks.
//!
//! The second is the network. A [`Network`] holds the values of all ports
//! and the connections of all signals. A [`Port`] is a handle to one value,
//! typed by what its holder may do with it, and a [`Signal`] is a handle to
//! a wire that resolves its drivers and hands the result to its loads. A
//! [`Circuit`] updates signals and models in a fixed order, tick by tick,
//! until nothing changes any more.
//!
//! Every function states what it returns and what it changes over a
//! mathematical model of its values, and the statements are machine
//! checked. The invariants of the packed vector and of the network are part
//! of these statements.
//!
//! # Example: from one port to another
//!
//! ```text
//! let mut net = Network::new();
//! let from = Port::<_, Output>::new(&mut net, Ieee1164::_1());
//! let to = Port::<_, Input>::default(&mut net);
//! let signal = Signal::new(&mut net);
//! signal.connect(&mut net, &from).unwrap();
//! signal.connect(&mut net, &to).unwrap();
//! signal.update(&mut net);
//! assert_eq!(Ieee1164::_1(), to.value(&net));
//! ```
//!
//! # Example: two drivers
//!
//! A driver at high impedance yields to a strong zero.
//!
//! ```text
//! let mut net = Network::new();
//! let from1 = Port::<_, Output>::new(&mut net, Ieee1164::_Z());
//! let from2 = Port::<_, Output>::new(&mut net, Ieee1164::_0());
//! let to = Port::<_, Input>::default(&mut net);
//! let signal = Signal::new(&mut net);
//! signal.connect(&mut net, &from1).unwrap();
//! signal.connect(&mut net, &from2).unwrap();
//! signal.connect(&mut net, &to).unwrap();
//! signal.update(&mut net);
//! assert_eq!(Ieee1164::_0(), to.value(&net));
//! ```

pub mod circuit;
pub mod direction;
pub mod dump;
pub mod integer;
pub mod logicbit;
pub mod models;
pub mod network;
pub mod port;
pub mod reactor;
pub mod signal;

pub use self::circuit::Circuit;
pub use self::logicbit::{Ieee1164, Ieee1164Value, LogicVector, Resolve};
pub use self::network::Network;
pub use self::port::Port;
pub use self::signal::Signal;

use vstd::prelude::*;
use crate::network::NetworkState;

verus! {

/// Whether the given ports and signals are still around in the network.
pub open spec fn ready<T>(ports: Set<usize>, signals: Set<usize>, net: NetworkState<T>) -> bool {
    &&& forall|p: usize| #[trigger] ports.contains(p) ==> net.has_port(p)
    &&& forall|s: usize| #[trigger] signals.contains(s) ==> net.has_signal(s)
}

/// What a circuit can update: a signal, a gate, any model with ports.
///
/// An update reads ports and writes ports of a network, in no time, and
/// says whether a value changed. It releases nothing and creates nothing.
pub trait Updateable {
    /// The values of the ports that the update works on.
    type Value: Resolve;

    /// The ports that the update reads or writes.
    spec fn ports(&self) -> Set<usize>;

    /// The signals that the update reads or writes.
    spec fn signals(&self) -> Set<usize>;

    /// The network after the update.
    spec fn step(&self, net: NetworkState<Self::Value>) -> NetworkState<Self::Value>;

    /// Whether the update changes a value.
    spec fn changes(&self, net: NetworkState<Self::Value>) -> bool;

    /// Whether the ports and signals of the update are still around.
    fn is_ready(&self, net: &Network<Self::Value>) -> (r: bool)
        ensures
            r == ready(self.ports(), self.signals(), net@),
    ;

    /// Reads the inputs, writes the outputs and says whether a value
    /// changed.
    fn update(&self, net: &mut Network<Self::Value>) -> (changed: bool)
        requires
            old(net)@.consistent(),
            ready(self.ports(), self.signals(), old(net)@),
        ensures
            final(net)@ == self.step(old(net)@),
            changed == self.changes(old(net)@),
            final(net)@.consistent(),
            final(net)@.same_population(old(net)@),
    ;
}

} // verus!
