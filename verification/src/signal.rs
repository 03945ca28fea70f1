//! The signal: a wire that several ports share.

use vstd::prelude::*;
use core::marker::PhantomData;
use crate::logicbit::Resolve;
use crate::network::{state_of, Network, NetworkState, Wire};
use crate::port::portdirection::{drives, PortDirection};
use crate::port::pport::Port;
use crate::Updateable;

verus! {

/// Why a port could not be connected to a signal.
#[derive(Debug, Clone, Copy, PartialEq, Eq, Hash, Structural)]
pub enum ConnectionError {
    /// The port is connected to a signal already.
    AlreadyConnected,
    /// The value of the port has the first width, the ports of the signal
    /// hold values of the second.
    MismatchWidth(usize, usize),
}

/// A wire between ports: a handle to the connections that a network keeps.
///
/// A signal reads the ports that drive it, which are the output and in-out
/// ports connected to it, and writes its loads, which are the input ports.
/// An update resolves the values of the drivers into one and hands it to
/// every load. Copies of a signal name the same wire.
#[derive(Debug)]
pub struct Signal<T> {
    id: usize,
    marker: PhantomData<T>,
}

impl<T> Clone for Signal<T> {
    fn clone(&self) -> (r: Self)
        ensures
            r == *self,
    {
        Signal { id: self.id, marker: PhantomData }
    }
}

impl<T> Copy for Signal<T> {

}

/// The first port of the list that is still around.
fn find_live<T>(net: &Network<T>, list: &Vec<usize>) -> (r: Option<usize>)
    ensures
        r matches Some(q) ==> list@.contains(q) && net@.has_port(q),
        r is None ==> forall|x: usize| list@.contains(x) ==> !net@.has_port(x),
{
    let mut k: usize = 0;
    while k < list.len()
        invariant
            k <= list.len(),
            forall|i: int| 0 <= i < k ==> !net@.has_port(#[trigger] list@[i]),
        decreases list.len() - k,
    {
        let q = list[k];
        if q < net.cells.len() && net.cells[q].live {
            return Some(q);
        }
        k = k + 1;
    }
    None
}

/// The place of `p` in the list, if it is there.
fn position(list: &Vec<usize>, p: usize) -> (r: Option<usize>)
    ensures
        r matches Some(k) ==> k < list@.len() && list@[k as int] == p,
        r is None ==> !list@.contains(p),
{
    let mut k: usize = 0;
    while k < list.len()
        invariant
            k <= list.len(),
            forall|i: int| 0 <= i < k ==> list@[i] != p,
        decreases list.len() - k,
    {
        if list[k] == p {
            return Some(k);
        }
        k = k + 1;
    }
    None
}

/// The ports of the list that are still around, in their order.
fn live_only<T>(net: &Network<T>, list: &Vec<usize>) -> (kept: Vec<usize>)
    ensures
        kept@ == net@.keep_live(list@),
{
    let mut kept: Vec<usize> = Vec::new();
    let mut k: usize = 0;
    while k < list.len()
        invariant
            k <= list.len(),
            kept@ == net@.keep_live(list@.take(k as int)),
        decreases list.len() - k,
    {
        let q = list[k];
        proof {
            assert(list@.take(k + 1).drop_last() =~= list@.take(k as int));
            assert(list@.take(k + 1).last() == q);
        }
        if q < net.cells.len() && net.cells[q].live {
            kept.push(q);
        }
        k = k + 1;
    }
    assert(list@.take(k as int) =~= list@);
    kept
}

/// Whether every port of the list that is still around holds a value of the
/// given width.
fn all_of_width<T: Resolve>(net: &Network<T>, list: &Vec<usize>, width: usize) -> (r: bool)
    ensures
        r == forall|x: usize| #[trigger]
            list@.contains(x) && net@.has_port(x) ==> net@.ports[x as int].value.wire_width()
                == width,
{
    let mut k: usize = 0;
    while k < list.len()
        invariant
            k <= list.len(),
            forall|i: int|
                0 <= i < k && net@.has_port(#[trigger] list@[i]) ==> net@.ports[list@[i] as int].value.wire_width()
                    == width,
        decreases list.len() - k,
    {
        let q = list[k];
        if q < net.cells.len() && net.cells[q].live {
            if net.cells[q].value.width() != width {
                assert(list@.contains(q));
                return false;
            }
        }
        k = k + 1;
    }
    true
}

/// The list without `p`.
fn remove_port(list: &mut Vec<usize>, p: usize)
    requires
        old(list)@.no_duplicates(),
    ensures
        final(list)@ == NetworkState::<usize>::without(old(list)@, p),
{
    match position(list, p) {
        Some(k) => {
            assert(list@.contains(p));
            assert(list@.index_of(p) == k) by {
                let j = list@.index_of(p);
                assert(0 <= j < list@.len() && list@[j] == p);
            }
            list.remove(k);
        },
        None => {},
    }
}

impl<T> Signal<T> {
    /// The number of the signal in its network.
    pub closed spec fn index(&self) -> usize {
        self.id
    }

    /// Whether the signal is still around in the network.
    pub fn is_valid(&self, net: &Network<T>) -> (r: bool)
        ensures
            r == net@.has_signal(self.index()),
    {
        self.id < net.wires.len() && net.wires[self.id].live
    }

    /// How many ports the signal reads.
    pub fn input_count(&self, net: &Network<T>) -> (n: usize)
        requires
            net@.has_signal(self.index()),
        ensures
            n == net@.signals[self.index() as int].inputs.len(),
    {
        net.wires[self.id].inputs.len()
    }

    /// How many ports the signal writes.
    pub fn output_count(&self, net: &Network<T>) -> (n: usize)
        requires
            net@.has_signal(self.index()),
        ensures
            n == net@.signals[self.index() as int].outputs.len(),
    {
        net.wires[self.id].outputs.len()
    }
}

impl<T: Resolve + Copy> Signal<T> {
    /// Creates a signal that no port is connected to.
    pub fn new(net: &mut Network<T>) -> (signal: Self)
        requires
            old(net)@.consistent(),
        ensures
            final(net)@ == old(net)@.with_signal(),
            final(net)@.consistent(),
            signal.index() == old(net)@.signals.len(),
    {
        let (cells, mut wires) = net.take();
        let id = wires.len();
        wires.push(Wire { inputs: Vec::new(), outputs: Vec::new(), live: true });
        proof {
            assert(state_of(cells@, wires@) =~= old(net)@.with_signal());
            old(net)@.lemma_with_signal();
        }
        net.put(cells, wires);
        Signal { id, marker: PhantomData }
    }

    /// Creates a signal that no port is connected to.
    pub fn default(net: &mut Network<T>) -> (signal: Self)
        requires
            old(net)@.consistent(),
        ensures
            final(net)@ == old(net)@.with_signal(),
            final(net)@.consistent(),
            signal.index() == old(net)@.signals.len(),
    {
        Self::new(net)
    }

    /// A port of the signal that is still around.
    fn any_port(&self, net: &Network<T>) -> (r: Option<usize>)
        requires
            net@.has_signal(self.index()),
        ensures
            r matches Some(q) ==> net@.listed(self.index(), q) && net@.has_port(q),
            r is None ==> forall|x: usize| net@.listed(self.index(), x) ==> !net@.has_port(x),
    {
        match find_live(net, &net.wires[self.id].inputs) {
            Some(q) => Some(q),
            None => find_live(net, &net.wires[self.id].outputs),
        }
    }

    /// Whether the ports of the signal that are still around hold values of
    /// one width: what an update needs, and what connecting keeps. Only a
    /// value of another width that was put into a connected port can break
    /// it.
    pub fn widths_agree(&self, net: &Network<T>) -> (r: bool)
        requires
            net@.has_signal(self.index()),
        ensures
            r == net@.agreeing(self.index()),
    {
        let s = self.id;
        match self.any_port(net) {
            Some(q) => {
                let width = net.cells[q].value.width();
                let r = all_of_width(net, &net.wires[s].inputs, width) && all_of_width(
                    net,
                    &net.wires[s].outputs,
                    width,
                );
                proof {
                    if net@.agreeing(s) {
                        assert forall|x: usize| #[trigger]
                            net@.listed(s, x) && net@.has_port(x) implies net@.ports[x as int].value.wire_width()
                            == width by {
                            assert(net@.listed(s, q) && net@.listed(s, x));
                        }
                    }
                    if !r {
                        if net@.agreeing(s) {
                            let ins = net@.signals[s as int].inputs;
                            let outs = net@.signals[s as int].outputs;
                            assert(forall|x: usize| #[trigger]
                                ins.contains(x) && net@.has_port(x) ==> net@.listed(s, x));
                            assert(forall|x: usize| #[trigger]
                                outs.contains(x) && net@.has_port(x) ==> net@.listed(s, x));
                        }
                    }
                }
                r
            },
            None => true,
        }
    }

    /// Connects a port to the signal: an output or in-out port as a driver,
    /// an input port as a load.
    ///
    /// A port that is connected already, to this signal or another, is
    /// refused. So is a port whose value differs in width from the values
    /// of the ports that the signal has. A refusal changes nothing.
    pub fn connect<D: PortDirection>(&self, net: &mut Network<T>, port: &Port<T, D>) -> (r: Result<
        (),
        ConnectionError,
    >)
        requires
            old(net)@.consistent(),
            old(net)@.has_signal(self.index()),
            old(net)@.has_port(port.index()),
        ensures
            final(net)@.consistent(),
            final(net)@.same_population(old(net)@),
            r == Err::<(), _>(ConnectionError::AlreadyConnected) <==> old(
                net,
            )@.ports[port.index() as int].link is Some,
            r matches Err(ConnectionError::MismatchWidth(_, _)) <==> old(
                net,
            )@.ports[port.index() as int].link is None && old(net)@.mismatch(
                self.index(),
                port.index(),
            ),
            r matches Err(ConnectionError::MismatchWidth(a, b)) ==> a == old(
                net,
            )@.ports[port.index() as int].value.wire_width() && exists|q: usize| #[trigger]
                old(net)@.listed(self.index(), q) && old(net)@.has_port(q) && old(
                    net,
                )@.ports[q as int].value.wire_width() == b,
            r is Err <==> refused(old(net)@, self.index(), port.index()),
            r is Ok ==> final(net)@ == old(net)@.connected(self.index(), port.index(), drives::<D>()),
            r is Err ==> final(net)@ == old(net)@,
    {
        let p = port.id();
        if net.cells[p].link.is_some() {
            return Err(ConnectionError::AlreadyConnected);
        }
        let width = net.cells[p].value.width();
        match self.any_port(net) {
            Some(q) => {
                let other = net.cells[q].value.width();
                if other != width {
                    assert(net@.listed(self.id, q));
                    return Err(ConnectionError::MismatchWidth(width, other));
                }
                proof {
                    assert(net@.agreeing(self.id));
                    assert forall|x: usize| #[trigger]
                        net@.listed(self.id, x) && net@.has_port(x) implies net@.ports[x as int].value.wire_width()
                        == width by {
                        assert(net@.listed(self.id, q) && net@.listed(self.id, x));
                    }
                }
            },
            None => {},
        }
        assert(!net@.mismatch(self.id, p));
        let (mut cells, mut wires) = net.take();
        cells[p].link = Some(self.id);
        if D::is_output() || D::is_inout() {
            wires[self.id].inputs.push(p);
        } else {
            wires[self.id].outputs.push(p);
        }
        proof {
            assert(state_of(cells@, wires@) =~~= old(net)@.connected(self.id, p, drives::<D>()));
            old(net)@.lemma_connected(self.id, p, drives::<D>());
        }
        net.put(cells, wires);
        Ok(())
    }

    /// Takes a port off the signal. A port that is not connected to this
    /// signal is left alone.
    pub fn disconnect<D: PortDirection>(&self, net: &mut Network<T>, port: &Port<T, D>)
        requires
            old(net)@.consistent(),
            old(net)@.has_signal(self.index()),
            port.index() < old(net)@.ports.len(),
        ensures
            final(net)@ == if old(net)@.ports[port.index() as int].link == Some(self.index()) {
                old(net)@.disconnected(self.index(), port.index())
            } else {
                old(net)@
            },
            final(net)@.consistent(),
            final(net)@.same_population(old(net)@),
    {
        let p = port.id();
        let linked = match net.cells[p].link {
            Some(s) => s == self.id,
            None => false,
        };
        if linked {
            assert(old(net)@.signal_wf(self.id));
            let (mut cells, mut wires) = net.take();
            cells[p].link = None;
            remove_port(&mut wires[self.id].inputs, p);
            remove_port(&mut wires[self.id].outputs, p);
            proof {
                assert(state_of(cells@, wires@) =~~= old(net)@.disconnected(self.id, p));
                old(net)@.lemma_disconnected(self.id, p);
            }
            net.put(cells, wires);
        }
    }

    /// Forgets the ports that were released.
    pub fn remove_expired_portconnector(&self, net: &mut Network<T>)
        requires
            old(net)@.consistent(),
            old(net)@.has_signal(self.index()),
        ensures
            final(net)@ == old(net)@.pruned(self.index()),
            final(net)@.consistent(),
            final(net)@.same_population(old(net)@),
    {
        let inputs = live_only(net, &net.wires[self.id].inputs);
        let outputs = live_only(net, &net.wires[self.id].outputs);
        let (cells, mut wires) = net.take();
        wires[self.id].inputs = inputs;
        wires[self.id].outputs = outputs;
        proof {
            assert(state_of(cells@, wires@) =~~= old(net)@.pruned(self.id));
            let before = old(net)@;
            let s = self.id;
            if exists|q: usize| before.listed(s, q) && before.has_port(q) {
                let q = choose|q: usize| before.listed(s, q) && before.has_port(q);
                assert(before.agreeing(s));
                assert forall|x: usize|
                    before.listed(s, x) && before.has_port(x) implies before.ports[x as int].value.wire_width()
                    == before.ports[q as int].value.wire_width() by {
                    assert(before.listed(s, q) && before.listed(s, x));
                }
                before.lemma_loads_written(s, before.ports[q as int].value);
            } else {
                before.lemma_loads_written(s, before.ports[0].value);
            }
        }
        net.put(cells, wires);
    }

    /// Releases the signal: its ports are connected to nothing afterwards.
    /// Every copy of the handle is void afterwards.
    pub fn release(self, net: &mut Network<T>)
        requires
            old(net)@.consistent(),
            old(net)@.has_signal(self.index()),
        ensures
            final(net)@ == old(net)@.without_signal(self.index()),
            final(net)@.consistent(),
    {
        let s = self.id;
        let ghost before = net@;
        let (mut cells, mut wires) = net.take();
        let ghost count = cells.len();
        let ghost ins = before.signals[s as int].inputs;
        let ghost outs = before.signals[s as int].outputs;
        proof {
            assert(before.signal_wf(s));
        }
        let n = wires[s].inputs.len();
        let mut k: usize = 0;
        while k < n
            invariant
                k <= n,
                n == ins.len(),
                s < before.signals.len(),
                ins == before.signals[s as int].inputs,
                before.signal_wf(s),
                state_of(cells@, wires@).signals == before.signals,
                state_of(cells@, wires@).ports.len() == before.ports.len(),
                forall|p: usize|
                    p < before.ports.len() ==> #[trigger] state_of(cells@, wires@).ports[p as int] == if ins.take(
                        k as int,
                    ).contains(p) {
                        crate::network::PortState { link: None, ..before.ports[p as int] }
                    } else {
                        before.ports[p as int]
                    },
            decreases n - k,
        {
            let q = wires[s].inputs[k];
            proof {
                assert(ins.contains(q));
                assert(before.listed(s, q));
                assert(before.points_back(s, q));
                assert(ins.take(k + 1) =~= ins.take(k as int).push(q));
            }
            cells[q].link = None;
            proof {
                assert forall|p: usize| p < before.ports.len() implies #[trigger] state_of(cells@, wires@).ports[p as int]
                    == if ins.take(k + 1).contains(p) {
                    crate::network::PortState { link: None, ..before.ports[p as int] }
                } else {
                    before.ports[p as int]
                } by {
                    NetworkState::<T>::lemma_push_contains(ins.take(k as int), q, p);
                }
            }
            k = k + 1;
        }
        assert(ins.take(k as int) =~= ins);
        let m = wires[s].outputs.len();
        let mut j: usize = 0;
        while j < m
            invariant
                j <= m,
                m == outs.len(),
                s < before.signals.len(),
                ins == before.signals[s as int].inputs,
                outs == before.signals[s as int].outputs,
                before.signal_wf(s),
                state_of(cells@, wires@).signals == before.signals,
                state_of(cells@, wires@).ports.len() == before.ports.len(),
                forall|p: usize|
                    p < before.ports.len() ==> #[trigger] state_of(cells@, wires@).ports[p as int] == if ins.contains(p)
                        || outs.take(j as int).contains(p) {
                        crate::network::PortState { link: None, ..before.ports[p as int] }
                    } else {
                        before.ports[p as int]
                    },
            decreases m - j,
        {
            let q = wires[s].outputs[j];
            proof {
                assert(outs.contains(q));
                assert(before.listed(s, q));
                assert(before.points_back(s, q));
                assert(outs.take(j + 1) =~= outs.take(j as int).push(q));
            }
            cells[q].link = None;
            proof {
                assert forall|p: usize| p < before.ports.len() implies #[trigger] state_of(cells@, wires@).ports[p as int]
                    == if ins.contains(p) || outs.take(j + 1).contains(p) {
                    crate::network::PortState { link: None, ..before.ports[p as int] }
                } else {
                    before.ports[p as int]
                } by {
                    NetworkState::<T>::lemma_push_contains(outs.take(j as int), q, p);
                }
            }
            j = j + 1;
        }
        assert(outs.take(j as int) =~= outs);
        wires[s].inputs = Vec::new();
        wires[s].outputs = Vec::new();
        wires[s].live = false;
        proof {
            let after = before.without_signal(s);
            assert(count == before.ports.len());
            assert forall|p: int| 0 <= p < after.ports.len() implies state_of(cells@, wires@).ports[p] == after.ports[p] by {
                assert(state_of(cells@, wires@).ports[(p as usize) as int] == state_of(cells@, wires@).ports[p]);
            }
            assert(state_of(cells@, wires@) =~~= after);
            before.lemma_without_signal(s);
        }
        net.put(cells, wires);
    }

    /// Updates the signal.
    ///
    /// The signal forgets the ports that were released. Without a driver
    /// its loads keep their values. Otherwise the values of the drivers are
    /// resolved, from the first connected to the last, and every load takes
    /// the result. The return value says whether a load had another value
    /// before.
    pub fn update(&self, net: &mut Network<T>) -> (changed: bool)
        requires
            old(net)@.consistent(),
            old(net)@.has_signal(self.index()),
        ensures
            final(net)@ == old(net)@.updated(self.index()),
            changed == old(net)@.update_changes(self.index()),
            final(net)@.consistent(),
            final(net)@.same_population(old(net)@),
    {
        let s = self.id;
        self.remove_expired_portconnector(net);
        let ghost before = old(net)@;
        let ghost pruned = net@;
        let ghost drivers = pruned.signals[s as int].inputs;
        let ghost loads = pruned.signals[s as int].outputs;
        let ghost values = pruned.values(drivers);
        proof {
            before.lemma_keep_live(before.signals[s as int].inputs);
            before.lemma_keep_live(before.signals[s as int].outputs);
            assert(before.signal_wf(s));
            assert(before.agreeing(s));
            assert(values =~= before.values(drivers));
        }
        let n = net.wires[s].inputs.len();
        if n == 0 {
            return false;
        }
        assert(before.listed(s, drivers[0])) by {
            assert(drivers.contains(drivers[0]));
        }
        let first = net.wires[s].inputs[0];
        let mut value = net.cells[first].value;
        let mut k: usize = 1;
        assert(values.take(1).len() == 1);
        while k < n
            invariant
                1 <= k <= n,
                n == drivers.len(),
                net@ == pruned,
                s < pruned.signals.len(),
                drivers == pruned.signals[s as int].inputs,
                values == pruned.values(drivers),
                value == NetworkState::<T>::resolve_all(values.take(k as int)),
                value.wire_width() == pruned.ports[drivers[0] as int].value.wire_width(),
                before.agreeing(s),
                before.signals.len() == pruned.signals.len(),
                pruned.ports == before.ports,
                forall|x: usize| #[trigger]
                    drivers.contains(x) ==> before.listed(s, x) && before.has_port(x),
            decreases n - k,
        {
            let q = net.wires[s].inputs[k];
            proof {
                assert(drivers.contains(drivers[k as int]));
                assert(drivers.contains(drivers[0]));
                assert(before.listed(s, q) && before.listed(s, drivers[0]));
                assert(values.take(k + 1).drop_last() =~= values.take(k as int));
                assert(values.take(k + 1).last() == pruned.ports[q as int].value);
            }
            let next = net.cells[q].value;
            value = value.resolve(&next);
            k = k + 1;
        }
        proof {
            assert(values.take(k as int) =~= values);
            assert(value == before.wire_value(s));
            assert forall|x: usize|
                before.listed(s, x) && before.has_port(x) implies before.ports[x as int].value.wire_width()
                == value.wire_width() by {
                assert(drivers.contains(drivers[0]));
                assert(before.listed(s, drivers[0]) && before.listed(s, x));
            }
            before.lemma_loads_written(s, value);
        }
        let (mut cells, wires) = net.take();
        let m = wires[s].outputs.len();
        let mut j: usize = 0;
        let mut changed = false;
        proof {
            assert(pruned.signal_wf(s));
            assert forall|i: int| 0 <= i < loads.len() implies (#[trigger] loads[i])
                < pruned.ports.len() by {
                assert(loads.contains(loads[i]));
                assert(pruned.listed(s, loads[i]));
                assert(pruned.points_back(s, loads[i]));
            }
        }
        let ghost count = cells.len();
        while j < m
            invariant
                j <= m,
                m == loads.len(),
                s < pruned.signals.len(),
                loads == pruned.signals[s as int].outputs,
                loads.no_duplicates(),
                forall|i: int| 0 <= i < loads.len() ==> (#[trigger] loads[i]) < pruned.ports.len(),
                state_of(cells@, wires@).signals == pruned.signals,
                state_of(cells@, wires@).ports.len() == pruned.ports.len(),
                count == pruned.ports.len(),
                forall|p: usize|
                    p < pruned.ports.len() ==> #[trigger] state_of(cells@, wires@).ports[p as int] == if loads.take(
                        j as int,
                    ).contains(p) {
                        crate::network::PortState { value, ..pruned.ports[p as int] }
                    } else {
                        pruned.ports[p as int]
                    },
                changed == exists|i: int|
                    0 <= i < j && pruned.ports[#[trigger] loads[i] as int].value != value,
            decreases m - j,
        {
            let q = wires[s].outputs[j];
            proof {
                assert(loads[j as int] == q);
                if loads.take(j as int).contains(q) {
                    let i = choose|i: int| 0 <= i < j && loads.take(j as int)[i] == q;
                    assert(loads[i] == loads[j as int]);
                }
                assert(state_of(cells@, wires@).ports[q as int] == pruned.ports[q as int]);
            }
            let differs = !cells[q].value.same_as(&value);
            if differs {
                changed = true;
            }
            cells[q].value = value;
            proof {
                let before_step = loads.take(j as int);
                let after_step = loads.take(j + 1);
                assert(after_step =~= before_step.push(q));
                assert forall|p: usize| p < pruned.ports.len() implies #[trigger] state_of(cells@, wires@).ports[p as int]
                    == if after_step.contains(p) {
                    crate::network::PortState { value, ..pruned.ports[p as int] }
                } else {
                    pruned.ports[p as int]
                } by {
                    NetworkState::<T>::lemma_push_contains(before_step, q, p);
                }
            }
            j = j + 1;
        }
        proof {
            assert(loads.take(j as int) =~= loads);
            let written = before.loads_written(s, value);
            assert forall|p: int| 0 <= p < written.ports.len() implies state_of(cells@, wires@).ports[p]
                == written.ports[p] by {
                assert(state_of(cells@, wires@).ports[(p as usize) as int] == state_of(cells@, wires@).ports[p]);
            }
            assert(state_of(cells@, wires@) =~~= written);
        }
        net.put(cells, wires);
        changed
    }
}

/// Whether the ports of every signal agree in width: whether the network is
/// consistent.
pub fn is_consistent<T: Resolve + Copy>(net: &Network<T>) -> (r: bool)
    ensures
        r == net@.consistent(),
{
    net.check();
    let mut s: usize = 0;
    while s < net.wires.len()
        invariant
            s <= net.wires.len(),
            net@.wf(),
            forall|t: usize| t < s ==> #[trigger] net@.agreeing(t),
        decreases net.wires.len() - s,
    {
        if net.wires[s].live {
            let signal: Signal<T> = Signal { id: s, marker: PhantomData };
            if !signal.widths_agree(net) {
                return false;
            }
        } else {
            assert(net@.signal_wf(s));
            assert forall|x: usize| !#[trigger] net@.listed(s, x) by {
                assert(net@.signals[s as int].inputs.len() == 0);
                assert(net@.signals[s as int].outputs.len() == 0);
            }
        }
        s = s + 1;
    }
    true
}

/// Whether a signal refuses a port: whether the port is connected already or
/// its value differs in width from the values of the ports of the signal.
pub open spec fn refused<T: Resolve>(net: NetworkState<T>, s: usize, p: usize) -> bool {
    net.ports[p as int].link is Some || net.mismatch(s, p)
}

/// A port that a signal accepted is refused from then on, by that signal and
/// by every other, for as long as it stays connected.
pub proof fn lemma_connected_once<T: Resolve>(net: NetworkState<T>, s: usize, p: usize, drives: bool)
    requires
        net.consistent(),
        net.has_signal(s),
        net.has_port(p),
        !refused(net, s, p),
    ensures
        net.connected(s, p, drives).consistent(),
        net.connected(s, p, drives).ports[p as int].link == Some(s),
        forall|t: usize| #[trigger] refused(net.connected(s, p, drives), t, p),
{
    net.lemma_connected(s, p, drives);
}

/// What `keep_live` makes of a list depends on nothing but the ports that
/// are around.
pub proof fn lemma_keep_live_same<T>(a: NetworkState<T>, b: NetworkState<T>, list: Seq<usize>)
    requires
        forall|p: usize| #[trigger] a.has_port(p) == b.has_port(p),
    ensures
        a.keep_live(list) == b.keep_live(list),
    decreases list.len(),
{
    if list.len() > 0 {
        lemma_keep_live_same(a, b, list.drop_last());
        assert(a.has_port(list.last()) == b.has_port(list.last()));
    }
}

/// After a port was taken off a signal, what is written to the port does
/// not reach the signal: an update of the signal leaves every other port
/// with the value that it would have had without the write.
pub proof fn lemma_disconnect_stops_propagation<T: Resolve>(
    net: NetworkState<T>,
    s: usize,
    p: usize,
    value: T,
)
    requires
        net.consistent(),
        s < net.signals.len(),
        p < net.ports.len(),
        net.ports[p as int].link == Some(s),
    ensures
        ({
            let cut = net.disconnected(s, p);
            let written = cut.with_value(p, value);
            &&& written.updated(s).signals == cut.updated(s).signals
            &&& written.update_changes(s) == cut.update_changes(s)
            &&& forall|q: usize|
                q < net.ports.len() && q != p ==> #[trigger] written.updated(s).ports[q as int]
                    == cut.updated(s).ports[q as int]
            &&& written.updated(s).ports[p as int].value == value
        }),
{
    let cut = net.disconnected(s, p);
    let written = cut.with_value(p, value);
    net.lemma_port_disconnected(s, p);
    assert(!cut.listed(s, p));
    let sig = cut.signals[s as int];
    lemma_keep_live_same(cut, written, sig.inputs);
    lemma_keep_live_same(cut, written, sig.outputs);
    cut.lemma_keep_live(sig.inputs);
    cut.lemma_keep_live(sig.outputs);
    let drivers = cut.keep_live(sig.inputs);
    let loads = cut.keep_live(sig.outputs);
    assert(!drivers.contains(p) && !loads.contains(p));
    assert forall|k: int| 0 <= k < drivers.len() implies written.values(drivers)[k] == cut.values(
        drivers,
    )[k] by {
        assert(drivers.contains(drivers[k]));
        assert(drivers[k] != p);
    }
    assert(written.values(drivers) =~= cut.values(drivers));
    assert(written.wire_value(s) == cut.wire_value(s));
    assert(written.pruned(s).signals =~= cut.pruned(s).signals);
    assert forall|k: int| 0 <= k < loads.len() implies loads[k] != p by {
        assert(loads.contains(loads[k]));
    }
    assert(cut.signal_wf(s));
    assert forall|k: int| 0 <= k < loads.len() implies (#[trigger] loads[k]) < cut.ports.len()
        && written.ports[loads[k] as int] == cut.ports[loads[k] as int] by {
        assert(loads.contains(loads[k]));
        assert(cut.listed(s, loads[k]));
        assert(cut.points_back(s, loads[k]));
    }
    if cut.driven(s) {
        if cut.update_changes(s) {
            let k = choose|k: int|
                0 <= k < loads.len() && cut.ports[#[trigger] loads[k] as int].value
                    != cut.wire_value(s);
            assert(written.ports[loads[k] as int].value != written.wire_value(s));
        }
        if written.update_changes(s) {
            let k = choose|k: int|
                0 <= k < loads.len() && written.ports[#[trigger] loads[k] as int].value
                    != written.wire_value(s);
            assert(cut.ports[loads[k] as int].value != cut.wire_value(s));
        }
    }
}

impl<T: Resolve + Copy> Updateable for Signal<T> {
    type Value = T;

    open spec fn ports(&self) -> Set<usize> {
        Set::empty()
    }

    open spec fn signals(&self) -> Set<usize> {
        set![self.index()]
    }

    open spec fn step(&self, net: NetworkState<T>) -> NetworkState<T> {
        net.updated(self.index())
    }

    open spec fn changes(&self, net: NetworkState<T>) -> bool {
        net.update_changes(self.index())
    }

    fn is_ready(&self, net: &Network<T>) -> (r: bool) {
        assert(self.signals().contains(self.index()));
        self.is_valid(net)
    }

    fn update(&self, net: &mut Network<T>) -> (changed: bool) {
        assert(self.signals().contains(self.index()));
        Signal::update(self, net)
    }
}

} // verus!
