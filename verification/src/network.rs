//! The network: the place where the values of all ports and the connections
//! of all signals live.
//!
//! Ports and signals are handles into a network. A handle stays valid until
//! what it names is released; the network never reuses a name.

use vstd::prelude::*;
use crate::logicbit::Resolve;

verus! {

/// What a network holds of one port.
#[derive(Debug)]
#[verifier::ext_equal]
pub struct PortState<T> {
    /// The value of the port.
    pub value: T,
    /// Whether a handle to the port is still around.
    pub live: bool,
    /// The signal that the port is connected to, if any.
    pub link: Option<usize>,
}

/// What a network holds of one signal.
#[verifier::ext_equal]
pub struct SignalState {
    /// The ports that the signal reads: its drivers, in the order in which
    /// they were connected.
    pub inputs: Seq<usize>,
    /// The ports that the signal writes: its loads, in the order in which
    /// they were connected.
    pub outputs: Seq<usize>,
    /// Whether a handle to the signal is still around.
    pub live: bool,
}

/// The state of a network: its ports and its signals, each under the number
/// that its handles carry.
#[verifier::ext_equal]
pub struct NetworkState<T> {
    /// The ports by number.
    pub ports: Seq<PortState<T>>,
    /// The signals by number.
    pub signals: Seq<SignalState>,
}

#[derive(Debug)]
pub struct Wire {
    pub(crate) inputs: Vec<usize>,
    pub(crate) outputs: Vec<usize>,
    pub(crate) live: bool,
}

/// The owner of the values of ports and of the connections of signals.
#[derive(Debug)]
pub struct Network<T> {
    pub(crate) cells: Vec<PortState<T>>,
    pub(crate) wires: Vec<Wire>,
}

impl<T> View for Network<T> {
    type V = NetworkState<T>;

    open(crate) spec fn view(&self) -> NetworkState<T> {
        state_of(self.cells@, self.wires@)
    }
}

/// The state of a network with the given parts.
pub(crate) open spec fn state_of<T>(cells: Seq<PortState<T>>, wires: Seq<Wire>) -> NetworkState<T> {
    NetworkState {
        ports: cells,
        signals: Seq::new(
            wires.len(),
            |s: int|
                SignalState {
                    inputs: wires[s].inputs@,
                    outputs: wires[s].outputs@,
                    live: wires[s].live,
                },
        ),
    }
}

impl<T> NetworkState<T> {
    /// Whether `p` names a port that has not been released.
    pub open spec fn has_port(self, p: usize) -> bool {
        p < self.ports.len() && self.ports[p as int].live
    }

    /// Whether `s` names a signal that has not been released.
    pub open spec fn has_signal(self, s: usize) -> bool {
        s < self.signals.len() && self.signals[s as int].live
    }

    /// Whether signal `s` reads or writes port `p`.
    pub open spec fn listed(self, s: usize, p: usize) -> bool {
        self.signals[s as int].inputs.contains(p) || self.signals[s as int].outputs.contains(p)
    }

    /// Whether `p` is a port that points back at signal `s`.
    pub open spec fn points_back(self, s: usize, p: usize) -> bool {
        p < self.ports.len() && self.ports[p as int].link == Some(s)
    }

    /// The invariant of one signal: it reads no port twice and writes no
    /// port twice, no port is both read and written, every port it reads or
    /// writes points back at it, and a released signal reads and writes
    /// nothing.
    pub open spec fn signal_wf(self, s: usize) -> bool {
        let sig = self.signals[s as int];
        &&& sig.inputs.no_duplicates()
        &&& sig.outputs.no_duplicates()
        &&& forall|x: usize| #[trigger] sig.inputs.contains(x) ==> !sig.outputs.contains(x)
        &&& forall|x: usize| #[trigger] self.listed(s, x) ==> self.points_back(s, x)
        &&& !sig.live ==> sig.inputs.len() == 0 && sig.outputs.len() == 0
    }

    /// The invariant of one port: if it is around and connected, it points
    /// at a signal that is around and that reads or writes it.
    pub open spec fn port_wf(self, p: usize) -> bool {
        self.ports[p as int].live ==> match self.ports[p as int].link {
            Some(s) => self.has_signal(s) && self.listed(s, p),
            None => true,
        }
    }

    /// The invariant of a network: every port and every signal keeps its
    /// own. So a port is connected to one signal at most, and a signal
    /// knows the ports that are connected to it.
    pub open spec fn wf(self) -> bool {
        &&& forall|p: usize| p < self.ports.len() ==> #[trigger] self.port_wf(p)
        &&& forall|s: usize| s < self.signals.len() ==> #[trigger] self.signal_wf(s)
    }

    /// Whether the two networks have the same ports and signals around.
    /// Values and connections may differ.
    pub open spec fn same_population(self, other: Self) -> bool {
        &&& self.ports.len() == other.ports.len()
        &&& self.signals.len() == other.signals.len()
        &&& forall|p: usize| #[trigger] self.has_port(p) == other.has_port(p)
        &&& forall|s: usize| #[trigger] self.has_signal(s) == other.has_signal(s)
    }

    /// The network with one more port, of the given value and not connected.
    pub open spec fn with_port(self, value: T) -> Self {
        NetworkState {
            ports: self.ports.push(PortState { value, live: true, link: None }),
            signals: self.signals,
        }
    }

    /// The network with the value of port `p` replaced.
    pub open spec fn with_value(self, p: usize, value: T) -> Self {
        NetworkState {
            ports: self.ports.update(p as int, PortState { value, ..self.ports[p as int] }),
            signals: self.signals,
        }
    }

    /// The network after port `p` was released.
    pub open spec fn without_port(self, p: usize) -> Self {
        NetworkState {
            ports: self.ports.update(p as int, PortState { live: false, ..self.ports[p as int] }),
            signals: self.signals,
        }
    }

    /// The network with one more signal, which reads and writes nothing.
    pub open spec fn with_signal(self) -> Self {
        NetworkState {
            ports: self.ports,
            signals: self.signals.push(
                SignalState { inputs: Seq::empty(), outputs: Seq::empty(), live: true },
            ),
        }
    }

    /// The network after port `p` was connected to signal `s`, as one of
    /// its drivers or as one of its loads. The port comes last.
    pub open spec fn connected(self, s: usize, p: usize, drives: bool) -> Self {
        let sig = self.signals[s as int];
        NetworkState {
            ports: self.ports.update(p as int, PortState { link: Some(s), ..self.ports[p as int] }),
            signals: self.signals.update(
                s as int,
                if drives {
                    SignalState { inputs: sig.inputs.push(p), ..sig }
                } else {
                    SignalState { outputs: sig.outputs.push(p), ..sig }
                },
            ),
        }
    }

    /// The list without `p`, the others in their order.
    pub open spec fn without(list: Seq<usize>, p: usize) -> Seq<usize> {
        if list.contains(p) {
            list.remove(list.index_of(p))
        } else {
            list
        }
    }

    /// The network after port `p` was taken off signal `s`.
    pub open spec fn disconnected(self, s: usize, p: usize) -> Self {
        let sig = self.signals[s as int];
        NetworkState {
            ports: self.ports.update(p as int, PortState { link: None, ..self.ports[p as int] }),
            signals: self.signals.update(
                s as int,
                SignalState {
                    inputs: Self::without(sig.inputs, p),
                    outputs: Self::without(sig.outputs, p),
                    live: sig.live,
                },
            ),
        }
    }

    /// The network after signal `s` was released: it reads and writes
    /// nothing, and none of its ports points at it.
    pub open spec fn without_signal(self, s: usize) -> Self {
        NetworkState {
            ports: Seq::new(
                self.ports.len(),
                |p: int|
                    if self.listed(s, p as usize) {
                        PortState { link: None, ..self.ports[p] }
                    } else {
                        self.ports[p]
                    },
            ),
            signals: self.signals.update(
                s as int,
                SignalState { inputs: Seq::empty(), outputs: Seq::empty(), live: false },
            ),
        }
    }

    /// The ports of the list that are still around, in their order.
    pub open spec fn keep_live(self, list: Seq<usize>) -> Seq<usize>
        decreases list.len(),
    {
        if list.len() == 0 {
            Seq::empty()
        } else {
            let rest = self.keep_live(list.drop_last());
            if self.has_port(list.last()) {
                rest.push(list.last())
            } else {
                rest
            }
        }
    }

    /// The network after signal `s` forgot the ports that were released.
    pub open spec fn pruned(self, s: usize) -> Self {
        let sig = self.signals[s as int];
        NetworkState {
            ports: self.ports,
            signals: self.signals.update(
                s as int,
                SignalState {
                    inputs: self.keep_live(sig.inputs),
                    outputs: self.keep_live(sig.outputs),
                    live: sig.live,
                },
            ),
        }
    }

    /// The network after signal `s` forgot the ports that were released and
    /// every load left took `value`.
    pub open spec fn loads_written(self, s: usize, value: T) -> Self {
        let pruned = self.pruned(s);
        let loads = pruned.signals[s as int].outputs;
        NetworkState {
            ports: Seq::new(
                self.ports.len(),
                |p: int|
                    if loads.contains(p as usize) {
                        PortState { value, ..self.ports[p] }
                    } else {
                        self.ports[p]
                    },
            ),
            signals: pruned.signals,
        }
    }

    /// The values of the listed ports, in the order of the list.
    pub open spec fn values(self, list: Seq<usize>) -> Seq<T> {
        Seq::new(list.len(), |k: int| self.ports[list[k] as int].value)
    }

    /// Whether `after` has the ports and signals of this network with the
    /// same links, none of them back from release, and every signal reads
    /// and writes in `after` what it did before and what is still around.
    pub open spec fn narrowed_to(self, after: Self) -> bool {
        &&& after.ports.len() == self.ports.len()
        &&& after.signals.len() == self.signals.len()
        &&& forall|p: usize|
            p < self.ports.len() ==> (#[trigger] after.ports[p as int]).link
                == self.ports[p as int].link && (after.ports[p as int].live
                ==> self.ports[p as int].live)
        &&& forall|s: usize|
            s < self.signals.len() ==> {
                let a = #[trigger] after.signals[s as int];
                let b = self.signals[s as int];
                &&& a.live == b.live
                &&& a.inputs.no_duplicates()
                &&& a.outputs.no_duplicates()
                &&& forall|x: usize| #[trigger]
                    a.inputs.contains(x) ==> b.inputs.contains(x)
                &&& forall|x: usize| #[trigger]
                    a.outputs.contains(x) ==> b.outputs.contains(x)
                &&& forall|x: usize|
                    after.has_port(x) && #[trigger] b.inputs.contains(x) ==> a.inputs.contains(x)
                &&& forall|x: usize|
                    after.has_port(x) && #[trigger] b.outputs.contains(x) ==> a.outputs.contains(
                        x,
                    )
            }
    }

    /// A network narrowed from one that keeps the invariant keeps it.
    pub proof fn lemma_narrowed(self, after: Self)
        requires
            self.wf(),
            self.narrowed_to(after),
        ensures
            after.wf(),
    {
        assert forall|s: usize| s < after.signals.len() implies #[trigger] after.signal_wf(s) by {
            assert(self.signal_wf(s));
            let a = after.signals[s as int];
            let b = self.signals[s as int];
            assert forall|x: usize| #[trigger] a.inputs.contains(x) implies !a.outputs.contains(x) by {
                assert(b.inputs.contains(x));
            }
            assert forall|x: usize| #[trigger] after.listed(s, x) implies after.points_back(s, x) by {
                assert(self.listed(s, x));
                assert(self.points_back(s, x));
                assert(after.ports[x as int].link == self.ports[x as int].link);
            }
            if !a.live {
                if a.inputs.len() > 0 {
                    assert(a.inputs.contains(a.inputs[0]));
                }
                if a.outputs.len() > 0 {
                    assert(a.outputs.contains(a.outputs[0]));
                }
            }
        }
        assert forall|q: usize| q < after.ports.len() implies #[trigger] after.port_wf(q) by {
            assert(self.port_wf(q));
            assert(after.ports[q as int].link == self.ports[q as int].link);
            if after.ports[q as int].live {
                if let Some(t) = after.ports[q as int].link {
                    assert(after.signals[t as int].live == self.signals[t as int].live);
                    assert(after.has_port(q));
                }
            }
        }
    }

    /// A new port keeps the invariant of the network.
    pub proof fn lemma_port_added(self, value: T)
        requires
            self.wf(),
        ensures
            self.with_port(value).wf(),
    {
        let after = self.with_port(value);
        assert forall|s: usize| s < after.signals.len() implies #[trigger] after.signal_wf(s) by {
            assert(self.signal_wf(s));
            assert forall|x: usize| #[trigger] after.listed(s, x) implies after.points_back(s, x) by {
                assert(self.listed(s, x));
                assert(self.points_back(s, x));
            }
        }
        assert forall|q: usize| q < after.ports.len() implies #[trigger] after.port_wf(q) by {
            if q < self.ports.len() {
                assert(self.port_wf(q));
            }
        }
    }

    /// A new value in a port keeps the invariant of the network.
    pub proof fn lemma_value_replaced(self, p: usize, value: T)
        requires
            self.wf(),
            p < self.ports.len(),
        ensures
            self.with_value(p, value).wf(),
            self.with_value(p, value).same_population(self),
    {
        let after = self.with_value(p, value);
        assert(self.narrowed_to(after)) by {
            assert forall|s: usize| s < self.signals.len() implies after.signals[s as int].inputs.no_duplicates()
                && after.signals[s as int].outputs.no_duplicates() by {
                assert(self.signal_wf(s));
            }
        }
        self.lemma_narrowed(after);
    }

    /// Releasing a port keeps the invariant of the network.
    pub proof fn lemma_port_released(self, p: usize)
        requires
            self.wf(),
            p < self.ports.len(),
        ensures
            self.without_port(p).wf(),
    {
        let after = self.without_port(p);
        assert(self.narrowed_to(after)) by {
            assert forall|s: usize| s < self.signals.len() implies after.signals[s as int].inputs.no_duplicates()
                && after.signals[s as int].outputs.no_duplicates() by {
                assert(self.signal_wf(s));
            }
        }
        self.lemma_narrowed(after);
    }

    /// A new signal keeps the invariant of the network.
    pub proof fn lemma_signal_added(self)
        requires
            self.wf(),
        ensures
            self.with_signal().wf(),
    {
        let after = self.with_signal();
        assert forall|s: usize| s < after.signals.len() implies #[trigger] after.signal_wf(s) by {
            if s < self.signals.len() {
                assert(self.signal_wf(s));
                assert forall|x: usize| #[trigger] after.listed(s, x) implies after.points_back(
                    s,
                    x,
                ) by {
                    assert(self.listed(s, x));
                    assert(self.points_back(s, x));
                }
            }
        }
        assert forall|q: usize| q < after.ports.len() implies #[trigger] after.port_wf(q) by {
            assert(self.port_wf(q));
        }
    }

    /// A port that is not connected is read and written by no signal.
    pub proof fn lemma_unlinked_unlisted(self, p: usize)
        requires
            self.wf(),
            p < self.ports.len(),
            self.ports[p as int].link is None,
        ensures
            forall|t: usize| t < self.signals.len() ==> !#[trigger] self.listed(t, p),
    {
        assert forall|t: usize| t < self.signals.len() implies !#[trigger] self.listed(t, p) by {
            assert(self.signal_wf(t));
            if self.listed(t, p) {
                assert(self.points_back(t, p));
            }
        }
    }

    /// What a signal reads and writes after `p` was connected to `s`.
    pub proof fn lemma_connected_lists(self, s: usize, p: usize, drives: bool)
        requires
            s < self.signals.len(),
        ensures
            forall|x: usize| #[trigger]
                self.connected(s, p, drives).signals[s as int].inputs.contains(x) <==> (
                self.signals[s as int].inputs.contains(x) || (drives && x == p)),
            forall|x: usize| #[trigger]
                self.connected(s, p, drives).signals[s as int].outputs.contains(x) <==> (
                self.signals[s as int].outputs.contains(x) || (!drives && x == p)),
    {
        let after = self.connected(s, p, drives);
        let (a, b) = (after.signals[s as int], self.signals[s as int]);
        assert forall|x: usize| #[trigger]
            a.inputs.contains(x) <==> (b.inputs.contains(x) || (drives && x == p)) by {
            if drives {
                Self::lemma_push_contains(b.inputs, p, x);
            }
        }
        assert forall|x: usize| #[trigger]
            a.outputs.contains(x) <==> (b.outputs.contains(x) || (!drives && x == p)) by {
            if !drives {
                Self::lemma_push_contains(b.outputs, p, x);
            }
        }
    }

    /// What a list holds after one more was pushed.
    pub proof fn lemma_push_contains(list: Seq<usize>, p: usize, x: usize)
        ensures
            list.push(p).contains(x) <==> (list.contains(x) || x == p),
            list.no_duplicates() && !list.contains(p) ==> list.push(p).no_duplicates(),
    {
        let more = list.push(p);
        if list.contains(x) {
            let k = choose|k: int| 0 <= k < list.len() && list[k] == x;
            assert(more[k] == x);
        }
        assert(more[more.len() - 1] == p);
        if more.contains(x) {
            let k = choose|k: int| 0 <= k < more.len() && more[k] == x;
            if k < list.len() {
                assert(list[k] == x);
            }
        }
        if list.no_duplicates() && !list.contains(p) {
            assert forall|i: int, j: int|
                0 <= i < more.len() && 0 <= j < more.len() && i != j implies more[i] != more[j] by {
                if i < list.len() {
                    assert(list.contains(list[i]));
                }
                if j < list.len() {
                    assert(list.contains(list[j]));
                }
            }
        }
    }

    /// Connecting a port that is not connected keeps the invariant of the
    /// network.
    pub proof fn lemma_port_connected(self, s: usize, p: usize, drives: bool)
        requires
            self.wf(),
            self.has_signal(s),
            self.has_port(p),
            self.ports[p as int].link is None,
        ensures
            self.connected(s, p, drives).wf(),
            self.connected(s, p, drives).same_population(self),
            forall|t: usize, x: usize|
                t < self.signals.len() ==> (#[trigger] self.connected(s, p, drives).listed(t, x)
                    <==> (self.listed(t, x) || (t == s && x == p))),
    {
        let after = self.connected(s, p, drives);
        self.lemma_unlinked_unlisted(p);
        self.lemma_connected_lists(s, p, drives);
        assert(!self.listed(s, p));
        assert forall|t: usize, x: usize| t < self.signals.len() implies (#[trigger] after.listed(
            t,
            x,
        ) <==> (self.listed(t, x) || (t == s && x == p))) by {
        }
        assert forall|t: usize| t < after.signals.len() implies #[trigger] after.signal_wf(t) by {
            assert(self.signal_wf(t));
            let (a, b) = (after.signals[t as int], self.signals[t as int]);
            if t == s {
                Self::lemma_push_contains(b.inputs, p, p);
                Self::lemma_push_contains(b.outputs, p, p);
            }
            assert forall|x: usize| #[trigger] a.inputs.contains(x) implies !a.outputs.contains(x) by {
                if x != p {
                    assert(b.inputs.contains(x));
                }
            }
            assert forall|x: usize| #[trigger] after.listed(t, x) implies after.points_back(t, x) by {
                if !(t == s && x == p) {
                    assert(self.listed(t, x));
                    assert(self.points_back(t, x));
                    assert(!self.listed(t, p));
                }
            }
        }
        assert forall|q: usize| q < after.ports.len() implies #[trigger] after.port_wf(q) by {
            assert(self.port_wf(q));
        }
    }

    /// Taking a port off the signal it points at keeps the invariant of the
    /// network.
    pub proof fn lemma_port_disconnected(self, s: usize, p: usize)
        requires
            self.wf(),
            s < self.signals.len(),
            p < self.ports.len(),
            self.ports[p as int].link == Some(s),
        ensures
            self.disconnected(s, p).wf(),
            self.disconnected(s, p).same_population(self),
            forall|t: usize, x: usize|
                t < self.signals.len() ==> (#[trigger] self.disconnected(s, p).listed(t, x) <==> (
                self.listed(t, x) && !(t == s && x == p))),
    {
        let after = self.disconnected(s, p);
        assert(self.signal_wf(s));
        Self::lemma_without(self.signals[s as int].inputs, p);
        Self::lemma_without(self.signals[s as int].outputs, p);
        assert forall|t: usize| t < self.signals.len() && t != s implies !#[trigger] self.listed(
            t,
            p,
        ) by {
            assert(self.signal_wf(t));
            if self.listed(t, p) {
                assert(self.points_back(t, p));
            }
        }
        assert forall|t: usize, x: usize| t < self.signals.len() implies (#[trigger] after.listed(
            t,
            x,
        ) <==> (self.listed(t, x) && !(t == s && x == p))) by {
        }
        assert forall|t: usize| t < after.signals.len() implies #[trigger] after.signal_wf(t) by {
            assert(self.signal_wf(t));
            let (a, b) = (after.signals[t as int], self.signals[t as int]);
            assert forall|x: usize| #[trigger] a.inputs.contains(x) implies !a.outputs.contains(x) by {
                assert(b.inputs.contains(x));
            }
            assert forall|x: usize| #[trigger] after.listed(t, x) implies after.points_back(t, x) by {
                assert(self.listed(t, x));
                assert(self.points_back(t, x));
            }
            if !a.live {
                assert(b.inputs.len() == 0 && b.outputs.len() == 0);
            }
        }
        assert forall|q: usize| q < after.ports.len() implies #[trigger] after.port_wf(q) by {
            assert(self.port_wf(q));
        }
    }

    /// Forgetting the released ports of a signal, and writing a value to
    /// the loads that are left, keep the invariant of the network.
    pub proof fn lemma_signal_pruned(self, s: usize, value: T)
        requires
            self.wf(),
            s < self.signals.len(),
        ensures
            self.pruned(s).wf(),
            self.pruned(s).same_population(self),
            self.narrowed_to(self.pruned(s)),
            self.loads_written(s, value).wf(),
            self.loads_written(s, value).same_population(self),
            self.narrowed_to(self.loads_written(s, value)),
    {
        let sig = self.signals[s as int];
        self.lemma_keep_live(sig.inputs);
        self.lemma_keep_live(sig.outputs);
        assert forall|t: usize| t < self.signals.len() implies self.signals[t as int].inputs.no_duplicates()
            && self.signals[t as int].outputs.no_duplicates() by {
            assert(self.signal_wf(t));
        }
        assert(self.narrowed_to(self.pruned(s)));
        assert(self.narrowed_to(self.loads_written(s, value)));
        self.lemma_narrowed(self.pruned(s));
        self.lemma_narrowed(self.loads_written(s, value));
    }

    /// What `without` leaves: the other ports of the list, none of them
    /// twice if none was listed twice.
    pub proof fn lemma_without(list: Seq<usize>, p: usize)
        requires
            list.no_duplicates(),
        ensures
            Self::without(list, p).no_duplicates(),
            forall|x: usize| #[trigger]
                Self::without(list, p).contains(x) <==> list.contains(x) && x != p,
    {
        let rest = Self::without(list, p);
        if list.contains(p) {
            let k = list.index_of(p);
            assert(0 <= k < list.len() && list[k] == p);
            assert forall|x: usize| #[trigger] rest.contains(x) <==> list.contains(x) && x != p by {
                if rest.contains(x) {
                    let j = choose|j: int| 0 <= j < rest.len() && rest[j] == x;
                    if j < k {
                        assert(list[j] == x);
                    } else {
                        assert(list[j + 1] == x);
                    }
                }
                if list.contains(x) && x != p {
                    let j = choose|j: int| 0 <= j < list.len() && list[j] == x;
                    if j < k {
                        assert(rest[j] == x);
                    } else {
                        assert(rest[j - 1] == x);
                    }
                }
            }
            assert forall|i: int, j: int| 0 <= i < rest.len() && 0 <= j < rest.len() && i != j implies rest[i] != rest[j] by {
                let a = if i < k {
                    i
                } else {
                    i + 1
                };
                let b = if j < k {
                    j
                } else {
                    j + 1
                };
                assert(rest[i] == list[a] && rest[j] == list[b]);
            }
        }
    }

    /// What `keep_live` keeps: exactly the ports of the list that are still
    /// around, none of them twice if none was listed twice.
    pub proof fn lemma_keep_live(self, list: Seq<usize>)
        ensures
            forall|x: usize| #[trigger]
                self.keep_live(list).contains(x) <==> list.contains(x) && self.has_port(x),
            list.no_duplicates() ==> self.keep_live(list).no_duplicates(),
            self.keep_live(list).len() <= list.len(),
        decreases list.len(),
    {
        if list.len() > 0 {
            let front = list.drop_last();
            let last = list.last();
            self.lemma_keep_live(front);
            let rest = self.keep_live(front);
            assert forall|x: usize| #[trigger]
                self.keep_live(list).contains(x) <==> list.contains(x) && self.has_port(x) by {
                if list.contains(x) {
                    let k = choose|k: int| 0 <= k < list.len() && list[k] == x;
                    if k < list.len() - 1 {
                        assert(front[k] == x);
                    }
                }
                if front.contains(x) {
                    let k = choose|k: int| 0 <= k < front.len() && front[k] == x;
                    assert(list[k] == x);
                }
                assert(list[list.len() - 1] == last);
                if self.has_port(last) {
                    let kept = rest.push(last);
                    if rest.contains(x) {
                        let k = choose|k: int| 0 <= k < rest.len() && rest[k] == x;
                        assert(kept[k] == x);
                    }
                    assert(kept[kept.len() - 1] == last);
                }
            }
            if list.no_duplicates() {
                assert(front.no_duplicates());
                if self.has_port(last) {
                    if rest.contains(last) {
                        let k = choose|k: int| 0 <= k < front.len() && front[k] == last;
                        assert(list[k] == list[list.len() - 1]);
                    }
                    assert(rest.push(last).no_duplicates());
                }
            }
        }
    }

    /// Of a list where nothing was released, `keep_live` makes the list.
    pub proof fn lemma_keep_all(self, list: Seq<usize>)
        requires
            forall|k: int| 0 <= k < list.len() ==> self.has_port(#[trigger] list[k]),
        ensures
            self.keep_live(list) == list,
        decreases list.len(),
    {
        if list.len() > 0 {
            self.lemma_keep_all(list.drop_last());
            assert(list.drop_last().push(list.last()) =~= list);
        }
    }
}

impl<T: Resolve> NetworkState<T> {
    /// Whether all ports of signal `s` that are still around hold values of
    /// one width.
    pub open spec fn agreeing(self, s: usize) -> bool {
        forall|p: usize, q: usize|
            #![trigger self.listed(s, p), self.listed(s, q)]
            self.listed(s, p) && self.has_port(p) && self.listed(s, q) && self.has_port(q)
                ==> self.ports[p as int].value.wire_width()
                == self.ports[q as int].value.wire_width()
    }

    /// The invariant of a network whose values resolve: the network keeps
    /// its invariant, and the ports of every signal agree in width.
    pub open spec fn consistent(self) -> bool {
        &&& self.wf()
        &&& forall|s: usize| s < self.signals.len() ==> #[trigger] self.agreeing(s)
    }

    /// Whether the value of port `p` differs in width from the value of a
    /// port of signal `s` that is still around.
    pub open spec fn mismatch(self, s: usize, p: usize) -> bool {
        exists|q: usize| #[trigger]
            self.listed(s, q) && self.has_port(q) && self.ports[q as int].value.wire_width()
                != self.ports[p as int].value.wire_width()
    }

    /// The value that a list of drivers resolves to: the first driver
    /// resolved with the second, the result with the third, and so on.
    pub open spec fn resolve_all(values: Seq<T>) -> T
        decreases values.len(),
    {
        if values.len() <= 1 {
            values[0]
        } else {
            Self::resolve_all(values.drop_last()).resolution(&values.last())
        }
    }

    /// Whether signal `s` has a driver that is still around.
    pub open spec fn driven(self, s: usize) -> bool {
        self.keep_live(self.signals[s as int].inputs).len() > 0
    }

    /// The value on signal `s`: what its drivers that are still around
    /// resolve to.
    pub open spec fn wire_value(self, s: usize) -> T {
        Self::resolve_all(self.values(self.keep_live(self.signals[s as int].inputs)))
    }

    /// The network after an update of signal `s`. The signal forgets the
    /// ports that were released; if a driver is left, every load takes the
    /// value on the signal.
    pub open spec fn updated(self, s: usize) -> Self {
        if !self.driven(s) {
            self.pruned(s)
        } else {
            self.loads_written(s, self.wire_value(s))
        }
    }

    /// Whether an update of signal `s` changes the value of a load.
    pub open spec fn update_changes(self, s: usize) -> bool {
        let loads = self.keep_live(self.signals[s as int].outputs);
        self.driven(s) && exists|k: int|
            0 <= k < loads.len() && self.ports[#[trigger] loads[k] as int].value != self.wire_value(s)
    }

    /// A network narrowed from a consistent one, whose ports kept their
    /// widths where they are connected, is consistent.
    pub proof fn lemma_narrowed_consistent(self, after: Self)
        requires
            self.consistent(),
            self.narrowed_to(after),
            forall|p: usize|
                p < self.ports.len() && self.ports[p as int].link is Some ==> (
                #[trigger] after.ports[p as int]).value.wire_width()
                    == self.ports[p as int].value.wire_width(),
        ensures
            after.consistent(),
    {
        self.lemma_narrowed(after);
        assert forall|s: usize| s < after.signals.len() implies #[trigger] after.agreeing(s) by {
            assert(self.agreeing(s));
            assert(self.signal_wf(s));
            assert forall|p: usize, q: usize|
                #![trigger after.listed(s, p), after.listed(s, q)]
                after.listed(s, p) && after.has_port(p) && after.listed(s, q) && after.has_port(
                    q,
                ) implies after.ports[p as int].value.wire_width()
                == after.ports[q as int].value.wire_width() by {
                assert(self.listed(s, p) && self.listed(s, q));
                assert(self.points_back(s, p) && self.points_back(s, q));
                assert(after.ports[p as int].link == self.ports[p as int].link);
                assert(after.ports[q as int].link == self.ports[q as int].link);
            }
        }
    }

    /// A new port keeps a network consistent.
    pub proof fn lemma_with_port(self, value: T)
        requires
            self.consistent(),
        ensures
            self.with_port(value).consistent(),
    {
        let after = self.with_port(value);
        self.lemma_port_added(value);
        assert forall|s: usize| s < after.signals.len() implies #[trigger] after.agreeing(s) by {
            assert(self.agreeing(s));
            assert(self.signal_wf(s));
            assert forall|p: usize, q: usize|
                #![trigger after.listed(s, p), after.listed(s, q)]
                after.listed(s, p) && after.has_port(p) && after.listed(s, q) && after.has_port(
                    q,
                ) implies after.ports[p as int].value.wire_width()
                == after.ports[q as int].value.wire_width() by {
                assert(self.listed(s, p) && self.listed(s, q));
                assert(self.points_back(s, p) && self.points_back(s, q));
            }
        }
    }

    /// A new signal keeps a network consistent.
    pub proof fn lemma_with_signal(self)
        requires
            self.consistent(),
        ensures
            self.with_signal().consistent(),
    {
        let after = self.with_signal();
        self.lemma_signal_added();
        assert forall|s: usize| s < after.signals.len() implies #[trigger] after.agreeing(s) by {
            if s < self.signals.len() {
                assert(self.agreeing(s));
                assert forall|p: usize, q: usize|
                    #![trigger after.listed(s, p), after.listed(s, q)]
                    after.listed(s, p) && after.has_port(p) && after.listed(s, q)
                        && after.has_port(q) implies after.ports[p as int].value.wire_width()
                    == after.ports[q as int].value.wire_width() by {
                    assert(self.listed(s, p) && self.listed(s, q));
                }
            }
        }
    }

    /// A value of the same width in a port keeps a network consistent. So
    /// does any value in a port that is not connected.
    pub proof fn lemma_with_value(self, p: usize, value: T)
        requires
            self.consistent(),
            p < self.ports.len(),
            value.wire_width() == self.ports[p as int].value.wire_width()
                || self.ports[p as int].link is None,
        ensures
            self.with_value(p, value).consistent(),
            self.with_value(p, value).same_population(self),
    {
        let after = self.with_value(p, value);
        self.lemma_value_replaced(p, value);
        assert(self.narrowed_to(after)) by {
            assert forall|s: usize| s < self.signals.len() implies after.signals[s as int].inputs.no_duplicates()
                && after.signals[s as int].outputs.no_duplicates() by {
                assert(self.signal_wf(s));
            }
        }
        self.lemma_narrowed_consistent(after);
    }

    /// Connecting a port that is not connected, and whose value has the
    /// width of the signal, keeps a network consistent.
    pub proof fn lemma_connected(self, s: usize, p: usize, drives: bool)
        requires
            self.consistent(),
            self.has_signal(s),
            self.has_port(p),
            self.ports[p as int].link is None,
            !self.mismatch(s, p),
        ensures
            self.connected(s, p, drives).consistent(),
            self.connected(s, p, drives).same_population(self),
    {
        let after = self.connected(s, p, drives);
        self.lemma_port_connected(s, p, drives);
        assert forall|t: usize| t < after.signals.len() implies #[trigger] after.agreeing(t) by {
            assert(self.agreeing(t));
            assert forall|x: usize, y: usize|
                #![trigger after.listed(t, x), after.listed(t, y)]
                after.listed(t, x) && after.has_port(x) && after.listed(t, y) && after.has_port(
                    y,
                ) implies after.ports[x as int].value.wire_width()
                == after.ports[y as int].value.wire_width() by {
                if x != p {
                    assert(self.listed(t, x));
                }
                if y != p {
                    assert(self.listed(t, y));
                }
            }
        }
    }

    /// Taking a port off the signal it points at keeps a network
    /// consistent.
    pub proof fn lemma_disconnected(self, s: usize, p: usize)
        requires
            self.consistent(),
            s < self.signals.len(),
            p < self.ports.len(),
            self.ports[p as int].link == Some(s),
        ensures
            self.disconnected(s, p).consistent(),
            self.disconnected(s, p).same_population(self),
    {
        let after = self.disconnected(s, p);
        self.lemma_port_disconnected(s, p);
        assert forall|t: usize| t < after.signals.len() implies #[trigger] after.agreeing(t) by {
            assert(self.agreeing(t));
            assert forall|x: usize, y: usize|
                #![trigger after.listed(t, x), after.listed(t, y)]
                after.listed(t, x) && after.has_port(x) && after.listed(t, y) && after.has_port(
                    y,
                ) implies after.ports[x as int].value.wire_width()
                == after.ports[y as int].value.wire_width() by {
                assert(self.listed(t, x) && self.listed(t, y));
            }
        }
    }

    /// Releasing a signal keeps a network consistent.
    pub proof fn lemma_without_signal(self, s: usize)
        requires
            self.consistent(),
            s < self.signals.len(),
        ensures
            self.without_signal(s).consistent(),
    {
        let after = self.without_signal(s);
        assert(self.signal_wf(s));
        assert forall|x: usize| !#[trigger] after.listed(s, x) by {
            assert(after.signals[s as int].inputs.len() == 0);
            assert(after.signals[s as int].outputs.len() == 0);
        }
        assert forall|t: usize| t < after.signals.len() implies #[trigger] after.agreeing(t) by {
            assert(self.signal_wf(t));
            assert(self.agreeing(t));
            if t != s {
                assert(after.signals[t as int] == self.signals[t as int]);
                assert forall|x: usize, y: usize|
                    #![trigger after.listed(t, x), after.listed(t, y)]
                    after.listed(t, x) && after.has_port(x) && after.listed(t, y)
                        && after.has_port(y) implies after.ports[x as int].value.wire_width()
                    == after.ports[y as int].value.wire_width() by {
                    assert(self.listed(t, x) && self.listed(t, y));
                    assert(self.points_back(t, x) && self.points_back(t, y));
                }
            }
        }
        assert forall|t: usize| t < after.signals.len() implies #[trigger] after.signal_wf(t) by {
            assert(self.signal_wf(t));
            assert(self.agreeing(t));
            if t != s {
                assert(after.signals[t as int] == self.signals[t as int]);
                assert forall|x: usize| #[trigger] after.listed(t, x) implies after.points_back(
                    t,
                    x,
                ) by {
                    assert(self.listed(t, x));
                    assert(self.points_back(t, x));
                    if self.listed(s, x) {
                        assert(self.points_back(s, x));
                    }
                    assert(after.ports[x as int] == self.ports[x as int]);
                }
                assert forall|x: usize, y: usize|
                    #![trigger after.listed(t, x), after.listed(t, y)]
                    after.listed(t, x) && after.has_port(x) && after.listed(t, y)
                        && after.has_port(y) implies after.ports[x as int].value.wire_width()
                    == after.ports[y as int].value.wire_width() by {
                    assert(self.listed(t, x) && self.listed(t, y));
                    assert(self.points_back(t, x) && self.points_back(t, y));
                }
            }
        }
        assert forall|q: usize| q < after.ports.len() implies #[trigger] after.port_wf(q) by {
            assert(self.port_wf(q));
            assert(after.ports[q as int] == if self.listed(s, q) {
                PortState { link: None, ..self.ports[q as int] }
            } else {
                self.ports[q as int]
            });
            if after.ports[q as int].live {
                if let Some(t) = after.ports[q as int].link {
                    assert(self.ports[q as int].link == Some(t));
                    assert(self.listed(t, q));
                    assert(t != s);
                    assert(after.signals[t as int] == self.signals[t as int]);
                    assert(after.listed(t, q));
                }
            }
        }
    }

    /// Writing a value of the agreed width to the loads of a signal, after
    /// the signal forgot the ports that were released, keeps a network
    /// consistent. So does the forgetting alone.
    pub proof fn lemma_loads_written(self, s: usize, value: T)
        requires
            self.consistent(),
            s < self.signals.len(),
            forall|q: usize|
                self.listed(s, q) && self.has_port(q) ==> self.ports[q as int].value.wire_width()
                    == value.wire_width(),
        ensures
            self.loads_written(s, value).consistent(),
            self.loads_written(s, value).same_population(self),
            self.pruned(s).consistent(),
            self.pruned(s).same_population(self),
    {
        self.lemma_signal_pruned(s, value);
        self.lemma_narrowed_consistent(self.pruned(s));
        let written = self.loads_written(s, value);
        self.lemma_keep_live(self.signals[s as int].outputs);
        assert forall|t: usize| t < written.signals.len() implies #[trigger] written.agreeing(t) by {
            assert(self.agreeing(t));
            assert(self.signal_wf(t));
            assert(self.signal_wf(s));
            let loads = self.keep_live(self.signals[s as int].outputs);
            assert forall|x: usize, y: usize|
                #![trigger written.listed(t, x), written.listed(t, y)]
                written.listed(t, x) && written.has_port(x) && written.listed(t, y)
                    && written.has_port(y) implies written.ports[x as int].value.wire_width()
                == written.ports[y as int].value.wire_width() by {
                assert(self.listed(t, x) && self.listed(t, y));
                assert(self.points_back(t, x) && self.points_back(t, y));
                if loads.contains(x) {
                    assert(self.listed(s, x));
                    assert(self.points_back(s, x));
                }
                if loads.contains(y) {
                    assert(self.listed(s, y));
                    assert(self.points_back(s, y));
                }
            }
        }
    }
}

impl<T> Network<T> {
    #[verifier::type_invariant]
    spec fn inv(self) -> bool {
        self@.wf()
    }

    /// A network without ports and signals.
    pub fn new() -> (net: Self)
        ensures
            net@.ports.len() == 0,
            net@.signals.len() == 0,
            net@.wf(),
    {
        Network { cells: Vec::new(), wires: Vec::new() }
    }

    /// The network put together from its parts.
    pub(crate) fn put(&mut self, cells: Vec<PortState<T>>, wires: Vec<Wire>)
        requires
            state_of(cells@, wires@).wf(),
        ensures
            final(self)@ == state_of(cells@, wires@),
    {
        *self = Network { cells, wires };
    }

    /// Takes the network apart and leaves one without ports and signals.
    pub(crate) fn take(&mut self) -> (parts: (Vec<PortState<T>>, Vec<Wire>))
        ensures
            state_of(parts.0@, parts.1@) == old(self)@,
            old(self)@.wf(),
    {
        proof {
            use_type_invariant(&*self);
        }
        let mut taken = Network { cells: Vec::new(), wires: Vec::new() };
        core::mem::swap(self, &mut taken);
        let Network { cells, wires } = taken;
        (cells, wires)
    }

    /// Does nothing when it runs. It tells a caller that the invariant
    /// holds, as it does of every network.
    pub fn check(&self)
        ensures
            self@.wf(),
    {
        proof {
            use_type_invariant(self);
        }
    }

    /// How many ports the network has ever held.
    pub fn port_count(&self) -> (n: usize)
        ensures
            n == self@.ports.len(),
    {
        self.cells.len()
    }

    /// How many signals the network has ever held.
    pub fn signal_count(&self) -> (n: usize)
        ensures
            n == self@.signals.len(),
    {
        self.wires.len()
    }
}

} // verus!
