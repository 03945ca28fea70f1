//! The circuit: an ordered list of what is updated at every tick.

use vstd::prelude::*;
use crate::network::{Network, NetworkState};
use crate::{ready, Updateable};

verus! {

/// A list of signals and models that are updated together, in the order in
/// which they were added.
///
/// The order of the list need not be the order in which values flow. So one
/// tick may leave values behind that the next tick moves on: tick until a
/// tick reports no change. A circuit that oscillates never gets there; the
/// circuit does not notice, so the caller has to limit the number of ticks.
#[derive(Debug)]
pub struct Circuit<U: Updateable> {
    updater: Vec<U>,
}

impl<U: Updateable> View for Circuit<U> {
    type V = Seq<U>;

    /// What is updated, in the order of the updates.
    closed spec fn view(&self) -> Seq<U> {
        self.updater@
    }
}

/// Whether every member of the list is ready for its update.
pub open spec fn all_ready<U: Updateable>(updaters: Seq<U>, net: NetworkState<U::Value>) -> bool {
    forall|i: int|
        0 <= i < updaters.len() ==> ready((#[trigger] updaters[i]).ports(), updaters[i].signals(), net)
}

/// The network after every member of the list was updated once, in the
/// order of the list.
pub open spec fn run<U: Updateable>(updaters: Seq<U>, net: NetworkState<U::Value>) -> NetworkState<
    U::Value,
>
    decreases updaters.len(),
{
    if updaters.len() == 0 {
        net
    } else {
        updaters.last().step(run(updaters.drop_last(), net))
    }
}

/// Whether the update of some member of the list changes a value, each
/// member taken at its turn.
pub open spec fn any_change<U: Updateable>(updaters: Seq<U>, net: NetworkState<U::Value>) -> bool
    decreases updaters.len(),
{
    if updaters.len() == 0 {
        false
    } else {
        any_change(updaters.drop_last(), net) || updaters.last().changes(
            run(updaters.drop_last(), net),
        )
    }
}

/// Updates every member of the list once, in the order of the list, and
/// says whether any of them changed a value.
pub fn update_all<U: Updateable>(updaters: &Vec<U>, net: &mut Network<U::Value>) -> (changed: bool)
    requires
        old(net)@.consistent(),
        all_ready(updaters@, old(net)@),
    ensures
        final(net)@ == run(updaters@, old(net)@),
        changed == any_change(updaters@, old(net)@),
        final(net)@.consistent(),
        final(net)@.same_population(old(net)@),
{
    let mut changed = false;
    let mut i: usize = 0;
    while i < updaters.len()
        invariant
            i <= updaters.len(),
            net@ == run(updaters@.take(i as int), old(net)@),
            changed == any_change(updaters@.take(i as int), old(net)@),
            net@.consistent(),
            net@.same_population(old(net)@),
            all_ready(updaters@, old(net)@),
        decreases updaters.len() - i,
    {
        proof {
            let u = updaters@[i as int];
            assert(ready(u.ports(), u.signals(), old(net)@));
            assert(ready(u.ports(), u.signals(), net@));
            assert(updaters@.take(i + 1).drop_last() =~= updaters@.take(i as int));
        }
        let c = updaters[i].update(net);
        changed = changed || c;
        i = i + 1;
    }
    proof {
        assert(updaters@.take(i as int) =~= updaters@);
    }
    changed
}

impl<U: Updateable + Copy> Circuit<U> {
    /// A circuit that updates nothing.
    pub fn new() -> (circuit: Self)
        ensures
            circuit@ == Seq::<U>::empty(),
    {
        Circuit { updater: Vec::new() }
    }

    /// Adds a signal or a model at the end of the list.
    pub fn add_updater(&mut self, updater: &U)
        ensures
            final(self)@ == old(self)@.push(*updater),
    {
        self.updater.push(*updater);
    }

    /// Updates every member of the list once, in the order of the list, and
    /// says whether any of them changed a value.
    pub fn tick(&mut self, net: &mut Network<U::Value>) -> (changed: bool)
        requires
            old(net)@.consistent(),
            all_ready(old(self)@, old(net)@),
        ensures
            final(self)@ == old(self)@,
            final(net)@ == run(old(self)@, old(net)@),
            changed == any_change(old(self)@, old(net)@),
            final(net)@.consistent(),
            final(net)@.same_population(old(net)@),
    {
        update_all(&self.updater, net)
    }

    /// Whether every member of the list can be updated: whether the ports
    /// and signals of each are still around.
    pub fn is_ready(&self, net: &Network<U::Value>) -> (r: bool)
        ensures
            r == all_ready(self@, net@),
    {
        let mut i: usize = 0;
        while i < self.updater.len()
            invariant
                i <= self.updater.len(),
                all_ready(self.updater@.take(i as int), net@),
            decreases self.updater.len() - i,
        {
            if !self.updater[i].is_ready(net) {
                return false;
            }
            proof {
                assert forall|j: int| 0 <= j < i + 1 implies ready(
                    (#[trigger] self.updater@.take(i + 1)[j]).ports(),
                    self.updater@.take(i + 1)[j].signals(),
                    net@,
                ) by {
                    if j < i {
                        assert(self.updater@.take(i as int)[j] == self.updater@.take(i + 1)[j]);
                    }
                }
            }
            i = i + 1;
        }
        assert(self.updater@.take(i as int) =~= self.updater@);
        true
    }
}

} // verus!
