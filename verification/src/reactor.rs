//! The reactor: a circuit that does not say what changed.

use vstd::prelude::*;
use crate::circuit::{all_ready, run, update_all};
use crate::network::Network;
use crate::Updateable;

verus! {

/// A list of signals and models that are updated together, in the order in
/// which they were added.
#[derive(Debug)]
pub struct Reactor<U: Updateable> {
    updater: Vec<U>,
}

impl<U: Updateable> View for Reactor<U> {
    type V = Seq<U>;

    /// What is updated, in the order of the updates.
    closed spec fn view(&self) -> Seq<U> {
        self.updater@
    }
}

impl<U: Updateable + Copy> Reactor<U> {
    /// A reactor that updates nothing.
    pub fn new() -> (reactor: Self)
        ensures
            reactor@ == Seq::<U>::empty(),
    {
        Reactor { updater: Vec::new() }
    }

    /// Updates every member of the list once, in the order of the list.
    pub fn tick(&mut self, net: &mut Network<U::Value>)
        requires
            old(net)@.consistent(),
            all_ready(old(self)@, old(net)@),
        ensures
            final(self)@ == old(self)@,
            final(net)@ == run(old(self)@, old(net)@),
            final(net)@.consistent(),
            final(net)@.same_population(old(net)@),
    {
        let _ = update_all(&self.updater, net);
    }

    /// Adds a signal or a model at the end of the list.
    pub fn add_updater(&mut self, updater: &U)
        ensures
            final(self)@ == old(self)@.push(*updater),
    {
        self.updater.push(*updater);
    }
}

} // verus!
