//! Logic gates on nine-valued scalars.

use vstd::prelude::*;
use crate::dump::IterPorts;
use crate::logicbit::ieee1164;
use crate::logicbit::ieee1164::Ieee1164;
use crate::logicbit::tvlogic::Ieee1164Value;
use crate::network::{Network, NetworkState};
use crate::port::portdirection::{Input, Output};
use crate::port::pport::Port;
use crate::Updateable;

pub mod mux;
pub mod tri;

pub use self::mux::Mux;
pub use self::tri::TriBuffer;

verus! {

/// Creates the ports of a model with one input: the input and the output,
/// both uninitialized and not connected.
pub fn one_input(net: &mut Network<Ieee1164>) -> (ports: (Port<Ieee1164, Input>, Port<Ieee1164, Output>))
    requires
        old(net)@.consistent(),
    ensures
        final(net)@ == old(net)@.with_port(Ieee1164::_U()).with_port(Ieee1164::_U()),
        final(net)@.consistent(),
        ports.0.index() == old(net)@.ports.len(),
        ports.1.index() == old(net)@.ports.len() + 1,
{
    let ghost before = net@;
    let p0 = Port::new(net, Ieee1164::_U());
    let p1 = Port::new(net, Ieee1164::_U());
    proof {
        before.lemma_with_port(Ieee1164::_U());
        let s1 = before.with_port(Ieee1164::_U());
        s1.lemma_with_port(Ieee1164::_U());
    }
    (p0, p1)
}

/// Creates the ports of a model with two inputs: the inputs and the output,
/// all uninitialized and not connected.
pub fn two_inputs(net: &mut Network<Ieee1164>) -> (ports: (Port<Ieee1164, Input>, Port<Ieee1164, Input>, Port<Ieee1164, Output>))
    requires
        old(net)@.consistent(),
    ensures
        final(net)@ == old(net)@.with_port(Ieee1164::_U()).with_port(Ieee1164::_U()).with_port(Ieee1164::_U()),
        final(net)@.consistent(),
        ports.0.index() == old(net)@.ports.len(),
        ports.1.index() == old(net)@.ports.len() + 1,
        ports.2.index() == old(net)@.ports.len() + 2,
{
    let ghost before = net@;
    let p0 = Port::new(net, Ieee1164::_U());
    let p1 = Port::new(net, Ieee1164::_U());
    let p2 = Port::new(net, Ieee1164::_U());
    proof {
        before.lemma_with_port(Ieee1164::_U());
        let s1 = before.with_port(Ieee1164::_U());
        s1.lemma_with_port(Ieee1164::_U());
        let s2 = s1.with_port(Ieee1164::_U());
        s2.lemma_with_port(Ieee1164::_U());
    }
    (p0, p1, p2)
}

/// Creates the ports of a model with three inputs: the inputs and the
/// output, all uninitialized and not connected.
pub fn three_inputs(net: &mut Network<Ieee1164>) -> (ports: (Port<Ieee1164, Input>, Port<Ieee1164, Input>, Port<Ieee1164, Input>, Port<Ieee1164, Output>))
    requires
        old(net)@.consistent(),
    ensures
        final(net)@ == old(net)@.with_port(Ieee1164::_U()).with_port(Ieee1164::_U()).with_port(Ieee1164::_U()).with_port(Ieee1164::_U()),
        final(net)@.consistent(),
        ports.0.index() == old(net)@.ports.len(),
        ports.1.index() == old(net)@.ports.len() + 1,
        ports.2.index() == old(net)@.ports.len() + 2,
        ports.3.index() == old(net)@.ports.len() + 3,
{
    let ghost before = net@;
    let p0 = Port::new(net, Ieee1164::_U());
    let p1 = Port::new(net, Ieee1164::_U());
    let p2 = Port::new(net, Ieee1164::_U());
    let p3 = Port::new(net, Ieee1164::_U());
    proof {
        before.lemma_with_port(Ieee1164::_U());
        let s1 = before.with_port(Ieee1164::_U());
        s1.lemma_with_port(Ieee1164::_U());
        let s2 = s1.with_port(Ieee1164::_U());
        s2.lemma_with_port(Ieee1164::_U());
        let s3 = s2.with_port(Ieee1164::_U());
        s3.lemma_with_port(Ieee1164::_U());
    }
    (p0, p1, p2, p3)
}

/// What a weak buffer makes of a value: zero and one come out weak, high
/// impedance stays, everything else is the weak unknown.
pub open spec fn weak_buf_spec(a: Ieee1164) -> Ieee1164 {
    if a.high() {
        Ieee1164::_H()
    } else if a.low() {
        Ieee1164::_L()
    } else if a == Ieee1164::_Z() {
        Ieee1164::_Z()
    } else {
        Ieee1164::_W()
    }
}

/// What a weak inverter makes of a value: zero and one swap and come out
/// weak, high impedance stays, everything else is the weak unknown.
pub open spec fn weak_inv_spec(a: Ieee1164) -> Ieee1164 {
    if a.high() {
        Ieee1164::_L()
    } else if a.low() {
        Ieee1164::_H()
    } else if a == Ieee1164::_Z() {
        Ieee1164::_Z()
    } else {
        Ieee1164::_W()
    }
}

/// What the AND gate computes.
pub fn and(a: Ieee1164, b: Ieee1164) -> (r: Ieee1164)
    ensures
        r == a.and_spec(b),
{
    ieee1164::and(&a, &b)
}

/// What the NAND gate computes.
pub fn nand(a: Ieee1164, b: Ieee1164) -> (r: Ieee1164)
    ensures
        r == a.and_spec(b).not_spec(),
{
    ieee1164::not(ieee1164::and(&a, &b))
}

/// What the OR gate computes.
pub fn or(a: Ieee1164, b: Ieee1164) -> (r: Ieee1164)
    ensures
        r == a.or_spec(b),
{
    ieee1164::or(&a, &b)
}

/// What the NOR gate computes.
pub fn nor(a: Ieee1164, b: Ieee1164) -> (r: Ieee1164)
    ensures
        r == a.or_spec(b).not_spec(),
{
    ieee1164::not(ieee1164::or(&a, &b))
}

/// What the XOR gate computes.
pub fn xor(a: Ieee1164, b: Ieee1164) -> (r: Ieee1164)
    ensures
        r == a.xor_spec(b),
{
    ieee1164::xor(&a, &b)
}

/// What the XNOR gate computes.
pub fn xnor(a: Ieee1164, b: Ieee1164) -> (r: Ieee1164)
    ensures
        r == a.xor_spec(b).not_spec(),
{
    ieee1164::not(ieee1164::xor(&a, &b))
}

/// What the buffer computes.
pub fn buf(a: Ieee1164) -> (r: Ieee1164)
    ensures
        r == a,
{
    a
}

/// What the inverter computes.
pub fn inv(a: Ieee1164) -> (r: Ieee1164)
    ensures
        r == a.not_spec(),
{
    ieee1164::not(a)
}

/// What the weak buffer computes.
pub fn weak_buf(a: Ieee1164) -> (r: Ieee1164)
    ensures
        r == weak_buf_spec(a),
{
    match a {
        Ieee1164::Strong(Ieee1164Value::One) | Ieee1164::Weak(Ieee1164Value::One) => Ieee1164::_H(),
        Ieee1164::Strong(Ieee1164Value::Zero) | Ieee1164::Weak(Ieee1164Value::Zero) => Ieee1164::_L(),
        Ieee1164::HighImpedance => Ieee1164::_Z(),
        _ => Ieee1164::_W(),
    }
}

/// What the weak inverter computes.
pub fn weak_inv(a: Ieee1164) -> (r: Ieee1164)
    ensures
        r == weak_inv_spec(a),
{
    match a {
        Ieee1164::Strong(Ieee1164Value::One) | Ieee1164::Weak(Ieee1164Value::One) => Ieee1164::_L(),
        Ieee1164::Strong(Ieee1164Value::Zero) | Ieee1164::Weak(Ieee1164Value::Zero) => Ieee1164::_H(),
        Ieee1164::HighImpedance => Ieee1164::_Z(),
        _ => Ieee1164::_W(),
    }
}

/// A two-input AND gate.
#[derive(Debug)]
pub struct AndGate {
    /// The first input.
    pub a: Port<Ieee1164, Input>,
    /// The second input.
    pub b: Port<Ieee1164, Input>,
    /// The output.
    pub z: Port<Ieee1164, Output>,
}

impl Clone for AndGate {
    fn clone(&self) -> (r: Self)
        ensures
            r == *self,
    {
        *self
    }
}

impl Copy for AndGate {

}

impl AndGate {
    /// Creates the model with ports of its own, all uninitialized and not
    /// connected.
    pub fn new(net: &mut Network<Ieee1164>) -> (model: Self)
        requires
            old(net)@.consistent(),
        ensures
            final(net)@ == old(net)@.with_port(Ieee1164::_U()).with_port(Ieee1164::_U()).with_port(Ieee1164::_U()),
            final(net)@.consistent(),
            model.a.index() == old(net)@.ports.len(),
            model.b.index() == old(net)@.ports.len() + 1,
            model.z.index() == old(net)@.ports.len() + 2,
    {
        let (a, b, z) = two_inputs(net);
        AndGate { a, b, z }
    }

    /// Creates the model with ports of its own, all uninitialized and not
    /// connected.
    pub fn default(net: &mut Network<Ieee1164>) -> (model: Self)
        requires
            old(net)@.consistent(),
        ensures
            final(net)@ == old(net)@.with_port(Ieee1164::_U()).with_port(Ieee1164::_U()).with_port(Ieee1164::_U()),
            final(net)@.consistent(),
            model.a.index() == old(net)@.ports.len(),
            model.b.index() == old(net)@.ports.len() + 1,
            model.z.index() == old(net)@.ports.len() + 2,
    {
        Self::new(net)
    }

    /// The value that the model puts out for the inputs that the network
    /// holds.
    pub open spec fn output(&self, net: NetworkState<Ieee1164>) -> Ieee1164 {
        let a = net.ports[self.a.index() as int].value;
        let b = net.ports[self.b.index() as int].value;
        a.and_spec(b)
    }
}

impl Updateable for AndGate {
    type Value = Ieee1164;

    open spec fn ports(&self) -> Set<usize> {
        set![self.a.index(), self.b.index(), self.z.index()]
    }

    open spec fn signals(&self) -> Set<usize> {
        Set::empty()
    }

    open spec fn step(&self, net: NetworkState<Ieee1164>) -> NetworkState<Ieee1164> {
        net.with_value(self.z.index(), self.output(net))
    }

    open spec fn changes(&self, net: NetworkState<Ieee1164>) -> bool {
        net.ports[self.z.index() as int].value != self.output(net)
    }

    fn is_ready(&self, net: &Network<Ieee1164>) -> (r: bool) {
        proof {
            assert(self.ports().contains(self.a.index()));
            assert(self.ports().contains(self.b.index()));
            assert(self.ports().contains(self.z.index()));
        }
        self.a.is_valid(net) && self.b.is_valid(net) && self.z.is_valid(net)
    }

    fn update(&self, net: &mut Network<Ieee1164>) -> (changed: bool) {
        proof {
            assert(self.ports().contains(self.a.index()));
            assert(self.ports().contains(self.b.index()));
            assert(self.ports().contains(self.z.index()));
        }
        let a = self.a.value(net);
        let b = self.b.value(net);
        let value = self::and(a, b);
        proof {
            net@.lemma_with_value(self.z.index(), value);
        }
        let before = self.z.replace(net, value);
        before != value
    }
}

impl IterPorts for AndGate {
    open spec fn named_ports(&self) -> Seq<(&'static str, usize)> {
        seq![("a", self.a.index()), ("b", self.b.index()), ("z", self.z.index())]
    }

    fn iter_ports(&self) -> (ports: Vec<(&'static str, Port<Ieee1164, Input>)>) {
        let mut ports: Vec<(&'static str, Port<Ieee1164, Input>)> = Vec::new();
        ports.push(("a", Port::from_id(self.a.id())));
        ports.push(("b", Port::from_id(self.b.id())));
        ports.push(("z", Port::from_id(self.z.id())));
        ports
    }
}

/// A two-input NAND gate.
#[derive(Debug)]
pub struct NandGate {
    /// The first input.
    pub a: Port<Ieee1164, Input>,
    /// The second input.
    pub b: Port<Ieee1164, Input>,
    /// The output.
    pub z: Port<Ieee1164, Output>,
}

impl Clone for NandGate {
    fn clone(&self) -> (r: Self)
        ensures
            r == *self,
    {
        *self
    }
}

impl Copy for NandGate {

}

impl NandGate {
    /// Creates the model with ports of its own, all uninitialized and not
    /// connected.
    pub fn new(net: &mut Network<Ieee1164>) -> (model: Self)
        requires
            old(net)@.consistent(),
        ensures
            final(net)@ == old(net)@.with_port(Ieee1164::_U()).with_port(Ieee1164::_U()).with_port(Ieee1164::_U()),
            final(net)@.consistent(),
            model.a.index() == old(net)@.ports.len(),
            model.b.index() == old(net)@.ports.len() + 1,
            model.z.index() == old(net)@.ports.len() + 2,
    {
        let (a, b, z) = two_inputs(net);
        NandGate { a, b, z }
    }

    /// Creates the model with ports of its own, all uninitialized and not
    /// connected.
    pub fn default(net: &mut Network<Ieee1164>) -> (model: Self)
        requires
            old(net)@.consistent(),
        ensures
            final(net)@ == old(net)@.with_port(Ieee1164::_U()).with_port(Ieee1164::_U()).with_port(Ieee1164::_U()),
            final(net)@.consistent(),
            model.a.index() == old(net)@.ports.len(),
            model.b.index() == old(net)@.ports.len() + 1,
            model.z.index() == old(net)@.ports.len() + 2,
    {
        Self::new(net)
    }

    /// The value that the model puts out for the inputs that the network
    /// holds.
    pub open spec fn output(&self, net: NetworkState<Ieee1164>) -> Ieee1164 {
        let a = net.ports[self.a.index() as int].value;
        let b = net.ports[self.b.index() as int].value;
        a.and_spec(b).not_spec()
    }
}

impl Updateable for NandGate {
    type Value = Ieee1164;

    open spec fn ports(&self) -> Set<usize> {
        set![self.a.index(), self.b.index(), self.z.index()]
    }

    open spec fn signals(&self) -> Set<usize> {
        Set::empty()
    }

    open spec fn step(&self, net: NetworkState<Ieee1164>) -> NetworkState<Ieee1164> {
        net.with_value(self.z.index(), self.output(net))
    }

    open spec fn changes(&self, net: NetworkState<Ieee1164>) -> bool {
        net.ports[self.z.index() as int].value != self.output(net)
    }

    fn is_ready(&self, net: &Network<Ieee1164>) -> (r: bool) {
        proof {
            assert(self.ports().contains(self.a.index()));
            assert(self.ports().contains(self.b.index()));
            assert(self.ports().contains(self.z.index()));
        }
        self.a.is_valid(net) && self.b.is_valid(net) && self.z.is_valid(net)
    }

    fn update(&self, net: &mut Network<Ieee1164>) -> (changed: bool) {
        proof {
            assert(self.ports().contains(self.a.index()));
            assert(self.ports().contains(self.b.index()));
            assert(self.ports().contains(self.z.index()));
        }
        let a = self.a.value(net);
        let b = self.b.value(net);
        let value = self::nand(a, b);
        proof {
            net@.lemma_with_value(self.z.index(), value);
        }
        let before = self.z.replace(net, value);
        before != value
    }
}

impl IterPorts for NandGate {
    open spec fn named_ports(&self) -> Seq<(&'static str, usize)> {
        seq![("a", self.a.index()), ("b", self.b.index()), ("z", self.z.index())]
    }

    fn iter_ports(&self) -> (ports: Vec<(&'static str, Port<Ieee1164, Input>)>) {
        let mut ports: Vec<(&'static str, Port<Ieee1164, Input>)> = Vec::new();
        ports.push(("a", Port::from_id(self.a.id())));
        ports.push(("b", Port::from_id(self.b.id())));
        ports.push(("z", Port::from_id(self.z.id())));
        ports
    }
}

/// A two-input OR gate.
#[derive(Debug)]
pub struct OrGate {
    /// The first input.
    pub a: Port<Ieee1164, Input>,
    /// The second input.
    pub b: Port<Ieee1164, Input>,
    /// The output.
    pub z: Port<Ieee1164, Output>,
}

impl Clone for OrGate {
    fn clone(&self) -> (r: Self)
        ensures
            r == *self,
    {
        *self
    }
}

impl Copy for OrGate {

}

impl OrGate {
    /// Creates the model with ports of its own, all uninitialized and not
    /// connected.
    pub fn new(net: &mut Network<Ieee1164>) -> (model: Self)
        requires
            old(net)@.consistent(),
        ensures
            final(net)@ == old(net)@.with_port(Ieee1164::_U()).with_port(Ieee1164::_U()).with_port(Ieee1164::_U()),
            final(net)@.consistent(),
            model.a.index() == old(net)@.ports.len(),
            model.b.index() == old(net)@.ports.len() + 1,
            model.z.index() == old(net)@.ports.len() + 2,
    {
        let (a, b, z) = two_inputs(net);
        OrGate { a, b, z }
    }

    /// Creates the model with ports of its own, all uninitialized and not
    /// connected.
    pub fn default(net: &mut Network<Ieee1164>) -> (model: Self)
        requires
            old(net)@.consistent(),
        ensures
            final(net)@ == old(net)@.with_port(Ieee1164::_U()).with_port(Ieee1164::_U()).with_port(Ieee1164::_U()),
            final(net)@.consistent(),
            model.a.index() == old(net)@.ports.len(),
            model.b.index() == old(net)@.ports.len() + 1,
            model.z.index() == old(net)@.ports.len() + 2,
    {
        Self::new(net)
    }

    /// The value that the model puts out for the inputs that the network
    /// holds.
    pub open spec fn output(&self, net: NetworkState<Ieee1164>) -> Ieee1164 {
        let a = net.ports[self.a.index() as int].value;
        let b = net.ports[self.b.index() as int].value;
        a.or_spec(b)
    }
}

impl Updateable for OrGate {
    type Value = Ieee1164;

    open spec fn ports(&self) -> Set<usize> {
        set![self.a.index(), self.b.index(), self.z.index()]
    }

    open spec fn signals(&self) -> Set<usize> {
        Set::empty()
    }

    open spec fn step(&self, net: NetworkState<Ieee1164>) -> NetworkState<Ieee1164> {
        net.with_value(self.z.index(), self.output(net))
    }

    open spec fn changes(&self, net: NetworkState<Ieee1164>) -> bool {
        net.ports[self.z.index() as int].value != self.output(net)
    }

    fn is_ready(&self, net: &Network<Ieee1164>) -> (r: bool) {
        proof {
            assert(self.ports().contains(self.a.index()));
            assert(self.ports().contains(self.b.index()));
            assert(self.ports().contains(self.z.index()));
        }
        self.a.is_valid(net) && self.b.is_valid(net) && self.z.is_valid(net)
    }

    fn update(&self, net: &mut Network<Ieee1164>) -> (changed: bool) {
        proof {
            assert(self.ports().contains(self.a.index()));
            assert(self.ports().contains(self.b.index()));
            assert(self.ports().contains(self.z.index()));
        }
        let a = self.a.value(net);
        let b = self.b.value(net);
        let value = self::or(a, b);
        proof {
            net@.lemma_with_value(self.z.index(), value);
        }
        let before = self.z.replace(net, value);
        before != value
    }
}

impl IterPorts for OrGate {
    open spec fn named_ports(&self) -> Seq<(&'static str, usize)> {
        seq![("a", self.a.index()), ("b", self.b.index()), ("z", self.z.index())]
    }

    fn iter_ports(&self) -> (ports: Vec<(&'static str, Port<Ieee1164, Input>)>) {
        let mut ports: Vec<(&'static str, Port<Ieee1164, Input>)> = Vec::new();
        ports.push(("a", Port::from_id(self.a.id())));
        ports.push(("b", Port::from_id(self.b.id())));
        ports.push(("z", Port::from_id(self.z.id())));
        ports
    }
}

/// A two-input NOR gate.
#[derive(Debug)]
pub struct NorGate {
    /// The first input.
    pub a: Port<Ieee1164, Input>,
    /// The second input.
    pub b: Port<Ieee1164, Input>,
    /// The output.
    pub z: Port<Ieee1164, Output>,
}

impl Clone for NorGate {
    fn clone(&self) -> (r: Self)
        ensures
            r == *self,
    {
        *self
    }
}

impl Copy for NorGate {

}

impl NorGate {
    /// Creates the model with ports of its own, all uninitialized and not
    /// connected.
    pub fn new(net: &mut Network<Ieee1164>) -> (model: Self)
        requires
            old(net)@.consistent(),
        ensures
            final(net)@ == old(net)@.with_port(Ieee1164::_U()).with_port(Ieee1164::_U()).with_port(Ieee1164::_U()),
            final(net)@.consistent(),
            model.a.index() == old(net)@.ports.len(),
            model.b.index() == old(net)@.ports.len() + 1,
            model.z.index() == old(net)@.ports.len() + 2,
    {
        let (a, b, z) = two_inputs(net);
        NorGate { a, b, z }
    }

    /// Creates the model with ports of its own, all uninitialized and not
    /// connected.
    pub fn default(net: &mut Network<Ieee1164>) -> (model: Self)
        requires
            old(net)@.consistent(),
        ensures
            final(net)@ == old(net)@.with_port(Ieee1164::_U()).with_port(Ieee1164::_U()).with_port(Ieee1164::_U()),
            final(net)@.consistent(),
            model.a.index() == old(net)@.ports.len(),
            model.b.index() == old(net)@.ports.len() + 1,
            model.z.index() == old(net)@.ports.len() + 2,
    {
        Self::new(net)
    }

    /// The value that the model puts out for the inputs that the network
    /// holds.
    pub open spec fn output(&self, net: NetworkState<Ieee1164>) -> Ieee1164 {
        let a = net.ports[self.a.index() as int].value;
        let b = net.ports[self.b.index() as int].value;
        a.or_spec(b).not_spec()
    }
}

impl Updateable for NorGate {
    type Value = Ieee1164;

    open spec fn ports(&self) -> Set<usize> {
        set![self.a.index(), self.b.index(), self.z.index()]
    }

    open spec fn signals(&self) -> Set<usize> {
        Set::empty()
    }

    open spec fn step(&self, net: NetworkState<Ieee1164>) -> NetworkState<Ieee1164> {
        net.with_value(self.z.index(), self.output(net))
    }

    open spec fn changes(&self, net: NetworkState<Ieee1164>) -> bool {
        net.ports[self.z.index() as int].value != self.output(net)
    }

    fn is_ready(&self, net: &Network<Ieee1164>) -> (r: bool) {
        proof {
            assert(self.ports().contains(self.a.index()));
            assert(self.ports().contains(self.b.index()));
            assert(self.ports().contains(self.z.index()));
        }
        self.a.is_valid(net) && self.b.is_valid(net) && self.z.is_valid(net)
    }

    fn update(&self, net: &mut Network<Ieee1164>) -> (changed: bool) {
        proof {
            assert(self.ports().contains(self.a.index()));
            assert(self.ports().contains(self.b.index()));
            assert(self.ports().contains(self.z.index()));
        }
        let a = self.a.value(net);
        let b = self.b.value(net);
        let value = self::nor(a, b);
        proof {
            net@.lemma_with_value(self.z.index(), value);
        }
        let before = self.z.replace(net, value);
        before != value
    }
}

impl IterPorts for NorGate {
    open spec fn named_ports(&self) -> Seq<(&'static str, usize)> {
        seq![("a", self.a.index()), ("b", self.b.index()), ("z", self.z.index())]
    }

    fn iter_ports(&self) -> (ports: Vec<(&'static str, Port<Ieee1164, Input>)>) {
        let mut ports: Vec<(&'static str, Port<Ieee1164, Input>)> = Vec::new();
        ports.push(("a", Port::from_id(self.a.id())));
        ports.push(("b", Port::from_id(self.b.id())));
        ports.push(("z", Port::from_id(self.z.id())));
        ports
    }
}

/// A two-input XOR gate.
#[derive(Debug)]
pub struct XorGate {
    /// The first input.
    pub a: Port<Ieee1164, Input>,
    /// The second input.
    pub b: Port<Ieee1164, Input>,
    /// The output.
    pub z: Port<Ieee1164, Output>,
}

impl Clone for XorGate {
    fn clone(&self) -> (r: Self)
        ensures
            r == *self,
    {
        *self
    }
}

impl Copy for XorGate {

}

impl XorGate {
    /// Creates the model with ports of its own, all uninitialized and not
    /// connected.
    pub fn new(net: &mut Network<Ieee1164>) -> (model: Self)
        requires
            old(net)@.consistent(),
        ensures
            final(net)@ == old(net)@.with_port(Ieee1164::_U()).with_port(Ieee1164::_U()).with_port(Ieee1164::_U()),
            final(net)@.consistent(),
            model.a.index() == old(net)@.ports.len(),
            model.b.index() == old(net)@.ports.len() + 1,
            model.z.index() == old(net)@.ports.len() + 2,
    {
        let (a, b, z) = two_inputs(net);
        XorGate { a, b, z }
    }

    /// Creates the model with ports of its own, all uninitialized and not
    /// connected.
    pub fn default(net: &mut Network<Ieee1164>) -> (model: Self)
        requires
            old(net)@.consistent(),
        ensures
            final(net)@ == old(net)@.with_port(Ieee1164::_U()).with_port(Ieee1164::_U()).with_port(Ieee1164::_U()),
            final(net)@.consistent(),
            model.a.index() == old(net)@.ports.len(),
            model.b.index() == old(net)@.ports.len() + 1,
            model.z.index() == old(net)@.ports.len() + 2,
    {
        Self::new(net)
    }

    /// The value that the model puts out for the inputs that the network
    /// holds.
    pub open spec fn output(&self, net: NetworkState<Ieee1164>) -> Ieee1164 {
        let a = net.ports[self.a.index() as int].value;
        let b = net.ports[self.b.index() as int].value;
        a.xor_spec(b)
    }
}

impl Updateable for XorGate {
    type Value = Ieee1164;

    open spec fn ports(&self) -> Set<usize> {
        set![self.a.index(), self.b.index(), self.z.index()]
    }

    open spec fn signals(&self) -> Set<usize> {
        Set::empty()
    }

    open spec fn step(&self, net: NetworkState<Ieee1164>) -> NetworkState<Ieee1164> {
        net.with_value(self.z.index(), self.output(net))
    }

    open spec fn changes(&self, net: NetworkState<Ieee1164>) -> bool {
        net.ports[self.z.index() as int].value != self.output(net)
    }

    fn is_ready(&self, net: &Network<Ieee1164>) -> (r: bool) {
        proof {
            assert(self.ports().contains(self.a.index()));
            assert(self.ports().contains(self.b.index()));
            assert(self.ports().contains(self.z.index()));
        }
        self.a.is_valid(net) && self.b.is_valid(net) && self.z.is_valid(net)
    }

    fn update(&self, net: &mut Network<Ieee1164>) -> (changed: bool) {
        proof {
            assert(self.ports().contains(self.a.index()));
            assert(self.ports().contains(self.b.index()));
            assert(self.ports().contains(self.z.index()));
        }
        let a = self.a.value(net);
        let b = self.b.value(net);
        let value = self::xor(a, b);
        proof {
            net@.lemma_with_value(self.z.index(), value);
        }
        let before = self.z.replace(net, value);
        before != value
    }
}

impl IterPorts for XorGate {
    open spec fn named_ports(&self) -> Seq<(&'static str, usize)> {
        seq![("a", self.a.index()), ("b", self.b.index()), ("z", self.z.index())]
    }

    fn iter_ports(&self) -> (ports: Vec<(&'static str, Port<Ieee1164, Input>)>) {
        let mut ports: Vec<(&'static str, Port<Ieee1164, Input>)> = Vec::new();
        ports.push(("a", Port::from_id(self.a.id())));
        ports.push(("b", Port::from_id(self.b.id())));
        ports.push(("z", Port::from_id(self.z.id())));
        ports
    }
}

/// A two-input XNOR gate.
#[derive(Debug)]
pub struct XnorGate {
    /// The first input.
    pub a: Port<Ieee1164, Input>,
    /// The second input.
    pub b: Port<Ieee1164, Input>,
    /// The output.
    pub z: Port<Ieee1164, Output>,
}

impl Clone for XnorGate {
    fn clone(&self) -> (r: Self)
        ensures
            r == *self,
    {
        *self
    }
}

impl Copy for XnorGate {

}

impl XnorGate {
    /// Creates the model with ports of its own, all uninitialized and not
    /// connected.
    pub fn new(net: &mut Network<Ieee1164>) -> (model: Self)
        requires
            old(net)@.consistent(),
        ensures
            final(net)@ == old(net)@.with_port(Ieee1164::_U()).with_port(Ieee1164::_U()).with_port(Ieee1164::_U()),
            final(net)@.consistent(),
            model.a.index() == old(net)@.ports.len(),
            model.b.index() == old(net)@.ports.len() + 1,
            model.z.index() == old(net)@.ports.len() + 2,
    {
        let (a, b, z) = two_inputs(net);
        XnorGate { a, b, z }
    }

    /// Creates the model with ports of its own, all uninitialized and not
    /// connected.
    pub fn default(net: &mut Network<Ieee1164>) -> (model: Self)
        requires
            old(net)@.consistent(),
        ensures
            final(net)@ == old(net)@.with_port(Ieee1164::_U()).with_port(Ieee1164::_U()).with_port(Ieee1164::_U()),
            final(net)@.consistent(),
            model.a.index() == old(net)@.ports.len(),
            model.b.index() == old(net)@.ports.len() + 1,
            model.z.index() == old(net)@.ports.len() + 2,
    {
        Self::new(net)
    }

    /// The value that the model puts out for the inputs that the network
    /// holds.
    pub open spec fn output(&self, net: NetworkState<Ieee1164>) -> Ieee1164 {
        let a = net.ports[self.a.index() as int].value;
        let b = net.ports[self.b.index() as int].value;
        a.xor_spec(b).not_spec()
    }
}

impl Updateable for XnorGate {
    type Value = Ieee1164;

    open spec fn ports(&self) -> Set<usize> {
        set![self.a.index(), self.b.index(), self.z.index()]
    }

    open spec fn signals(&self) -> Set<usize> {
        Set::empty()
    }

    open spec fn step(&self, net: NetworkState<Ieee1164>) -> NetworkState<Ieee1164> {
        net.with_value(self.z.index(), self.output(net))
    }

    open spec fn changes(&self, net: NetworkState<Ieee1164>) -> bool {
        net.ports[self.z.index() as int].value != self.output(net)
    }

    fn is_ready(&self, net: &Network<Ieee1164>) -> (r: bool) {
        proof {
            assert(self.ports().contains(self.a.index()));
            assert(self.ports().contains(self.b.index()));
            assert(self.ports().contains(self.z.index()));
        }
        self.a.is_valid(net) && self.b.is_valid(net) && self.z.is_valid(net)
    }

    fn update(&self, net: &mut Network<Ieee1164>) -> (changed: bool) {
        proof {
            assert(self.ports().contains(self.a.index()));
            assert(self.ports().contains(self.b.index()));
            assert(self.ports().contains(self.z.index()));
        }
        let a = self.a.value(net);
        let b = self.b.value(net);
        let value = self::xnor(a, b);
        proof {
            net@.lemma_with_value(self.z.index(), value);
        }
        let before = self.z.replace(net, value);
        before != value
    }
}

impl IterPorts for XnorGate {
    open spec fn named_ports(&self) -> Seq<(&'static str, usize)> {
        seq![("a", self.a.index()), ("b", self.b.index()), ("z", self.z.index())]
    }

    fn iter_ports(&self) -> (ports: Vec<(&'static str, Port<Ieee1164, Input>)>) {
        let mut ports: Vec<(&'static str, Port<Ieee1164, Input>)> = Vec::new();
        ports.push(("a", Port::from_id(self.a.id())));
        ports.push(("b", Port::from_id(self.b.id())));
        ports.push(("z", Port::from_id(self.z.id())));
        ports
    }
}

/// A buffer: its output is its input.
#[derive(Debug)]
pub struct Buffer {
    /// The input.
    pub a: Port<Ieee1164, Input>,
    /// The output.
    pub z: Port<Ieee1164, Output>,
}

impl Clone for Buffer {
    fn clone(&self) -> (r: Self)
        ensures
            r == *self,
    {
        *self
    }
}

impl Copy for Buffer {

}

impl Buffer {
    /// Creates the model with ports of its own, all uninitialized and not
    /// connected.
    pub fn new(net: &mut Network<Ieee1164>) -> (model: Self)
        requires
            old(net)@.consistent(),
        ensures
            final(net)@ == old(net)@.with_port(Ieee1164::_U()).with_port(Ieee1164::_U()),
            final(net)@.consistent(),
            model.a.index() == old(net)@.ports.len(),
            model.z.index() == old(net)@.ports.len() + 1,
    {
        let (a, z) = one_input(net);
        Buffer { a, z }
    }

    /// Creates the model with ports of its own, all uninitialized and not
    /// connected.
    pub fn default(net: &mut Network<Ieee1164>) -> (model: Self)
        requires
            old(net)@.consistent(),
        ensures
            final(net)@ == old(net)@.with_port(Ieee1164::_U()).with_port(Ieee1164::_U()),
            final(net)@.consistent(),
            model.a.index() == old(net)@.ports.len(),
            model.z.index() == old(net)@.ports.len() + 1,
    {
        Self::new(net)
    }

    /// The value that the model puts out for the inputs that the network
    /// holds.
    pub open spec fn output(&self, net: NetworkState<Ieee1164>) -> Ieee1164 {
        let a = net.ports[self.a.index() as int].value;
        a
    }
}

impl Updateable for Buffer {
    type Value = Ieee1164;

    open spec fn ports(&self) -> Set<usize> {
        set![self.a.index(), self.z.index()]
    }

    open spec fn signals(&self) -> Set<usize> {
        Set::empty()
    }

    open spec fn step(&self, net: NetworkState<Ieee1164>) -> NetworkState<Ieee1164> {
        net.with_value(self.z.index(), self.output(net))
    }

    open spec fn changes(&self, net: NetworkState<Ieee1164>) -> bool {
        net.ports[self.z.index() as int].value != self.output(net)
    }

    fn is_ready(&self, net: &Network<Ieee1164>) -> (r: bool) {
        proof {
            assert(self.ports().contains(self.a.index()));
            assert(self.ports().contains(self.z.index()));
        }
        self.a.is_valid(net) && self.z.is_valid(net)
    }

    fn update(&self, net: &mut Network<Ieee1164>) -> (changed: bool) {
        proof {
            assert(self.ports().contains(self.a.index()));
            assert(self.ports().contains(self.z.index()));
        }
        let a = self.a.value(net);
        let value = self::buf(a);
        proof {
            net@.lemma_with_value(self.z.index(), value);
        }
        let before = self.z.replace(net, value);
        before != value
    }
}

impl IterPorts for Buffer {
    open spec fn named_ports(&self) -> Seq<(&'static str, usize)> {
        seq![("a", self.a.index()), ("z", self.z.index())]
    }

    fn iter_ports(&self) -> (ports: Vec<(&'static str, Port<Ieee1164, Input>)>) {
        let mut ports: Vec<(&'static str, Port<Ieee1164, Input>)> = Vec::new();
        ports.push(("a", Port::from_id(self.a.id())));
        ports.push(("z", Port::from_id(self.z.id())));
        ports
    }
}

/// An inverter: its output is the negation of its input.
#[derive(Debug)]
pub struct Inverter {
    /// The input.
    pub a: Port<Ieee1164, Input>,
    /// The output.
    pub z: Port<Ieee1164, Output>,
}

impl Clone for Inverter {
    fn clone(&self) -> (r: Self)
        ensures
            r == *self,
    {
        *self
    }
}

impl Copy for Inverter {

}

impl Inverter {
    /// Creates the model with ports of its own, all uninitialized and not
    /// connected.
    pub fn new(net: &mut Network<Ieee1164>) -> (model: Self)
        requires
            old(net)@.consistent(),
        ensures
            final(net)@ == old(net)@.with_port(Ieee1164::_U()).with_port(Ieee1164::_U()),
            final(net)@.consistent(),
            model.a.index() == old(net)@.ports.len(),
            model.z.index() == old(net)@.ports.len() + 1,
    {
        let (a, z) = one_input(net);
        Inverter { a, z }
    }

    /// Creates the model with ports of its own, all uninitialized and not
    /// connected.
    pub fn default(net: &mut Network<Ieee1164>) -> (model: Self)
        requires
            old(net)@.consistent(),
        ensures
            final(net)@ == old(net)@.with_port(Ieee1164::_U()).with_port(Ieee1164::_U()),
            final(net)@.consistent(),
            model.a.index() == old(net)@.ports.len(),
            model.z.index() == old(net)@.ports.len() + 1,
    {
        Self::new(net)
    }

    /// The value that the model puts out for the inputs that the network
    /// holds.
    pub open spec fn output(&self, net: NetworkState<Ieee1164>) -> Ieee1164 {
        let a = net.ports[self.a.index() as int].value;
        a.not_spec()
    }
}

impl Updateable for Inverter {
    type Value = Ieee1164;

    open spec fn ports(&self) -> Set<usize> {
        set![self.a.index(), self.z.index()]
    }

    open spec fn signals(&self) -> Set<usize> {
        Set::empty()
    }

    open spec fn step(&self, net: NetworkState<Ieee1164>) -> NetworkState<Ieee1164> {
        net.with_value(self.z.index(), self.output(net))
    }

    open spec fn changes(&self, net: NetworkState<Ieee1164>) -> bool {
        net.ports[self.z.index() as int].value != self.output(net)
    }

    fn is_ready(&self, net: &Network<Ieee1164>) -> (r: bool) {
        proof {
            assert(self.ports().contains(self.a.index()));
            assert(self.ports().contains(self.z.index()));
        }
        self.a.is_valid(net) && self.z.is_valid(net)
    }

    fn update(&self, net: &mut Network<Ieee1164>) -> (changed: bool) {
        proof {
            assert(self.ports().contains(self.a.index()));
            assert(self.ports().contains(self.z.index()));
        }
        let a = self.a.value(net);
        let value = self::inv(a);
        proof {
            net@.lemma_with_value(self.z.index(), value);
        }
        let before = self.z.replace(net, value);
        before != value
    }
}

impl IterPorts for Inverter {
    open spec fn named_ports(&self) -> Seq<(&'static str, usize)> {
        seq![("a", self.a.index()), ("z", self.z.index())]
    }

    fn iter_ports(&self) -> (ports: Vec<(&'static str, Port<Ieee1164, Input>)>) {
        let mut ports: Vec<(&'static str, Port<Ieee1164, Input>)> = Vec::new();
        ports.push(("a", Port::from_id(self.a.id())));
        ports.push(("z", Port::from_id(self.z.id())));
        ports
    }
}

/// A buffer that turns strong values into weak ones.
#[derive(Debug)]
pub struct WeakBuffer {
    /// The input.
    pub a: Port<Ieee1164, Input>,
    /// The output.
    pub z: Port<Ieee1164, Output>,
}

impl Clone for WeakBuffer {
    fn clone(&self) -> (r: Self)
        ensures
            r == *self,
    {
        *self
    }
}

impl Copy for WeakBuffer {

}

impl WeakBuffer {
    /// Creates the model with ports of its own, all uninitialized and not
    /// connected.
    pub fn new(net: &mut Network<Ieee1164>) -> (model: Self)
        requires
            old(net)@.consistent(),
        ensures
            final(net)@ == old(net)@.with_port(Ieee1164::_U()).with_port(Ieee1164::_U()),
            final(net)@.consistent(),
            model.a.index() == old(net)@.ports.len(),
            model.z.index() == old(net)@.ports.len() + 1,
    {
        let (a, z) = one_input(net);
        WeakBuffer { a, z }
    }

    /// Creates the model with ports of its own, all uninitialized and not
    /// connected.
    pub fn default(net: &mut Network<Ieee1164>) -> (model: Self)
        requires
            old(net)@.consistent(),
        ensures
            final(net)@ == old(net)@.with_port(Ieee1164::_U()).with_port(Ieee1164::_U()),
            final(net)@.consistent(),
            model.a.index() == old(net)@.ports.len(),
            model.z.index() == old(net)@.ports.len() + 1,
    {
        Self::new(net)
    }

    /// The value that the model puts out for the inputs that the network
    /// holds.
    pub open spec fn output(&self, net: NetworkState<Ieee1164>) -> Ieee1164 {
        let a = net.ports[self.a.index() as int].value;
        weak_buf_spec(a)
    }
}

impl Updateable for WeakBuffer {
    type Value = Ieee1164;

    open spec fn ports(&self) -> Set<usize> {
        set![self.a.index(), self.z.index()]
    }

    open spec fn signals(&self) -> Set<usize> {
        Set::empty()
    }

    open spec fn step(&self, net: NetworkState<Ieee1164>) -> NetworkState<Ieee1164> {
        net.with_value(self.z.index(), self.output(net))
    }

    open spec fn changes(&self, net: NetworkState<Ieee1164>) -> bool {
        net.ports[self.z.index() as int].value != self.output(net)
    }

    fn is_ready(&self, net: &Network<Ieee1164>) -> (r: bool) {
        proof {
            assert(self.ports().contains(self.a.index()));
            assert(self.ports().contains(self.z.index()));
        }
        self.a.is_valid(net) && self.z.is_valid(net)
    }

    fn update(&self, net: &mut Network<Ieee1164>) -> (changed: bool) {
        proof {
            assert(self.ports().contains(self.a.index()));
            assert(self.ports().contains(self.z.index()));
        }
        let a = self.a.value(net);
        let value = self::weak_buf(a);
        proof {
            net@.lemma_with_value(self.z.index(), value);
        }
        let before = self.z.replace(net, value);
        before != value
    }
}

impl IterPorts for WeakBuffer {
    open spec fn named_ports(&self) -> Seq<(&'static str, usize)> {
        seq![("a", self.a.index()), ("z", self.z.index())]
    }

    fn iter_ports(&self) -> (ports: Vec<(&'static str, Port<Ieee1164, Input>)>) {
        let mut ports: Vec<(&'static str, Port<Ieee1164, Input>)> = Vec::new();
        ports.push(("a", Port::from_id(self.a.id())));
        ports.push(("z", Port::from_id(self.z.id())));
        ports
    }
}

/// An inverter that turns strong values into weak ones.
#[derive(Debug)]
pub struct WeakInverter {
    /// The input.
    pub a: Port<Ieee1164, Input>,
    /// The output.
    pub z: Port<Ieee1164, Output>,
}

impl Clone for WeakInverter {
    fn clone(&self) -> (r: Self)
        ensures
            r == *self,
    {
        *self
    }
}

impl Copy for WeakInverter {

}

impl WeakInverter {
    /// Creates the model with ports of its own, all uninitialized and not
    /// connected.
    pub fn new(net: &mut Network<Ieee1164>) -> (model: Self)
        requires
            old(net)@.consistent(),
        ensures
            final(net)@ == old(net)@.with_port(Ieee1164::_U()).with_port(Ieee1164::_U()),
            final(net)@.consistent(),
            model.a.index() == old(net)@.ports.len(),
            model.z.index() == old(net)@.ports.len() + 1,
    {
        let (a, z) = one_input(net);
        WeakInverter { a, z }
    }

    /// Creates the model with ports of its own, all uninitialized and not
    /// connected.
    pub fn default(net: &mut Network<Ieee1164>) -> (model: Self)
        requires
            old(net)@.consistent(),
        ensures
            final(net)@ == old(net)@.with_port(Ieee1164::_U()).with_port(Ieee1164::_U()),
            final(net)@.consistent(),
            model.a.index() == old(net)@.ports.len(),
            model.z.index() == old(net)@.ports.len() + 1,
    {
        Self::new(net)
    }

    /// The value that the model puts out for the inputs that the network
    /// holds.
    pub open spec fn output(&self, net: NetworkState<Ieee1164>) -> Ieee1164 {
        let a = net.ports[self.a.index() as int].value;
        weak_inv_spec(a)
    }
}

impl Updateable for WeakInverter {
    type Value = Ieee1164;

    open spec fn ports(&self) -> Set<usize> {
        set![self.a.index(), self.z.index()]
    }

    open spec fn signals(&self) -> Set<usize> {
        Set::empty()
    }

    open spec fn step(&self, net: NetworkState<Ieee1164>) -> NetworkState<Ieee1164> {
        net.with_value(self.z.index(), self.output(net))
    }

    open spec fn changes(&self, net: NetworkState<Ieee1164>) -> bool {
        net.ports[self.z.index() as int].value != self.output(net)
    }

    fn is_ready(&self, net: &Network<Ieee1164>) -> (r: bool) {
        proof {
            assert(self.ports().contains(self.a.index()));
            assert(self.ports().contains(self.z.index()));
        }
        self.a.is_valid(net) && self.z.is_valid(net)
    }

    fn update(&self, net: &mut Network<Ieee1164>) -> (changed: bool) {
        proof {
            assert(self.ports().contains(self.a.index()));
            assert(self.ports().contains(self.z.index()));
        }
        let a = self.a.value(net);
        let value = self::weak_inv(a);
        proof {
            net@.lemma_with_value(self.z.index(), value);
        }
        let before = self.z.replace(net, value);
        before != value
    }
}

impl IterPorts for WeakInverter {
    open spec fn named_ports(&self) -> Seq<(&'static str, usize)> {
        seq![("a", self.a.index()), ("z", self.z.index())]
    }

    fn iter_ports(&self) -> (ports: Vec<(&'static str, Port<Ieee1164, Input>)>) {
        let mut ports: Vec<(&'static str, Port<Ieee1164, Input>)> = Vec::new();
        ports.push(("a", Port::from_id(self.a.id())));
        ports.push(("z", Port::from_id(self.z.id())));
        ports
    }
}

} // verus!
