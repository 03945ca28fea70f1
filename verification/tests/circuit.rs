use logical::direction::{Input, Output};
use logical::dump::IterPorts;
use logical::models::gates;
use logical::models::gates::{
    AndGate, Buffer, Inverter, Mux, NandGate, NorGate, OrGate, TriBuffer, WeakBuffer, WeakInverter,
    XnorGate, XorGate,
};
use logical::models::inputs::Switch;
use logical::models::outputs::Led;
use logical::models::Component;
use logical::reactor::Reactor;
use logical::{Circuit, Ieee1164, Network, Port, Signal, Updateable};

fn wire(net: &mut Network<Ieee1164>, driver: &Port<Ieee1164, Output>, loads: &[&Port<Ieee1164, Input>]) -> Signal<Ieee1164> {
    let signal = Signal::new(net);
    signal.connect(net, driver).unwrap();
    for load in loads {
        signal.connect(net, *load).unwrap();
    }
    signal
}

#[test]
fn full_adder_settles_within_four_ticks() {
    let mut net = Network::new();
    let and1 = AndGate::default(&mut net);
    let xor1 = XorGate::default(&mut net);
    let and2 = AndGate::default(&mut net);
    let xor2 = XorGate::default(&mut net);
    let or = OrGate::default(&mut net);
    let x = Switch::default(&mut net);
    let y = Switch::default(&mut net);
    let c = Switch::default(&mut net);
    let cout = Led::default(&mut net);
    let s = Led::default(&mut net);

    let s_x = wire(&mut net, &x, &[&and1.a, &xor1.a]);
    let s_y = wire(&mut net, &y, &[&and1.b, &xor1.b]);
    let s_ha1_o = wire(&mut net, &and1.z, &[&or.a]);
    let s_ha1_ha2 = wire(&mut net, &xor1.z, &[&and2.a, &xor2.a]);
    let s_cin_ha2 = wire(&mut net, &c, &[&and2.b, &xor2.b]);
    let s_ha2_o = wire(&mut net, &and2.z, &[&or.b]);
    let s_or_cout = wire(&mut net, &or.z, &[&cout]);
    let s_ha_s = wire(&mut net, &xor2.z, &[&s]);

    let mut circuit = Circuit::new();
    for signal in [s_x, s_y, s_ha1_o, s_ha1_ha2, s_cin_ha2, s_ha2_o, s_or_cout, s_ha_s] {
        circuit.add_updater(&Component::from(signal));
    }
    circuit.add_updater(&Component::from(and1));
    circuit.add_updater(&and2.into());
    circuit.add_updater(&xor1.into());
    circuit.add_updater(&xor2.into());
    circuit.add_updater(&or.into());

    let (n, p) = (Ieee1164::_0(), Ieee1164::_1());
    let values = [
        [n, n, n, n, n],
        [n, n, p, p, n],
        [n, p, n, p, n],
        [n, p, p, n, p],
        [p, n, n, p, n],
        [p, n, p, n, p],
        [p, p, n, n, p],
        [p, p, p, p, p],
    ];
    for row in values.iter() {
        x.replace(&mut net, row[0]);
        y.replace(&mut net, row[1]);
        c.replace(&mut net, row[2]);
        let mut ticks = 0;
        while circuit.tick(&mut net) {
            ticks += 1;
            assert!(ticks <= 4, "no stable state after four ticks");
        }
        assert_eq!(row[3], s.value(&net));
        assert_eq!(row[4], cout.value(&net));
        assert!(!circuit.tick(&mut net));
    }
    x.replace(&mut net, p);
    y.replace(&mut net, p);
    c.replace(&mut net, p);
    let mut ticks = 0;
    while circuit.tick(&mut net) && ticks < 10 {
        ticks += 1;
    }
    assert!(ticks <= 4);
    assert_eq!((s.value(&net), cout.value(&net)), (p, p));
}

#[test]
fn an_inverter_fed_back_never_settles() {
    let mut net = Network::new();
    let inverter = Inverter::new(&mut net);
    let seen = Led::default(&mut net);
    let feedback = wire(&mut net, &inverter.z, &[&inverter.a, &seen]);
    inverter.z.replace(&mut net, Ieee1164::_0());
    let mut circuit = Circuit::new();
    circuit.add_updater(&Component::Signal(feedback));
    circuit.add_updater(&Component::Inverter(inverter));
    let limit = 100;
    let mut ticks = 0;
    let mut last = seen.value(&net);
    while ticks < limit && circuit.tick(&mut net) {
        ticks += 1;
        if ticks > 1 {
            assert_ne!(last, seen.value(&net));
        }
        last = seen.value(&net);
    }
    assert_eq!(ticks, limit);
}

#[test]
fn tick_updates_in_the_order_of_the_list() {
    let mut net = Network::new();
    let first = Buffer::new(&mut net);
    let second = Buffer::new(&mut net);
    let input = Switch::new(&mut net, Ieee1164::_1());
    let output = Led::default(&mut net);
    let a = wire(&mut net, &input, &[&first.a]);
    let b = wire(&mut net, &first.z, &[&second.a]);
    let c = wire(&mut net, &second.z, &[&output]);

    let mut forward = Circuit::new();
    for m in [Component::Signal(a), first.into(), Component::Signal(b), second.into(), Component::Signal(c)] {
        forward.add_updater(&m);
    }
    assert!(forward.tick(&mut net));
    assert_eq!(output.value(&net), Ieee1164::_1());
    assert!(!forward.tick(&mut net));

    input.replace(&mut net, Ieee1164::_0());
    let mut backward = Circuit::new();
    for m in [Component::Signal(c), second.into(), Component::Signal(b), first.into(), Component::Signal(a)] {
        backward.add_updater(&m);
    }
    let mut ticks = 0;
    while backward.tick(&mut net) {
        ticks += 1;
        assert!(ticks < 10);
    }
    assert_eq!(ticks, 5);
    assert_eq!(output.value(&net), Ieee1164::_0());

    input.replace(&mut net, Ieee1164::_H());
    let mut reactor = Reactor::new();
    for m in [Component::Signal(a), first.into(), Component::Signal(b), second.into(), Component::Signal(c)] {
        reactor.add_updater(&m);
    }
    reactor.tick(&mut net);
    assert_eq!(output.value(&net), Ieee1164::_H());
    let mut empty: Circuit<Component> = Circuit::new();
    assert!(!empty.tick(&mut net));
    assert!(empty.is_ready(&net) && forward.is_ready(&net));
    assert!(Component::from(first).is_ready(&net) && a.is_ready(&net));
    first.z.release(&mut net);
    assert!(!forward.is_ready(&net) && !first.is_ready(&net) && second.is_ready(&net));
    a.release(&mut net);
    assert!(!a.is_ready(&net) && b.is_ready(&net));
}

#[test]
fn mux_selects_and_tri_buffer_lets_go() {
    let mut net = Network::new();
    let mux = Mux::default(&mut net);
    let port_a = Port::<_, Output>::new(&mut net, Ieee1164::_H());
    let port_b = Port::<_, Output>::new(&mut net, Ieee1164::_L());
    let port_s = Port::<_, Output>::default(&mut net);
    let port_z = Port::<_, Input>::default(&mut net);
    let sig_a = wire(&mut net, &port_a, &[&mux.a]);
    let sig_b = wire(&mut net, &port_b, &[&mux.b]);
    let sig_s = wire(&mut net, &port_s, &[&mux.s]);
    let sig_z = wire(&mut net, &mux.z, &[&port_z]);
    let mut circuit = Circuit::new();
    for m in [Component::Signal(sig_a), Component::Signal(sig_b), Component::Signal(sig_s), Component::Mux(mux), Component::Signal(sig_z)] {
        circuit.add_updater(&m);
    }
    circuit.tick(&mut net);
    assert_eq!(Ieee1164::_X(), port_z.value(&net));
    port_s.replace(&mut net, Ieee1164::_0());
    circuit.tick(&mut net);
    assert_eq!(Ieee1164::_H(), port_z.value(&net));
    port_s.replace(&mut net, Ieee1164::_1());
    circuit.tick(&mut net);
    assert_eq!(Ieee1164::_L(), port_z.value(&net));

    let tri = TriBuffer::new(&mut net);
    let seen = PortReader::new(&tri.z);
    tri.a.id();
    let a = Port::<_, Output>::new(&mut net, Ieee1164::_1());
    let s = Port::<_, Output>::new(&mut net, Ieee1164::_0());
    wire(&mut net, &a, &[&tri.a]).update(&mut net);
    let enable = wire(&mut net, &s, &[&tri.s]);
    enable.update(&mut net);
    assert!(tri.update(&mut net));
    assert_eq!(seen.value(&net), Ieee1164::_Z());
    s.replace(&mut net, Ieee1164::_H());
    enable.update(&mut net);
    assert!(tri.update(&mut net));
    assert_eq!(seen.value(&net), Ieee1164::_1());
    assert!(!tri.update(&mut net));
    s.replace(&mut net, Ieee1164::_W());
    enable.update(&mut net);
    assert!(tri.update(&mut net));
    assert_eq!(seen.value(&net), Ieee1164::_X());
}

struct PortReader {
    connector: logical::port::PortConnector<Ieee1164, Input>,
}

impl PortReader {
    fn new(port: &Port<Ieee1164, Output>) -> Self {
        PortReader { connector: logical::port::PortConnector::<Ieee1164, Input>::try_from_port(port).unwrap() }
    }

    fn value(&self, net: &Network<Ieee1164>) -> Ieee1164 {
        self.connector.value(net).unwrap()
    }
}

#[test]
fn gates_compute_their_functions() {
    let values = [
        Ieee1164::_U(), Ieee1164::_X(), Ieee1164::_0(), Ieee1164::_1(), Ieee1164::_Z(),
        Ieee1164::_W(), Ieee1164::_L(), Ieee1164::_H(), Ieee1164::_D(),
    ];
    for a in values {
        assert_eq!(gates::buf(a), a);
        assert_eq!(gates::inv(a), !a);
        for b in values {
            assert_eq!(gates::and(a, b), a & b);
            assert_eq!(gates::nand(a, b), !(a & b));
            assert_eq!(gates::or(a, b), a | b);
            assert_eq!(gates::nor(a, b), !(a | b));
            assert_eq!(gates::xor(a, b), a ^ b);
            assert_eq!(gates::xnor(a, b), !(a ^ b));
        }
    }
    let weak: Vec<Ieee1164> = "WWLHZWLHW".chars().map(|c| Ieee1164::try_from_char(c).unwrap()).collect();
    let weak_inverted: Vec<Ieee1164> = "WWHLZWHLW".chars().map(|c| Ieee1164::try_from_char(c).unwrap()).collect();
    for (k, a) in values.iter().enumerate() {
        assert_eq!(gates::weak_buf(*a), weak[k]);
        assert_eq!(gates::weak_inv(*a), weak_inverted[k]);
    }
    assert_eq!(gates::nand(Ieee1164::_1(), Ieee1164::_H()), Ieee1164::_0());
    assert_eq!(gates::nor(Ieee1164::_L(), Ieee1164::_0()), Ieee1164::_1());
    assert_eq!(gates::xnor(Ieee1164::_1(), Ieee1164::_0()), Ieee1164::_0());
}

#[test]
fn every_gate_updates_its_output() {
    let mut net = Network::new();
    let (one, zero) = (Ieee1164::_1(), Ieee1164::_0());
    let a = Port::<_, Output>::new(&mut net, one);
    let b = Port::<_, Output>::new(&mut net, zero);
    let sa = Signal::new(&mut net);
    let sb = Signal::new(&mut net);
    sa.connect(&mut net, &a).unwrap();
    sb.connect(&mut net, &b).unwrap();
    let and = AndGate::new(&mut net);
    let nand = NandGate::new(&mut net);
    let or = OrGate::new(&mut net);
    let nor = NorGate::new(&mut net);
    let xor = XorGate::new(&mut net);
    let xnor = XnorGate::new(&mut net);
    let buffer = Buffer::new(&mut net);
    let inverter = Inverter::new(&mut net);
    let weak_buffer = WeakBuffer::new(&mut net);
    let weak_inverter = WeakInverter::new(&mut net);
    for port in [and.a, nand.a, or.a, nor.a, xor.a, xnor.a, buffer.a, inverter.a, weak_buffer.a, weak_inverter.a] {
        sa.connect(&mut net, &port).unwrap();
    }
    for port in [and.b, nand.b, or.b, nor.b, xor.b, xnor.b] {
        sb.connect(&mut net, &port).unwrap();
    }
    let members: Vec<Component> = vec![
        sa.into(), sb.into(), and.into(), nand.into(), or.into(), nor.into(), xor.into(),
        xnor.into(), buffer.into(), inverter.into(), weak_buffer.into(), weak_inverter.into(),
    ];
    let mut circuit = Circuit::new();
    for m in members.iter() {
        circuit.add_updater(m);
    }
    assert!(circuit.tick(&mut net));
    assert!(!circuit.tick(&mut net));
    let outputs = [and.z, nand.z, or.z, nor.z, xor.z, xnor.z, buffer.z, inverter.z, weak_buffer.z, weak_inverter.z];
    let expected = [zero, one, one, zero, one, zero, one, zero, Ieee1164::_H(), Ieee1164::_L()];
    for (port, e) in outputs.iter().zip(expected.iter()) {
        assert_eq!(PortReader::new(port).value(&net), *e);
    }
    let names: Vec<&str> = and.iter_ports().iter().map(|(name, _)| *name).collect();
    assert_eq!(names, vec!["a", "b", "z"]);
    let ids: Vec<usize> = and.iter_ports().iter().map(|(_, port)| port.id()).collect();
    assert_eq!(ids, vec![and.a.id(), and.b.id(), and.z.id()]);
    assert_eq!(inverter.iter_ports().len(), 2);
    assert_eq!(Mux::new(&mut net).iter_ports().len(), 4);
    assert_eq!(TriBuffer::new(&mut net).iter_ports().iter().map(|(name, _)| *name).collect::<Vec<_>>(), vec!["a", "s", "z"]);
}
