use logical::direction::{Input, Output};
use logical::dump::{IterValues, Vcd};
use logical::integer::Integer;
use logical::models::gates::XorGate;
use logical::models::inputs::switch::Switch;
use logical::models::outputs::led::Led;
use logical::models::rtlib::arithmic::add;
use logical::models::rtlib::arithmic::TwosComplement;
use logical::models::rtlib::inputs::VectorInput;
use logical::models::rtlib::memory::Rom1kx8;
use logical::models::rtlib::VectorComponent;
use logical::{Circuit, Ieee1164, LogicVector, Network, Port, Resolve, Signal, Updateable};

#[test]
fn default_all_zero() {
    let mut bits = Network::new();
    let mut vectors = Network::new();
    let rom = Rom1kx8::default(&mut bits, &mut vectors);
    for mem in rom.memory.iter() {
        assert_eq!(0, *mem);
    }
}

fn read_rom(rom: Rom1kx8, mut bits: Network<Ieee1164>, mut vectors: Network<LogicVector>) {
    let addr = Port::<LogicVector, Output>::new(&mut vectors, LogicVector::from_ieee_value(Ieee1164::_0(), 10));
    let data = Port::<LogicVector, Input>::new(&mut vectors, LogicVector::with_width(8));
    let noe = Port::<Ieee1164, Output>::new(&mut bits, Ieee1164::_0());

    let sig_noe_ncs = Signal::new(&mut bits);
    sig_noe_ncs.connect(&mut bits, &noe).unwrap();
    sig_noe_ncs.connect(&mut bits, &rom.n_output_enable).unwrap();
    sig_noe_ncs.connect(&mut bits, &rom.n_chip_select).unwrap();

    sig_noe_ncs.update(&mut bits);

    let sig_addr = Signal::new(&mut vectors);
    sig_addr.connect(&mut vectors, &rom.addr).unwrap();
    sig_addr.connect(&mut vectors, &addr).unwrap();

    let sig_data = Signal::new(&mut vectors);
    sig_data.connect(&mut vectors, &rom.data).unwrap();
    sig_data.connect(&mut vectors, &data).unwrap();

    for i in 0..1024 {
        addr.with_value_mut(&mut vectors, |f| f.set_int_value(i).unwrap());
        sig_addr.update(&mut vectors);
        rom.update(&bits, &mut vectors);
        sig_data.update(&mut vectors);

        assert_eq!(data.value(&vectors), i & 0xFF);
    }
}

#[test]
fn read_out_all_data() {
    let mut bits = Network::new();
    let mut vectors = Network::new();
    let bytes: Vec<u8> = (0..=255).cycle().take(1024).collect();
    let rom = Rom1kx8::from_iter(&mut bits, &mut vectors, &bytes);
    assert_eq!(rom.memory[10], 10);
    read_rom(rom, bits, vectors);
}

#[test]
fn output() {
    let mut bits = Network::new();
    let mut vectors = Network::new();
    let mut rom = Rom1kx8::default(&mut bits, &mut vectors);
    for (i, m) in rom.memory.iter_mut().enumerate() {
        *m = i as u8;
    }
    assert_eq!(rom.memory[10], 10);
    assert_eq!(rom.memory.len(), 1024);
    read_rom(rom, bits, vectors);
}

#[test]
fn rom_follows_its_control_lines() {
    let mut bits = Network::new();
    let mut vectors = Network::new();
    let bytes: Vec<u8> = (0..1024).map(|k| (k % 251) as u8).collect();
    let rom = Rom1kx8::from_iter(&mut bits, &mut vectors, &bytes);
    let data = logical::port::PortConnector::<LogicVector, Input>::try_from_port(&rom.data).unwrap();
    let addr = logical::port::PortConnector::<LogicVector, Output>::try_from_port(&rom.addr).unwrap();
    let ncs = logical::port::PortConnector::<Ieee1164, Output>::try_from_port(&rom.n_chip_select).unwrap();
    let noe = logical::port::PortConnector::<Ieee1164, Output>::try_from_port(&rom.n_output_enable).unwrap();
    assert!(rom.update(&bits, &mut vectors));
    assert!(data.value(&vectors).unwrap().is_XXX());
    assert!(!rom.update(&bits, &mut vectors));
    ncs.set_value(&mut bits, Ieee1164::_L());
    noe.set_value(&mut bits, Ieee1164::_H());
    assert!(rom.update(&bits, &mut vectors));
    assert!(data.value(&vectors).unwrap().is_ZZZ());
    noe.set_value(&mut bits, Ieee1164::_0());
    assert!(rom.update(&bits, &mut vectors));
    assert!(data.value(&vectors).unwrap().is_XXX());
    addr.set_value(&mut vectors, LogicVector::from_int_value(300, 10).unwrap());
    assert!(rom.update(&bits, &mut vectors));
    assert_eq!(data.value(&vectors).unwrap(), 49);
    addr.set_value(&mut vectors, LogicVector::from_int_value(1024, 11).unwrap());
    assert!(rom.update(&bits, &mut vectors));
    assert!(data.value(&vectors).unwrap().is_XXX());
    ncs.set_value(&mut bits, Ieee1164::_Z());
    assert!(!rom.update(&bits, &mut vectors));
}

#[test]
fn adder_and_twos_complement() {
    let mut net = Network::new();
    let adder = add::Add::new(&mut net, 8);
    let neg = TwosComplement::new(&mut net, 8);
    let a = VectorInput::with_logicvector(&mut net, LogicVector::from_int_value(200, 8).unwrap());
    let b = VectorInput::with_width(&mut net, 8);
    let sum = Port::<LogicVector, Input>::new(&mut net, LogicVector::with_width(8));
    let negative = Port::<LogicVector, Input>::new(&mut net, LogicVector::with_width(8));
    let sa = Signal::new(&mut net);
    sa.connect(&mut net, &a.port).unwrap();
    sa.connect(&mut net, &adder.a).unwrap();
    sa.connect(&mut net, &neg.a).unwrap();
    let sb = Signal::new(&mut net);
    sb.connect(&mut net, &b.port).unwrap();
    sb.connect(&mut net, &adder.b).unwrap();
    let ss = Signal::new(&mut net);
    ss.connect(&mut net, &adder.s).unwrap();
    ss.connect(&mut net, &sum).unwrap();
    let sn = Signal::new(&mut net);
    sn.connect(&mut net, &neg.y).unwrap();
    sn.connect(&mut net, &negative).unwrap();
    let mut circuit = Circuit::new();
    for m in [VectorComponent::from(sa), sb.into(), adder.into(), neg.into(), ss.into(), sn.into()] {
        circuit.add_updater(&m);
    }
    circuit.tick(&mut net);
    assert!(sum.value(&net).is_UUU());
    assert_eq!(negative.value(&net), 56);
    b.port.replace(&mut net, LogicVector::from_int_value(100, 8).unwrap());
    while circuit.tick(&mut net) {}
    assert_eq!(sum.value(&net), 44);
    a.port.replace(&mut net, LogicVector::from_int_value(0, 8).unwrap());
    while circuit.tick(&mut net) {}
    assert_eq!(sum.value(&net), 100);
    assert_eq!(negative.value(&net), 0);
    a.port.replace(&mut net, LogicVector::from_str("0000Z001").unwrap());
    while circuit.tick(&mut net) {}
    assert!(sum.value(&net).is_UUU());
    assert!(negative.value(&net).is_UUU());
    assert_eq!(sum.value(&net).width(), 8);
}

#[test]
fn switch_and_led_hold_values() {
    let mut net = Network::new();
    let switch = Switch::new_with_value(&mut net, 7u32);
    let led = Led::new_with_value(&mut net, 0u32);
    assert_eq!(led.value(&net), 0);
    switch.set_value(&mut net, 9);
    let seen = logical::port::PortConnector::<u32, Input>::try_from_port(&switch.output).unwrap();
    assert_eq!(seen.value(&net), Some(9));
    let mut bits = Network::new();
    let lamp = logical::models::outputs::Led::new(&mut bits, Ieee1164::_H());
    assert_eq!(lamp.iter_values(&bits), vec![Ieee1164::_H()]);
}

#[test]
fn integers_resolve_by_or() {
    let a = Integer::new_with_value(0b1100, Some(8));
    let b = Integer::new_with_value(0b1010, Some(8));
    assert_eq!(a.resolve(&b).value(), 0b1110);
    assert_eq!(a.resolve(&b), b.resolve(&a));
    assert_eq!(Resolve::width(&a), 8);
    assert!(a.same_as(&a) && !a.same_as(&b));
    assert_eq!(Integer::new().width(), 128);
    assert_eq!(Integer::new().value(), 0);
    assert_eq!(Integer::new_with_value(5, None).width(), 128);
    assert!(Integer::new_with_value(5, None) == Integer::new_with_value(5, Some(3)));
    assert!(Integer::new_with_value(5, None) == 5);
    assert_eq!(Integer::default().width(), 0);
    assert!(Integer::new_with_width(0).is_none());
    assert!(Integer::new_with_width(129).is_none());
    assert_eq!(Integer::new_with_width(128).unwrap().width(), 128);
    let mut c = Integer::new_with_value(0xff, Some(8));
    c.set_width(4);
    assert_eq!(c.value(), 0xf);
    assert_eq!(c.width(), 8);
    c.set_width(0);
    c.set_width(200);
    assert_eq!(c.value(), 0xf);
    let mut d = Integer::new_with_value(u128::MAX, None);
    d.set_width(128);
    assert_eq!(d.value(), u128::MAX);
    let mut net = Network::new();
    let s = Signal::new(&mut net);
    let p = Port::<_, Output>::new(&mut net, a);
    let q = Port::<_, Output>::new(&mut net, b);
    let seen = Port::<_, Input>::new(&mut net, Integer::new_with_width(8).unwrap());
    for port in [p, q] {
        s.connect(&mut net, &port).unwrap();
    }
    s.connect(&mut net, &seen).unwrap();
    assert!(s.update(&mut net));
    assert_eq!(seen.value(&net).value(), 0b1110);
}

#[test]
fn dump_lists_variables_and_values() {
    let mut net = Network::new();
    let xor = XorGate::new(&mut net);
    let mut vcd = Vcd::new("VCD Example");
    assert!(vcd.can_record("a"));
    vcd.serialize_ports(&net, &xor);
    xor.z.replace(&mut net, Ieee1164::_1());
    assert!(xor.update(&mut net));
    vcd.tick();
    vcd.serialize_ports(&net, &xor);
    vcd.serialize_logivector("bus", &LogicVector::from_int_value(5, 4).unwrap());
    vcd.tick();
    vcd.serialize_ieee1164("z", Ieee1164::_Z());
    vcd.serialize_logivector("bus", &LogicVector::from_str("1X0-").unwrap());
    assert_eq!(vcd.timestamp(), 2);
    assert_eq!(vcd.identifiers(), 4);
    let text: String = vcd.render("2019-03-01 12:00:00").iter().collect();
    let expected = "$date\n 2019-03-01 12:00:00\n$end\n\
$version\n Logical-rs VCD dumper\n$end\n\
$timescale 1ps $end\n\
$scope module VCD Example $end\n\
$var wire 1 \" a $end\n\
$var wire 1 # b $end\n\
$var wire 1 $ z $end\n\
$var reg 4 % bus $end\n\
$upscope $end\n\
$enddefinitions $end\n\
$dumpvars\n\
#0\nU\"\nU#\nU$\n\
#1\nU\"\nU#\nU$\nb0101 %\n\
#2\nZ$\nb1X0- %\n";
    assert_eq!(text, expected);
}

#[test]
fn dump_runs_out_of_characters() {
    let mut vcd = Vcd::new("m");
    for k in 0..94 {
        let name = format!("v{}", k);
        assert!(vcd.can_record(&name));
        vcd.serialize_ieee1164(&name, Ieee1164::_0());
    }
    assert!(!vcd.can_record("one more"));
    assert!(vcd.can_record("v17"));
    vcd.serialize_ieee1164("v17", Ieee1164::_1());
    assert_eq!(vcd.identifiers(), 94);
    let text: String = vcd.render("").iter().collect();
    assert!(text.contains("$var wire 1 \u{7f} v93 $end\n"));
    assert!(text.ends_with("0\u{7f}\n13\n"));
    let mut many = Vcd::new("m");
    for _ in 0..12 {
        many.tick();
    }
    let text: String = many.render("").iter().collect();
    assert!(text.ends_with("#9\n#10\n#11\n#12\n"));
}
