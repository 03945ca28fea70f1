use logical::direction::{InOut, Input, Output};
use logical::signal::ConnectionError;
use logical::{Ieee1164, LogicVector, Network, Port, Resolve, Signal};

#[test]
fn signal_no_value_no_port() {
    let mut net = Network::new();
    let s = Signal::<Ieee1164>::default(&mut net);
    let port = Port::<_, Input>::default(&mut net);
    s.connect(&mut net, &port).unwrap();
    assert_eq!(Ieee1164::default(), port.value(&net));
    s.update(&mut net);
    assert_eq!(Ieee1164::default(), port.value(&net));
    for _ in 0..1000 {
        s.update(&mut net);
        assert_eq!(Ieee1164::default(), port.value(&net));
    }
}

#[test]
fn signal_single_port() {
    let mut net = Network::new();
    let i = Port::<_, Input>::default(&mut net);
    let p = Port::<_, Output>::default(&mut net);
    let s = Signal::default(&mut net);

    s.connect(&mut net, &i).unwrap();
    s.connect(&mut net, &p).unwrap();
    assert_eq!(Ieee1164::default(), i.value(&net));
    s.update(&mut net);
    assert_eq!(Ieee1164::Uninitialized, i.value(&net));
    for _ in 0..1000 {
        s.update(&mut net);
        assert_eq!(Ieee1164::Uninitialized, i.value(&net));
    }

    let val = Ieee1164::_1();
    p.replace(&mut net, val);
    assert!(s.update(&mut net));
    assert_eq!(val, i.value(&net));

    for _ in 0..1000 {
        assert!(!s.update(&mut net));
        assert_eq!(val, i.value(&net));
    }
}

#[test]
fn signal_after_disconnect() {
    let mut net = Network::new();
    let val_a = Ieee1164::_1();
    let val_b = Ieee1164::_0();
    let p = Port::<_, InOut>::new(&mut net, val_a);
    let o = Port::<_, Input>::default(&mut net);
    let s = Signal::default(&mut net);
    s.connect(&mut net, &p).unwrap();
    s.connect(&mut net, &o).unwrap();
    s.update(&mut net);
    assert_eq!(val_a, o.value(&net));

    s.disconnect(&mut net, &p);
    p.replace(&mut net, val_b);
    s.update(&mut net);
    assert_ne!(val_b, o.value(&net));
    assert_eq!(val_a, o.value(&net));
    assert!(!p.is_connected(&net));
    assert!(o.is_connected(&net));
    s.disconnect(&mut net, &p);
    assert_eq!(s.input_count(&net), 0);
    assert_eq!(s.output_count(&net), 1);
}

#[test]
fn signal_multiple_ports() {
    let mut net = Network::new();
    let val_a = Ieee1164::_H();
    let val_b = Ieee1164::_0();
    let p1 = Port::<_, InOut>::new(&mut net, val_a);
    let p2 = Port::<_, InOut>::new(&mut net, val_b);
    let o = Port::<_, Input>::new(&mut net, Ieee1164::_D());
    let s = Signal::default(&mut net);

    s.connect(&mut net, &p1).unwrap();
    s.connect(&mut net, &p2).unwrap();
    s.connect(&mut net, &o).unwrap();
    s.update(&mut net);
    assert_eq!(val_a.resolve(&val_b), o.value(&net));
    assert_eq!(Ieee1164::_0(), o.value(&net));
    assert_eq!(p1.value(&net), val_a);
}

#[test]
fn signal_port_out_of_scope() {
    let mut net = Network::new();
    let s = Signal::default(&mut net);

    let val_a = Ieee1164::_1();
    let val_b = Ieee1164::_0();

    let p1 = Port::<_, Output>::new(&mut net, val_a);
    let o = Port::<_, Input>::default(&mut net);
    s.connect(&mut net, &p1).unwrap();
    s.connect(&mut net, &o).unwrap();

    {
        let p2 = Port::<_, Output>::new(&mut net, val_b);
        s.connect(&mut net, &p2).unwrap();
        s.update(&mut net);
        assert_eq!(val_a.resolve(&val_b), o.value(&net));
        p2.release(&mut net);
    }

    assert_eq!(s.input_count(&net), 2);
    s.update(&mut net);
    assert_eq!(val_a, o.value(&net));
    assert_eq!(s.input_count(&net), 1);
}

#[test]
fn disallow_multiple_connects() {
    let mut net = Network::new();
    let s = Signal::default(&mut net);

    let val = Ieee1164::_1();
    let p = Port::<_, InOut>::new(&mut net, val);
    s.connect(&mut net, &p).unwrap();
    assert_eq!(s.connect(&mut net, &p), Err(ConnectionError::AlreadyConnected));
    assert_eq!(1, s.input_count(&net));

    assert_eq!(s.connect(&mut net, &p), Err(ConnectionError::AlreadyConnected));
    assert_eq!(s.connect(&mut net, &p), Err(ConnectionError::AlreadyConnected));
    assert_eq!(0, s.output_count(&net));
}

#[test]
fn a_port_connects_to_one_signal_only() {
    let mut net = Network::new();
    let first = Signal::<Ieee1164>::new(&mut net);
    let second = Signal::<Ieee1164>::new(&mut net);
    let driver = Port::<_, Output>::new(&mut net, Ieee1164::_1());
    let load = Port::<_, Input>::default(&mut net);
    assert!(!driver.is_connected(&net));
    assert_eq!(first.connect(&mut net, &driver), Ok(()));
    assert!(driver.is_connected(&net));
    assert_eq!(second.connect(&mut net, &driver), Err(ConnectionError::AlreadyConnected));
    assert_eq!(first.connect(&mut net, &driver), Err(ConnectionError::AlreadyConnected));
    assert_eq!(first.input_count(&net), 1);
    assert_eq!(second.input_count(&net), 0);
    first.connect(&mut net, &load).unwrap();
    first.update(&mut net);
    assert_eq!(load.value(&net), Ieee1164::_1());
    second.disconnect(&mut net, &driver);
    assert!(driver.is_connected(&net));
    first.disconnect(&mut net, &driver);
    assert!(!driver.is_connected(&net));
    assert_eq!(second.connect(&mut net, &driver), Ok(()));
    assert_eq!(second.input_count(&net), 1);
}

#[test]
fn disconnection_stops_propagation() {
    let mut net = Network::new();
    let s = Signal::new(&mut net);
    let a = Port::<_, Output>::new(&mut net, Ieee1164::_1());
    let b = Port::<_, Output>::new(&mut net, Ieee1164::_H());
    let seen = Port::<_, Input>::default(&mut net);
    let also = Port::<_, Input>::default(&mut net);
    s.connect(&mut net, &a).unwrap();
    s.connect(&mut net, &b).unwrap();
    s.connect(&mut net, &seen).unwrap();
    s.connect(&mut net, &also).unwrap();
    assert!(s.update(&mut net));
    assert_eq!(seen.value(&net), Ieee1164::_1());
    s.disconnect(&mut net, &a);
    for value in [Ieee1164::_0(), Ieee1164::_X(), Ieee1164::_U(), Ieee1164::_1()] {
        a.replace(&mut net, value);
        s.update(&mut net);
        assert_eq!(seen.value(&net), Ieee1164::_H());
        assert_eq!(also.value(&net), Ieee1164::_H());
    }
}

#[test]
fn drivers_resolve_in_the_order_of_connection() {
    let mut net = Network::new();
    let s = Signal::new(&mut net);
    let seen = Port::<_, Input>::default(&mut net);
    s.connect(&mut net, &seen).unwrap();
    let values = [Ieee1164::_Z(), Ieee1164::_L(), Ieee1164::_H(), Ieee1164::_Z()];
    let mut expected = values[0];
    for (k, v) in values.iter().enumerate() {
        let p = Port::<_, Output>::new(&mut net, *v);
        s.connect(&mut net, &p).unwrap();
        if k > 0 {
            expected = expected.resolve(v);
        }
        s.update(&mut net);
        assert_eq!(seen.value(&net), expected);
    }
    assert_eq!(seen.value(&net), Ieee1164::_W());
    let strong = Port::<_, Output>::new(&mut net, Ieee1164::_0());
    s.connect(&mut net, &strong).unwrap();
    assert!(s.update(&mut net));
    assert_eq!(seen.value(&net), Ieee1164::_0());
    assert!(!s.update(&mut net));
}

#[test]
fn a_signal_refuses_another_width() {
    let mut net = Network::new();
    let s = Signal::<LogicVector>::new(&mut net);
    let wide = Port::<_, Output>::new(&mut net, LogicVector::from_int_value(5, 8).unwrap());
    let narrow = Port::<_, Input>::new(&mut net, LogicVector::with_width(4));
    let fitting = Port::<_, Input>::new(&mut net, LogicVector::with_width(8));
    assert_eq!(s.connect(&mut net, &wide), Ok(()));
    assert_eq!(s.connect(&mut net, &narrow), Err(ConnectionError::MismatchWidth(4, 8)));
    assert!(!narrow.is_connected(&net));
    assert_eq!(s.output_count(&net), 0);
    assert_eq!(s.connect(&mut net, &fitting), Ok(()));
    assert!(s.update(&mut net));
    assert_eq!(fitting.value(&net), 5);
    assert_eq!(narrow.value(&net), LogicVector::with_width(4));
    wide.release(&mut net);
    fitting.release(&mut net);
    assert_eq!(s.connect(&mut net, &narrow), Ok(()));
    assert!(!s.update(&mut net));
    assert_eq!(s.input_count(&net), 0);
    assert_eq!(s.output_count(&net), 1);
}

#[test]
fn a_released_signal_lets_its_ports_go() {
    let mut net = Network::new();
    let s = Signal::new(&mut net);
    let other = Signal::new(&mut net);
    let driver = Port::<_, Output>::new(&mut net, Ieee1164::_1());
    let load = Port::<_, Input>::default(&mut net);
    s.connect(&mut net, &driver).unwrap();
    s.connect(&mut net, &load).unwrap();
    assert!(s.is_valid(&net));
    s.release(&mut net);
    assert!(!s.is_valid(&net));
    assert!(other.is_valid(&net));
    assert!(!driver.is_connected(&net) && !load.is_connected(&net));
    assert_eq!(other.connect(&mut net, &driver), Ok(()));
    assert_eq!(other.connect(&mut net, &load), Ok(()));
    other.remove_expired_portconnector(&mut net);
    assert!(other.update(&mut net));
    assert_eq!(load.value(&net), Ieee1164::_1());
}

#[test]
fn a_value_of_another_width_is_noticed() {
    let mut net = Network::new();
    let s = Signal::<LogicVector>::new(&mut net);
    let other = Signal::<LogicVector>::new(&mut net);
    let driver = Port::<_, Output>::new(&mut net, LogicVector::with_width(8));
    let load = Port::<_, Input>::new(&mut net, LogicVector::with_width(8));
    assert!(s.widths_agree(&net));
    s.connect(&mut net, &driver).unwrap();
    s.connect(&mut net, &load).unwrap();
    assert!(s.widths_agree(&net) && other.widths_agree(&net));
    assert!(logical::signal::is_consistent(&net));
    driver.replace(&mut net, LogicVector::with_width(4));
    assert!(!s.widths_agree(&net) && other.widths_agree(&net));
    assert!(!logical::signal::is_consistent(&net));
    driver.replace(&mut net, LogicVector::from_int_value(7, 8).unwrap());
    assert!(logical::signal::is_consistent(&net));
    assert!(s.update(&mut net));
    assert_eq!(load.value(&net), 7);
    load.release(&mut net);
    driver.replace(&mut net, LogicVector::with_width(4));
    assert!(logical::signal::is_consistent(&net));
    other.release(&mut net);
    assert!(logical::signal::is_consistent(&net));
}
