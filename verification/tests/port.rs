use logical::direction::{InOut, Input, Output};
use logical::port::PortConnector;
use logical::{Ieee1164, LogicVector, Network, Port};

#[test]
fn reading() {
    let mut net = Network::new();
    let s = Port::<_, Input>::new(&mut net, 3);
    assert_eq!(s.value(&net), 3);
}

#[test]
fn set() {
    let mut net = Network::new();
    let s = Port::<_, Output>::default(&mut net);
    s.replace(&mut net, LogicVector::from_int_value(3, 8));
    let seen = Port::<Option<LogicVector>, Input>::default(&mut net);
    assert_eq!(seen.value(&net), None);
    let connector = PortConnector::<Option<LogicVector>, Input>::try_from_port(&s).unwrap();
    assert_eq!(connector.value(&net), Some(LogicVector::from_int_value(3, 8)));
}

#[test]
fn reset() {
    let mut net = Network::new();
    let s = Port::<_, InOut>::default(&mut net);
    s.replace(&mut net, LogicVector::from_int_value(5, 8));
    assert_eq!(s.value(&net).unwrap(), 5);
    s.replace(&mut net, LogicVector::from_int_value(6, 8));
    assert_eq!(s.value(&net).unwrap(), 6);
}

#[test]
fn reset_before_reading() {
    let mut net = Network::new();
    let s = Port::<_, InOut>::default(&mut net);
    s.replace(&mut net, LogicVector::from_int_value(4, 8));
    let before = s.replace(&mut net, LogicVector::from_int_value(8, 8));
    assert_eq!(before.unwrap(), 4);
    assert_eq!(s.value(&net).unwrap(), 8);
}

#[test]
fn port_in_out_reads_what_it_wrote() {
    let mut net = Network::new();
    let port = Port::<u32, InOut>::new(&mut net, 3u32);
    assert_eq!(3u32, port.value(&net));
    assert_eq!(port.replace(&mut net, 5), 3);
    assert_eq!(5, port.value(&net));
    let copy = port;
    assert!(copy == port);
    assert_eq!(copy.value(&net), 5);
    assert_eq!(copy.id(), 0);
    let other = Port::<u32, InOut>::new(&mut net, 5u32);
    assert!(other != port);
    assert_eq!(net.port_count(), 2);
    assert_eq!(net.signal_count(), 0);
}

#[test]
fn port_hands_its_value_to_closures() {
    let mut net = Network::new();
    let port = Port::<String, InOut>::new(&mut net, String::from("ABC"));
    port.with_value_mut(&mut net, |value| value.push('D'));
    let mut seen = String::new();
    port.with_value(&net, |value| seen = value.clone());
    assert_eq!(seen, "ABCD");
}

#[test]
fn port_release_voids_its_connectors() {
    let mut net = Network::new();
    let port = Port::<Ieee1164, InOut>::new(&mut net, Ieee1164::_1());
    let reader = PortConnector::<Ieee1164, Input>::try_from_port(&port).unwrap();
    let writer = PortConnector::<Ieee1164, Output>::try_from_port(&port).unwrap();
    assert!(port.is_valid(&net) && reader.is_valid(&net) && writer.is_valid(&net));
    assert!(!port.is_connected(&net));
    writer.set_value(&mut net, Ieee1164::_0());
    assert_eq!(reader.value(&net), Some(Ieee1164::_0()));
    let other = Port::<Ieee1164, InOut>::default(&mut net);
    let other_reader = PortConnector::<Ieee1164, Input>::try_from_port(&other).unwrap();
    assert!(!reader.same_port(&other_reader, &net));
    assert!(other != port);
    assert!(reader.same_port(&reader, &net));
    port.release(&mut net);
    assert!(!port.is_valid(&net) && !reader.is_valid(&net));
    assert_eq!(reader.value(&net), None);
    assert!(!reader.same_port(&reader, &net));
    writer.set_value(&mut net, Ieee1164::_1());
    assert_eq!(reader.value(&net), None);
}

#[test]
fn connectors_follow_the_direction() {
    let mut net = Network::new();
    let input = Port::<Ieee1164, Input>::default(&mut net);
    let output = Port::<Ieee1164, Output>::default(&mut net);
    let both = Port::<Ieee1164, InOut>::default(&mut net);
    assert!(PortConnector::<Ieee1164, Input>::try_from_port(&input).is_err());
    assert!(PortConnector::<Ieee1164, Input>::try_from_port(&output).is_ok());
    assert!(PortConnector::<Ieee1164, Input>::try_from_port(&both).is_ok());
    assert!(PortConnector::<Ieee1164, Output>::try_from_port(&input).is_ok());
    assert!(PortConnector::<Ieee1164, Output>::try_from_port(&output).is_err());
    assert!(PortConnector::<Ieee1164, Output>::try_from_port(&both).is_ok());
}
