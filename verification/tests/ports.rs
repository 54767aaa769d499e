use exchange_backend::ports::{port_from_wire, port_wire_name, PortNameError, PortParseError};
use exchange_backend::protocol::PortId;

#[test]
fn ports_are_single_wire_strings() {
    for port in [
        PortId::Subscriber(0),
        PortId::Subscriber(15),
        PortId::Operator,
        PortId::RingGenerator,
        PortId::Tap(1),
        PortId::Tap(2),
        PortId::Tap(3),
        PortId::Tap(4),
    ] {
        let name = port_wire_name(port).unwrap();
        let bytes = serde_cbor::to_vec(&name).unwrap();
        let text: String = serde_cbor::from_slice(&bytes).unwrap();
        let decoded = port_from_wire(&text).unwrap();
        assert_eq!(decoded, port);
    }

    assert_eq!(
        serde_cbor::to_vec(&port_wire_name(PortId::Subscriber(3)).unwrap()).unwrap(),
        serde_cbor::to_vec(&"subscriber_3").unwrap()
    );
    let text: String = serde_cbor::from_slice(&serde_cbor::to_vec(&"tap_5").unwrap()).unwrap();
    assert!(port_from_wire(&text).is_err());
}

#[test]
fn port_names_are_exact() {
    assert_eq!(port_wire_name(PortId::Subscriber(15)).unwrap(), "subscriber_15");
    assert_eq!(port_wire_name(PortId::Operator).unwrap(), "operator");
    assert_eq!(port_wire_name(PortId::RingGenerator).unwrap(), "ring_generator");
    assert_eq!(port_wire_name(PortId::Tap(4)).unwrap(), "tap_4");
}

#[test]
fn ports_outside_the_switchboard_have_no_name() {
    assert_eq!(port_wire_name(PortId::Subscriber(16)), Err(PortNameError::InvalidSubscriber));
    assert_eq!(port_wire_name(PortId::Tap(0)), Err(PortNameError::InvalidTap));
    assert_eq!(port_wire_name(PortId::Tap(5)), Err(PortNameError::InvalidTap));
}

#[test]
fn port_names_are_read_strictly() {
    assert_eq!(port_from_wire("subscriber_7"), Ok(PortId::Subscriber(7)));
    assert_eq!(port_from_wire("subscriber_16"), Err(PortParseError::SubscriberOutOfRange));
    assert_eq!(port_from_wire("tap_0"), Err(PortParseError::TapOutOfRange));
    assert_eq!(port_from_wire("subscriber_07"), Err(PortParseError::SubscriberOutOfRange));
    assert_eq!(port_from_wire("subscriber_"), Err(PortParseError::SubscriberOutOfRange));
    assert_eq!(port_from_wire("subscriber_256"), Err(PortParseError::SubscriberOutOfRange));
    assert_eq!(port_from_wire("tap_+1"), Ok(PortId::Tap(1)));
    assert_eq!(port_from_wire("jack_1"), Err(PortParseError::Invalid));
}
