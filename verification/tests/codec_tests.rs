use rust_decimal::prelude::ToPrimitive;
use vrc_counter::codec::{decode_datagram, encode_signal, Inbound, OutboundSignal, WireArg};
use vrc_counter::mapper::int_to_decimal;

fn bool_message(addr: &str, value: bool) -> Vec<u8> {
    rosc::encoder::encode(&rosc::OscPacket::Message(rosc::OscMessage {
        addr: addr.to_string(),
        args: vec![rosc::OscType::Bool(value)],
    }))
    .unwrap()
}

#[test]
fn decodes_a_boolean_message() {
    let bytes = bool_message("/avatar/parameters/mask_grabbed", true);
    let decoded = decode_datagram(&bytes).unwrap();
    match decoded {
        Inbound::Message(m) => {
            assert_eq!(m.addr, "/avatar/parameters/mask_grabbed");
            assert_eq!(m.args, vec![WireArg::Bool(true)]);
        }
        Inbound::Bundle => panic!("expected a message"),
    }
}

#[test]
fn reduces_non_boolean_arguments() {
    let bytes = rosc::encoder::encode(&rosc::OscPacket::Message(rosc::OscMessage {
        addr: "/avatar/parameters/mask_counter".to_string(),
        args: vec![rosc::OscType::Float(0.25), rosc::OscType::Bool(false)],
    }))
    .unwrap();
    let decoded = decode_datagram(&bytes).unwrap();
    match decoded {
        Inbound::Message(m) => {
            assert_eq!(m.args, vec![WireArg::Other, WireArg::Bool(false)]);
        }
        Inbound::Bundle => panic!("expected a message"),
    }
}

#[test]
fn decodes_a_bundle_as_informational() {
    let bytes = rosc::encoder::encode(&rosc::OscPacket::Bundle(rosc::OscBundle {
        timetag: rosc::OscTime { seconds: 0, fractional: 1 },
        content: vec![],
    }))
    .unwrap();
    assert_eq!(decode_datagram(&bytes), Some(Inbound::Bundle));
}

#[test]
fn rejects_malformed_payloads_and_recovers() {
    assert_eq!(decode_datagram(&[]), None);
    assert_eq!(decode_datagram(&[0xff, 0x01, 0x02]), None);
    let valid = bool_message("/avatar/parameters/mask_posed", true);
    assert_eq!(decode_datagram(&valid[..valid.len() - 3]), None);
    assert!(decode_datagram(&valid).is_some());
}

#[test]
fn encodes_exactly_as_the_protocol_library_does() {
    let signal = OutboundSignal {
        address: "/avatar/parameters/mask_counter".to_string(),
        value: int_to_decimal(42),
    };
    let got = encode_signal(&signal);
    let value = rust_decimal::Decimal::new(-58, 2).to_f32().unwrap();
    assert_eq!(value, -0.58f32);
    let expected = rosc::encoder::encode(&rosc::OscPacket::Message(rosc::OscMessage {
        addr: "/avatar/parameters/mask_counter".to_string(),
        args: vec![rosc::OscType::Float(value)],
    }))
    .unwrap();
    assert_eq!(got, expected);
}

#[test]
fn encoded_signal_round_trips_through_the_decoder() {
    let signal = OutboundSignal {
        address: "/avatar/parameters/mask_iteration".to_string(),
        value: int_to_decimal(3),
    };
    let bytes = encode_signal(&signal);
    let (rest, packet) = rosc::decoder::decode_udp(&bytes).unwrap();
    assert!(rest.is_empty());
    match packet {
        rosc::OscPacket::Message(m) => {
            assert_eq!(m.addr, "/avatar/parameters/mask_iteration");
            let value = rust_decimal::Decimal::new(-97, 2).to_f32().unwrap();
            assert_eq!(m.args, vec![rosc::OscType::Float(value)]);
        }
        rosc::OscPacket::Bundle(_) => panic!("expected a message"),
    }
}
