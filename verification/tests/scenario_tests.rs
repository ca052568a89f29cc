use vrc_counter::codec::{decode_datagram, Inbound, WireArg, WireMessage};
use vrc_counter::engine::{counter_param, iteration_param, Dispatch, Engine};
use vrc_counter::rules::{MaskEventKind, Rule};
use vrc_counter::screen::TestModal;

#[test]
fn a_grab_at_the_cycle_edge_rolls_over_on_the_next_datagram() {
    let rules = vec![Rule {
        kind: MaskEventKind::UpGrabbed,
        pattern: "mask_grabbed_up".to_string(),
    }];
    let mut engine = Engine::new(rules, 199);
    assert!(engine.check_rollover().is_none());

    let grab = Inbound::Message(WireMessage {
        addr: "/avatar/parameters/mask_grabbed_up".to_string(),
        args: vec![WireArg::Bool(true)],
    });
    let kinds = match engine.dispatch(&grab) {
        Dispatch::Classified(kinds) => kinds,
        _ => panic!("expected classification"),
    };
    assert_eq!(kinds, vec![MaskEventKind::UpGrabbed]);
    let effect = engine.apply_event(MaskEventKind::UpGrabbed, true);
    assert_eq!(engine.data_len, 200);
    let counter_signal = effect.signal.unwrap();
    assert_eq!(counter_signal.address, counter_param());
    assert_eq!(counter_signal.value.centis, 100);

    // The next datagram, of any kind, first triggers the rollover check.
    let rollover_signal = engine.check_rollover().unwrap();
    assert_eq!(engine.data_len, 0);
    assert_eq!(engine.iteration_amount, 1);
    assert_eq!(rollover_signal.address, iteration_param());
    assert_eq!(rollover_signal.value.centis, -99);
    assert_eq!(engine.dispatch(&Inbound::Bundle), Dispatch::Ignore);
}

#[test]
fn a_seeded_backlog_is_folded_by_the_first_rollover_check() {
    let mut engine = Engine::new(Vec::new(), 417);
    let signal = engine.check_rollover().unwrap();
    assert_eq!(engine.data_len, 17);
    assert_eq!(engine.iteration_amount, 2);
    assert_eq!(signal.value.centis, -98);
}

#[test]
fn a_malformed_datagram_costs_only_itself() {
    let rules = vec![Rule {
        kind: MaskEventKind::UpGrabbed,
        pattern: "mask_grabbed_up".to_string(),
    }];
    let mut engine = Engine::new(rules, 3);
    assert!(decode_datagram(&[0x2f, 0x00]).is_none());
    assert_eq!(engine.data_len, 3);

    let valid = rosc::encoder::encode(&rosc::OscPacket::Message(rosc::OscMessage {
        addr: "/avatar/parameters/mask_grabbed_up".to_string(),
        args: vec![rosc::OscType::Bool(true)],
    }))
    .unwrap();
    let inbound = decode_datagram(&valid).unwrap();
    match engine.dispatch(&inbound) {
        Dispatch::Classified(kinds) => assert_eq!(kinds, vec![MaskEventKind::UpGrabbed]),
        _ => panic!("expected classification"),
    }
    engine.apply_event(MaskEventKind::UpGrabbed, true);
    assert_eq!(engine.data_len, 4);
}

#[test]
fn the_test_modal_opens_fresh() {
    let modal = TestModal::new();
    assert_eq!(modal, TestModal);
}
