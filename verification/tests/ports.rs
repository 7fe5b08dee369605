use jack2::port::{collect_aliases, JACK_PORT_IS_INPUT, JACK_PORT_IS_OUTPUT};
use jack2::{Error, PortFlags, PortId, PortMode, PortType};

#[test]
fn port_flags_queries() {
    let f = PortFlags::from_bits(0x1 | 0x4 | 0x10);
    assert!(f.is_input());
    assert!(!f.is_output());
    assert!(f.is_physical());
    assert!(!f.can_monitor());
    assert!(f.is_terminal());
    assert_eq!(f.mode(), PortMode::Input);
    assert_eq!(PortFlags::from_bits(0x2 | 0x8).mode(), PortMode::Output);
    assert!(PortFlags::from_bits(0x8).can_monitor());
    assert_eq!(u32::from(f), 0x15);
    assert_eq!(f.bits(), 0x15);
}

#[test]
fn port_type_names() {
    assert_eq!(PortType::Audio.as_str(), "32 bit float mono audio");
    assert_eq!(PortType::Midi.as_str(), "8 bit raw midi");
    assert_eq!(PortType::from_type_id(0), Some(PortType::Audio));
    assert_eq!(PortType::from_type_id(1), Some(PortType::Midi));
    assert_eq!(PortType::from_type_id(2), None);
}

#[test]
fn port_mode_flags() {
    assert_eq!(PortMode::Input.flags(), JACK_PORT_IS_INPUT);
    assert_eq!(PortMode::Output.flags(), JACK_PORT_IS_OUTPUT);
}

#[test]
fn port_ids_are_never_zero() {
    assert!(PortId::from_raw(0).is_none());
    assert_eq!(PortId::from_raw(9).unwrap().get(), 9);
}

#[test]
fn aliases_follow_the_count() {
    let none = collect_aliases(0, b"a".to_vec(), b"b".to_vec()).unwrap();
    assert_eq!(none.len(), 0);
    let one = collect_aliases(1, b"system:capture_1".to_vec(), b"x".to_vec()).unwrap();
    assert_eq!(one.len(), 1);
    assert_eq!(one[0], b"system:capture_1".to_vec());
    let two = collect_aliases(2, b"a".to_vec(), b"b".to_vec()).unwrap();
    assert_eq!(&two[..], &[b"a".to_vec(), b"b".to_vec()]);
    let many = collect_aliases(5, b"a".to_vec(), b"b".to_vec()).unwrap();
    assert_eq!(many.len(), 2);
    match collect_aliases(-1, Vec::new(), Vec::new()) {
        Err(Error::Failure(f)) => assert_eq!(f.bits(), 0x01),
        other => panic!("unexpected {:?}", other),
    }
}
