use jack2::client::{JACK_NO_START_SERVER, JACK_SERVER_NAME, JACK_USE_EXACT_NAME};
use jack2::{
    ActivateFlags, ClientBuilder, ClientOptions, Error, PortCreateFlags, PortInfo, PortMode,
    PortType, Status,
};

#[test]
fn client_options_bits() {
    assert_eq!(ClientOptions::empty().bits(), 0);
    assert!(ClientOptions::empty().is_empty());
    assert_eq!(ClientOptions::no_start_server().bits(), JACK_NO_START_SERVER);
    assert_eq!(ClientOptions::use_exact_name().bits(), JACK_USE_EXACT_NAME);
    let both = ClientOptions::no_start_server().union(ClientOptions::use_exact_name());
    assert_eq!(both, ClientOptions::all());
    assert!(both.contains(ClientOptions::use_exact_name()));
    assert!(!ClientOptions::no_start_server().contains(ClientOptions::use_exact_name()));
    assert_eq!(ClientOptions::from_bits_truncate(0xff).bits(), 0x03);
}

#[test]
fn port_create_flags_bits() {
    assert_eq!(PortCreateFlags::physical().bits(), 0x04);
    assert_eq!(PortCreateFlags::can_monitor().bits(), 0x08);
    assert_eq!(PortCreateFlags::terminal().bits(), 0x10);
    assert_eq!(PortCreateFlags::all().bits(), 0x1c);
    assert_eq!(PortCreateFlags::from_bits_truncate(0x03).bits(), 0);
    let f = PortCreateFlags::physical().union(PortCreateFlags::terminal());
    assert!(f.contains(PortCreateFlags::terminal()));
    assert!(!f.contains(PortCreateFlags::can_monitor()));
    assert!(!f.is_empty());
}

#[test]
fn activate_flags_bits() {
    assert_eq!(ActivateFlags::latency().bits(), 1);
    assert_eq!(ActivateFlags::sync().bits(), 2);
    assert_eq!(ActivateFlags::timebase().bits(), 4);
    assert_eq!(ActivateFlags::timebase_force().bits(), 12);
    assert!(ActivateFlags::timebase_force().contains(ActivateFlags::timebase()));
    assert!(!ActivateFlags::timebase().contains(ActivateFlags::timebase_force()));
    assert_eq!(ActivateFlags::all().bits(), 15);
    assert!(ActivateFlags::empty().is_empty());
    assert_eq!(ActivateFlags::from_bits_truncate(0x31).bits(), 1);
    assert_eq!(ActivateFlags::latency().union(ActivateFlags::sync()).bits(), 3);
}

#[test]
fn status_bits() {
    let s = Status::new(0);
    assert!(s.has_exact_name());
    assert!(!s.server_started());
    let s = Status::new(0x04 | 0x08);
    assert!(!s.has_exact_name());
    assert!(s.server_started());
    assert_eq!(u32::from(s), 0x0c);
}

#[test]
fn port_info_constructors() {
    let p = PortInfo::audio_in("in", 1u8);
    assert_eq!((p.name, p.type_, p.mode, p.flags.bits(), p.data), ("in", PortType::Audio, PortMode::Input, 0, 1));
    let p = PortInfo::audio_out("out", ());
    assert_eq!((p.type_, p.mode), (PortType::Audio, PortMode::Output));
    let p = PortInfo::midi_in("min", ());
    assert_eq!((p.type_, p.mode), (PortType::Midi, PortMode::Input));
    let p = PortInfo::midi_out("mout", ()).flags(PortCreateFlags::terminal());
    assert_eq!((p.type_, p.mode, p.flags.bits()), (PortType::Midi, PortMode::Output, 0x10));
}

#[test]
fn prepare_checks_names_and_joins_flags() {
    let req = PortInfo::audio_out("Mono Out", 5u32)
        .flags(PortCreateFlags::physical())
        .prepare(3)
        .unwrap();
    assert_eq!(req.index, 3);
    assert_eq!(req.name, b"Mono Out".to_vec());
    assert_eq!(req.flags.bits(), 0x2 | 0x4);
    assert_eq!(req.type_, PortType::Audio);
    assert_eq!(req.data, 5);
    let err = PortInfo::midi_in("bad\0name", ()).prepare(7).unwrap_err();
    assert_eq!(err.index(), 7);
}

#[test]
fn client_builder_request() {
    let req = ClientBuilder::<u8>::new("sine")
        .flags(ClientOptions::no_start_server())
        .into_request()
        .unwrap();
    assert_eq!(req.name, b"sine".to_vec());
    assert_eq!(req.flags, JACK_NO_START_SERVER);
    assert!(req.server_name.is_none());
    assert_eq!(req.context, 0);

    let req = ClientBuilder::with_context("scope", 9u8)
        .server_name(b"other".to_vec())
        .flags(ClientOptions::use_exact_name())
        .into_request()
        .unwrap();
    assert_eq!(req.flags, JACK_SERVER_NAME | JACK_USE_EXACT_NAME);
    assert_eq!(req.server_name, Some(b"other".to_vec()));
    assert_eq!(req.context, 9);

    match ClientBuilder::with_context("a\0b", ()).into_request() {
        Err(Error::InvalidCString(p)) => assert_eq!(p, 1),
        other => panic!("unexpected {:?}", other.map(|r| r.name)),
    }
}

#[test]
fn flag_defaults_are_empty() {
    assert_eq!(ClientOptions::default().bits(), 0);
    assert_eq!(PortCreateFlags::default().bits(), 0);
    assert_eq!(ActivateFlags::default().bits(), 0);
}

#[test]
fn registered_flags_select_one_direction() {
    let cases = [
        (PortMode::Input, PortCreateFlags::all()),
        (PortMode::Output, PortCreateFlags::all()),
        (PortMode::Input, PortCreateFlags::empty()),
        (PortMode::Output, PortCreateFlags::physical()),
    ];
    for (i, (mode, flags)) in cases.into_iter().enumerate() {
        let info = PortInfo {
            name: "p",
            type_: PortType::Audio,
            mode,
            flags,
            data: (),
        };
        let req = info.prepare(i).unwrap();
        assert_ne!(req.flags.is_input(), req.flags.is_output());
        assert_eq!(req.flags.mode(), mode);
    }
}

#[test]
fn later_builder_flags_keep_earlier_ones() {
    let req = ClientBuilder::<u8>::new("keep")
        .flags(ClientOptions::no_start_server())
        .flags(ClientOptions::use_exact_name())
        .flags(ClientOptions::empty())
        .into_request()
        .unwrap();
    assert_eq!(req.flags, JACK_NO_START_SERVER | JACK_USE_EXACT_NAME);
}

#[test]
fn builder_calls_in_any_order_accumulate() {
    let req = ClientBuilder::<u8>::new("mix")
        .flags(ClientOptions::no_start_server())
        .server_name(b"first".to_vec())
        .flags(ClientOptions::use_exact_name())
        .server_name(b"second".to_vec())
        .into_request()
        .unwrap();
    assert_eq!(req.flags, JACK_NO_START_SERVER | JACK_SERVER_NAME | JACK_USE_EXACT_NAME);
    assert_eq!(req.server_name, Some(b"second".to_vec()));
    assert_eq!(req.name, b"mix".to_vec());
}
