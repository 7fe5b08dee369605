use jack2::exchange::{
    publish_locked, publish_ports, release_locked, release_pending, release_unregistered,
    ReleaseSchedule,
};
use jack2::{
    Error, OwnedPortUuid, PortEntry, PortFlags, PortMode, PortRegistration, PortTable, PortType,
};

fn entry(tag: &'static str, flags: u32, port_type: PortType) -> PortEntry<&'static str> {
    PortEntry { port: tag, flags: PortFlags::from_bits(flags), port_type }
}

fn key(v: u64) -> OwnedPortUuid {
    OwnedPortUuid::from_raw(v).unwrap()
}

#[test]
fn owned_port_uuid_from_raw() {
    assert!(OwnedPortUuid::from_raw(0).is_none());
    assert_eq!(key(77).uuid().value(), 77);
}

#[test]
fn commit_reports_each_position() {
    let mut table = PortTable::new();
    let results = table.commit(vec![
        PortRegistration::Registered { uuid: key(10), entry: entry("a", 0x1, PortType::Audio) },
        PortRegistration::Refused,
        PortRegistration::Registered { uuid: key(11), entry: entry("b", 0x2, PortType::Midi) },
    ]);
    assert_eq!(results.len(), 3);
    assert_eq!(results[0], Ok(key(10)));
    assert_eq!(results[1].unwrap_err().index(), 1);
    assert_eq!(results[2], Ok(key(11)));
    assert_eq!(table.len(), 2);
    assert_eq!(table.get(key(10)).unwrap().port, "a");
    assert_eq!(table.get(key(11)).unwrap().port_type, PortType::Midi);
    assert!(table.get(key(12)).is_none());
}

#[test]
fn commit_of_empty_list_changes_nothing() {
    let mut table: PortTable<()> = PortTable::new();
    assert!(table.commit(Vec::new()).is_empty());
    assert_eq!(table.len(), 0);
}

#[test]
fn later_registration_under_same_key_wins() {
    let mut table = PortTable::new();
    table.commit(vec![
        PortRegistration::Registered { uuid: key(5), entry: entry("first", 0x1, PortType::Audio) },
        PortRegistration::Registered { uuid: key(5), entry: entry("second", 0x1, PortType::Audio) },
    ]);
    assert_eq!(table.len(), 1);
    assert_eq!(table.get(key(5)).unwrap().port, "second");
}

#[test]
fn unregister_undoes_register() {
    let mut table = PortTable::new();
    table.commit(vec![PortRegistration::Registered {
        uuid: key(1),
        entry: entry("keep", 0x1, PortType::Audio),
    }]);
    table.commit(vec![
        PortRegistration::Registered { uuid: key(2), entry: entry("x", 0x2, PortType::Audio) },
        PortRegistration::Registered { uuid: key(3), entry: entry("y", 0x2, PortType::Midi) },
    ]);
    assert!(table.unregister(vec![key(2), key(3)]));
    assert_eq!(table.len(), 1);
    assert_eq!(table.get(key(1)).unwrap().port, "keep");
    assert!(table.get(key(2)).is_none());
    assert!(!table.unregister(Vec::new()));
    assert_eq!(table.len(), 1);
    // unregistering an unknown port is harmless
    assert!(table.unregister(vec![key(40)]));
    assert_eq!(table.len(), 1);
}

#[test]
fn port_lookup_errors_for_unknown_ports() {
    let mut table = PortTable::new();
    table.commit(vec![PortRegistration::Registered {
        uuid: key(8),
        entry: entry("p", 0x1, PortType::Audio),
    }]);
    assert_eq!(*table.port(key(8)).unwrap(), "p");
    match table.port(key(9)) {
        Err(Error::Failure(f)) => assert_eq!(f.bits(), 0x03),
        other => panic!("unexpected {:?}", other),
    }
}

#[test]
fn buffer_ports_need_matching_mode_and_type() {
    let mut table = PortTable::new();
    table.commit(vec![
        PortRegistration::Registered { uuid: key(1), entry: entry("ai", 0x1, PortType::Audio) },
        PortRegistration::Registered { uuid: key(2), entry: entry("ao", 0x2, PortType::Audio) },
        PortRegistration::Registered { uuid: key(3), entry: entry("mi", 0x1, PortType::Midi) },
    ]);
    assert_eq!(table.buffer_port(key(1), PortMode::Input, PortType::Audio).unwrap().port, "ai");
    assert!(table.buffer_port(key(1), PortMode::Output, PortType::Audio).is_none());
    assert!(table.buffer_port(key(1), PortMode::Input, PortType::Midi).is_none());
    assert_eq!(table.buffer_port(key(2), PortMode::Output, PortType::Audio).unwrap().port, "ao");
    assert_eq!(table.buffer_port(key(3), PortMode::Input, PortType::Midi).unwrap().port, "mi");
    assert!(table.buffer_port(key(4), PortMode::Input, PortType::Midi).is_none());
    assert_eq!(table.port_type_id(key(3)), Some(PortType::Midi));
    assert_eq!(table.port_flags(key(2)).unwrap().bits(), 0x2);
    assert_eq!(table.port_type_id(key(9)), None);
    assert!(table.port_flags(key(9)).is_none());
}

#[test]
fn snapshot_and_clear() {
    let mut table = PortTable::new();
    table.commit(vec![PortRegistration::Registered {
        uuid: key(1),
        entry: entry("a", 0x1, PortType::Audio),
    }]);
    let copy = table.snapshot();
    table.clear();
    assert_eq!(table.len(), 0);
    assert_eq!(copy.len(), 1);
    assert_eq!(copy.get(key(1)).unwrap().port, "a");
}

#[test]
fn publishing_reaches_the_front_buffer() {
    let buffer: atb::AtomicTripleBuffer<PortTable<&'static str>> = Default::default();
    let mut table = PortTable::new();
    table.commit(vec![PortRegistration::Registered {
        uuid: key(1),
        entry: entry("a", 0x1, PortType::Audio),
    }]);
    assert!(publish_ports(&buffer, table.snapshot()));
    {
        let front = buffer.front_buffer().unwrap();
        assert_eq!(front.get(key(1)).unwrap().port, "a");
    }
    // the process thread has taken the table over, so the pending buffer can be emptied
    assert_eq!(release_unregistered(&buffer), Some(true));
    // while the back buffer is locked, nothing can be published
    let guard = buffer.back_buffers().unwrap();
    assert!(!publish_ports(&buffer, PortTable::new()));
    assert_eq!(release_unregistered(&buffer), None);
    drop(guard);
    assert!(publish_ports(&buffer, PortTable::new()));
    assert_eq!(release_unregistered(&buffer), Some(false));
}

#[test]
fn publishing_through_a_lock_outcome() {
    let buffer: atb::AtomicTripleBuffer<PortTable<&'static str>> = Default::default();
    let mut table = PortTable::new();
    table.commit(vec![PortRegistration::Registered {
        uuid: key(2),
        entry: entry("b", 0x2, PortType::Audio),
    }]);
    assert!(!publish_locked(None, PortTable::<&'static str>::new()));
    assert!(publish_locked(buffer.back_buffers().ok(), table));
    {
        let front = buffer.front_buffer().unwrap();
        assert_eq!(front.get(key(2)).unwrap().port, "b");
    }
    assert_eq!(release_locked::<&'static str>(None), None);
    assert_eq!(release_locked(buffer.back_buffers().ok()), Some(true));
}

#[test]
fn releasing_the_pending_table() {
    let mut table = PortTable::new();
    table.commit(vec![PortRegistration::Registered {
        uuid: key(3),
        entry: entry("c", 0x1, PortType::Midi),
    }]);
    assert!(!release_pending::<&'static str>(None));
    assert_eq!(table.len(), 1);
    assert!(release_pending(Some(&mut table)));
    assert_eq!(table.len(), 0);
}

#[test]
fn one_release_task_at_a_time() {
    let mut schedule = ReleaseSchedule::new();
    assert!(!schedule.is_running());
    assert!(schedule.start());
    assert!(schedule.is_running());
    assert!(!schedule.start());
    schedule.finish();
    assert!(!schedule.is_running());
    assert!(schedule.start());
}

#[test]
fn owned_port_keys_compare_by_uuid() {
    assert_eq!(key(5), key(5));
    assert_ne!(key(5), key(6));
    assert_eq!(key(5).uuid(), key(5).uuid());
}
