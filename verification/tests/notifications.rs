use jack2::callbacks::{flow_code, JACK_CAPTURE_LATENCY, JACK_PLAYBACK_LATENCY};
use std::ops::ControlFlow;
use jack2::{LatencyMode, Notification, NotificationHandler, PortId, PropertyChange, Uuid};

#[test]
fn latency_modes() {
    assert_eq!(LatencyMode::from_jack(0), Some(LatencyMode::Capture));
    assert_eq!(LatencyMode::from_jack(1), Some(LatencyMode::Playback));
    assert_eq!(LatencyMode::from_jack(2), None);
    assert_eq!(LatencyMode::Capture.into_jack(), JACK_CAPTURE_LATENCY);
    assert_eq!(LatencyMode::Playback.into_jack(), JACK_PLAYBACK_LATENCY);
}

#[test]
fn property_changes() {
    assert_eq!(PropertyChange::from_jack(0), PropertyChange::Created);
    assert_eq!(PropertyChange::from_jack(1), PropertyChange::Changed);
    assert_eq!(PropertyChange::from_jack(2), PropertyChange::Deleted);
    assert_eq!(PropertyChange::from_jack(9), PropertyChange::Changed);
}

#[test]
fn callback_values_become_notifications() {
    assert!(matches!(Notification::freewheel(1), Notification::Freewheel { enabled: true }));
    assert!(matches!(Notification::freewheel(0), Notification::Freewheel { enabled: false }));
    match Notification::client_registration(b"c".to_vec(), 1) {
        Notification::ClientRegister { name } => assert_eq!(name, b"c".to_vec()),
        other => panic!("{:?}", other),
    }
    assert!(matches!(
        Notification::client_registration(b"c".to_vec(), 0),
        Notification::ClientUnregister { .. }
    ));
    match Notification::port_registration(4, 1) {
        Notification::PortRegister { port } => assert_eq!(port.get(), 4),
        other => panic!("{:?}", other),
    }
    assert!(matches!(Notification::port_registration(4, 0), Notification::PortUnregister { .. }));
    match Notification::port_connection(1, 2, 1) {
        Notification::PortConnect { a, b } => assert_eq!((a.get(), b.get()), (1, 2)),
        other => panic!("{:?}", other),
    }
    assert!(matches!(Notification::port_connection(1, 2, 0), Notification::PortDisconnect { .. }));
    match Notification::port_rename(3, b"old".to_vec(), b"new".to_vec()) {
        Notification::PortRename { port, old_name, new_name } => {
            assert_eq!(port.get(), 3);
            assert_eq!(old_name, b"old".to_vec());
            assert_eq!(new_name, b"new".to_vec());
        }
        other => panic!("{:?}", other),
    }
    assert!(matches!(
        Notification::latency(1),
        Some(Notification::Latency { mode: LatencyMode::Playback })
    ));
    assert!(Notification::latency(7).is_none());
    match Notification::property_change(99, None, 2) {
        Notification::PropertyChange { subject, key, change } => {
            assert_eq!(subject.value(), 99);
            assert!(key.is_none());
            assert_eq!(change, PropertyChange::Deleted);
        }
        other => panic!("{:?}", other),
    }
}

#[derive(Default)]
struct Recorder {
    seen: Vec<String>,
}

impl NotificationHandler for Recorder {
    fn shutdown(&mut self) {
        self.seen.push("shutdown".into());
    }
    fn buffer_size(&mut self, frames: u32) {
        self.seen.push(format!("buffer_size {}", frames));
    }
    fn port_connect(&mut self, a: PortId, b: PortId) {
        self.seen.push(format!("connect {} {}", a.get(), b.get()));
    }
    fn property_change(&mut self, subject: Uuid, _key: Option<Vec<u8>>, change: PropertyChange) {
        self.seen.push(format!("property {} {:?}", subject.value(), change));
    }
}

#[test]
fn dispatch_reaches_the_method_of_each_kind() {
    let mut r = Recorder::default();
    r.notification(Notification::Shutdown);
    r.notification(Notification::BufferSize { frames: 256 });
    r.notification(Notification::port_connection(5, 6, 1));
    r.notification(Notification::XRun);
    r.notification(Notification::property_change(8, Some(b"k".to_vec()), 0));
    assert_eq!(
        r.seen,
        vec!["shutdown", "buffer_size 256", "connect 5 6", "property 8 Created"]
    );
    let mut unit = ();
    unit.notification(Notification::GraphOrder);
}

#[test]
fn callback_flow_codes() {
    assert_eq!(flow_code(ControlFlow::Continue(())), 0);
    assert_eq!(flow_code(ControlFlow::Break(())), -1);
}
