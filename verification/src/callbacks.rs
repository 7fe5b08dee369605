//! Notifications from the JACK server, and the conversion of the raw values that the C
//! callbacks receive.
use vstd::prelude::*;
use crate::Uuid;
use crate::port::PortId;
use std::ops::ControlFlow;

verus! {

/// Latency mode value: capture latency.
pub const JACK_CAPTURE_LATENCY: u32 = 0;
/// Latency mode value: playback latency.
pub const JACK_PLAYBACK_LATENCY: u32 = 1;
/// Property change value: a property was created.
pub const JACK_PROPERTY_CREATED: u32 = 0;
/// Property change value: a property was changed.
pub const JACK_PROPERTY_CHANGED: u32 = 1;
/// Property change value: a property was deleted.
pub const JACK_PROPERTY_DELETED: u32 = 2;

/// The latency mode currently being computed by the latency callback.
#[derive(Clone, Copy, Debug, Hash, PartialEq, Eq, Structural, PartialOrd, Ord)]
pub enum LatencyMode {
    /// Latency for capture (signal input).
    Capture,
    /// Latency for playback (signal output).
    Playback,
}

impl LatencyMode {
    /// The mode for a raw mode value; `None` for an unknown value.
    pub fn from_jack(mode: u32) -> (r: Option<LatencyMode>)
        ensures
            r == (if mode == JACK_CAPTURE_LATENCY {
                Some(LatencyMode::Capture)
            } else if mode == JACK_PLAYBACK_LATENCY {
                Some(LatencyMode::Playback)
            } else {
                None::<LatencyMode>
            }),
    {
        if mode == JACK_CAPTURE_LATENCY {
            Some(LatencyMode::Capture)
        } else if mode == JACK_PLAYBACK_LATENCY {
            Some(LatencyMode::Playback)
        } else {
            None
        }
    }

    /// The raw mode value of the mode.
    pub fn into_jack(self) -> (r: u32)
        ensures
            r == (match self {
                LatencyMode::Capture => JACK_CAPTURE_LATENCY,
                LatencyMode::Playback => JACK_PLAYBACK_LATENCY,
            }),
    {
        match self {
            LatencyMode::Capture => JACK_CAPTURE_LATENCY,
            LatencyMode::Playback => JACK_PLAYBACK_LATENCY,
        }
    }
}

/// Sub-type of property change notifications.
#[derive(Clone, Copy, Debug, Hash, PartialEq, Eq, Structural, PartialOrd, Ord)]
pub enum PropertyChange {
    /// A property was newly created.
    Created,
    /// An exist property had its value changed.
    Changed,
    /// An existing property was deleted.
    Deleted,
}

impl PropertyChange {
    /// The change for a raw change value; an unknown value counts as a change.
    pub fn from_jack(change: u32) -> (r: PropertyChange)
        ensures
            r == (if change == JACK_PROPERTY_CREATED {
                PropertyChange::Created
            } else if change == JACK_PROPERTY_DELETED {
                PropertyChange::Deleted
            } else {
                PropertyChange::Changed
            }),
    {
        if change == JACK_PROPERTY_CREATED {
            PropertyChange::Created
        } else if change == JACK_PROPERTY_CHANGED {
            PropertyChange::Changed
        } else if change == JACK_PROPERTY_DELETED {
            PropertyChange::Deleted
        } else {
            PropertyChange::Changed
        }
    }
}

/// Data type for client notification messages. Names and keys are the bytes of the C
/// strings, without the nul terminator.
#[derive(Debug, Clone)]
pub enum Notification {
    /// Sent whenever the JACK server is shutdown.
    Shutdown,
    /// Sent whenever the JACK server starts or stops freewheeling.
    Freewheel {
        /// `true` if starting to freewheel, false otherwise.
        enabled: bool,
    },
    /// Sent when the size of the buffers that will be passed to the process callback is
    /// about to change.
    BufferSize {
        /// New buffer size, in samples.
        frames: u32,
    },
    /// Sent when the engine sample rate changes.
    SampleRate {
        /// New engine sample rate.
        frames: u32,
    },
    /// Sent whenever a new client is registered on the JACK server.
    ClientRegister {
        /// Name of the client that was registered.
        name: Vec<u8>,
    },
    /// Sent whenever a client is unregistered on the JACK server.
    ClientUnregister {
        /// Name of the client that was unregistered.
        name: Vec<u8>,
    },
    /// Sent whenever a new port is registered on the JACK server.
    PortRegister {
        /// The ID of the port.
        port: PortId,
    },
    /// Sent whenever a port is unregistered on the JACK server.
    PortUnregister {
        /// The ID of the port.
        port: PortId,
    },
    /// Sent whenever a port is connected on the JACK server.
    PortConnect {
        /// The ID of the first port connected.
        a: PortId,
        /// The ID of the second port connected.
        b: PortId,
    },
    /// Sent whenever a port is disconnected on the JACK server.
    PortDisconnect {
        /// The ID of the first port disconnected.
        a: PortId,
        /// The ID of the second port disconnected.
        b: PortId,
    },
    /// Sent whenever a port name changes on the JACK server.
    PortRename {
        /// The ID of the renamed port.
        port: PortId,
        /// The previous name of the port.
        old_name: Vec<u8>,
        /// The new name of the port.
        new_name: Vec<u8>,
    },
    /// Sent whenever the processing graph is reordered on the JACK server.
    GraphOrder,
    /// Sent whenever an xrun has occurred.
    XRun,
    /// Sent by the engine when port latencies need to be recalculated.
    Latency {
        /// The mode that latencies should be recalculated for.
        mode: LatencyMode,
    },
    /// Sent by the engine anytime a metadata property or properties have been modified.
    PropertyChange {
        /// The subject the change relates to, this can be either a client or port.
        subject: Uuid,
        /// The key of the modified property (URI string); `None` means all properties.
        key: Option<Vec<u8>>,
        /// Whether the key has been created, changed or deleted.
        change: PropertyChange,
    },
}

impl Notification {
    /// The notification for a freewheel callback: a non-zero `starting` means freewheeling
    /// starts.
    pub fn freewheel(starting: i32) -> (r: Notification)
        ensures
            r == (Notification::Freewheel { enabled: starting != 0 }),
    {
        Notification::Freewheel { enabled: starting != 0 }
    }

    /// The notification for a client registration callback: a non-zero `register` means
    /// the client was registered, zero that it was unregistered.
    pub fn client_registration(name: Vec<u8>, register: i32) -> (r: Notification)
        ensures
            register != 0 ==> (r matches Notification::ClientRegister { name: n } && n@ == name@),
            register == 0 ==> (r matches Notification::ClientUnregister { name: n } && n@
                == name@),
    {
        if register != 0 {
            Notification::ClientRegister { name }
        } else {
            Notification::ClientUnregister { name }
        }
    }

    /// The notification for a port registration callback; the server never reports port 0.
    pub fn port_registration(port: u32, register: i32) -> (r: Notification)
        requires
            port != 0,
        ensures
            register != 0 ==> (r matches Notification::PortRegister { port: p } && p.id() == port),
            register == 0 ==> (r matches Notification::PortUnregister { port: p } && p.id()
                == port),
    {
        let port = PortId::from_raw(port).unwrap();
        if register != 0 {
            Notification::PortRegister { port }
        } else {
            Notification::PortUnregister { port }
        }
    }

    /// The notification for a port connection callback; the server never reports port 0.
    pub fn port_connection(a: u32, b: u32, connect: i32) -> (r: Notification)
        requires
            a != 0,
            b != 0,
        ensures
            connect != 0 ==> (r matches Notification::PortConnect { a: pa, b: pb } && pa.id()
                == a && pb.id() == b),
            connect == 0 ==> (r matches Notification::PortDisconnect { a: pa, b: pb } && pa.id()
                == a && pb.id() == b),
    {
        let pa = PortId::from_raw(a).unwrap();
        let pb = PortId::from_raw(b).unwrap();
        if connect != 0 {
            Notification::PortConnect { a: pa, b: pb }
        } else {
            Notification::PortDisconnect { a: pa, b: pb }
        }
    }

    /// The notification for a port rename callback; the server never reports port 0.
    pub fn port_rename(port: u32, old_name: Vec<u8>, new_name: Vec<u8>) -> (r: Notification)
        requires
            port != 0,
        ensures
            r matches Notification::PortRename { port: p, old_name: o, new_name: n } && p.id()
                == port && o@ == old_name@ && n@ == new_name@,
    {
        let port = PortId::from_raw(port).unwrap();
        Notification::PortRename { port, old_name, new_name }
    }

    /// The notification for a latency callback; `None` for an unknown mode, which is not
    /// forwarded.
    pub fn latency(mode: u32) -> (r: Option<Notification>)
        ensures
            r is Some <==> (mode == JACK_CAPTURE_LATENCY || mode == JACK_PLAYBACK_LATENCY),
            mode == JACK_CAPTURE_LATENCY ==> r == Some(
                Notification::Latency { mode: LatencyMode::Capture },
            ),
            mode == JACK_PLAYBACK_LATENCY ==> r == Some(
                Notification::Latency { mode: LatencyMode::Playback },
            ),
    {
        match LatencyMode::from_jack(mode) {
            Some(mode) => Some(Notification::Latency { mode }),
            None => None,
        }
    }

    /// The notification for a property change callback; the server never reports subject 0.
    pub fn property_change(subject: u64, key: Option<Vec<u8>>, change: u32) -> (r: Notification)
        requires
            subject != 0,
        ensures
            r matches Notification::PropertyChange { subject: s, key: k, change: c } && s.id()
                == subject && k == key && c == (if change == JACK_PROPERTY_CREATED {
                PropertyChange::Created
            } else if change == JACK_PROPERTY_DELETED {
                PropertyChange::Deleted
            } else {
                PropertyChange::Changed
            }),
    {
        let subject = Uuid::new(subject);
        Notification::PropertyChange { subject, key, change: PropertyChange::from_jack(change) }
    }
}

/// Handler for notifications on the client thread. All methods do nothing unless
/// implemented; [`Self::notification`] forwards each message to the method of its kind.
pub trait NotificationHandler: Sized {
    /// Dispatch a single notification. Unless implemented otherwise, `self` changes exactly
    /// as the method of the message's kind, called with the message's fields, changes it.
    fn notification(&mut self, msg: Notification)
        default_ensures
            match msg {
                Notification::Shutdown => exists|m: &mut Self|
                    #[trigger] call_ensures(Self::shutdown, (m,), ()) && mut_ref_current(m) == *old(self)
                    && mut_ref_future(m) == *final(self),
                Notification::Freewheel { enabled } => exists|m: &mut Self|
                    #[trigger] call_ensures(Self::freewheel, (m, enabled,), ()) && mut_ref_current(m) == *old(self)
                    && mut_ref_future(m) == *final(self),
                Notification::BufferSize { frames } => exists|m: &mut Self|
                    #[trigger] call_ensures(Self::buffer_size, (m, frames,), ()) && mut_ref_current(m) == *old(self)
                    && mut_ref_future(m) == *final(self),
                Notification::SampleRate { frames } => exists|m: &mut Self|
                    #[trigger] call_ensures(Self::sample_rate, (m, frames,), ()) && mut_ref_current(m) == *old(self)
                    && mut_ref_future(m) == *final(self),
                Notification::ClientRegister { name } => exists|m: &mut Self|
                    #[trigger] call_ensures(Self::client_register, (m, name,), ()) && mut_ref_current(m) == *old(self)
                    && mut_ref_future(m) == *final(self),
                Notification::ClientUnregister { name } => exists|m: &mut Self|
                    #[trigger] call_ensures(Self::client_unregister, (m, name,), ()) && mut_ref_current(m) == *old(self)
                    && mut_ref_future(m) == *final(self),
                Notification::PortRegister { port } => exists|m: &mut Self|
                    #[trigger] call_ensures(Self::port_register, (m, port,), ()) && mut_ref_current(m) == *old(self)
                    && mut_ref_future(m) == *final(self),
                Notification::PortUnregister { port } => exists|m: &mut Self|
                    #[trigger] call_ensures(Self::port_unregister, (m, port,), ()) && mut_ref_current(m) == *old(self)
                    && mut_ref_future(m) == *final(self),
                Notification::PortConnect { a, b } => exists|m: &mut Self|
                    #[trigger] call_ensures(Self::port_connect, (m, a, b,), ()) && mut_ref_current(m) == *old(self)
                    && mut_ref_future(m) == *final(self),
                Notification::PortDisconnect { a, b } => exists|m: &mut Self|
                    #[trigger] call_ensures(Self::port_disconnect, (m, a, b,), ()) && mut_ref_current(m) == *old(self)
                    && mut_ref_future(m) == *final(self),
                Notification::PortRename { port, old_name, new_name } => exists|m: &mut Self|
                    #[trigger] call_ensures(Self::port_rename, (m, port, old_name, new_name,), ()) && mut_ref_current(m) == *old(self)
                    && mut_ref_future(m) == *final(self),
                Notification::GraphOrder => exists|m: &mut Self|
                    #[trigger] call_ensures(Self::graph_order, (m,), ()) && mut_ref_current(m) == *old(self)
                    && mut_ref_future(m) == *final(self),
                Notification::XRun => exists|m: &mut Self|
                    #[trigger] call_ensures(Self::xrun, (m,), ()) && mut_ref_current(m) == *old(self)
                    && mut_ref_future(m) == *final(self),
                Notification::Latency { mode } => exists|m: &mut Self|
                    #[trigger] call_ensures(Self::latency, (m, mode,), ()) && mut_ref_current(m) == *old(self)
                    && mut_ref_future(m) == *final(self),
                Notification::PropertyChange { subject, key, change } => exists|m: &mut Self|
                    #[trigger] call_ensures(Self::property_change, (m, subject, key, change,), ()) && mut_ref_current(m) == *old(self)
                    && mut_ref_future(m) == *final(self),
            },
    {
        match msg {
            Notification::Shutdown => self.shutdown(),
            Notification::Freewheel { enabled } => self.freewheel(enabled),
            Notification::BufferSize { frames } => self.buffer_size(frames),
            Notification::SampleRate { frames } => self.sample_rate(frames),
            Notification::ClientRegister { name } => self.client_register(name),
            Notification::ClientUnregister { name } => self.client_unregister(name),
            Notification::PortRegister { port } => self.port_register(port),
            Notification::PortUnregister { port } => self.port_unregister(port),
            Notification::PortConnect { a, b } => self.port_connect(a, b),
            Notification::PortDisconnect { a, b } => self.port_disconnect(a, b),
            Notification::PortRename { port, old_name, new_name } => self.port_rename(
                port,
                old_name,
                new_name,
            ),
            Notification::GraphOrder => self.graph_order(),
            Notification::XRun => self.xrun(),
            Notification::Latency { mode } => self.latency(mode),
            Notification::PropertyChange { subject, key, change } => self.property_change(
                subject,
                key,
                change,
            ),
        }
    }

    /// Invoked whenever the JACK server is shutdown.
    fn shutdown(&mut self) {
    }

    /// Invoked whenever the JACK server starts or stops freewheeling.
    fn freewheel(&mut self, enabled: bool) {
    }

    /// Invoked when the client buffer size changes.
    fn buffer_size(&mut self, frames: u32) {
    }

    /// Invoked when the engine sample rate changes.
    fn sample_rate(&mut self, frames: u32) {
    }

    /// Invoked whenever a new client is registered on the JACK server.
    fn client_register(&mut self, name: Vec<u8>) {
    }

    /// Invoked whenever a client is unregistered on the JACK server.
    fn client_unregister(&mut self, name: Vec<u8>) {
    }

    /// Invoked whenever a new port is registered on the JACK server.
    fn port_register(&mut self, port: PortId) {
    }

    /// Invoked whenever a port is unregistered on the JACK server.
    fn port_unregister(&mut self, port: PortId) {
    }

    /// Invoked whenever a port is connected on the JACK server.
    fn port_connect(&mut self, a: PortId, b: PortId) {
    }

    /// Invoked whenever a port is disconnected on the JACK server.
    fn port_disconnect(&mut self, a: PortId, b: PortId) {
    }

    /// Invoked whenever a port name changes on the JACK server.
    fn port_rename(&mut self, port: PortId, old_name: Vec<u8>, new_name: Vec<u8>) {
    }

    /// Invoked whenever the processing graph is reordered on the JACK server.
    fn graph_order(&mut self) {
    }

    /// Invoked whenever an xrun has occurred.
    fn xrun(&mut self) {
    }

    /// Invoked when port latencies need to be recalculated.
    fn latency(&mut self, mode: LatencyMode) {
    }

    /// Invoked anytime a metadata property or properties have been modified.
    fn property_change(&mut self, subject: Uuid, key: Option<Vec<u8>>, change: PropertyChange) {
    }
}

impl NotificationHandler for () {
}

/// The code a process or slow-sync callback returns to the server for the handler's
/// answer: 0 to go on, -1 to stop (for the process callback, to leave the graph; for the
/// slow-sync callback, to report the client ready to roll).
pub fn flow_code(flow: ControlFlow<(), ()>) -> (r: i32)
    ensures
        r == (match flow {
            ControlFlow::Continue(_) => 0i32,
            ControlFlow::Break(_) => -1i32,
        }),
{
    match flow {
        ControlFlow::Continue(_) => 0,
        ControlFlow::Break(_) => -1,
    }
}

} // verus!
