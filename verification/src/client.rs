//! Client configuration flags, port registration bookkeeping and the activation sequence.
use vstd::prelude::*;
use vstd::std_specs::convert::FromSpecImpl;
use vstd::string::StringSliceAdditionalSpecFns;
use crate::{first_nul, c_string_check, Error, Uuid};
use crate::port::{PortFlags, PortMode, PortType, port_mode_flags};

verus! {

/// Option bit: no option set.
pub const JACK_NULL_OPTION: u32 = 0x00;
/// Option bit: do not automatically start the JACK server.
pub const JACK_NO_START_SERVER: u32 = 0x01;
/// Option bit: use the exact client name requested.
pub const JACK_USE_EXACT_NAME: u32 = 0x02;
/// Option bit: a server name is given.
pub const JACK_SERVER_NAME: u32 = 0x04;

/// Options for starting a new client.
#[derive(Clone, Copy, Debug, Hash, PartialEq, Eq, Structural, PartialOrd, Ord)]
pub struct ClientOptions(u32);

impl ClientOptions {
    /// The option bits.
    pub closed spec fn spec_bits(self) -> u32 {
        self.0
    }

    /// Every option bit that these options know.
    pub open spec fn spec_all_bits() -> u32 {
        JACK_NO_START_SERVER | JACK_USE_EXACT_NAME
    }

    /// No options.
    pub fn empty() -> (r: ClientOptions)
        ensures
            r.spec_bits() == 0,
    {
        ClientOptions(0)
    }

    /// All options.
    pub fn all() -> (r: ClientOptions)
        ensures
            r.spec_bits() == Self::spec_all_bits(),
    {
        ClientOptions(JACK_NO_START_SERVER | JACK_USE_EXACT_NAME)
    }

    /// Do not automatically start the JACK server when it is not already running.
    pub fn no_start_server() -> (r: ClientOptions)
        ensures
            r.spec_bits() == JACK_NO_START_SERVER,
    {
        ClientOptions(JACK_NO_START_SERVER)
    }

    /// Use the exact client name requested. Otherwise, JACK automatically generates a
    /// unique one, if needed.
    pub fn use_exact_name() -> (r: ClientOptions)
        ensures
            r.spec_bits() == JACK_USE_EXACT_NAME,
    {
        ClientOptions(JACK_USE_EXACT_NAME)
    }

    /// The options of `bits` that are known; other bits are dropped.
    pub fn from_bits_truncate(bits: u32) -> (r: ClientOptions)
        ensures
            r.spec_bits() == bits & Self::spec_all_bits(),
    {
        ClientOptions(bits & (JACK_NO_START_SERVER | JACK_USE_EXACT_NAME))
    }

    /// The option bits.
    pub fn bits(&self) -> (r: u32)
        ensures
            r == self.spec_bits(),
    {
        self.0
    }

    /// Returns `true` if no option is set.
    pub fn is_empty(&self) -> (r: bool)
        ensures
            r == (self.spec_bits() == 0),
    {
        self.0 == 0
    }

    /// Returns `true` if every option of `other` is set.
    pub fn contains(&self, other: ClientOptions) -> (r: bool)
        ensures
            r == (self.spec_bits() & other.spec_bits() == other.spec_bits()),
    {
        (self.0 & other.0) == other.0
    }

    /// The options set in either.
    pub fn union(self, other: ClientOptions) -> (r: ClientOptions)
        ensures
            r.spec_bits() == self.spec_bits() | other.spec_bits(),
    {
        ClientOptions(self.0 | other.0)
    }
}

impl Default for ClientOptions {
    /// No options.
    fn default() -> (r: ClientOptions)
        ensures
            r.spec_bits() == 0,
    {
        ClientOptions::empty()
    }
}

/// Set of flags to use when creating ports.
#[derive(Clone, Copy, Debug, Hash, PartialEq, Eq, Structural, PartialOrd, Ord)]
pub struct PortCreateFlags(u32);

impl PortCreateFlags {
    /// The flag bits.
    pub closed spec fn spec_bits(self) -> u32 {
        self.0
    }

    /// Every flag bit that these flags know.
    pub open spec fn spec_all_bits() -> u32 {
        crate::port::JACK_PORT_IS_PHYSICAL | crate::port::JACK_PORT_CAN_MONITOR
            | crate::port::JACK_PORT_IS_TERMINAL
    }

    /// Only known flag bits are set: never a direction bit.
    pub open spec fn wf(self) -> bool {
        self.spec_bits() & !Self::spec_all_bits() == 0
    }

    /// Every set of creation flags holds only known flag bits.
    #[verifier::type_invariant]
    spec fn only_known_bits(self) -> bool {
        self.0 & !0x1cu32 == 0
    }

    proof fn lemma_all_bits()
        ensures
            Self::spec_all_bits() == 0x1cu32,
    {
        assert(0x4u32 | 0x8u32 | 0x10u32 == 0x1cu32) by (bit_vector);
    }

    /// No flags.
    pub fn empty() -> (r: PortCreateFlags)
        ensures
            r.spec_bits() == 0,
            r.wf(),
    {
        proof {
            Self::lemma_all_bits();
        }
        assert(0u32 & !0x1cu32 == 0) by (bit_vector);
        PortCreateFlags(0)
    }

    /// All flags.
    pub fn all() -> (r: PortCreateFlags)
        ensures
            r.spec_bits() == Self::spec_all_bits(),
            r.wf(),
    {
        proof {
            Self::lemma_all_bits();
        }
        assert(0x1cu32 & !0x1cu32 == 0) by (bit_vector);
        PortCreateFlags(
            crate::port::JACK_PORT_IS_PHYSICAL | crate::port::JACK_PORT_CAN_MONITOR
                | crate::port::JACK_PORT_IS_TERMINAL,
        )
    }

    /// Port corresponds to some kind of physical I/O connector.
    pub fn physical() -> (r: PortCreateFlags)
        ensures
            r.spec_bits() == crate::port::JACK_PORT_IS_PHYSICAL,
            r.wf(),
    {
        proof {
            Self::lemma_all_bits();
        }
        assert(0x4u32 & !0x1cu32 == 0) by (bit_vector);
        PortCreateFlags(crate::port::JACK_PORT_IS_PHYSICAL)
    }

    /// Enables requesting input monitoring on this port.
    pub fn can_monitor() -> (r: PortCreateFlags)
        ensures
            r.spec_bits() == crate::port::JACK_PORT_CAN_MONITOR,
            r.wf(),
    {
        proof {
            Self::lemma_all_bits();
        }
        assert(0x8u32 & !0x1cu32 == 0) by (bit_vector);
        PortCreateFlags(crate::port::JACK_PORT_CAN_MONITOR)
    }

    /// Port is a terminal end for data flow.
    pub fn terminal() -> (r: PortCreateFlags)
        ensures
            r.spec_bits() == crate::port::JACK_PORT_IS_TERMINAL,
            r.wf(),
    {
        proof {
            Self::lemma_all_bits();
        }
        assert(0x10u32 & !0x1cu32 == 0) by (bit_vector);
        PortCreateFlags(crate::port::JACK_PORT_IS_TERMINAL)
    }

    /// The flags of `bits` that are known; other bits are dropped.
    pub fn from_bits_truncate(bits: u32) -> (r: PortCreateFlags)
        ensures
            r.spec_bits() == bits & Self::spec_all_bits(),
            r.wf(),
    {
        proof {
            Self::lemma_all_bits();
        }
        assert((bits & 0x1cu32) & !0x1cu32 == 0) by (bit_vector);
        PortCreateFlags(
            bits & (crate::port::JACK_PORT_IS_PHYSICAL | crate::port::JACK_PORT_CAN_MONITOR
                | crate::port::JACK_PORT_IS_TERMINAL),
        )
    }

    /// The flag bits.
    pub fn bits(&self) -> (r: u32)
        ensures
            r == self.spec_bits(),
    {
        self.0
    }

    /// Returns `true` if no flag is set.
    pub fn is_empty(&self) -> (r: bool)
        ensures
            r == (self.spec_bits() == 0),
    {
        self.0 == 0
    }

    /// Returns `true` if every flag of `other` is set.
    pub fn contains(&self, other: PortCreateFlags) -> (r: bool)
        ensures
            r == (self.spec_bits() & other.spec_bits() == other.spec_bits()),
    {
        (self.0 & other.0) == other.0
    }

    /// The flags set in either.
    pub fn union(self, other: PortCreateFlags) -> (r: PortCreateFlags)
        ensures
            r.spec_bits() == self.spec_bits() | other.spec_bits(),
            self.wf() && other.wf() ==> r.wf(),
            r.wf(),
    {
        proof {
            Self::lemma_all_bits();
            use_type_invariant(&self);
            use_type_invariant(&other);
        }
        let a = self.0;
        let b = other.0;
        assert(a & !0x1cu32 == 0 && b & !0x1cu32 == 0 ==> (a | b) & !0x1cu32 == 0) by (bit_vector);
        PortCreateFlags(self.0 | other.0)
    }
}

impl Default for PortCreateFlags {
    /// No flags.
    fn default() -> (r: PortCreateFlags)
        ensures
            r.spec_bits() == 0,
            r.wf(),
    {
        PortCreateFlags::empty()
    }
}

/// Activation flag bit: call the latency callback.
pub const ACTIVATE_LATENCY: u32 = 1;
/// Activation flag bit: register as a slow-sync client.
pub const ACTIVATE_SYNC: u32 = 2;
/// Activation flag bit: register as timebase master.
pub const ACTIVATE_TIMEBASE: u32 = 4;
/// Activation flag bits: register as timebase master, failing activation if a timebase
/// master already was registered.
pub const ACTIVATE_TIMEBASE_FORCE: u32 = 8 | 4;

/// Flags to use when activating a JACK client.
#[derive(Clone, Copy, Debug, Hash, PartialEq, Eq, Structural, PartialOrd, Ord)]
pub struct ActivateFlags(u32);

impl ActivateFlags {
    /// The flag bits.
    pub closed spec fn spec_bits(self) -> u32 {
        self.0
    }

    /// Every flag bit that these flags know.
    pub open spec fn spec_all_bits() -> u32 {
        ACTIVATE_LATENCY | ACTIVATE_SYNC | ACTIVATE_TIMEBASE | ACTIVATE_TIMEBASE_FORCE
    }

    /// Whether every bit of `bits` is set.
    pub open spec fn spec_has(self, bits: u32) -> bool {
        self.spec_bits() & bits == bits
    }

    /// No flags.
    pub fn empty() -> (r: ActivateFlags)
        ensures
            r.spec_bits() == 0,
    {
        ActivateFlags(0)
    }

    /// All flags.
    pub fn all() -> (r: ActivateFlags)
        ensures
            r.spec_bits() == Self::spec_all_bits(),
    {
        ActivateFlags(ACTIVATE_LATENCY | ACTIVATE_SYNC | ACTIVATE_TIMEBASE | ACTIVATE_TIMEBASE_FORCE)
    }

    /// Tell the JACK server to call the latency callback whenever it is necessary to
    /// recompute the latencies for some or all JACK ports.
    pub fn latency() -> (r: ActivateFlags)
        ensures
            r.spec_bits() == ACTIVATE_LATENCY,
    {
        ActivateFlags(ACTIVATE_LATENCY)
    }

    /// Register as a slow-sync client.
    pub fn sync() -> (r: ActivateFlags)
        ensures
            r.spec_bits() == ACTIVATE_SYNC,
    {
        ActivateFlags(ACTIVATE_SYNC)
    }

    /// Register as timebase master for the JACK subsystem.
    pub fn timebase() -> (r: ActivateFlags)
        ensures
            r.spec_bits() == ACTIVATE_TIMEBASE,
    {
        ActivateFlags(ACTIVATE_TIMEBASE)
    }

    /// Register as timebase master for the JACK subsystem, failing activation if a timebase
    /// master already was registered.
    pub fn timebase_force() -> (r: ActivateFlags)
        ensures
            r.spec_bits() == ACTIVATE_TIMEBASE_FORCE,
    {
        ActivateFlags(ACTIVATE_TIMEBASE_FORCE)
    }

    /// The flags of `bits` that are known; other bits are dropped.
    pub fn from_bits_truncate(bits: u32) -> (r: ActivateFlags)
        ensures
            r.spec_bits() == bits & Self::spec_all_bits(),
    {
        ActivateFlags(bits & (ACTIVATE_LATENCY | ACTIVATE_SYNC | ACTIVATE_TIMEBASE | ACTIVATE_TIMEBASE_FORCE))
    }

    /// The flag bits.
    pub fn bits(&self) -> (r: u32)
        ensures
            r == self.spec_bits(),
    {
        self.0
    }

    /// Returns `true` if no flag is set.
    pub fn is_empty(&self) -> (r: bool)
        ensures
            r == (self.spec_bits() == 0),
    {
        self.0 == 0
    }

    /// Returns `true` if every flag of `other` is set.
    pub fn contains(&self, other: ActivateFlags) -> (r: bool)
        ensures
            r == self.spec_has(other.spec_bits()),
    {
        (self.0 & other.0) == other.0
    }

    /// The flags set in either.
    pub fn union(self, other: ActivateFlags) -> (r: ActivateFlags)
        ensures
            r.spec_bits() == self.spec_bits() | other.spec_bits(),
    {
        ActivateFlags(self.0 | other.0)
    }
}

impl Default for ActivateFlags {
    /// No flags.
    fn default() -> (r: ActivateFlags)
        ensures
            r.spec_bits() == 0,
    {
        ActivateFlags::empty()
    }
}

/// Status returned from JACK client creation.
#[derive(Clone, Copy, Debug, PartialEq, Eq, Structural)]
pub struct Status(u32);

impl Status {
    /// The status bits.
    pub closed spec fn spec_bits(self) -> u32 {
        self.0
    }

    /// The status holding `bits`.
    pub fn new(bits: u32) -> (r: Status)
        ensures
            r.spec_bits() == bits,
    {
        Status(bits)
    }

    /// Returns `true` if the desired client name was used unchanged.
    pub fn has_exact_name(&self) -> (r: bool)
        ensures
            r == (self.spec_bits() & crate::JACK_NAME_NOT_UNIQUE == 0),
    {
        (self.0 & crate::JACK_NAME_NOT_UNIQUE) == 0
    }

    /// Returns `true` if the JACK server was started as a result of this operation.
    pub fn server_started(&self) -> (r: bool)
        ensures
            r == (self.spec_bits() & crate::JACK_SERVER_STARTED != 0),
    {
        (self.0 & crate::JACK_SERVER_STARTED) != 0
    }
}

impl From<Status> for u32 {
    fn from(status: Status) -> (r: u32) {
        status.0
    }
}

impl FromSpecImpl<Status> for u32 {
    open spec fn obeys_from_spec() -> bool {
        true
    }

    open spec fn from_spec(v: Status) -> u32 {
        v.spec_bits()
    }
}

/// A key uniquely identifying a port owned by a local client.
#[derive(Clone, Copy, Debug, Hash, PartialEq, Eq, Structural, PartialOrd, Ord)]
pub struct OwnedPortUuid(Uuid);

impl OwnedPortUuid {
    /// The identifier of the port.
    pub closed spec fn spec_uuid(self) -> Uuid {
        self.0
    }

    /// The numeric identifier of the port.
    pub open spec fn key(self) -> u64 {
        self.spec_uuid().id()
    }

    /// The key for the port whose UUID is `uuid`, if it is not zero.
    pub fn from_raw(uuid: u64) -> (r: Option<OwnedPortUuid>)
        ensures
            r is Some <==> uuid != 0,
            r matches Some(p) ==> p.key() == uuid,
    {
        match Uuid::from_raw(uuid) {
            Some(u) => Some(OwnedPortUuid(u)),
            None => None,
        }
    }

    /// Returns the unique ID of this port.
    pub fn uuid(&self) -> (r: Uuid)
        ensures
            r == self.spec_uuid(),
    {
        self.0
    }
}

/// An error that occurred when attempting to register a port: holds the position of the
/// port in the list passed to the registration.
#[derive(Debug, Copy, Clone, PartialEq, Eq, Structural)]
pub struct PortRegisterError(usize);

impl PortRegisterError {
    /// The position of the failed port.
    pub closed spec fn spec_index(self) -> usize {
        self.0
    }

    /// The error for the port at `index`.
    pub closed spec fn at(index: usize) -> PortRegisterError {
        PortRegisterError(index)
    }

    pub broadcast proof fn lemma_at(index: usize)
        ensures
            #[trigger] PortRegisterError::at(index).spec_index() == index,
    {
    }

    /// The position of the failed port in the list passed to the registration.
    pub fn index(&self) -> (r: usize)
        ensures
            r == self.spec_index(),
    {
        self.0
    }
}

/// Builder structure for registering ports.
#[derive(Clone, Debug)]
pub struct PortInfo<'s, PortData> {
    /// The short name of the port.
    pub name: &'s str,
    /// The type of data for this port.
    pub type_: PortType,
    /// Whether this port is an input or output port.
    pub mode: PortMode,
    /// Additional flags for creating this port.
    pub flags: PortCreateFlags,
    /// User-supplied data associated with this port.
    pub data: PortData,
}

impl<'s, PortData> PortInfo<'s, PortData> {
    /// Convenience constructor for creating audio input ports.
    pub fn audio_in(name: &'s str, data: PortData) -> (r: Self)
        ensures
            r.name == name,
            r.type_ == PortType::Audio,
            r.mode == PortMode::Input,
            r.flags.spec_bits() == 0,
            r.flags.wf(),
            r.data == data,
    {
        PortInfo { name, type_: PortType::Audio, mode: PortMode::Input, flags: PortCreateFlags::empty(), data }
    }

    /// Convenience constructor for creating audio output ports.
    pub fn audio_out(name: &'s str, data: PortData) -> (r: Self)
        ensures
            r.name == name,
            r.type_ == PortType::Audio,
            r.mode == PortMode::Output,
            r.flags.spec_bits() == 0,
            r.flags.wf(),
            r.data == data,
    {
        PortInfo { name, type_: PortType::Audio, mode: PortMode::Output, flags: PortCreateFlags::empty(), data }
    }

    /// Convenience constructor for creating MIDI input ports.
    pub fn midi_in(name: &'s str, data: PortData) -> (r: Self)
        ensures
            r.name == name,
            r.type_ == PortType::Midi,
            r.mode == PortMode::Input,
            r.flags.spec_bits() == 0,
            r.flags.wf(),
            r.data == data,
    {
        PortInfo { name, type_: PortType::Midi, mode: PortMode::Input, flags: PortCreateFlags::empty(), data }
    }

    /// Convenience constructor for creating MIDI output ports.
    pub fn midi_out(name: &'s str, data: PortData) -> (r: Self)
        ensures
            r.name == name,
            r.type_ == PortType::Midi,
            r.mode == PortMode::Output,
            r.flags.spec_bits() == 0,
            r.flags.wf(),
            r.data == data,
    {
        PortInfo { name, type_: PortType::Midi, mode: PortMode::Output, flags: PortCreateFlags::empty(), data }
    }

    /// Set the flags for creating this port.
    pub fn flags(self, flags: PortCreateFlags) -> (r: Self)
        ensures
            r.name == self.name,
            r.type_ == self.type_,
            r.mode == self.mode,
            r.flags == flags,
            r.data == self.data,
    {
        let mut s = self;
        s.flags = flags;
        s
    }

    /// The flags a port is registered with: its mode's flag together with its creation flags.
    pub open spec fn spec_register_flags(&self) -> u32 {
        port_mode_flags(self.mode) | self.flags.spec_bits()
    }
}

} // verus!

verus! {

broadcast use vstd::std_specs::hash::group_hash_axioms;

/// A port of a registration list, checked and ready to be registered with the server.
#[derive(Debug)]
pub struct PortRequest<PortData> {
    /// The position of the port in the registration list.
    pub index: usize,
    /// The short name of the port, without a nul byte.
    pub name: Vec<u8>,
    /// The type of data for this port.
    pub type_: PortType,
    /// The flags the port is registered with.
    pub flags: PortFlags,
    /// User-supplied data associated with this port.
    pub data: PortData,
}

impl<'s, PortData> PortInfo<'s, PortData> {
    /// Checks the port at position `index` of a registration list: a name holding a nul byte
    /// cannot be registered. Otherwise the request carries the name's bytes and the flags of
    /// the port's mode joined with its creation flags.
    pub fn prepare(self, index: usize) -> (r: Result<PortRequest<PortData>, PortRegisterError>)
        ensures
            match c_string_check(self.name.spec_bytes()) {
                Err(_) => r == Err::<PortRequest<PortData>, PortRegisterError>(
                    PortRegisterError::at(index),
                ),
                Ok(b) => r matches Ok(req) && req.index == index && req.name@ == b && req.type_
                    == self.type_ && req.flags.spec_bits() == self.spec_register_flags() && req.data
                    == self.data,
            },
            r matches Ok(req) ==> req.flags.spec_bits() & self.flags.spec_bits()
                == self.flags.spec_bits(),
            r matches Ok(req) ==> (req.flags.spec_bits() & crate::port::JACK_PORT_IS_INPUT != 0) == (
            self.mode == PortMode::Input),
            r matches Ok(req) ==> (req.flags.spec_bits() & crate::port::JACK_PORT_IS_OUTPUT != 0) == (
            self.mode == PortMode::Output),
            r matches Ok(req) ==> req.flags.spec_bits() & !(self.flags.spec_bits()
                | crate::port::JACK_PORT_IS_INPUT | crate::port::JACK_PORT_IS_OUTPUT) == 0,
    {
        proof {
            use_type_invariant(&self.flags);
        }
        let c = self.flags.bits();
        let m = self.mode.flags();
        assert(c & !0x1cu32 == 0 && (m == 1u32 || m == 2u32) ==> {
            &&& (m | c) & c == c
            &&& ((m | c) & 1u32 != 0) == (m == 1u32)
            &&& ((m | c) & 2u32 != 0) == (m == 2u32)
            &&& (m | c) & !(c | 1u32 | 2u32) == 0
        }) by (bit_vector);
        assert(1u32 | 2u32 == 3u32) by (bit_vector);
        let bytes = self.name.as_bytes();
        match crate::find_nul(bytes) {
            Some(_) => Err(PortRegisterError(index)),
            None => {
                let name = vstd::slice::slice_to_vec(bytes);
                let flags = PortFlags::from_bits(self.mode.flags() | self.flags.bits());
                Ok(PortRequest { index, name, type_: self.type_, flags, data: self.data })
            },
        }
    }
}

/// A port owned by the client, as the port table keeps it.
#[derive(Clone, Debug)]
pub struct PortEntry<P> {
    /// The handle of the port and whatever goes with it.
    pub port: P,
    /// The flags the port was registered with.
    pub flags: PortFlags,
    /// The type of the port.
    pub port_type: PortType,
}

/// What became of a port of a registration list.
#[derive(Debug)]
pub enum PortRegistration<P> {
    /// The port could not be registered.
    Refused,
    /// The server registered the port under `uuid`.
    Registered { uuid: OwnedPortUuid, entry: PortEntry<P> },
}

/// The result reported for the port at position `i` of a registration list.
pub open spec fn registration_result<P>(outcomes: Seq<PortRegistration<P>>, i: int) -> Result<
    OwnedPortUuid,
    PortRegisterError,
> {
    match outcomes[i] {
        PortRegistration::Registered { uuid, .. } => Ok(uuid),
        PortRegistration::Refused => Err(PortRegisterError::at(i as usize)),
    }
}

/// The ports of `m` after the registered ports of `outcomes` were added in order.
pub open spec fn registered_ports<P>(
    m: Map<u64, PortEntry<P>>,
    outcomes: Seq<PortRegistration<P>>,
) -> Map<u64, PortEntry<P>>
    decreases outcomes.len(),
{
    if outcomes.len() == 0 {
        m
    } else {
        let before = registered_ports(m, outcomes.drop_last());
        match outcomes.last() {
            PortRegistration::Registered { uuid, entry } => before.insert(uuid.key(), entry),
            PortRegistration::Refused => before,
        }
    }
}

/// The ports of `m` without those listed in `ports`.
pub open spec fn unregistered_ports<P>(m: Map<u64, PortEntry<P>>, ports: Seq<OwnedPortUuid>) -> Map<
    u64,
    PortEntry<P>,
> {
    m.remove_keys(ports.map_values(|p: OwnedPortUuid| p.key()).to_set())
}

/// The ports owned by a client, keyed by the UUID of each port.
#[derive(Debug)]
pub struct PortTable<P> {
    ports: std::collections::HashMap<u64, PortEntry<P>>,
}

impl<P> View for PortTable<P> {
    type V = Map<u64, PortEntry<P>>;

    closed spec fn view(&self) -> Map<u64, PortEntry<P>> {
        self.ports@
    }
}

impl<P> PortTable<P> {
    /// An empty table.
    pub fn new() -> (r: PortTable<P>)
        ensures
            r@ == Map::<u64, PortEntry<P>>::empty(),
    {
        PortTable { ports: std::collections::HashMap::new() }
    }

    /// The number of ports in the table.
    pub fn len(&self) -> (r: usize)
        ensures
            r == self@.len(),
    {
        self.ports.len()
    }

    /// The port with the key `port`, if the table holds it.
    pub fn get(&self, port: OwnedPortUuid) -> (r: Option<&PortEntry<P>>)
        ensures
            r is Some <==> self@.contains_key(port.key()),
            r matches Some(e) ==> *e == self@[port.key()],
    {
        let key = port.uuid().value();
        self.ports.get(&key)
    }

    /// The handle of the port with the key `port`; an invalid option when the table does
    /// not hold it.
    pub fn port(&self, port: OwnedPortUuid) -> (r: Result<&P, Error>)
        ensures
            self@.contains_key(port.key()) ==> (r matches Ok(p) && *p == self@[port.key()].port),
            !self@.contains_key(port.key()) ==> (r matches Err(e) && e == Error::spec_invalid_option()),
    {
        match self.get(port) {
            Some(e) => Ok(&e.port),
            None => Err(Error::invalid_option()),
        }
    }

    /// Records the outcome of a registration list: each registered port enters the table
    /// (a later port replaces an earlier one with the same key), and the result at each
    /// position is the port's key or the error for that position.
    pub fn commit(&mut self, outcomes: Vec<PortRegistration<P>>) -> (r: Vec<
        Result<OwnedPortUuid, PortRegisterError>,
    >)
        ensures
            r@.len() == outcomes@.len(),
            forall|i: int| 0 <= i < r@.len() ==> r@[i] == registration_result(outcomes@, i),
            forall|i: int|
                0 <= i < r@.len() && #[trigger] outcomes@[i] is Refused ==> (r@[i] matches Err(e) && e.spec_index()
                    == i),
            forall|i: int|
                0 <= i < r@.len() && #[trigger] outcomes@[i] is Registered ==> r@[i] == Ok::<
                    OwnedPortUuid,
                    PortRegisterError,
                >(outcomes@[i]->uuid),
            final(self)@ == registered_ports(old(self)@, outcomes@),
    {
        let ghost all = outcomes@;
        let ghost start = self@;
        let count = outcomes.len();
        let ghost n = outcomes@.len();
        let mut results: Vec<Result<OwnedPortUuid, PortRegisterError>> = Vec::new();
        let mut i: usize = 0;
        for outcome in it: outcomes
            invariant
                it.seq() == all,
                all.len() == n,
                n == count,
                i == it.index(),
                results@.len() == i,
                forall|j: int| 0 <= j < i ==> results@[j] == registration_result(all, j),
                self@ == registered_ports(start, all.take(i as int)),
        {
            proof {
                assert(all.take(i + 1).drop_last() =~= all.take(i as int));
                assert(all.take(i + 1).last() == all[i as int]);
            }
            match outcome {
                PortRegistration::Registered { uuid, entry } => {
                    let key = uuid.uuid().value();
                    self.ports.insert(key, entry);
                    results.push(Ok(uuid));
                },
                PortRegistration::Refused => {
                    results.push(Err(PortRegisterError(i)));
                },
            }
            i = i + 1;
        }
        proof {
            assert(all.take(all.len() as int) =~= all);
        }
        results
    }

    /// Removes the listed ports from the table. Returns `false` when the list is empty, in
    /// which case nothing changes.
    pub fn unregister(&mut self, ports: Vec<OwnedPortUuid>) -> (r: bool)
        ensures
            r == (ports@.len() > 0),
            final(self)@ == unregistered_ports(old(self)@, ports@),
    {
        let ghost start = self@;
        let mut i: usize = 0;
        while i < ports.len()
            invariant
                i <= ports@.len(),
                self@ == unregistered_ports(start, ports@.take(i as int)),
            decreases ports@.len() - i,
        {
            let key = ports[i].uuid().value();
            self.ports.remove(&key);
            proof {
                let before = ports@.take(i as int).map_values(|p: OwnedPortUuid| p.key()).to_set();
                let after = ports@.take(i + 1).map_values(|p: OwnedPortUuid| p.key()).to_set();
                assert(ports@.take(i + 1).map_values(|p: OwnedPortUuid| p.key()) =~= ports@.take(
                    i as int,
                ).map_values(|p: OwnedPortUuid| p.key()).push(key));
                ports@.take(i as int).map_values(|p: OwnedPortUuid| p.key()).lemma_push_to_set_commute(key);
                assert(after =~= before.insert(key));
                assert(start.remove_keys(after) =~= start.remove_keys(before).remove(key));
            }
            i = i + 1;
        }
        proof {
            assert(ports@.take(ports@.len() as int) =~= ports@);
        }
        ports.len() > 0
    }

    /// Removes every port from the table.
    pub fn clear(&mut self)
        ensures
            final(self)@ == Map::<u64, PortEntry<P>>::empty(),
    {
        self.ports.clear();
    }
}

impl<P> Default for PortTable<P> {
    fn default() -> (r: PortTable<P>)
        ensures
            r@ == Map::<u64, PortEntry<P>>::empty(),
    {
        PortTable::new()
    }
}

impl<P: Clone> PortTable<P> {
    /// A copy of the table holding the same ports, as the process thread is handed.
    pub fn snapshot(&self) -> (r: PortTable<P>)
        ensures
            r@ == self@,
    {
        PortTable { ports: self.ports.clone() }
    }
}

} // verus!

verus! {

/// One call of the C API made while activating a client, or while undoing a failed
/// activation.
#[derive(Clone, Copy, Debug, PartialEq, Eq, Structural)]
pub enum ActivationStep {
    /// Install the thread-init and process callbacks of the process handler.
    SetProcessCallbacks,
    /// Remove the thread-init and process callbacks.
    UnsetProcessCallbacks,
    /// Install the callbacks that forward server notifications.
    SetNotificationCallbacks,
    /// Remove the notification callbacks.
    UnsetNotificationCallbacks,
    /// Install the latency callback.
    SetLatencyCallback,
    /// Remove the latency callback.
    UnsetLatencyCallback,
    /// Install the slow-sync callback of the process handler.
    SetSyncCallback,
    /// Remove the slow-sync callback.
    UnsetSyncCallback,
    /// Install the timebase callback; a conditional request fails when a timebase master
    /// is already registered.
    SetTimebaseCallback { conditional: bool },
    /// Tell the server the client is ready to process audio.
    Activate,
    /// Release the timebase.
    ReleaseTimebase,
    /// Remove the client from the process graph.
    Deactivate,
}

/// The calls that activate a client, in order. The latency step belongs to the
/// notification handler and the sync and timebase steps to the process handler, so each
/// is made only when that handler is given. A timebase request is conditional when the
/// flags hold `ACTIVATE_TIMEBASE_FORCE`.
pub open spec fn activation_plan(has_process: bool, has_notify: bool, flags: ActivateFlags) -> Seq<
    ActivationStep,
> {
    let process = if has_process {
        seq![ActivationStep::SetProcessCallbacks]
    } else {
        seq![ActivationStep::UnsetProcessCallbacks]
    };
    let notify = if has_notify {
        seq![
            ActivationStep::SetNotificationCallbacks,
            if flags.spec_has(ACTIVATE_LATENCY) {
                ActivationStep::SetLatencyCallback
            } else {
                ActivationStep::UnsetLatencyCallback
            },
        ]
    } else {
        seq![ActivationStep::UnsetNotificationCallbacks]
    };
    let sync = if has_process {
        seq![
            if flags.spec_has(ACTIVATE_SYNC) {
                ActivationStep::SetSyncCallback
            } else {
                ActivationStep::UnsetSyncCallback
            },
        ]
    } else {
        Seq::empty()
    };
    let timebase = if has_process && flags.spec_has(ACTIVATE_TIMEBASE) {
        seq![
            ActivationStep::SetTimebaseCallback {
                conditional: flags.spec_has(ACTIVATE_TIMEBASE_FORCE),
            },
        ]
    } else {
        Seq::empty()
    };
    process + notify + sync + timebase + seq![ActivationStep::Activate]
}

/// The calls that undo a failed activation: the timebase is released when the flags ask
/// for it, then the client is deactivated.
pub open spec fn rollback_plan(flags: ActivateFlags) -> Seq<ActivationStep> {
    if flags.spec_has(ACTIVATE_TIMEBASE) {
        seq![ActivationStep::ReleaseTimebase, ActivationStep::Deactivate]
    } else {
        seq![ActivationStep::Deactivate]
    }
}

/// The steps performed so far by an activation that has completed `done` steps and, when
/// `failed`, saw step `done` fail and then performed `undone` steps of the rollback.
pub open spec fn performed_steps(
    plan: Seq<ActivationStep>,
    rollback: Seq<ActivationStep>,
    done: int,
    failed: bool,
    undone: int,
) -> Seq<ActivationStep> {
    if failed {
        plan.take(done + 1) + rollback.take(undone)
    } else {
        plan.take(done)
    }
}

/// What the caller of an activation must do next.
#[derive(Clone, Copy, Debug, PartialEq, Eq, Structural)]
pub enum ActivationAction {
    /// Make this call, and report its result when the activation asks for it.
    Perform(ActivationStep),
    /// The client is active.
    Activated,
    /// The activation failed and was undone.
    Failed,
}

/// The sequence of calls that activates a client: each step of the plan is performed in
/// order until one fails; a failure is undone by the rollback plan.
#[derive(Debug)]
pub struct Activation {
    plan: Vec<ActivationStep>,
    rollback: Vec<ActivationStep>,
    done: usize,
    failed: bool,
    undone: usize,
    pending: bool,
}

impl Activation {
    /// The calls that activate the client.
    pub closed spec fn spec_plan(&self) -> Seq<ActivationStep> {
        self.plan@
    }

    /// The calls that undo a failed activation.
    pub closed spec fn spec_rollback(&self) -> Seq<ActivationStep> {
        self.rollback@
    }

    /// The number of steps of the plan that succeeded.
    pub closed spec fn spec_done(&self) -> int {
        self.done as int
    }

    /// Whether a step of the plan failed.
    pub closed spec fn spec_failed(&self) -> bool {
        self.failed
    }

    /// The number of rollback steps performed.
    pub closed spec fn spec_undone(&self) -> int {
        self.undone as int
    }

    /// Whether a step was handed out whose result is not reported yet.
    pub closed spec fn spec_pending(&self) -> bool {
        self.pending
    }

    /// The steps performed so far, in order.
    pub open spec fn performed(&self) -> Seq<ActivationStep> {
        performed_steps(
            self.spec_plan(),
            self.spec_rollback(),
            self.spec_done(),
            self.spec_failed(),
            self.spec_undone(),
        )
    }

    /// The consistency of the counters with the plans.
    pub closed spec fn wf(&self) -> bool {
        &&& self.plan@.len() <= usize::MAX
        &&& self.done <= self.plan@.len()
        &&& self.undone <= self.rollback@.len()
        &&& self.failed ==> self.done < self.plan@.len() && !self.pending
        &&& !self.failed ==> self.undone == 0
        &&& self.pending ==> self.done < self.plan@.len()
    }

    /// Starts an activation for a client with or without a process handler and a
    /// notification handler.
    pub fn new(has_process: bool, has_notify: bool, flags: ActivateFlags) -> (r: Activation)
        ensures
            r.wf(),
            r.spec_plan() == activation_plan(has_process, has_notify, flags),
            r.spec_rollback() == rollback_plan(flags),
            r.spec_done() == 0,
            !r.spec_failed(),
            r.spec_undone() == 0,
            !r.spec_pending(),
    {
        let mut plan: Vec<ActivationStep> = Vec::new();
        if has_process {
            plan.push(ActivationStep::SetProcessCallbacks);
        } else {
            plan.push(ActivationStep::UnsetProcessCallbacks);
        }
        if has_notify {
            plan.push(ActivationStep::SetNotificationCallbacks);
            if flags.contains(ActivateFlags::latency()) {
                plan.push(ActivationStep::SetLatencyCallback);
            } else {
                plan.push(ActivationStep::UnsetLatencyCallback);
            }
        } else {
            plan.push(ActivationStep::UnsetNotificationCallbacks);
        }
        if has_process {
            if flags.contains(ActivateFlags::sync()) {
                plan.push(ActivationStep::SetSyncCallback);
            } else {
                plan.push(ActivationStep::UnsetSyncCallback);
            }
            if flags.contains(ActivateFlags::timebase()) {
                let conditional = flags.contains(ActivateFlags::timebase_force());
                plan.push(ActivationStep::SetTimebaseCallback { conditional });
            }
        }
        plan.push(ActivationStep::Activate);
        let mut rollback: Vec<ActivationStep> = Vec::new();
        if flags.contains(ActivateFlags::timebase()) {
            rollback.push(ActivationStep::ReleaseTimebase);
        }
        rollback.push(ActivationStep::Deactivate);
        let r = Activation { plan, rollback, done: 0, failed: false, undone: 0, pending: false };
        assert(r.plan@ =~= activation_plan(has_process, has_notify, flags));
        assert(r.rollback@ =~= rollback_plan(flags));
        r
    }

    /// The next thing to do. A step of the plan is handed out until its result is reported
    /// with [`Self::report`]; a step of the rollback counts as done when handed out, and its
    /// result is not looked at. `Activated` comes once every step of the plan succeeded, and
    /// `Failed` once a step failed and the rollback was performed.
    pub fn next_action(&mut self) -> (r: ActivationAction)
        requires
            old(self).wf(),
            !old(self).spec_pending(),
        ensures
            final(self).wf(),
            final(self).spec_plan() == old(self).spec_plan(),
            final(self).spec_rollback() == old(self).spec_rollback(),
            final(self).spec_done() == old(self).spec_done(),
            final(self).spec_failed() == old(self).spec_failed(),
            !old(self).spec_failed() && old(self).spec_done() < old(self).spec_plan().len() ==> {
                &&& r == ActivationAction::Perform(old(self).spec_plan()[old(self).spec_done()])
                &&& final(self).spec_pending()
                &&& final(self).spec_undone() == old(self).spec_undone()
            },
            !old(self).spec_failed() && old(self).spec_done() == old(self).spec_plan().len() ==> {
                &&& r == ActivationAction::Activated
                &&& !final(self).spec_pending()
                &&& final(self).spec_undone() == old(self).spec_undone()
                &&& final(self).performed() == final(self).spec_plan()
            },
            old(self).spec_failed() && old(self).spec_undone() < old(self).spec_rollback().len() ==> {
                &&& r == ActivationAction::Perform(old(self).spec_rollback()[old(self).spec_undone()])
                &&& !final(self).spec_pending()
                &&& final(self).spec_undone() == old(self).spec_undone() + 1
                &&& final(self).performed() == old(self).performed().push(
                    old(self).spec_rollback()[old(self).spec_undone()],
                )
            },
            old(self).spec_failed() && old(self).spec_undone() == old(self).spec_rollback().len() ==> {
                &&& r == ActivationAction::Failed
                &&& !final(self).spec_pending()
                &&& final(self).spec_undone() == old(self).spec_undone()
                &&& final(self).performed() == old(self).spec_plan().take(old(self).spec_done() + 1)
                    + old(self).spec_rollback()
            },
    {
        if !self.failed {
            if self.done < self.plan.len() {
                self.pending = true;
                ActivationAction::Perform(self.plan[self.done])
            } else {
                assert(self.plan@.take(self.done as int) =~= self.plan@);
                ActivationAction::Activated
            }
        } else if self.undone < self.rollback.len() {
            let step = self.rollback[self.undone];
            let ghost before = self.performed();
            self.undone = self.undone + 1;
            assert(self.rollback@.take(self.undone as int) =~= self.rollback@.take(
                self.undone - 1,
            ).push(step));
            assert(self.performed() =~= before.push(step));
            ActivationAction::Perform(step)
        } else {
            assert(self.rollback@.take(self.undone as int) =~= self.rollback@);
            ActivationAction::Failed
        }
    }

    /// Reports whether the step handed out last succeeded. A success moves on to the next
    /// step of the plan; a failure starts the rollback.
    pub fn report(&mut self, ok: bool)
        requires
            old(self).wf(),
            old(self).spec_pending(),
        ensures
            final(self).wf(),
            !final(self).spec_pending(),
            final(self).spec_plan() == old(self).spec_plan(),
            final(self).spec_rollback() == old(self).spec_rollback(),
            final(self).spec_undone() == old(self).spec_undone(),
            final(self).performed() == old(self).performed().push(
                old(self).spec_plan()[old(self).spec_done()],
            ),
            ok ==> final(self).spec_done() == old(self).spec_done() + 1 && !final(self).spec_failed(),
            !ok ==> final(self).spec_done() == old(self).spec_done() && final(self).spec_failed(),
    {
        let ghost before = self.performed();
        let ghost step = self.plan@[self.done as int];
        self.pending = false;
        if ok {
            self.done = self.done + 1;
            assert(self.plan@.take(self.done as int) =~= self.plan@.take(self.done - 1).push(step));
        } else {
            self.failed = true;
            assert(self.rollback@.take(0) =~= Seq::<ActivationStep>::empty());
            assert(self.plan@.take(self.done + 1) =~= self.plan@.take(self.done as int).push(step));
            assert(self.performed() =~= before.push(step));
        }
    }
}

impl ActivationStep {
    /// The call that registers the process handler as a slow-sync client; an invalid option
    /// when the client has no process handler.
    pub fn register_sync(has_process: bool) -> (r: Result<ActivationStep, Error>)
        ensures
            has_process ==> r == Ok::<ActivationStep, Error>(ActivationStep::SetSyncCallback),
            !has_process ==> (r matches Err(e) && e == Error::spec_invalid_option()),
    {
        if has_process {
            Ok(ActivationStep::SetSyncCallback)
        } else {
            Err(Error::invalid_option())
        }
    }

    /// The call that takes over the timebase; without `force` the request is conditional.
    /// An invalid option when the client has no process handler.
    pub fn acquire_timebase(has_process: bool, force: bool) -> (r: Result<ActivationStep, Error>)
        ensures
            has_process ==> r == Ok::<ActivationStep, Error>(
                ActivationStep::SetTimebaseCallback { conditional: !force },
            ),
            !has_process ==> (r matches Err(e) && e == Error::spec_invalid_option()),
    {
        if has_process {
            Ok(ActivationStep::SetTimebaseCallback { conditional: !force })
        } else {
            Err(Error::invalid_option())
        }
    }
}

} // verus!

verus! {

/// A builder for opening a client: the name, the options and the server to connect to.
#[derive(Debug)]
pub struct ClientBuilder<Context> {
    name: Vec<u8>,
    flags: u32,
    server_name: Option<Vec<u8>>,
    context: Context,
}

/// What is handed to the server to open a client.
#[derive(Debug)]
pub struct OpenRequest<Context> {
    /// The client name, without a nul byte.
    pub name: Vec<u8>,
    /// The option bits.
    pub flags: u32,
    /// The name of the server to connect to, if one was selected.
    pub server_name: Option<Vec<u8>>,
    /// The thread context of the client.
    pub context: Context,
}

impl<Context> ClientBuilder<Context> {
    /// The bytes of the requested client name.
    pub closed spec fn spec_name(&self) -> Seq<u8> {
        self.name@
    }

    /// The option bits.
    pub closed spec fn spec_flags(&self) -> u32 {
        self.flags
    }

    /// The bytes of the selected server name, if any.
    pub closed spec fn spec_server_name(&self) -> Option<Seq<u8>> {
        match self.server_name {
            Some(n) => Some(n@),
            None => None,
        }
    }

    /// The thread context.
    pub closed spec fn spec_context(&self) -> Context {
        self.context
    }

    /// Create a builder for opening an external client session with a JACK server, using a
    /// custom thread context.
    pub fn with_context(client_name: &str, context: Context) -> (r: Self)
        ensures
            r.spec_name() == client_name.spec_bytes(),
            r.spec_flags() == JACK_NULL_OPTION,
            r.spec_server_name() is None,
            r.spec_context() == context,
    {
        let name = vstd::slice::slice_to_vec(client_name.as_bytes());
        ClientBuilder { name, flags: JACK_NULL_OPTION, server_name: None, context }
    }

    /// Sets flags for connecting to the JACK server; they join the flags already set.
    pub fn flags(self, flags: ClientOptions) -> (r: Self)
        ensures
            r.spec_name() == self.spec_name(),
            r.spec_flags() == self.spec_flags() | flags.spec_bits(),
            r.spec_server_name() == self.spec_server_name(),
            r.spec_context() == self.spec_context(),
    {
        let mut s = self;
        s.flags = s.flags | flags.bits();
        s
    }

    /// Selects the server instance named `server_name` (the bytes of a C string).
    pub fn server_name(self, server_name: Vec<u8>) -> (r: Self)
        requires
            first_nul(server_name@) is None,
        ensures
            r.spec_name() == self.spec_name(),
            r.spec_flags() == self.spec_flags() | JACK_SERVER_NAME,
            r.spec_server_name() == Some(server_name@),
            r.spec_context() == self.spec_context(),
    {
        let mut s = self;
        s.server_name = Some(server_name);
        s.flags = s.flags | JACK_SERVER_NAME;
        s
    }

    /// The request that opens the client; a client name holding a nul byte cannot be
    /// passed to the server.
    pub fn into_request(self) -> (r: Result<OpenRequest<Context>, Error>)
        ensures
            match c_string_check(self.spec_name()) {
                Err(p) => r matches Err(Error::InvalidCString(q)) && q == p,
                Ok(b) => r matches Ok(req) && req.name@ == b && req.flags == self.spec_flags()
                    && match req.server_name {
                    Some(n) => self.spec_server_name() == Some(n@),
                    None => self.spec_server_name() is None,
                } && req.context == self.spec_context(),
            },
    {
        match Error::check_c_string(self.name.as_slice()) {
            Err(e) => Err(e),
            Ok(()) => Ok(
                OpenRequest {
                    name: self.name,
                    flags: self.flags,
                    server_name: self.server_name,
                    context: self.context,
                },
            ),
        }
    }
}

impl<Context: Default> ClientBuilder<Context> {
    /// Create a builder for opening an external client session with a JACK server, with
    /// the default thread context.
    pub fn new(client_name: &str) -> (r: Self)
        ensures
            r.spec_name() == client_name.spec_bytes(),
            r.spec_flags() == JACK_NULL_OPTION,
            r.spec_server_name() is None,
    {
        Self::with_context(client_name, Context::default())
    }
}

} // verus!

verus! {

/// Whether outcome `i` of a registration list registered a port under `key`.
pub open spec fn registers_key<P>(outcomes: Seq<PortRegistration<P>>, i: int, key: u64) -> bool {
    outcomes[i] matches PortRegistration::Registered { uuid, .. } && uuid.key() == key
}

/// A port that a registration list registered is found in the table afterwards, with the
/// entry of the last registration under its key.
pub proof fn lemma_registered_port_found<P>(
    m: Map<u64, PortEntry<P>>,
    outcomes: Seq<PortRegistration<P>>,
    i: int,
)
    requires
        0 <= i < outcomes.len(),
        outcomes[i] is Registered,
        forall|j: int| i < j < outcomes.len() ==> !registers_key(outcomes, j, outcomes[i]->uuid.key()),
    ensures
        registered_ports(m, outcomes).contains_key(outcomes[i]->uuid.key()),
        registered_ports(m, outcomes)[outcomes[i]->uuid.key()] == outcomes[i]->entry,
    decreases outcomes.len(),
{
    let last = outcomes.len() - 1;
    if i < last {
        let prefix = outcomes.drop_last();
        assert forall|j: int| i < j < prefix.len() implies !registers_key(
            prefix,
            j,
            prefix[i]->uuid.key(),
        ) by {
            assert(prefix[j] == outcomes[j]);
            assert(prefix[i] == outcomes[i]);
            assert(!registers_key(outcomes, j, outcomes[i]->uuid.key()));
        }
        lemma_registered_port_found(m, prefix, i);
        assert(prefix[i] == outcomes[i]);
        assert(!registers_key(outcomes, last, outcomes[i]->uuid.key()));
    }
}

/// A key that no outcome of a registration list registered keeps its entry, or its absence.
pub proof fn lemma_unregistered_key_kept<P>(
    m: Map<u64, PortEntry<P>>,
    outcomes: Seq<PortRegistration<P>>,
    key: u64,
)
    requires
        forall|j: int| 0 <= j < outcomes.len() ==> !registers_key(outcomes, j, key),
    ensures
        registered_ports(m, outcomes).contains_key(key) == m.contains_key(key),
        m.contains_key(key) ==> registered_ports(m, outcomes)[key] == m[key],
    decreases outcomes.len(),
{
    if outcomes.len() > 0 {
        let prefix = outcomes.drop_last();
        assert forall|j: int| 0 <= j < prefix.len() implies !registers_key(prefix, j, key) by {
            assert(prefix[j] == outcomes[j]);
            assert(!registers_key(outcomes, j, key));
        }
        lemma_unregistered_key_kept(m, prefix, key);
        assert(!registers_key(outcomes, outcomes.len() - 1, key));
    }
}

/// The keys a registration list registered.
pub open spec fn registered_keys<P>(outcomes: Seq<PortRegistration<P>>) -> Set<u64> {
    Set::new(|k: u64| exists|j: int| 0 <= j < outcomes.len() && registers_key(outcomes, j, k))
}

/// Removing every key a registration list registered gives back the ports there were
/// before, when none of those keys was taken before.
pub proof fn lemma_unregister_undoes_register<P>(
    m: Map<u64, PortEntry<P>>,
    outcomes: Seq<PortRegistration<P>>,
)
    requires
        forall|k: u64| registered_keys(outcomes).contains(k) ==> !m.contains_key(k),
    ensures
        registered_ports(m, outcomes).remove_keys(registered_keys(outcomes)) == m,
    decreases outcomes.len(),
{
    let after = registered_ports(m, outcomes).remove_keys(registered_keys(outcomes));
    assert forall|k: u64| #[trigger] after.contains_key(k) == m.contains_key(k) && (m.contains_key(k) ==> after[k] == m[k]) by {
        if registered_keys(outcomes).contains(k) {
            assert(!m.contains_key(k));
        } else {
            assert forall|j: int| 0 <= j < outcomes.len() implies !registers_key(outcomes, j, k) by {
                if registers_key(outcomes, j, k) {
                    assert(registered_keys(outcomes).contains(k));
                }
            }
            lemma_unregistered_key_kept(m, outcomes, k);
        }
    }
    assert(after =~= m);
}

/// After the listed ports are unregistered none of them is in the table, and every other
/// port keeps its entry.
pub proof fn lemma_unregistered_ports<P>(m: Map<u64, PortEntry<P>>, ports: Seq<OwnedPortUuid>, key: u64)
    ensures
        (exists|i: int| 0 <= i < ports.len() && ports[i].key() == key) ==> !unregistered_ports(
            m,
            ports,
        ).contains_key(key),
        (forall|i: int| 0 <= i < ports.len() ==> ports[i].key() != key) ==> (unregistered_ports(
            m,
            ports,
        ).contains_key(key) == m.contains_key(key) && (m.contains_key(key) ==> unregistered_ports(
            m,
            ports,
        )[key] == m[key])),
{
    let keys = ports.map_values(|p: OwnedPortUuid| p.key());
    if exists|i: int| 0 <= i < ports.len() && ports[i].key() == key {
        let i = choose|i: int| 0 <= i < ports.len() && ports[i].key() == key;
        assert(keys[i] == key);
        assert(keys.to_set().contains(key));
    }
    if forall|i: int| 0 <= i < ports.len() ==> ports[i].key() != key {
        if keys.to_set().contains(key) {
            let i = choose|i: int| 0 <= i < keys.len() && keys[i] == key;
            assert(ports[i].key() == key);
        }
    }
}

/// The activation plan always ends by activating the client; it installs the timebase
/// callback exactly when a process handler is given and the flags ask for the timebase.
/// The rollback always ends by deactivating the client and releases the timebase exactly
/// when the flags ask for it.
pub proof fn lemma_activation_plan_shape(has_process: bool, has_notify: bool, flags: ActivateFlags)
    ensures
        activation_plan(has_process, has_notify, flags).last() == ActivationStep::Activate,
        (exists|i: int|
            0 <= i < activation_plan(has_process, has_notify, flags).len() && #[trigger] activation_plan(
                has_process,
                has_notify,
                flags,
            )[i] is SetTimebaseCallback) <==> (has_process && flags.spec_has(ACTIVATE_TIMEBASE)),
        rollback_plan(flags).last() == ActivationStep::Deactivate,
        rollback_plan(flags).contains(ActivationStep::ReleaseTimebase) <==> flags.spec_has(
            ACTIVATE_TIMEBASE,
        ),
{
    let plan = activation_plan(has_process, has_notify, flags);
    if has_process && flags.spec_has(ACTIVATE_TIMEBASE) {
        let i = plan.len() - 2;
        assert(plan[i] is SetTimebaseCallback);
    }
    if !(has_process && flags.spec_has(ACTIVATE_TIMEBASE)) {
        assert forall|i: int| 0 <= i < plan.len() implies !(#[trigger] plan[i] is SetTimebaseCallback) by {
        }
    }
    let rb = rollback_plan(flags);
    if flags.spec_has(ACTIVATE_TIMEBASE) {
        assert(rb[0] == ActivationStep::ReleaseTimebase);
    } else {
        assert(rb.len() == 1);
        if rb.contains(ActivationStep::ReleaseTimebase) {
            let i = choose|i: int| 0 <= i < rb.len() && rb[i] == ActivationStep::ReleaseTimebase;
            assert(i == 0);
        }
    }
}

/// The flags a port is registered with select exactly one direction, the one of the mode
/// the port was defined with: input and output are mutually exclusive, and the mode read
/// back from the flags is the port's mode.
pub proof fn lemma_register_flags_direction<'s, P>(info: PortInfo<'s, P>)
    requires
        info.flags.wf(),
    ensures
        (info.spec_register_flags() & crate::port::JACK_PORT_IS_INPUT != 0) != (
        info.spec_register_flags() & crate::port::JACK_PORT_IS_OUTPUT != 0),
        (info.spec_register_flags() & crate::port::JACK_PORT_IS_INPUT != 0) == (info.mode
            == PortMode::Input),
{
    let c = info.flags.spec_bits();
    PortCreateFlags::lemma_all_bits();
    assert(c & !0x1cu32 == 0 ==> ((0x1u32 | c) & 0x1u32 != 0 && (0x1u32 | c) & 0x2u32 == 0
        && (0x2u32 | c) & 0x1u32 == 0 && (0x2u32 | c) & 0x2u32 != 0)) by (bit_vector);
}

/// An activation whose step `done` failed, once its rollback is performed, has made
/// exactly the steps of the plan up to the failed one, then released the timebase when the
/// flags asked for it, and ends by deactivating the client.
pub proof fn lemma_failed_activation_rolls_back(
    plan: Seq<ActivationStep>,
    flags: ActivateFlags,
    done: int,
)
    requires
        0 <= done < plan.len(),
    ensures
        performed_steps(plan, rollback_plan(flags), done, true, rollback_plan(flags).len() as int).take(
            done + 1,
        ) == plan.take(done + 1),
        performed_steps(plan, rollback_plan(flags), done, true, rollback_plan(flags).len() as int).last()
            == ActivationStep::Deactivate,
        performed_steps(plan, rollback_plan(flags), done, true, rollback_plan(flags).len() as int).skip(
            done + 1,
        ) == rollback_plan(flags),
        rollback_plan(flags).contains(ActivationStep::ReleaseTimebase) <==> flags.spec_has(
            ACTIVATE_TIMEBASE,
        ),
{
    let rb = rollback_plan(flags);
    let p = performed_steps(plan, rb, done, true, rb.len() as int);
    assert(rb.take(rb.len() as int) =~= rb);
    assert(p =~= plan.take(done + 1) + rb);
    assert(p.take(done + 1) =~= plan.take(done + 1));
    assert(p.skip(done + 1) =~= rb);
    lemma_activation_plan_shape(false, false, flags);
}

/// The keys a table holds after a registration list was recorded are the keys it held
/// before together with the keys the list registered.
pub proof fn lemma_registered_ports_domain<P>(
    m: Map<u64, PortEntry<P>>,
    outcomes: Seq<PortRegistration<P>>,
)
    ensures
        registered_ports(m, outcomes).dom() == m.dom().union(registered_keys(outcomes)),
    decreases outcomes.len(),
{
    if outcomes.len() == 0 {
        assert(registered_keys(outcomes) =~= Set::<u64>::empty());
        assert(m.dom().union(registered_keys(outcomes)) =~= m.dom());
    } else {
        let prefix = outcomes.drop_last();
        let last = outcomes.len() - 1;
        lemma_registered_ports_domain(m, prefix);
        assert forall|k: u64| #[trigger] registered_keys(outcomes).contains(k) == (
        registered_keys(prefix).contains(k) || registers_key(outcomes, last, k)) by {
            if registered_keys(outcomes).contains(k) {
                let j = choose|j: int| 0 <= j < outcomes.len() && registers_key(outcomes, j, k);
                if j < last {
                    assert(prefix[j] == outcomes[j]);
                    assert(registers_key(prefix, j, k));
                }
            }
            if registered_keys(prefix).contains(k) {
                let j = choose|j: int| 0 <= j < prefix.len() && registers_key(prefix, j, k);
                assert(prefix[j] == outcomes[j]);
                assert(registers_key(outcomes, j, k));
            }
            if registers_key(outcomes, last, k) {
                assert(registers_key(outcomes, last, k));
            }
        }
        assert(registered_ports(m, outcomes).dom() =~= m.dom().union(registered_keys(outcomes)));
    }
}

/// A call made on a client builder: joining options, or selecting a server by name.
#[derive(Debug)]
pub enum BuilderCall {
    /// [`ClientBuilder::flags`] with these options.
    Flags(ClientOptions),
    /// [`ClientBuilder::server_name`] with this name.
    ServerName(Vec<u8>),
}

/// The option bits a builder call joins.
pub open spec fn call_bits(call: BuilderCall) -> u32 {
    match call {
        BuilderCall::Flags(o) => o.spec_bits(),
        BuilderCall::ServerName(_) => JACK_SERVER_NAME,
    }
}

/// Whether `after` is the builder that `call` on `before` gives, as the builder's methods
/// state it.
pub open spec fn builder_call_result<C>(
    before: ClientBuilder<C>,
    call: BuilderCall,
    after: ClientBuilder<C>,
) -> bool {
    &&& after.spec_name() == before.spec_name()
    &&& after.spec_context() == before.spec_context()
    &&& after.spec_flags() == before.spec_flags() | call_bits(call)
    &&& after.spec_server_name() == match call {
        BuilderCall::ServerName(n) => Some(n@),
        BuilderCall::Flags(_) => before.spec_server_name(),
    }
}

/// The option bits of a list of builder calls taken together.
pub open spec fn joined_call_bits(calls: Seq<BuilderCall>) -> u32
    decreases calls.len(),
{
    if calls.len() == 0 {
        0
    } else {
        joined_call_bits(calls.drop_last()) | call_bits(calls.last())
    }
}

/// The server name a builder selects after `calls`, starting from `start`: the name of the
/// last server-name call, or `start` without one.
pub open spec fn last_server_name(start: Option<Seq<u8>>, calls: Seq<BuilderCall>) -> Option<
    Seq<u8>,
>
    decreases calls.len(),
{
    if calls.len() == 0 {
        start
    } else {
        match calls.last() {
            BuilderCall::ServerName(n) => Some(n@),
            BuilderCall::Flags(_) => last_server_name(start, calls.drop_last()),
        }
    }
}

/// Over any sequence of option and server-name calls on a builder, in any order, the
/// builder ends with its starting bits joined with the bits of every call (a later call
/// never clears what an earlier one set; a server-name call sets `JACK_SERVER_NAME`), with
/// the name of the last server-name call (or the starting one without such a call), and with
/// its client name and context unchanged.
pub proof fn lemma_builder_calls<C>(builders: Seq<ClientBuilder<C>>, calls: Seq<BuilderCall>)
    requires
        builders.len() == calls.len() + 1,
        forall|i: int|
            0 <= i < calls.len() ==> builder_call_result(
                builders[i],
                #[trigger] calls[i],
                builders[i + 1],
            ),
    ensures
        builders.last().spec_flags() == builders[0].spec_flags() | joined_call_bits(calls),
        forall|i: int|
            0 <= i < calls.len() ==> builders.last().spec_flags() & call_bits(#[trigger] calls[i])
                == call_bits(calls[i]),
        builders.last().spec_server_name() == last_server_name(
            builders[0].spec_server_name(),
            calls,
        ),
        builders.last().spec_name() == builders[0].spec_name(),
        builders.last().spec_context() == builders[0].spec_context(),
    decreases calls.len(),
{
    let start = builders[0].spec_flags();
    if calls.len() == 0 {
        assert(start | 0u32 == start) by (bit_vector);
    } else {
        let n = calls.len() - 1;
        let p = calls.drop_last();
        let bs = builders.drop_last();
        assert forall|i: int| 0 <= i < p.len() implies builder_call_result(
            bs[i],
            #[trigger] p[i],
            bs[i + 1],
        ) by {
            assert(builder_call_result(builders[i], calls[i], builders[i + 1]));
        }
        lemma_builder_calls(bs, p);
        let before = bs.last().spec_flags();
        let b = call_bits(calls[n]);
        let j = joined_call_bits(p);
        assert(builder_call_result(builders[n], calls[n], builders[n + 1]));
        assert(builders.last().spec_flags() == before | b);
        assert((start | j) | b == start | (j | b)) by (bit_vector);
        assert forall|i: int| 0 <= i < calls.len() implies builders.last().spec_flags() & call_bits(
            #[trigger] calls[i],
        ) == call_bits(calls[i]) by {
            let c = call_bits(calls[i]);
            if i < n {
                assert(p[i] == calls[i]);
                assert(before & c == c);
                assert(before & c == c ==> (before | b) & c == c) by (bit_vector);
            } else {
                assert((before | b) & b == b) by (bit_vector);
            }
        }
    }
}

/// Two owned-port keys are equal exactly when their UUIDs are, and so exactly when their
/// numeric keys are.
pub proof fn lemma_owned_port_key_equality(a: OwnedPortUuid, b: OwnedPortUuid)
    ensures
        (a == b) <==> (a.spec_uuid() == b.spec_uuid()),
        (a == b) <==> (a.key() == b.key()),
{
    Uuid::lemma_id_determines(a.spec_uuid(), b.spec_uuid());
    assert((a == b) <==> (a.spec_uuid() == b.spec_uuid()));
}

spec fn one_step(a: ActivationStep) -> Seq<ActivationStep> {
    seq![a]
}

spec fn two_steps(a: ActivationStep, c: ActivationStep) -> Seq<ActivationStep> {
    seq![a, c]
}

/// What activating a client installs follows the handlers given and the flags, bit by bit:
/// the process callbacks are installed exactly when a process handler is given and removed
/// otherwise, and likewise the notification callbacks for a notification handler. With a
/// process handler, the slow-sync callback is installed exactly when the flags hold the sync
/// bit and removed otherwise, and the timebase callback is requested exactly when they hold
/// the timebase bit, conditionally exactly when they also hold the forcing bit. With a
/// notification handler, the latency callback is installed exactly when the flags hold the
/// latency bit and removed otherwise. A handler that is not given has none of its callbacks
/// touched, and the plan always activates the client.
pub proof fn lemma_activation_plan_follows_flags(
    has_process: bool,
    has_notify: bool,
    flags: ActivateFlags,
)
    ensures
        activation_plan(has_process, has_notify, flags).contains(ActivationStep::SetProcessCallbacks)
            == has_process,
        activation_plan(has_process, has_notify, flags).contains(ActivationStep::UnsetProcessCallbacks)
            == !has_process,
        activation_plan(has_process, has_notify, flags).contains(ActivationStep::SetNotificationCallbacks)
            == has_notify,
        activation_plan(has_process, has_notify, flags).contains(ActivationStep::UnsetNotificationCallbacks)
            == !has_notify,
        activation_plan(has_process, has_notify, flags).contains(ActivationStep::SetSyncCallback)
            == (has_process && flags.spec_bits() & ACTIVATE_SYNC == ACTIVATE_SYNC),
        activation_plan(has_process, has_notify, flags).contains(ActivationStep::UnsetSyncCallback)
            == (has_process && flags.spec_bits() & ACTIVATE_SYNC != ACTIVATE_SYNC),
        activation_plan(has_process, has_notify, flags).contains(ActivationStep::SetLatencyCallback)
            == (has_notify && flags.spec_bits() & ACTIVATE_LATENCY == ACTIVATE_LATENCY),
        activation_plan(has_process, has_notify, flags).contains(ActivationStep::UnsetLatencyCallback)
            == (has_notify && flags.spec_bits() & ACTIVATE_LATENCY != ACTIVATE_LATENCY),
        activation_plan(has_process, has_notify, flags).contains(
            ActivationStep::SetTimebaseCallback { conditional: true },
        ) == (has_process && flags.spec_bits() & ACTIVATE_TIMEBASE_FORCE == ACTIVATE_TIMEBASE_FORCE),
        activation_plan(has_process, has_notify, flags).contains(
            ActivationStep::SetTimebaseCallback { conditional: false },
        ) == (has_process && flags.spec_bits() & ACTIVATE_TIMEBASE == ACTIVATE_TIMEBASE
            && flags.spec_bits() & ACTIVATE_TIMEBASE_FORCE != ACTIVATE_TIMEBASE_FORCE),
        activation_plan(has_process, has_notify, flags).contains(ActivationStep::Activate),
{
    broadcast use vstd::seq_lib::group_seq_properties;

    let b = flags.spec_bits();
    assert(b & 12u32 == 12u32 ==> b & 4u32 == 4u32) by (bit_vector);
    assert(8u32 | 4u32 == 12u32) by (bit_vector);
    let plan = activation_plan(has_process, has_notify, flags);
    let process = if has_process {
        one_step(ActivationStep::SetProcessCallbacks)
    } else {
        one_step(ActivationStep::UnsetProcessCallbacks)
    };
    let notify = if has_notify {
        two_steps(
            ActivationStep::SetNotificationCallbacks,
            if b & ACTIVATE_LATENCY == ACTIVATE_LATENCY {
                ActivationStep::SetLatencyCallback
            } else {
                ActivationStep::UnsetLatencyCallback
            },
        )
    } else {
        one_step(ActivationStep::UnsetNotificationCallbacks)
    };
    let sync = if has_process {
        one_step(
            if b & ACTIVATE_SYNC == ACTIVATE_SYNC {
                ActivationStep::SetSyncCallback
            } else {
                ActivationStep::UnsetSyncCallback
            },
        )
    } else {
        Seq::empty()
    };
    let timebase = if has_process && b & ACTIVATE_TIMEBASE == ACTIVATE_TIMEBASE {
        one_step(ActivationStep::SetTimebaseCallback {
            conditional: b & ACTIVATE_TIMEBASE_FORCE == ACTIVATE_TIMEBASE_FORCE,
        })
    } else {
        Seq::empty()
    };
    let last = one_step(ActivationStep::Activate);
    assert(plan == process + notify + sync + timebase + last);
    assert forall|x: ActivationStep| #[trigger] plan.contains(x) <==> (process.contains(x)
        || notify.contains(x) || sync.contains(x) || timebase.contains(x) || last.contains(x)) by {
    }
    assert forall|x: ActivationStep, a: ActivationStep| #[trigger] one_step(a).contains(x) <==> x == a by {
        if x == a {
            assert(one_step(a)[0] == x);
        }
    }
    assert forall|x: ActivationStep, a: ActivationStep, c: ActivationStep| #[trigger] two_steps(
        a,
        c,
    ).contains(x) <==> (x == a || x == c) by {
        if x == a {
            assert(two_steps(a, c)[0] == x);
        }
        if x == c {
            assert(two_steps(a, c)[1] == x);
        }
    }
    assert(last.contains(ActivationStep::Activate));
}

/// The result reported at each position of a registration list names that position: a
/// refused port gives the error holding its own position in the list, and a registered port
/// gives its UUID. (A list is held in memory, so its length fits in `usize`.)
pub proof fn lemma_registration_results_name_positions<P>(outcomes: Seq<PortRegistration<P>>)
    requires
        outcomes.len() <= usize::MAX,
    ensures
        forall|i: int|
            0 <= i < outcomes.len() && #[trigger] outcomes[i] is Refused ==> (registration_result(
                outcomes,
                i,
            ) matches Err(e) && e.spec_index() == i),
        forall|i: int|
            0 <= i < outcomes.len() && #[trigger] outcomes[i] is Registered ==> registration_result(
                outcomes,
                i,
            ) == Ok::<OwnedPortUuid, PortRegisterError>(outcomes[i]->uuid),
{
    assert forall|i: int| 0 <= i < outcomes.len() && #[trigger] outcomes[i] is Refused implies (
    registration_result(outcomes, i) matches Err(e) && e.spec_index() == i) by {
        PortRegisterError::lemma_at(i as usize);
    }
}

/// A port is registered with every one of its creation flags, beside the flag of its mode,
/// and with no flag besides those.
pub proof fn lemma_register_flags_hold_creation_flags<'s, P>(info: PortInfo<'s, P>)
    requires
        info.flags.wf(),
    ensures
        info.spec_register_flags() & info.flags.spec_bits() == info.flags.spec_bits(),
        info.mode == PortMode::Input ==> info.spec_register_flags() & crate::port::JACK_PORT_IS_INPUT
            != 0,
        info.mode == PortMode::Output ==> info.spec_register_flags() & crate::port::JACK_PORT_IS_OUTPUT
            != 0,
        info.spec_register_flags() & !(info.flags.spec_bits() | crate::port::JACK_PORT_IS_INPUT
            | crate::port::JACK_PORT_IS_OUTPUT) == 0,
{
    let c = info.flags.spec_bits();
    PortCreateFlags::lemma_all_bits();
    assert(c & !0x1cu32 == 0 ==> {
        &&& (1u32 | c) & c == c
        &&& (2u32 | c) & c == c
        &&& (1u32 | c) & 1u32 != 0
        &&& (2u32 | c) & 2u32 != 0
        &&& (1u32 | c) & !(c | 1u32 | 2u32) == 0
        &&& (2u32 | c) & !(c | 1u32 | 2u32) == 0
    }) by (bit_vector);
}

} // verus!
