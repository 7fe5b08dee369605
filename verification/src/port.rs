//! Port flags, types and modes, and the list of port aliases.
use vstd::prelude::*;
use vstd::std_specs::convert::FromSpecImpl;
use crate::{Error, Frames};

verus! {

#[verifier::external_type_specification]
#[verifier::external_body]
#[verifier::reject_recursive_types(T)]
pub struct ExArrayVec<T, const CAP: usize>(arrayvec::ArrayVec<T, CAP>);

/// The aliases held by a list of port aliases, in order.
pub uninterp spec fn alias_list_items(list: arrayvec::ArrayVec<Vec<u8>, 2>) -> Seq<Seq<u8>>;

/// Calls `ArrayVec::new`, which creates an empty vector.
#[verifier::external_body]
fn alias_list_new() -> (r: arrayvec::ArrayVec<Vec<u8>, 2>)
    ensures
        alias_list_items(r) == Seq::<Seq<u8>>::empty(),
{
    arrayvec::ArrayVec::new()
}

/// Calls `ArrayVec::push`, which appends `alias` at the end; it panics when the vector is
/// full, so the vector must hold fewer than two items.
#[verifier::external_body]
fn alias_list_push(list: &mut arrayvec::ArrayVec<Vec<u8>, 2>, alias: Vec<u8>)
    requires
        alias_list_items(*old(list)).len() < 2,
    ensures
        alias_list_items(*final(list)) == alias_list_items(*old(list)).push(alias@),
{
    list.push(alias)
}

/// Flag bit: the port can receive data.
pub const JACK_PORT_IS_INPUT: u32 = 0x1;
/// Flag bit: data can be read from the port.
pub const JACK_PORT_IS_OUTPUT: u32 = 0x2;
/// Flag bit: the port corresponds to some kind of physical I/O connector.
pub const JACK_PORT_IS_PHYSICAL: u32 = 0x4;
/// Flag bit: input monitoring can be requested on the port.
pub const JACK_PORT_CAN_MONITOR: u32 = 0x8;
/// Flag bit: the port is a terminal end for data flow.
pub const JACK_PORT_IS_TERMINAL: u32 = 0x10;

/// A unique ID to track JACK ports; never zero.
#[derive(Clone, Copy, Debug, Hash, PartialEq, Eq, Structural, PartialOrd, Ord)]
pub struct PortId(u32);

impl PortId {
    #[verifier::type_invariant]
    spec fn nonzero(self) -> bool {
        self.0 != 0
    }

    /// The numeric value of the ID.
    pub closed spec fn id(self) -> u32 {
        self.0
    }

    /// The port ID for a raw value, if it is not zero.
    pub fn from_raw(id: u32) -> (r: Option<PortId>)
        ensures
            r is Some <==> id != 0,
            r matches Some(p) ==> p.id() == id,
    {
        if id == 0 {
            None
        } else {
            Some(PortId(id))
        }
    }

    /// The numeric value of the ID, which is never zero.
    pub fn get(&self) -> (r: u32)
        ensures
            r == self.id(),
            r != 0,
    {
        proof {
            use_type_invariant(self);
        }
        self.0
    }
}

/// A set of flags describing JACK ports.
#[derive(Clone, Copy, Debug, Hash, PartialEq, Eq, Structural, PartialOrd, Ord)]
pub struct PortFlags(u32);

impl PortFlags {
    /// The flag bits.
    pub closed spec fn spec_bits(self) -> u32 {
        self.0
    }

    /// The flag bits.
    pub fn bits(&self) -> (r: u32)
        ensures
            r == self.spec_bits(),
    {
        self.0
    }

    /// The flags holding `bits`.
    pub closed spec fn spec_from_bits(bits: u32) -> PortFlags {
        PortFlags(bits)
    }

    pub broadcast proof fn lemma_from_bits(bits: u32)
        ensures
            #[trigger] PortFlags::spec_from_bits(bits).spec_bits() == bits,
    {
    }

    /// Creates a set of flags from raw flag bits.
    pub fn from_bits(bits: u32) -> (r: PortFlags)
        ensures
            r.spec_bits() == bits,
            r == PortFlags::spec_from_bits(bits),
    {
        PortFlags(bits)
    }

    /// Returns `true` if the port can receive data.
    pub fn is_input(&self) -> (r: bool)
        ensures
            r == (self.spec_bits() & JACK_PORT_IS_INPUT != 0),
    {
        (self.0 & JACK_PORT_IS_INPUT) != 0
    }

    /// Returns `true` if data can be read from the port.
    pub fn is_output(&self) -> (r: bool)
        ensures
            r == (self.spec_bits() & JACK_PORT_IS_OUTPUT != 0),
    {
        (self.0 & JACK_PORT_IS_OUTPUT) != 0
    }

    /// Returns `true` if the port corresponds to some kind of physical I/O connector.
    pub fn is_physical(&self) -> (r: bool)
        ensures
            r == (self.spec_bits() & JACK_PORT_IS_PHYSICAL != 0),
    {
        (self.0 & JACK_PORT_IS_PHYSICAL) != 0
    }

    /// Returns `true` if input monitoring can be requested on this port.
    pub fn can_monitor(&self) -> (r: bool)
        ensures
            r == (self.spec_bits() & JACK_PORT_CAN_MONITOR != 0),
    {
        (self.0 & JACK_PORT_CAN_MONITOR) != 0
    }

    /// Returns `true` if the port is a terminal end for data flow.
    pub fn is_terminal(&self) -> (r: bool)
        ensures
            r == (self.spec_bits() & JACK_PORT_IS_TERMINAL != 0),
    {
        (self.0 & JACK_PORT_IS_TERMINAL) != 0
    }

    /// Returns the mode corresponding to the flags; the input flag decides when both are set.
    pub fn mode(&self) -> (r: PortMode)
        requires
            self.spec_bits() & JACK_PORT_IS_INPUT != 0 || self.spec_bits() & JACK_PORT_IS_OUTPUT != 0,
        ensures
            r == (if self.spec_bits() & JACK_PORT_IS_INPUT != 0 {
                PortMode::Input
            } else {
                PortMode::Output
            }),
    {
        if self.is_input() {
            PortMode::Input
        } else {
            PortMode::Output
        }
    }
}

impl From<PortFlags> for u32 {
    fn from(flags: PortFlags) -> (r: u32) {
        flags.0
    }
}

impl FromSpecImpl<PortFlags> for u32 {
    open spec fn obeys_from_spec() -> bool {
        true
    }

    open spec fn from_spec(v: PortFlags) -> u32 {
        v.spec_bits()
    }
}

/// An ID representing common port types.
#[derive(Clone, Copy, Debug, Hash, PartialEq, Eq, Structural, PartialOrd, Ord)]
pub enum PortType {
    /// 32-bit float mono audio.
    Audio,
    /// 8-bit raw MIDI.
    Midi,
}

/// The name of a port type, as the C API spells it.
pub open spec fn port_type_name(t: PortType) -> Seq<char> {
    match t {
        PortType::Audio => "32 bit float mono audio"@,
        PortType::Midi => "8 bit raw midi"@,
    }
}

impl PortType {
    /// Returns a human-readable string describing the port type.
    pub fn as_str(&self) -> (r: &'static str)
        ensures
            r@ == port_type_name(*self),
    {
        match self {
            PortType::Audio => "32 bit float mono audio",
            PortType::Midi => "8 bit raw midi",
        }
    }

    /// The port type for a numeric type ID of the C API: 0 is audio, 1 is MIDI, and any
    /// other ID is a type these bindings do not support.
    pub fn from_type_id(id: u32) -> (r: Option<PortType>)
        ensures
            r == (if id == 0 {
                Some(PortType::Audio)
            } else if id == 1 {
                Some(PortType::Midi)
            } else {
                None::<PortType>
            }),
    {
        match id {
            0 => Some(PortType::Audio),
            1 => Some(PortType::Midi),
            _ => None,
        }
    }
}

/// The input/output mode of the port.
#[derive(Clone, Copy, Debug, Hash, PartialEq, Eq, Structural, PartialOrd, Ord)]
pub enum PortMode {
    /// The port can receive data.
    Input,
    /// Data can be read from the port.
    Output,
}

/// The flag bit of a port mode.
pub open spec fn port_mode_flags(m: PortMode) -> u32 {
    match m {
        PortMode::Input => JACK_PORT_IS_INPUT,
        PortMode::Output => JACK_PORT_IS_OUTPUT,
    }
}

impl PortMode {
    /// The flag bit selecting this mode.
    pub fn flags(&self) -> (r: u32)
        ensures
            r == port_mode_flags(*self),
    {
        match self {
            PortMode::Input => JACK_PORT_IS_INPUT,
            PortMode::Output => JACK_PORT_IS_OUTPUT,
        }
    }
}

/// A min/max range for port latency.
#[derive(Debug)]
pub struct LatencyRange {
    /// Minimum latency.
    pub min: Frames,
    /// Maximum latency.
    pub max: Frames,
}

/// The aliases a port reports: `count` of them, taken in order from the two buffers.
pub open spec fn reported_aliases(count: i32, first: Seq<u8>, second: Seq<u8>) -> Seq<Seq<u8>> {
    if count <= 0 {
        Seq::empty()
    } else if count == 1 {
        seq![first]
    } else {
        seq![first, second]
    }
}

/// Collects the aliases of a port from the return code of the alias query and the two
/// buffers it filled. A negative code is the generic failure.
pub fn collect_aliases(count: i32, first: Vec<u8>, second: Vec<u8>) -> (r: Result<
    arrayvec::ArrayVec<Vec<u8>, 2>,
    Error,
>)
    ensures
        count < 0 ==> (r matches Err(e) && e == Error::spec_unknown()),
        count >= 0 ==> (r matches Ok(list) && alias_list_items(list) == reported_aliases(
            count,
            first@,
            second@,
        )),
{
    match Error::check_ret(count) {
        Err(e) => return Err(e),
        Ok(()) => {},
    }
    let ghost f = first@;
    let ghost s = second@;
    let mut list = alias_list_new();
    if count > 0 {
        alias_list_push(&mut list, first);
    }
    if count > 1 {
        alias_list_push(&mut list, second);
    }
    assert(alias_list_items(list) =~= reported_aliases(count, f, s));
    Ok(list)
}

} // verus!
