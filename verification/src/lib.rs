//! Verified core of a JACK Audio Connection Kit client binding.
use vstd::prelude::*;
use vstd::std_specs::convert::FromSpecImpl;
use vstd::string::StringSliceAdditionalSpecFns;

pub mod callbacks;
pub mod client;
pub mod exchange;
pub mod port;
pub mod process;
pub mod properties;
mod time_order;
pub mod tokio;
pub mod transport;

pub use callbacks::{LatencyMode, Notification, NotificationHandler, PropertyChange};
pub use client::{
    ActivateFlags, Activation, ActivationAction, ActivationStep, ClientBuilder, ClientOptions,
    OpenRequest, OwnedPortUuid, PortCreateFlags, PortEntry, PortInfo, PortRegisterError,
    PortRegistration, PortRequest, PortTable, Status,
};
pub use port::{LatencyRange, PortFlags, PortId, PortMode, PortType};
pub use process::{CycleTimes, MidiCursor, MidiEvent};
pub use properties::{Property, PropertyDescription, PropertyDescriptionList};
pub use transport::{
    PositionFields, TransportBBT, TransportPosition, TransportState, TransportTimecode,
};

verus! {

/// Status bit: overall operation failed.
pub const JACK_FAILURE: u32 = 0x01;
/// Status bit: the operation contained an invalid or unsupported option.
pub const JACK_INVALID_OPTION: u32 = 0x02;
/// Status bit: the desired client name was not unique.
pub const JACK_NAME_NOT_UNIQUE: u32 = 0x04;
/// Status bit: the JACK server was started as a result of this operation.
pub const JACK_SERVER_STARTED: u32 = 0x08;
/// Status bit: unable to connect to the JACK server.
pub const JACK_SERVER_FAILED: u32 = 0x10;
/// Status bit: communication error with the JACK server.
pub const JACK_SERVER_ERROR: u32 = 0x20;
/// Status bit: requested client does not exist.
pub const JACK_NO_SUCH_CLIENT: u32 = 0x40;
/// Status bit: unable to load internal client.
pub const JACK_LOAD_FAILURE: u32 = 0x80;
/// Status bit: unable to initialize client.
pub const JACK_INIT_FAILURE: u32 = 0x100;
/// Status bit: unable to access shared memory.
pub const JACK_SHM_FAILURE: u32 = 0x200;
/// Status bit: client's protocol version does not match.
pub const JACK_VERSION_ERROR: u32 = 0x400;
/// Status bit: backend error.
pub const JACK_BACKEND_ERROR: u32 = 0x800;
/// Status bit: client zombified failure.
pub const JACK_CLIENT_ZOMBIE: u32 = 0x1000;

/// The number of bytes of a textual UUID that are handed to the parser.
pub const UUID_PARSE_LEN: usize = 36;

/// A count of audio frames (`jack_nframes_t`).
#[derive(Clone, Copy, Debug, Hash, PartialEq, Eq, Structural, PartialOrd, Ord)]
pub struct Frames(u32);

impl Frames {
    /// The number of frames.
    pub closed spec fn count(self) -> u32 {
        self.0
    }

    /// Creates a frame count.
    pub fn new(count: u32) -> (r: Frames)
        ensures
            r.count() == count,
    {
        Frames(count)
    }

    /// Returns the frame count as an integer.
    pub fn get(&self) -> (r: u32)
        ensures
            r == self.count(),
    {
        self.0
    }
}

impl From<Frames> for u32 {
    fn from(value: Frames) -> (r: u32) {
        value.0
    }
}

impl FromSpecImpl<Frames> for u32 {
    open spec fn obeys_from_spec() -> bool {
        true
    }

    open spec fn from_spec(v: Frames) -> u32 {
        v.count()
    }
}

impl From<u32> for Frames {
    fn from(value: u32) -> (r: Frames) {
        Frames(value)
    }
}

impl FromSpecImpl<u32> for Frames {
    open spec fn obeys_from_spec() -> bool {
        true
    }

    open spec fn from_spec(v: u32) -> Frames {
        Frames::spec_new(v)
    }
}

impl Frames {
    /// The frame count holding `count`.
    pub closed spec fn spec_new(count: u32) -> Frames {
        Frames(count)
    }

    pub broadcast proof fn lemma_spec_new(count: u32)
        ensures
            #[trigger] Frames::spec_new(count).count() == count,
    {
    }
}

/// A time value in microseconds (`jack_time_t`), ordered by its microseconds.
#[derive(Clone, Copy, Debug, Hash, PartialEq, Eq, Structural, Ord)]
pub struct Time(u64);

impl Time {
    /// The time in microseconds.
    pub closed spec fn micros(self) -> u64 {
        self.0
    }

    /// Creates a time value from a value in microseconds.
    pub fn from_micros(usecs: u64) -> (r: Time)
        ensures
            r.micros() == usecs,
    {
        Time(usecs)
    }

    /// Returns the value in microseconds as a 64-bit unsigned integer.
    pub fn as_micros(&self) -> (r: u64)
        ensures
            r == self.micros(),
    {
        self.0
    }
}

/// The textual form of a UUID that is handed to the parser: its first
/// `UUID_PARSE_LEN` bytes, or all of it when it is shorter.
pub open spec fn uuid_parse_prefix(bytes: Seq<u8>) -> Seq<u8> {
    if bytes.len() <= UUID_PARSE_LEN {
        bytes
    } else {
        bytes.subrange(0, UUID_PARSE_LEN as int)
    }
}

/// The position of the first nul byte of `bytes`, if there is one.
pub open spec fn first_nul(bytes: Seq<u8>) -> Option<int> {
    if exists|i: int| 0 <= i < bytes.len() && bytes[i] == 0 {
        Some(choose|i: int| 0 <= i < bytes.len() && bytes[i] == 0 && (forall|j: int| 0 <= j < i ==> bytes[j] != 0))
    } else {
        None
    }
}

/// The bytes of `bytes` when they can form a C string, else the position of the first nul.
pub open spec fn c_string_check(bytes: Seq<u8>) -> Result<Seq<u8>, int> {
    match first_nul(bytes) {
        Some(p) => Err(p),
        None => Ok(bytes),
    }
}

/// Finds the first nul byte of `bytes`; `None` when the bytes can form a C string.
pub fn find_nul(bytes: &[u8]) -> (r: Option<usize>)
    ensures
        r matches Some(p) ==> first_nul(bytes@) == Some(p as int) && p < bytes@.len(),
        r is None ==> first_nul(bytes@) is None,
{
    let mut i: usize = 0;
    while i < bytes.len()
        invariant
            i <= bytes@.len(),
            forall|j: int| 0 <= j < i ==> bytes@[j] != 0,
        decreases bytes@.len() - i,
    {
        if bytes[i] == 0 {
            proof {
                let w = choose|k: int| 0 <= k < bytes@.len() && bytes@[k] == 0 && (forall|j: int| 0 <= j < k ==> bytes@[j] != 0);
                assert(0 <= i < bytes@.len() && bytes@[i as int] == 0 && (forall|j: int| 0 <= j < i ==> bytes@[j] != 0));
                if w < i {
                } else if w > i {
                    assert(bytes@[i as int] != 0);
                }
            }
            return Some(i);
        }
        i = i + 1;
    }
    None
}

/// The bytes a C string buffer holds: those before its first nul byte, or all of them when
/// it holds none.
pub open spec fn c_string_bytes(bytes: Seq<u8>) -> Seq<u8> {
    match first_nul(bytes) {
        Some(p) => bytes.take(p),
        None => bytes,
    }
}

/// Copies the bytes a C string buffer holds: those before its first nul byte.
pub fn bytes_before_nul(buf: &[u8]) -> (r: Vec<u8>)
    ensures
        r@ == c_string_bytes(buf@),
{
    let n = match find_nul(buf) {
        Some(p) => p,
        None => buf.len(),
    };
    let mut out: Vec<u8> = Vec::new();
    let mut i: usize = 0;
    while i < n
        invariant
            n <= buf@.len(),
            i <= n,
            out@ == buf@.take(i as int),
        decreases n - i,
    {
        out.push(buf[i]);
        i = i + 1;
        assert(out@ =~= buf@.take(i as int));
    }
    assert(out@ =~= c_string_bytes(buf@));
    out
}

/// Error enum for all public errors in this crate.
#[derive(Debug)]
pub enum Error {
    /// A C string was passed without a valid nul-terminator; holds the position of the
    /// interior nul byte.
    InvalidCString(usize),
    /// The JACK library failed to load; holds the loader's description of the failure.
    LibraryError(String),
    /// A generic failure from a JACK API function.
    Failure(Failure),
}

impl Error {
    /// The generic failure.
    pub open spec fn spec_unknown() -> Error {
        Error::Failure(Failure::spec_new(JACK_FAILURE))
    }

    /// The failure for an invalid or unsupported option.
    pub open spec fn spec_invalid_option() -> Error {
        Error::Failure(Failure::spec_new(JACK_FAILURE | JACK_INVALID_OPTION))
    }

    /// The generic failure.
    pub fn unknown() -> (r: Error)
        ensures
            r == Error::spec_unknown(),
    {
        Error::Failure(Failure(JACK_FAILURE))
    }

    /// The failure for an invalid or unsupported option.
    pub fn invalid_option() -> (r: Error)
        ensures
            r == Error::spec_invalid_option(),
    {
        Error::Failure(Failure(JACK_FAILURE | JACK_INVALID_OPTION))
    }

    /// Maps the return code of a JACK call: negative codes are the generic failure.
    pub fn check_ret(ret: i32) -> (r: Result<(), Error>)
        ensures
            ret < 0 ==> r == Err::<(), Error>(Error::spec_unknown()),
            ret >= 0 ==> r is Ok,
    {
        if ret < 0 {
            return Err(Self::unknown());
        }
        Ok(())
    }

    /// Maps the return code of a JACK call that counts something: a negative code is the
    /// generic failure, any other code is the count.
    pub fn check_count(ret: i32) -> (r: Result<u32, Error>)
        ensures
            ret < 0 ==> r == Err::<u32, Error>(Error::spec_unknown()),
            ret >= 0 ==> r == Ok::<u32, Error>(ret as u32),
    {
        if ret < 0 {
            return Err(Self::unknown());
        }
        Ok(ret as u32)
    }

    /// Checks that `bytes` can form a C string, as the C API needs for names and keys.
    pub fn check_c_string(bytes: &[u8]) -> (r: Result<(), Error>)
        ensures
            match c_string_check(bytes@) {
                Ok(_) => r is Ok,
                Err(p) => r matches Err(Error::InvalidCString(q)) && q == p,
            },
    {
        match find_nul(bytes) {
            Some(p) => Err(Error::InvalidCString(p)),
            None => Ok(()),
        }
    }
}

/// A failure status code of a JACK API function (`jack_status_t`).
#[derive(Clone, Debug, Eq, PartialEq, Structural)]
pub struct Failure(u32);

/// The message describing a failure status: the first of the listed bits that is set decides.
pub open spec fn failure_message(status: u32) -> Seq<char> {
    if status & JACK_INVALID_OPTION != 0 {
        "The operation contained an invalid or unsupported option"@
    } else if status & JACK_NAME_NOT_UNIQUE != 0 {
        "The desired client name was not unique"@
    } else if status & JACK_SERVER_FAILED != 0 {
        "Unable to connect to the JACK server"@
    } else if status & JACK_SERVER_ERROR != 0 {
        "Communication error with the JACK server"@
    } else if status & JACK_NO_SUCH_CLIENT != 0 {
        "Requested client does not exist"@
    } else if status & JACK_LOAD_FAILURE != 0 {
        "Unable to load internal client"@
    } else if status & JACK_INIT_FAILURE != 0 {
        "Unable to initialize client"@
    } else if status & JACK_SHM_FAILURE != 0 {
        "Unable to access shared memory"@
    } else if status & JACK_VERSION_ERROR != 0 {
        "Client's protocol version does not match"@
    } else if status & JACK_BACKEND_ERROR != 0 {
        "Backend error"@
    } else if status & JACK_CLIENT_ZOMBIE != 0 {
        "Client zombified failure"@
    } else {
        "Unknown error"@
    }
}

impl Failure {
    /// The status bits.
    pub closed spec fn status(self) -> u32 {
        self.0
    }

    /// The failure holding `status`.
    pub closed spec fn spec_new(status: u32) -> Failure {
        Failure(status)
    }

    pub broadcast proof fn lemma_spec_new(status: u32)
        ensures
            #[trigger] Failure::spec_new(status).status() == status,
    {
    }

    /// Creates a failure from a status code.
    pub fn new(status: u32) -> (r: Failure)
        ensures
            r == Failure::spec_new(status),
            r.status() == status,
    {
        Failure(status)
    }

    /// Returns the status bits.
    pub fn bits(&self) -> (r: u32)
        ensures
            r == self.status(),
    {
        self.0
    }

    /// A human-readable description of the failure.
    pub fn message(&self) -> (r: &'static str)
        ensures
            r@ == failure_message(self.status()),
    {
        if (self.0 & JACK_INVALID_OPTION) != 0 {
            "The operation contained an invalid or unsupported option"
        } else if (self.0 & JACK_NAME_NOT_UNIQUE) != 0 {
            "The desired client name was not unique"
        } else if (self.0 & JACK_SERVER_FAILED) != 0 {
            "Unable to connect to the JACK server"
        } else if (self.0 & JACK_SERVER_ERROR) != 0 {
            "Communication error with the JACK server"
        } else if (self.0 & JACK_NO_SUCH_CLIENT) != 0 {
            "Requested client does not exist"
        } else if (self.0 & JACK_LOAD_FAILURE) != 0 {
            "Unable to load internal client"
        } else if (self.0 & JACK_INIT_FAILURE) != 0 {
            "Unable to initialize client"
        } else if (self.0 & JACK_SHM_FAILURE) != 0 {
            "Unable to access shared memory"
        } else if (self.0 & JACK_VERSION_ERROR) != 0 {
            "Client's protocol version does not match"
        } else if (self.0 & JACK_BACKEND_ERROR) != 0 {
            "Backend error"
        } else if (self.0 & JACK_CLIENT_ZOMBIE) != 0 {
            "Client zombified failure"
        } else {
            "Unknown error"
        }
    }
}

impl From<Failure> for u32 {
    fn from(status: Failure) -> (r: u32) {
        status.0
    }
}

impl FromSpecImpl<Failure> for u32 {
    open spec fn obeys_from_spec() -> bool {
        true
    }

    open spec fn from_spec(v: Failure) -> u32 {
        v.status()
    }
}

/// A 64-bit unique identifier, never zero.
#[derive(Clone, Copy, Debug, Hash, PartialEq, Eq, Structural, PartialOrd, Ord)]
pub struct Uuid(u64);

impl Uuid {
    #[verifier::type_invariant]
    spec fn nonzero(self) -> bool {
        self.0 != 0
    }

    /// The numeric value of the identifier.
    pub closed spec fn id(self) -> u64 {
        self.0
    }

    /// Two identifiers are equal exactly when their numeric values are.
    pub proof fn lemma_id_determines(a: Uuid, b: Uuid)
        ensures
            (a == b) <==> (a.id() == b.id()),
    {
    }

    /// Create a new unique identifier from a non-zero 64-bit unsigned integer.
    pub fn new(uuid: u64) -> (r: Uuid)
        requires
            uuid != 0,
        ensures
            r.id() == uuid,
    {
        Uuid(uuid)
    }

    /// Create an identifier from a raw integer, if it is not zero.
    pub fn from_raw(value: u64) -> (r: Option<Uuid>)
        ensures
            r is Some <==> value != 0,
            r matches Some(u) ==> u.id() == value,
    {
        if value == 0 {
            None
        } else {
            Some(Uuid(value))
        }
    }

    /// Return the numeric value of the identifier, which is never zero.
    pub fn value(&self) -> (r: u64)
        ensures
            r == self.id(),
            r != 0,
    {
        proof {
            use_type_invariant(self);
        }
        self.0
    }
}

} // verus!


verus! {

impl Uuid {
    /// The bytes of a textual UUID that are handed to the parser: at most the first
    /// `UUID_PARSE_LEN` bytes; an interior nul byte is refused.
    pub fn parse_input(s: &str) -> (r: Result<Vec<u8>, Error>)
        requires
            s.spec_bytes().len() <= UUID_PARSE_LEN || vstd::utf8::is_char_boundary(s.spec_bytes(), UUID_PARSE_LEN as int),
        ensures
            match c_string_check(uuid_parse_prefix(s.spec_bytes())) {
                Ok(b) => r matches Ok(v) && v@ == b,
                Err(p) => r matches Err(Error::InvalidCString(q)) && q == p,
            },
    {
        let bytes = s.as_bytes();
        let n = if bytes.len() <= UUID_PARSE_LEN { bytes.len() } else { UUID_PARSE_LEN };
        let mut out: Vec<u8> = Vec::new();
        let mut i: usize = 0;
        while i < n
            invariant
                n <= bytes@.len(),
                n == uuid_parse_prefix(bytes@).len(),
                i <= n,
                out@ == bytes@.subrange(0, i as int),
            decreases n - i,
        {
            out.push(bytes[i]);
            i = i + 1;
            assert(out@ =~= bytes@.subrange(0, i as int));
        }
        assert(out@ =~= uuid_parse_prefix(bytes@));
        match Error::check_c_string(out.as_slice()) {
            Ok(()) => Ok(out),
            Err(e) => Err(e),
        }
    }

    /// The identifier produced by the parser's result: `ret` is its return code and `value`
    /// the number it read. A negative code or a zero value is an invalid option.
    pub fn from_parse_result(ret: i32, value: u64) -> (r: Result<Uuid, Error>)
        ensures
            (ret < 0 || value == 0) ==> r == Err::<Uuid, Error>(Error::spec_invalid_option()),
            (ret >= 0 && value != 0) ==> (r matches Ok(u) && u.id() == value),
    {
        if ret < 0 {
            return Err(Error::invalid_option());
        }
        match Uuid::from_raw(value) {
            Some(u) => Ok(u),
            None => Err(Error::invalid_option()),
        }
    }
}

} // verus!
