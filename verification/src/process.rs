//! What the process thread decides: which owned ports it may use and how, the cursor over
//! the events of a MIDI buffer, and the status codes of MIDI calls.
use vstd::prelude::*;
use crate::{Frames, Time};
use crate::client::{OwnedPortUuid, PortEntry, PortTable};
use crate::port::{PortFlags, PortMode, PortType, port_mode_flags};

verus! {

impl<P> PortTable<P> {
    /// The type of the owned port `port`, if the table holds it.
    pub fn port_type_id(&self, port: OwnedPortUuid) -> (r: Option<PortType>)
        ensures
            r is Some <==> self@.contains_key(port.key()),
            r matches Some(t) ==> t == self@[port.key()].port_type,
    {
        match self.get(port) {
            Some(e) => Some(e.port_type),
            None => None,
        }
    }

    /// The flags of the owned port `port`, if the table holds it.
    pub fn port_flags(&self, port: OwnedPortUuid) -> (r: Option<PortFlags>)
        ensures
            r is Some <==> self@.contains_key(port.key()),
            r matches Some(f) ==> f == self@[port.key()].flags,
    {
        match self.get(port) {
            Some(e) => Some(e.flags),
            None => None,
        }
    }

    /// The owned port `port`, when the table holds it, its flags hold the flag of `mode` and
    /// its type is `port_type`: the ports whose buffers may be read (input) or written
    /// (output) as audio or MIDI.
    pub fn buffer_port(&self, port: OwnedPortUuid, mode: PortMode, port_type: PortType) -> (r:
        Option<&PortEntry<P>>)
        ensures
            r is Some <==> (self@.contains_key(port.key()) && self@[port.key()].flags.spec_bits()
                & port_mode_flags(mode) != 0 && self@[port.key()].port_type == port_type),
            r matches Some(e) ==> *e == self@[port.key()],
    {
        match self.get(port) {
            Some(e) => {
                if (e.flags.bits() & mode.flags()) != 0 && e.port_type == port_type {
                    Some(e)
                } else {
                    None
                }
            },
            None => None,
        }
    }
}

/// A MIDI event: its time within the cycle and its bytes.
#[derive(Debug)]
pub struct MidiEvent<'p> {
    /// The frame of the cycle at which the event occurs.
    pub time: u32,
    /// The raw MIDI bytes.
    pub data: &'p [u8],
}

/// The outcome of a MIDI call: a negative return code is the negated error number.
pub fn midi_status(ret: i32) -> (r: Result<(), i32>)
    requires
        ret > i32::MIN,
    ensures
        ret >= 0 ==> r is Ok,
        ret < 0 ==> (r matches Err(e) && e == -ret),
{
    if ret < 0 {
        return Err(-ret);
    }
    Ok(())
}

/// The positions still to be read from the events of a MIDI buffer, from the front and
/// from the back.
#[derive(Debug, Clone, Copy, PartialEq, Eq, Structural)]
pub struct MidiCursor {
    index: u32,
    len: u32,
}

impl MidiCursor {
    /// The next position read from the front.
    pub closed spec fn spec_index(&self) -> u32 {
        self.index
    }

    /// One past the next position read from the back.
    pub closed spec fn spec_len(&self) -> u32 {
        self.len
    }

    /// The front never passes the back.
    #[verifier::type_invariant]
    spec fn front_before_back(&self) -> bool {
        self.index <= self.len
    }

    /// The positions of the events still to be read, from the front to the back. Each
    /// read from either end removes the position it gave, so every event is read once.
    pub closed spec fn positions(&self) -> Seq<u32> {
        Seq::new((self.len - self.index) as nat, |i: int| (self.index + i) as u32)
    }

    /// A cursor over `len` events.
    pub fn new(len: u32) -> (r: MidiCursor)
        ensures
            r.spec_index() == 0,
            r.spec_len() == len,
            r.positions() == Seq::new(len as nat, |i: int| i as u32),
    {
        let r = MidiCursor { index: 0, len };
        assert(r.positions() =~= Seq::new(len as nat, |i: int| i as u32));
        r
    }

    /// The position of the next event from the front; `None` once every event was read.
    pub fn front(&self) -> (r: Option<u32>)
        ensures
            self.spec_index() < self.spec_len() ==> r == Some(self.spec_index()),
            self.spec_index() >= self.spec_len() ==> r is None,
            self.positions().len() > 0 ==> r == Some(self.positions()[0]),
            self.positions().len() == 0 ==> r is None,
    {
        proof {
            use_type_invariant(self);
        }
        if self.index >= self.len {
            None
        } else {
            Some(self.index)
        }
    }

    /// Moves the front past the event it read.
    pub fn advance_front(&mut self)
        requires
            old(self).spec_index() < old(self).spec_len(),
        ensures
            final(self).spec_index() == old(self).spec_index() + 1,
            final(self).spec_len() == old(self).spec_len(),
            final(self).positions() == old(self).positions().drop_first(),
    {
        self.index = self.index + 1;
        assert(self.positions() =~= old(self).positions().drop_first());
    }

    /// The position of the next event from the back; `None` once every event was read,
    /// from either end.
    pub fn back(&self) -> (r: Option<u32>)
        ensures
            self.spec_index() < self.spec_len() ==> r == Some((self.spec_len() - 1) as u32),
            self.spec_index() >= self.spec_len() ==> r is None,
            self.positions().len() > 0 ==> r == Some(self.positions().last()),
            self.positions().len() == 0 ==> r is None,
    {
        proof {
            use_type_invariant(self);
        }
        if self.index >= self.len {
            None
        } else {
            Some(self.len - 1)
        }
    }

    /// Moves the back before the event it read.
    pub fn advance_back(&mut self)
        requires
            old(self).spec_index() < old(self).spec_len(),
        ensures
            final(self).spec_index() == old(self).spec_index(),
            final(self).spec_len() == old(self).spec_len() - 1,
            final(self).positions() == old(self).positions().drop_last(),
    {
        self.len = self.len - 1;
        assert(self.positions() =~= old(self).positions().drop_last());
    }

    /// The next position read from the front, and one past the next position read from
    /// the back.
    pub fn span(&self) -> (r: (u32, u32))
        ensures
            r == (self.spec_index(), self.spec_len()),
            r.0 <= r.1,
    {
        proof {
            use_type_invariant(self);
        }
        (self.index, self.len)
    }

    /// The number of events left between the front and the back.
    pub fn remaining(&self) -> (r: usize)
        ensures
            r == self.spec_len() - self.spec_index(),
            r == self.positions().len(),
    {
        proof {
            use_type_invariant(self);
        }
        (self.len - self.index) as usize
    }
}

/// Timing information of the current process cycle.
#[derive(Debug)]
pub struct CycleTimes {
    /// The frame time counter at the start of the current cycle.
    pub current_frames: Frames,
    /// The time at the start of the current cycle.
    pub current_time: Time,
    /// The estimated time of the start of the next cycle.
    pub next_time: Time,
    /// The estimated duration of a cycle.
    pub period: std::time::Duration,
}

/// The positions `lo..hi`, in order.
pub open spec fn position_range(lo: int, hi: int) -> Seq<u32> {
    Seq::new((hi - lo) as nat, |i: int| (lo + i) as u32)
}

/// The number of reads from the front among the first `k` reads, where `sides[i]` tells
/// whether read `i` was from the front (otherwise it was from the back).
pub open spec fn fronts_before(sides: Seq<bool>, k: int) -> int
    decreases k,
{
    if k <= 0 {
        0
    } else {
        fronts_before(sides, k - 1) + if sides[k - 1] {
            1int
        } else {
            0int
        }
    }
}

/// What a sequence of reads does to a cursor over `n` events, as the cursor's methods state
/// it: `states[i]` are the positions left before read `i`, which takes the first position
/// (from the front) or the last (from the back) as `reads[i]` and removes it.
pub open spec fn cursor_reads(
    n: u32,
    sides: Seq<bool>,
    states: Seq<Seq<u32>>,
    reads: Seq<u32>,
) -> bool {
    &&& states.len() == sides.len() + 1
    &&& reads.len() == sides.len()
    &&& states[0] == Seq::new(n as nat, |i: int| i as u32)
    &&& forall|i: int|
        0 <= i < sides.len() ==> {
            &&& #[trigger] states[i].len() > 0
            &&& sides[i] ==> reads[i] == states[i][0] && states[i + 1] == states[i].drop_first()
            &&& !sides[i] ==> reads[i] == states[i].last() && states[i + 1] == states[i].drop_last()
        }
}

proof fn lemma_fronts_bounds(sides: Seq<bool>, i: int, j: int)
    requires
        0 <= i <= j,
    ensures
        0 <= fronts_before(sides, j) - fronts_before(sides, i) <= j - i,
        i < j && sides[i] ==> fronts_before(sides, j) >= fronts_before(sides, i) + 1,
        i < j && !sides[i] ==> j - fronts_before(sides, j) >= i - fronts_before(sides, i) + 1,
        (forall|k: int| 0 <= k < j ==> #[trigger] sides[k]) ==> fronts_before(sides, j) == j,
    decreases j,
{
    if j > 0 {
        if i < j {
            lemma_fronts_bounds(sides, i, j - 1);
        }
        lemma_fronts_bounds(sides, 0, j - 1);
        if forall|k: int| 0 <= k < j ==> #[trigger] sides[k] {
            assert(sides[j - 1]);
        }
    }
}

proof fn lemma_cursor_reads_prefix(
    n: u32,
    sides: Seq<bool>,
    states: Seq<Seq<u32>>,
    reads: Seq<u32>,
    k: int,
)
    requires
        cursor_reads(n, sides, states, reads),
        0 <= k <= sides.len(),
    ensures
        0 <= fronts_before(sides, k) <= n - (k - fronts_before(sides, k)) <= n,
        states[k] == position_range(fronts_before(sides, k), n - (k - fronts_before(sides, k))),
    decreases k,
{
    if k == 0 {
        assert(states[0] =~= position_range(0, n as int));
    } else {
        let i = k - 1;
        lemma_cursor_reads_prefix(n, sides, states, reads, i);
        lemma_fronts_bounds(sides, i, k);
        let lo = fronts_before(sides, i);
        let hi = n - (i - lo);
        assert(states[i].len() > 0);
        if sides[i] {
            assert(states[k] =~= position_range(lo + 1, hi));
        } else {
            assert(states[k] =~= position_range(lo, hi - 1));
        }
    }
}

/// Reading a cursor over `n` events from either end, in any mix, gives every event at most
/// once: no position is read twice, none that was read is still left, and the reads and the
/// positions left make up all `n` positions; after `n` reads none is left, so both ends then
/// give `None`. Reading from the front only gives the positions `0, 1, 2, ...` in order, and
/// the count of positions left, which `remaining` gives, is the count not yet read.
pub proof fn lemma_cursor_reads_each_once(
    n: u32,
    sides: Seq<bool>,
    states: Seq<Seq<u32>>,
    reads: Seq<u32>,
)
    requires
        cursor_reads(n, sides, states, reads),
    ensures
        states.last().len() == n - sides.len(),
        reads.no_duplicates(),
        forall|i: int| 0 <= i < reads.len() ==> #[trigger] reads[i] < n,
        forall|i: int| 0 <= i < reads.len() ==> !states.last().contains(#[trigger] reads[i]),
        (forall|i: int| 0 <= i < sides.len() ==> #[trigger] sides[i]) ==> reads == Seq::new(
            sides.len(),
            |i: int| i as u32,
        ),
{
    let len = sides.len() as int;
    lemma_cursor_reads_prefix(n, sides, states, reads, len);
    let big_l = fronts_before(sides, len);
    let big_h = n - (len - big_l);
    assert forall|i: int| 0 <= i < len implies #[trigger] reads[i] == (if sides[i] {
        fronts_before(sides, i)
    } else {
        n - (i - fronts_before(sides, i)) - 1
    }) && fronts_before(sides, i) < n - (i - fronts_before(sides, i)) by {
        lemma_cursor_reads_prefix(n, sides, states, reads, i);
        assert(states[i].len() > 0);
    }
    assert forall|i: int| 0 <= i < reads.len() implies #[trigger] reads[i] < n by {
        lemma_fronts_bounds(sides, 0, i);
        assert(reads[i] == reads[i]);
    }
    assert forall|i: int, j: int| 0 <= i < reads.len() && 0 <= j < reads.len() && i != j implies reads[i]
        != reads[j] by {
        let (a, b) = if i < j {
            (i, j)
        } else {
            (j, i)
        };
        lemma_fronts_bounds(sides, a, b);
        assert(reads[a] == reads[a] && reads[b] == reads[b]);
    }
    assert forall|i: int| 0 <= i < reads.len() implies !states.last().contains(#[trigger] reads[i]) by {
        lemma_fronts_bounds(sides, i, len);
        if states.last().contains(reads[i]) {
            let idx = choose|idx: int| 0 <= idx < states.last().len() && states.last()[idx] == reads[i];
            assert(states.last()[idx] == (big_l + idx) as u32);
        }
    }
    if forall|i: int| 0 <= i < sides.len() ==> #[trigger] sides[i] {
        assert forall|i: int| 0 <= i < len implies #[trigger] reads[i] == i as u32 by {
            lemma_fronts_bounds(sides, 0, i);
            assert(forall|k: int| 0 <= k < i ==> #[trigger] sides[k]);
        }
        assert(reads =~= Seq::new(sides.len(), |i: int| i as u32));
    }
}

} // verus!
