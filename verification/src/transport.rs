//! Transport state and positions.
use vstd::prelude::*;
use crate::{Error, Time};

verus! {

/// Transport state value: halted.
pub const JACK_TRANSPORT_STOPPED: u32 = 0;
/// Transport state value: playing.
pub const JACK_TRANSPORT_ROLLING: u32 = 1;
/// Transport state value: waiting for timebase sync to be ready.
pub const JACK_TRANSPORT_STARTING: u32 = 3;
/// Transport state value: waiting for timebase sync to be ready on the network.
pub const JACK_TRANSPORT_NET_STARTING: u32 = 4;

/// Position bit: bar, beat and tick information is valid.
pub const JACK_POSITION_BBT: u32 = 0x10;
/// Position bit: the external timecode is valid.
pub const JACK_POSITION_TIMECODE: u32 = 0x20;
/// Position bit: the frame offset of the BBT information is valid.
pub const JACK_BBT_FRAME_OFFSET: u32 = 0x40;
/// Position bit: the audio frames per video frame are valid.
pub const JACK_AUDIO_VIDEO_RATIO: u32 = 0x80;
/// Position bit: the frame offset of the first video frame is valid.
pub const JACK_VIDEO_FRAME_OFFSET: u32 = 0x100;
/// Position bit: the double-resolution tick is valid.
pub const JACK_TICK_DOUBLE: u32 = 0x200;

/// State of the current transport.
#[derive(Clone, Copy, Debug, Hash, PartialEq, Eq, Structural, PartialOrd, Ord)]
pub enum TransportState {
    /// Transport halted.
    Stopped,
    /// Transport playing.
    Rolling,
    /// Waiting for timebase sync to be ready.
    Starting,
    /// Waiting for timebase sync to be ready on the network.
    NetStarting,
}

impl TransportState {
    /// The state for a raw state value; an unknown value counts as stopped.
    pub fn from_jack(state: u32) -> (r: TransportState)
        ensures
            r == (if state == JACK_TRANSPORT_ROLLING {
                TransportState::Rolling
            } else if state == JACK_TRANSPORT_STARTING {
                TransportState::Starting
            } else if state == JACK_TRANSPORT_NET_STARTING {
                TransportState::NetStarting
            } else {
                TransportState::Stopped
            }),
    {
        if state == JACK_TRANSPORT_STOPPED {
            TransportState::Stopped
        } else if state == JACK_TRANSPORT_ROLLING {
            TransportState::Rolling
        } else if state == JACK_TRANSPORT_STARTING {
            TransportState::Starting
        } else if state == JACK_TRANSPORT_NET_STARTING {
            TransportState::NetStarting
        } else {
            TransportState::Stopped
        }
    }
}

/// The fields of a transport position, as the C API lays them out. Floating-point fields
/// hold the bit patterns of their values (`f32::to_bits` and `f64::to_bits`).
#[derive(Clone, Copy, Debug, PartialEq, Eq, Structural)]
pub struct PositionFields {
    /// Unique identifier written before the other fields.
    pub unique_1: u64,
    /// Monotonic, free-rolling time in microseconds.
    pub usecs: u64,
    /// Frame rate (per second).
    pub frame_rate: u32,
    /// Frame number.
    pub frame: u32,
    /// Which of the optional fields are valid.
    pub valid: u32,
    /// Current bar.
    pub bar: i32,
    /// Current beat within bar.
    pub beat: i32,
    /// Current tick within beat.
    pub tick: i32,
    /// Tick offset for the start of the current bar (`f64` bits).
    pub bar_start_tick: u64,
    /// Time signature "numerator" (`f32` bits).
    pub beats_per_bar: u32,
    /// Time signature "denominator" (`f32` bits).
    pub beat_type: u32,
    /// Number of ticks per beat (`f64` bits).
    pub ticks_per_beat: u64,
    /// Number of beats per minute (`f64` bits).
    pub beats_per_minute: u64,
    /// Current time in seconds (`f64` bits).
    pub frame_time: u64,
    /// Next sequential frame time (`f64` bits).
    pub next_time: u64,
    /// Frame offset for the BBT fields.
    pub bbt_offset: u32,
    /// Number of audio frames per video frame (`f32` bits).
    pub audio_frames_per_video_frame: u32,
    /// Audio frame at which the first video frame in this cycle occurs.
    pub video_offset: u32,
    /// Current tick-within-beat in double resolution (`f64` bits).
    pub tick_double: u64,
    /// Unique identifier written after the other fields.
    pub unique_2: u64,
}

/// Structure holding field inputs for [`TransportPosition::set_bbt`]; floating-point
/// fields hold the bit patterns of their values.
#[derive(Debug, Copy, Clone, PartialEq, Eq, Structural)]
pub struct TransportBBT {
    /// Current bar.
    pub bar: i32,
    /// Current beat within bar.
    pub beat: i32,
    /// Current tick within beat.
    pub tick: i32,
    /// Tick offset for the start of the current bar (`f64` bits).
    pub bar_start_tick: u64,
    /// Time signature "numerator" (`f32` bits).
    pub beats_per_bar: u32,
    /// Time signature "denominator" (`f32` bits).
    pub beat_type: u32,
    /// Number of ticks in each beat (`f64` bits).
    pub ticks_per_beat: u64,
    /// Number of beats per minute (`f64` bits).
    pub beats_per_minute: u64,
}

/// Structure holding field inputs for [`TransportPosition::set_timecode`]; the fields hold
/// the bit patterns of `f64` values.
#[derive(Debug, Copy, Clone, PartialEq, Eq, Structural)]
pub struct TransportTimecode {
    /// Current time in seconds (`f64` bits).
    pub frame_time: u64,
    /// Next sequential frame time (`f64` bits).
    pub next_time: u64,
}

/// Structure holding extended positioning information for the JACK transport.
#[derive(Debug, Clone, Copy)]
pub struct TransportPosition(PositionFields);

impl TransportPosition {
    /// The fields of the position.
    pub closed spec fn spec_fields(&self) -> PositionFields {
        self.0
    }

    /// Whether the position bit `bit` is set.
    pub open spec fn spec_has(&self, bit: u32) -> bool {
        self.spec_fields().valid & bit != 0
    }

    /// The position holding `fields`.
    pub fn from_fields(fields: PositionFields) -> (r: TransportPosition)
        ensures
            r.spec_fields() == fields,
    {
        TransportPosition(fields)
    }

    /// The fields of the position.
    pub fn fields(&self) -> (r: &PositionFields)
        ensures
            *r == self.spec_fields(),
    {
        &self.0
    }

    /// Returns current monotonic, free-rolling time in microseconds.
    pub fn usecs(&self) -> (r: Time)
        ensures
            r.micros() == self.spec_fields().usecs,
    {
        Time::from_micros(self.0.usecs)
    }

    /// Returns current frame rate (per second).
    pub fn frame_rate(&self) -> (r: u32)
        ensures
            r == self.spec_fields().frame_rate,
    {
        self.0.frame_rate
    }

    /// Returns current frame number.
    pub fn frame(&self) -> (r: u32)
        ensures
            r == self.spec_fields().frame,
    {
        self.0.frame
    }

    /// Returns `true` if the position contains Bar, Beat, Tick information.
    pub fn has_bbt(&self) -> (r: bool)
        ensures
            r == self.spec_has(JACK_POSITION_BBT),
    {
        (self.0.valid & JACK_POSITION_BBT) != 0
    }

    /// Returns current bar.
    pub fn bar(&self) -> (r: i32)
        ensures
            r == self.spec_fields().bar,
    {
        self.0.bar
    }

    /// Returns current beat within bar.
    pub fn beat(&self) -> (r: i32)
        ensures
            r == self.spec_fields().beat,
    {
        self.0.beat
    }

    /// Returns current tick within beat.
    pub fn tick(&self) -> (r: i32)
        ensures
            r == self.spec_fields().tick,
    {
        self.0.tick
    }

    /// Returns `true` if the position contains the external timecode.
    pub fn has_timecode(&self) -> (r: bool)
        ensures
            r == self.spec_has(JACK_POSITION_TIMECODE),
    {
        (self.0.valid & JACK_POSITION_TIMECODE) != 0
    }

    /// Returns `true` if the position contains the frame offset of BBT information.
    pub fn has_bbt_offset(&self) -> (r: bool)
        ensures
            r == self.spec_has(JACK_BBT_FRAME_OFFSET),
    {
        (self.0.valid & JACK_BBT_FRAME_OFFSET) != 0
    }

    /// Returns frame offset for the BBT fields.
    pub fn bbt_offset(&self) -> (r: u32)
        ensures
            r == self.spec_fields().bbt_offset,
    {
        self.0.bbt_offset
    }

    /// Returns `true` if the position contains the audio frames per video frame.
    pub fn has_audio_video_ratio(&self) -> (r: bool)
        ensures
            r == self.spec_has(JACK_AUDIO_VIDEO_RATIO),
    {
        (self.0.valid & JACK_AUDIO_VIDEO_RATIO) != 0
    }

    /// Returns `true` if the position contains the frame offset of the first video frame.
    pub fn has_video_offset(&self) -> (r: bool)
        ensures
            r == self.spec_has(JACK_VIDEO_FRAME_OFFSET),
    {
        (self.0.valid & JACK_VIDEO_FRAME_OFFSET) != 0
    }

    /// Audio frame at which the first video frame in this cycle occurs.
    pub fn video_offset(&self) -> (r: u32)
        ensures
            r == self.spec_fields().video_offset,
    {
        self.0.video_offset
    }

    /// Returns `true` if the position contains the double-resolution tick.
    pub fn has_tick_double(&self) -> (r: bool)
        ensures
            r == self.spec_has(JACK_TICK_DOUBLE),
    {
        (self.0.valid & JACK_TICK_DOUBLE) != 0
    }

    /// Sets BBT transport information.
    pub fn set_bbt(&mut self, bbt: TransportBBT)
        ensures
            final(self).spec_fields() == (PositionFields {
                valid: old(self).spec_fields().valid | JACK_POSITION_BBT,
                bar: bbt.bar,
                beat: bbt.beat,
                tick: bbt.tick,
                bar_start_tick: bbt.bar_start_tick,
                beats_per_bar: bbt.beats_per_bar,
                beat_type: bbt.beat_type,
                ticks_per_beat: bbt.ticks_per_beat,
                beats_per_minute: bbt.beats_per_minute,
                ..old(self).spec_fields()
            }),
    {
        self.0.valid = self.0.valid | JACK_POSITION_BBT;
        self.0.bar = bbt.bar;
        self.0.beat = bbt.beat;
        self.0.tick = bbt.tick;
        self.0.bar_start_tick = bbt.bar_start_tick;
        self.0.beats_per_bar = bbt.beats_per_bar;
        self.0.beat_type = bbt.beat_type;
        self.0.ticks_per_beat = bbt.ticks_per_beat;
        self.0.beats_per_minute = bbt.beats_per_minute;
    }

    /// Clears BBT transport information, disabling its flag.
    pub fn unset_bbt(&mut self)
        ensures
            final(self).spec_fields() == (PositionFields {
                valid: old(self).spec_fields().valid & !JACK_POSITION_BBT,
                ..old(self).spec_fields()
            }),
    {
        self.0.valid = self.0.valid & !JACK_POSITION_BBT;
    }

    /// Sets timecode transport information.
    pub fn set_timecode(&mut self, timecode: TransportTimecode)
        ensures
            final(self).spec_fields() == (PositionFields {
                valid: old(self).spec_fields().valid | JACK_POSITION_TIMECODE,
                frame_time: timecode.frame_time,
                next_time: timecode.next_time,
                ..old(self).spec_fields()
            }),
    {
        self.0.valid = self.0.valid | JACK_POSITION_TIMECODE;
        self.0.frame_time = timecode.frame_time;
        self.0.next_time = timecode.next_time;
    }

    /// Clears timecode transport information, disabling its flag.
    pub fn unset_timecode(&mut self)
        ensures
            final(self).spec_fields() == (PositionFields {
                valid: old(self).spec_fields().valid & !JACK_POSITION_TIMECODE,
                ..old(self).spec_fields()
            }),
    {
        self.0.valid = self.0.valid & !JACK_POSITION_TIMECODE;
    }

    /// Sets BBT offset transport information.
    pub fn set_bbt_offset(&mut self, bbt_offset: u32)
        ensures
            final(self).spec_fields() == (PositionFields {
                valid: old(self).spec_fields().valid | JACK_BBT_FRAME_OFFSET,
                bbt_offset: bbt_offset,
                ..old(self).spec_fields()
            }),
    {
        self.0.valid = self.0.valid | JACK_BBT_FRAME_OFFSET;
        self.0.bbt_offset = bbt_offset;
    }

    /// Clears BBT offset transport information, disabling its flag.
    pub fn unset_bbt_offset(&mut self)
        ensures
            final(self).spec_fields() == (PositionFields {
                valid: old(self).spec_fields().valid & !JACK_BBT_FRAME_OFFSET,
                ..old(self).spec_fields()
            }),
    {
        self.0.valid = self.0.valid & !JACK_BBT_FRAME_OFFSET;
    }

    /// Sets audio frames per video frame transport information (the bits of an `f32`).
    pub fn set_audio_video_ratio(&mut self, audio_video_ratio: u32)
        ensures
            final(self).spec_fields() == (PositionFields {
                valid: old(self).spec_fields().valid | JACK_AUDIO_VIDEO_RATIO,
                audio_frames_per_video_frame: audio_video_ratio,
                ..old(self).spec_fields()
            }),
    {
        self.0.valid = self.0.valid | JACK_AUDIO_VIDEO_RATIO;
        self.0.audio_frames_per_video_frame = audio_video_ratio;
    }

    /// Clears audio frames per video frame transport information, disabling its flag.
    pub fn unset_audio_video_ratio(&mut self)
        ensures
            final(self).spec_fields() == (PositionFields {
                valid: old(self).spec_fields().valid & !JACK_AUDIO_VIDEO_RATIO,
                ..old(self).spec_fields()
            }),
    {
        self.0.valid = self.0.valid & !JACK_AUDIO_VIDEO_RATIO;
    }

    /// Sets video frame offset transport information.
    pub fn set_video_offset(&mut self, video_offset: u32)
        ensures
            final(self).spec_fields() == (PositionFields {
                valid: old(self).spec_fields().valid | JACK_VIDEO_FRAME_OFFSET,
                video_offset: video_offset,
                ..old(self).spec_fields()
            }),
    {
        self.0.valid = self.0.valid | JACK_VIDEO_FRAME_OFFSET;
        self.0.video_offset = video_offset;
    }

    /// Clears video frame offset transport information, disabling its flag.
    pub fn unset_video_offset(&mut self)
        ensures
            final(self).spec_fields() == (PositionFields {
                valid: old(self).spec_fields().valid & !JACK_VIDEO_FRAME_OFFSET,
                ..old(self).spec_fields()
            }),
    {
        self.0.valid = self.0.valid & !JACK_VIDEO_FRAME_OFFSET;
    }

    /// Sets double-resolution tick transport information (the bits of an `f64`).
    pub fn set_tick_double(&mut self, tick_double: u64)
        ensures
            final(self).spec_fields() == (PositionFields {
                valid: old(self).spec_fields().valid | JACK_TICK_DOUBLE,
                tick_double: tick_double,
                ..old(self).spec_fields()
            }),
    {
        self.0.valid = self.0.valid | JACK_TICK_DOUBLE;
        self.0.tick_double = tick_double;
    }

    /// Clears double-resolution tick transport information, disabling its flag.
    pub fn unset_tick_double(&mut self)
        ensures
            final(self).spec_fields() == (PositionFields {
                valid: old(self).spec_fields().valid & !JACK_TICK_DOUBLE,
                ..old(self).spec_fields()
            }),
    {
        self.0.valid = self.0.valid & !JACK_TICK_DOUBLE;
    }

    /// Checks that the position may be requested as a new transport position: only BBT
    /// and timecode information may be valid in it; anything else is an invalid option.
    pub fn check_reposition(&self) -> (r: Result<(), Error>)
        ensures
            self.spec_fields().valid & !(JACK_POSITION_BBT | JACK_POSITION_TIMECODE) == 0 ==> r is Ok,
            self.spec_fields().valid & !(JACK_POSITION_BBT | JACK_POSITION_TIMECODE) != 0 ==> (r matches Err(e) && e == Error::spec_invalid_option()),
    {
        if (self.0.valid & !(JACK_POSITION_BBT | JACK_POSITION_TIMECODE)) != 0 {
            return Err(Error::invalid_option());
        }
        Ok(())
    }
}

impl Default for TransportPosition {
    /// A position whose fields are all zero.
    fn default() -> (r: TransportPosition)
        ensures
            r.spec_fields() == (PositionFields {
                unique_1: 0,
                usecs: 0,
                frame_rate: 0,
                frame: 0,
                valid: 0,
                bar: 0,
                beat: 0,
                tick: 0,
                bar_start_tick: 0,
                beats_per_bar: 0,
                beat_type: 0,
                ticks_per_beat: 0,
                beats_per_minute: 0,
                frame_time: 0,
                next_time: 0,
                bbt_offset: 0,
                audio_frames_per_video_frame: 0,
                video_offset: 0,
                tick_double: 0,
                unique_2: 0,
            }),
    {
        TransportPosition(
            PositionFields {
                unique_1: 0,
                usecs: 0,
                frame_rate: 0,
                frame: 0,
                valid: 0,
                bar: 0,
                beat: 0,
                tick: 0,
                bar_start_tick: 0,
                beats_per_bar: 0,
                beat_type: 0,
                ticks_per_beat: 0,
                beats_per_minute: 0,
                frame_time: 0,
                next_time: 0,
                bbt_offset: 0,
                audio_frames_per_video_frame: 0,
                video_offset: 0,
                tick_double: 0,
                unique_2: 0,
            },
        )
    }

}

/// Whether `bit` is one of the bits that mark a field of a position valid.
pub open spec fn is_position_bit(bit: u32) -> bool {
    bit == JACK_POSITION_BBT || bit == JACK_POSITION_TIMECODE || bit == JACK_BBT_FRAME_OFFSET
        || bit == JACK_AUDIO_VIDEO_RATIO || bit == JACK_VIDEO_FRAME_OFFSET || bit == JACK_TICK_DOUBLE
}

/// Setting a field of a position marks it valid and clearing it marks it not valid; either
/// leaves the validity of every other field as it was.
pub proof fn lemma_position_flag_update(valid: u32, bit: u32, other: u32)
    requires
        is_position_bit(bit),
        is_position_bit(other),
        bit != other,
    ensures
        (valid | bit) & bit != 0,
        (valid & !bit) & bit == 0,
        ((valid | bit) & other != 0) == (valid & other != 0),
        ((valid & !bit) & other != 0) == (valid & other != 0),
{
    assert(bit & other == 0 && bit != 0) by (bit_vector)
        requires
            bit == 0x10u32 || bit == 0x20u32 || bit == 0x40u32 || bit == 0x80u32 || bit == 0x100u32
                || bit == 0x200u32,
            other == 0x10u32 || other == 0x20u32 || other == 0x40u32 || other == 0x80u32 || other
                == 0x100u32 || other == 0x200u32,
            bit != other,
    ;
    assert((valid | bit) & bit != 0 && (valid & !bit) & bit == 0 && ((valid | bit) & other) == (
    valid & other) && ((valid & !bit) & other) == (valid & other)) by (bit_vector)
        requires
            bit & other == 0,
            bit != 0,
    ;
}

/// Whether the validity bit `bit` is set after the updates `bits`/`sets` (each update sets
/// its bit when `sets` says so, and clears it otherwise), starting from `start`: the last
/// update of `bit` decides, and without one the bit keeps its starting state.
pub open spec fn bit_after_updates(start: bool, bits: Seq<u32>, sets: Seq<bool>, bit: u32) -> bool
    decreases bits.len(),
{
    if bits.len() == 0 {
        start
    } else if bits.last() == bit {
        sets.last()
    } else {
        bit_after_updates(start, bits.drop_last(), sets.drop_last(), bit)
    }
}

/// Over any sequence of `set_*` and `unset_*` calls on a position (whose validity bits go
/// from `valid[i]` to `valid[i + 1]` as the call's contract states), a field is marked valid
/// exactly when the last call of its own group set it; calls of other groups never change
/// it. Together with the default position having no valid bit, `has_bbt` is true exactly
/// when the last BBT call was `set_bbt`.
pub proof fn lemma_position_bit_follows_last_update(
    valid: Seq<u32>,
    bits: Seq<u32>,
    sets: Seq<bool>,
    bit: u32,
)
    requires
        valid.len() == bits.len() + 1,
        sets.len() == bits.len(),
        is_position_bit(bit),
        forall|i: int| 0 <= i < bits.len() ==> is_position_bit(#[trigger] bits[i]),
        forall|i: int|
            0 <= i < bits.len() ==> #[trigger] valid[i + 1] == (if sets[i] {
                valid[i] | bits[i]
            } else {
                valid[i] & !bits[i]
            }),
    ensures
        (valid.last() & bit != 0) == bit_after_updates(valid[0] & bit != 0, bits, sets, bit),
    decreases bits.len(),
{
    if bits.len() > 0 {
        let n = bits.len() - 1;
        let v = valid.drop_last();
        assert forall|i: int| 0 <= i < n implies #[trigger] v[i + 1] == (if sets.drop_last()[i] {
            v[i] | bits.drop_last()[i]
        } else {
            v[i] & !bits.drop_last()[i]
        }) by {
            assert(valid[i + 1] == (if sets[i] { valid[i] | bits[i] } else { valid[i] & !bits[i] }));
        }
        assert forall|i: int| 0 <= i < n implies is_position_bit(#[trigger] bits.drop_last()[i]) by {
            assert(is_position_bit(bits[i]));
        }
        lemma_position_bit_follows_last_update(v, bits.drop_last(), sets.drop_last(), bit);
        let before = v.last();
        assert(valid[n + 1] == (if sets[n] { valid[n] | bits[n] } else { valid[n] & !bits[n] }));
        assert(is_position_bit(bits[n]));
        if bits[n] == bit {
            lemma_position_flag_update(before, bit, if bit == JACK_POSITION_BBT {
                JACK_POSITION_TIMECODE
            } else {
                JACK_POSITION_BBT
            });
        } else {
            lemma_position_flag_update(before, bits[n], bit);
        }
    }
}

} // verus!
