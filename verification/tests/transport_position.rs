use jack2::transport::{
    JACK_AUDIO_VIDEO_RATIO, JACK_BBT_FRAME_OFFSET, JACK_POSITION_BBT, JACK_POSITION_TIMECODE,
    JACK_TICK_DOUBLE, JACK_VIDEO_FRAME_OFFSET,
};
use jack2::{PositionFields, TransportBBT, TransportPosition, TransportState, TransportTimecode};

#[test]
fn transport_states() {
    assert_eq!(TransportState::from_jack(0), TransportState::Stopped);
    assert_eq!(TransportState::from_jack(1), TransportState::Rolling);
    assert_eq!(TransportState::from_jack(2), TransportState::Stopped);
    assert_eq!(TransportState::from_jack(3), TransportState::Starting);
    assert_eq!(TransportState::from_jack(4), TransportState::NetStarting);
    assert_eq!(TransportState::from_jack(99), TransportState::Stopped);
}

#[test]
fn default_position_is_zero() {
    let p = TransportPosition::default();
    assert_eq!(p.fields().valid, 0);
    assert_eq!(p.frame(), 0);
    assert_eq!(p.frame_rate(), 0);
    assert_eq!(p.usecs().as_micros(), 0);
    assert!(!p.has_bbt() && !p.has_timecode() && !p.has_bbt_offset());
    assert!(!p.has_audio_video_ratio() && !p.has_video_offset() && !p.has_tick_double());
}

#[test]
fn setting_and_clearing_fields() {
    let mut p = TransportPosition::default();
    p.set_bbt(TransportBBT {
        bar: 3,
        beat: 2,
        tick: 100,
        bar_start_tick: 1920.0f64.to_bits(),
        beats_per_bar: 4.0f32.to_bits(),
        beat_type: 4.0f32.to_bits(),
        ticks_per_beat: 1920.0f64.to_bits(),
        beats_per_minute: 120.0f64.to_bits(),
    });
    assert!(p.has_bbt());
    assert_eq!((p.bar(), p.beat(), p.tick()), (3, 2, 100));
    assert_eq!(f64::from_bits(p.fields().beats_per_minute), 120.0);
    p.set_bbt_offset(12);
    assert!(p.has_bbt_offset() && p.has_bbt());
    assert_eq!(p.bbt_offset(), 12);
    p.set_video_offset(7);
    assert_eq!(p.video_offset(), 7);
    p.set_timecode(TransportTimecode { frame_time: 1.5f64.to_bits(), next_time: 1.6f64.to_bits() });
    p.set_audio_video_ratio(2.0f32.to_bits());
    p.set_tick_double(3.25f64.to_bits());
    assert_eq!(
        p.fields().valid,
        JACK_POSITION_BBT | JACK_BBT_FRAME_OFFSET | JACK_VIDEO_FRAME_OFFSET | JACK_POSITION_TIMECODE
            | JACK_AUDIO_VIDEO_RATIO | JACK_TICK_DOUBLE
    );
    p.unset_bbt();
    assert!(!p.has_bbt());
    assert!(p.has_bbt_offset());
    assert_eq!(p.bar(), 3);
    p.unset_timecode();
    p.unset_bbt_offset();
    p.unset_audio_video_ratio();
    p.unset_video_offset();
    p.unset_tick_double();
    assert_eq!(p.fields().valid, 0);
}

#[test]
fn reposition_accepts_only_bbt_and_timecode() {
    let mut p = TransportPosition::default();
    assert!(p.check_reposition().is_ok());
    p.set_timecode(TransportTimecode { frame_time: 0, next_time: 0 });
    assert!(p.check_reposition().is_ok());
    p.set_video_offset(1);
    assert!(p.check_reposition().is_err());
    p.unset_video_offset();
    assert!(p.check_reposition().is_ok());
}

#[test]
fn fields_round_trip() {
    let mut fields = *TransportPosition::default().fields();
    fields.frame = 44100;
    fields.frame_rate = 48000;
    fields.usecs = 99;
    let p = TransportPosition::from_fields(fields);
    assert_eq!(p.frame(), 44100);
    assert_eq!(p.frame_rate(), 48000);
    assert_eq!(p.usecs().as_micros(), 99);
    let copy: PositionFields = *p.fields();
    assert_eq!(copy, fields);
}

#[test]
fn bbt_validity_follows_the_last_bbt_call() {
    let mut p = TransportPosition::default();
    assert!(!p.has_bbt());
    p.set_bbt(TransportBBT {
        bar: 1,
        beat: 1,
        tick: 0,
        bar_start_tick: 0,
        beats_per_bar: 4.0f32.to_bits(),
        beat_type: 4.0f32.to_bits(),
        ticks_per_beat: 1920.0f64.to_bits(),
        beats_per_minute: 120.0f64.to_bits(),
    });
    p.unset_timecode();
    p.set_video_offset(3);
    assert!(p.has_bbt());
    p.unset_bbt();
    p.set_bbt_offset(2);
    assert!(!p.has_bbt());
    assert!(p.has_bbt_offset());
}
