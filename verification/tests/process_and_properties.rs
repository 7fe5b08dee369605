use jack2::process::midi_status;
use jack2::{MidiCursor, MidiEvent, Property, PropertyDescription, PropertyDescriptionList, Uuid};

#[test]
fn midi_cursor_from_both_ends() {
    let mut c = MidiCursor::new(3);
    assert_eq!(c.remaining(), 3);
    assert_eq!(c.front(), Some(0));
    c.advance_front();
    assert_eq!(c.back(), Some(2));
    c.advance_back();
    assert_eq!(c.remaining(), 1);
    assert_eq!(c.front(), Some(1));
    c.advance_front();
    assert_eq!(c.front(), None);
    assert_eq!(c.remaining(), 0);
    let empty = MidiCursor::new(0);
    assert_eq!(empty.front(), None);
    assert_eq!(empty.back(), None);
}

#[test]
fn midi_status_codes() {
    assert_eq!(midi_status(0), Ok(()));
    assert_eq!(midi_status(-105), Err(105));
    let ev = MidiEvent { time: 4, data: &[0x90, 60, 100] };
    assert_eq!(ev.data.len(), 3);
    assert_eq!(ev.time, 4);
}

#[test]
fn properties_hold_their_values() {
    let p = Property::new(b"http://jackaudio.org/metadata/pretty-name".to_vec(), b"Left".to_vec(), None);
    assert_eq!(p.data(), b"Left");
    assert!(p.type_().is_none());
    let t = Property::new(b"k".to_vec(), b"1".to_vec(), Some(b"http://www.w3.org/2001/XMLSchema#int".to_vec()));
    assert_eq!(t.type_(), Some(&b"http://www.w3.org/2001/XMLSchema#int"[..]));
    assert_eq!(t.key(), b"k");
    let d = PropertyDescription::new(Uuid::new(5), vec![p, t]);
    assert_eq!(d.subject().value(), 5);
    assert_eq!(d.properties().len(), 2);
    let list = PropertyDescriptionList::new(vec![d]);
    assert_eq!(list.descriptions().len(), 1);
    assert_eq!(list.descriptions()[0].properties()[1].data(), b"1");
}

#[test]
fn midi_cursor_span() {
    let mut c = MidiCursor::new(4);
    assert_eq!(c.span(), (0, 4));
    c.advance_front();
    c.advance_back();
    assert_eq!(c.span(), (1, 3));
    assert_eq!(c.remaining(), 2);
}

#[test]
fn midi_cursor_reads_each_event_once() {
    let mut c = MidiCursor::new(1);
    assert_eq!(c.front(), Some(0));
    c.advance_front();
    assert_eq!(c.back(), None);
    assert_eq!(c.front(), None);
    let mut c = MidiCursor::new(3);
    let mut seen = Vec::new();
    seen.push(c.back().unwrap());
    c.advance_back();
    seen.push(c.front().unwrap());
    c.advance_front();
    seen.push(c.back().unwrap());
    c.advance_back();
    assert_eq!(c.front(), None);
    assert_eq!(c.back(), None);
    assert_eq!(c.remaining(), 0);
    seen.sort();
    assert_eq!(seen, vec![0, 1, 2]);
}
