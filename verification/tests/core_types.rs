use jack2::{Error, Failure, Frames, Time, Uuid};

#[test]
fn frames_round_trip() {
    let f = Frames::from(48000u32);
    assert_eq!(u32::from(f), 48000);
    assert_eq!(Frames::new(7).get(), 7);
    assert!(Frames::new(1) < Frames::new(2));
}

#[test]
fn time_micros() {
    let t = Time::from_micros(1_500_000);
    assert_eq!(t.as_micros(), 1_500_000);
}

#[test]
fn uuid_from_raw_refuses_zero() {
    assert!(Uuid::from_raw(0).is_none());
    let u = Uuid::from_raw(4294967298).unwrap();
    assert_eq!(u.value(), 4294967298);
    assert_eq!(Uuid::new(12).value(), 12);
}

#[test]
fn uuid_parse_input_truncates() {
    let long = "123456789012345678901234567890123456789";
    let bytes = Uuid::parse_input(long).unwrap();
    assert_eq!(bytes.len(), 36);
    assert_eq!(&bytes[..], &long.as_bytes()[..36]);
    let short = Uuid::parse_input("42").unwrap();
    assert_eq!(short, b"42".to_vec());
}

#[test]
fn uuid_parse_input_refuses_nul() {
    match Uuid::parse_input("12\u{0}34") {
        Err(Error::InvalidCString(p)) => assert_eq!(p, 2),
        other => panic!("unexpected {:?}", other),
    }
    // a nul byte past the parsed prefix does not matter
    let s = format!("{}\u{0}", "1".repeat(36));
    assert_eq!(Uuid::parse_input(&s).unwrap().len(), 36);
}

#[test]
fn uuid_parse_result() {
    let u = Uuid::from_parse_result(0, 4294967299).unwrap();
    assert_eq!(u.value(), 4294967299);
    match Uuid::from_parse_result(-1, 5) {
        Err(Error::Failure(f)) => assert_eq!(f.bits(), 0x03),
        other => panic!("unexpected {:?}", other),
    }
    match Uuid::from_parse_result(0, 0) {
        Err(Error::Failure(f)) => assert_eq!(f.bits(), 0x03),
        other => panic!("unexpected {:?}", other),
    }
}

#[test]
fn check_ret_maps_negative_codes() {
    assert!(Error::check_ret(0).is_ok());
    assert!(Error::check_ret(3).is_ok());
    match Error::check_ret(-1) {
        Err(Error::Failure(f)) => assert_eq!(f, Failure::new(0x01)),
        other => panic!("unexpected {:?}", other),
    }
}

#[test]
fn error_constructors() {
    match Error::unknown() {
        Error::Failure(f) => assert_eq!(u32::from(f), 0x01),
        _ => panic!(),
    }
    match Error::invalid_option() {
        Error::Failure(f) => assert_eq!(u32::from(f), 0x03),
        _ => panic!(),
    }
    assert!(matches!(Error::check_c_string(b"abc"), Ok(())));
    assert!(matches!(Error::check_c_string(b"a\0c"), Err(Error::InvalidCString(1))));
    let e = Error::LibraryError(String::from("not found"));
    assert!(matches!(e, Error::LibraryError(ref m) if m == "not found"));
}

#[test]
fn find_nul_positions() {
    assert_eq!(jack2::find_nul(b""), None);
    assert_eq!(jack2::find_nul(b"\0"), Some(0));
    assert_eq!(jack2::find_nul(b"ab\0c\0"), Some(2));
}

#[test]
fn failure_messages_follow_bit_priority() {
    assert_eq!(
        Failure::new(0x01 | 0x02).message(),
        "The operation contained an invalid or unsupported option"
    );
    assert_eq!(Failure::new(0x04 | 0x10).message(), "The desired client name was not unique");
    assert_eq!(Failure::new(0x10 | 0x01).message(), "Unable to connect to the JACK server");
    assert_eq!(Failure::new(0x20).message(), "Communication error with the JACK server");
    assert_eq!(Failure::new(0x40).message(), "Requested client does not exist");
    assert_eq!(Failure::new(0x80).message(), "Unable to load internal client");
    assert_eq!(Failure::new(0x100).message(), "Unable to initialize client");
    assert_eq!(Failure::new(0x200).message(), "Unable to access shared memory");
    assert_eq!(Failure::new(0x400).message(), "Client's protocol version does not match");
    assert_eq!(Failure::new(0x800).message(), "Backend error");
    assert_eq!(Failure::new(0x1000).message(), "Client zombified failure");
    assert_eq!(Failure::new(0x01).message(), "Unknown error");
    assert_eq!(Failure::new(0x08).message(), "Unknown error");
}

#[test]
fn counted_return_codes() {
    assert_eq!(Error::check_count(3).unwrap(), 3);
    assert_eq!(Error::check_count(0).unwrap(), 0);
    match Error::check_count(-1) {
        Err(Error::Failure(f)) => assert_eq!(f.bits(), jack2::JACK_FAILURE),
        other => panic!("unexpected {:?}", other),
    }
}

#[test]
fn c_string_buffers_end_at_the_first_nul() {
    assert_eq!(jack2::bytes_before_nul(b"alias\0rest\0"), b"alias".to_vec());
    assert_eq!(jack2::bytes_before_nul(b"\0x"), Vec::<u8>::new());
    assert_eq!(jack2::bytes_before_nul(b"no nul"), b"no nul".to_vec());
    assert_eq!(jack2::find_nul(b"ab\0"), Some(2));
}

#[test]
fn times_order_by_microseconds() {
    let a = Time::from_micros(10);
    let b = Time::from_micros(20);
    assert!(a < b);
    assert!(a <= Time::from_micros(10));
    assert!(!(b <= a));
    assert_eq!(a.partial_cmp(&b), Some(std::cmp::Ordering::Less));
    assert_eq!(a.cmp(&b), std::cmp::Ordering::Less);
}
