use mobilisation::domain::event::{DateTime, LocalDateTime};

#[test]
fn instants_outside_four_digit_years_are_refused() {
    assert!(DateTime::new(-62_167_219_200, 0).is_some());
    assert!(DateTime::new(-62_167_219_201, 0).is_none());
    assert!(DateTime::new(253_402_300_799, 999_999_999).is_some());
    assert!(DateTime::new(253_402_300_800, 0).is_none());
    assert!(DateTime::new(0, 1_000_000_000).is_none());
    assert!(DateTime::new(i64::MIN, 0).is_none());
    assert!(DateTime::new(i64::MAX, u32::MAX).is_none());
}

#[test]
fn the_bounds_are_the_first_and_last_rfc3339_seconds() {
    assert_eq!(DateTime::new(-62_167_219_200, 0).unwrap().to_rfc3339(), "0000-01-01T00:00:00+00:00");
    assert_eq!(
        DateTime::new(253_402_300_799, 999_999_999).unwrap().to_rfc3339(),
        "9999-12-31T23:59:59.999999999+00:00"
    );
}

#[test]
fn an_instant_keeps_its_parts() {
    let t = DateTime::new(980_809_200, 42).unwrap();
    assert_eq!(t.timestamp(), 980_809_200);
    assert_eq!(t.timestamp_subsec_nanos(), 42);
    assert_eq!(t.nanos_since_epoch(), 980_809_200_000_000_042);
    let before_epoch = DateTime::new(-1, 999_999_999).unwrap();
    assert_eq!(before_epoch.nanos_since_epoch(), -1);
    assert_eq!(DateTime::default(), DateTime::new(0, 0).unwrap());
}

#[test]
fn instants_are_ordered_by_seconds_then_nanoseconds() {
    let a = DateTime::new(5, 999_999_999).unwrap();
    let b = DateTime::new(6, 0).unwrap();
    assert!(a.is_before(&b));
    assert!(!b.is_before(&a));
    assert!(!a.is_before(&a));
    assert!(DateTime::new(-7, 1).unwrap().is_before(&DateTime::new(-7, 2).unwrap()));
}

#[test]
fn wire_text_is_rfc3339_in_utc() {
    assert_eq!(DateTime::new(980_809_200, 0).unwrap().to_rfc3339(), "2001-01-29T23:00:00+00:00");
    assert_eq!(DateTime::new(0, 500_000_000).unwrap().to_rfc3339(), "1970-01-01T00:00:00.500+00:00");
    assert_eq!(DateTime::new(1, 1).unwrap().to_rfc3339(), "1970-01-01T00:00:01.000000001+00:00");
}

#[test]
fn reading_takes_the_offset_into_account() {
    let t = DateTime::parse_from_rfc3339("2001-01-30T00:00:00+01:00").unwrap();
    assert_eq!(t, DateTime::new(980_809_200, 0).unwrap());
    assert_eq!(DateTime::parse_from_rfc3339("2001-01-29T23:00:00Z").unwrap(), t);
    let local = LocalDateTime::parse_from_rfc3339("2001-01-30T00:00:00+01:00").unwrap();
    assert_eq!(local.instant(), t);
    assert_eq!(local.offset(), 3600);
    let west = LocalDateTime::parse_from_rfc3339("2001-01-29T18:00:00-05:00").unwrap();
    assert_eq!(west.instant(), t);
    assert_eq!(west.offset(), -18_000);
}

#[test]
fn what_is_no_rfc3339_text_is_not_read() {
    for text in ["", "2001-01-30", "2001-01-30T00:00:00", "2001-02-30T00:00:00Z", "yesterday",
        "2001-01-30T00:00:00+01:00 ", "2001-01-30T25:00:00Z"]
    {
        assert!(DateTime::parse_from_rfc3339(text).is_none());
        assert!(LocalDateTime::parse_from_rfc3339(text).is_none());
    }
}

#[test]
fn readings_outside_the_valid_instants_are_refused() {
    // The year before year zero and the year after 9999.
    assert!(DateTime::parse_from_rfc3339("0000-01-01T00:00:00+01:00").is_none());
    assert!(DateTime::parse_from_rfc3339("9999-12-31T23:59:59-01:00").is_none());
    assert!(LocalDateTime::parse_from_rfc3339("9999-12-31T23:59:59-01:00").is_none());
    assert!(DateTime::parse_from_rfc3339("0000-01-01T00:00:00Z").is_some());
    assert!(DateTime::parse_from_rfc3339("9999-12-31T23:59:59.999999999Z").is_some());
}

#[test]
fn wire_text_reads_back_as_the_same_instant() {
    let samples = [
        (-62_167_219_200, 0),
        (-1, 999_999_999),
        (0, 0),
        (0, 1),
        (951_782_400, 123_000_000),
        (980_809_200, 123_456_000),
        (1_700_000_000, 987_654_321),
        (253_402_300_799, 999_999_999),
    ];
    for (secs, nanos) in samples {
        let t = DateTime::new(secs, nanos).unwrap();
        assert_eq!(DateTime::parse_from_rfc3339(&t.to_rfc3339()), Some(t));
        let local = LocalDateTime::parse_from_rfc3339(&t.to_rfc3339()).unwrap();
        assert_eq!(local.instant(), t);
        assert_eq!(local.offset(), 0);
    }
}

#[test]
fn offsets_of_a_day_or_more_are_refused() {
    let t = DateTime::new(0, 0).unwrap();
    assert!(LocalDateTime::new(t, 86_399).is_some());
    assert!(LocalDateTime::new(t, -86_399).is_some());
    assert!(LocalDateTime::new(t, 86_400).is_none());
    assert!(LocalDateTime::new(t, -86_400).is_none());
    let made = LocalDateTime::new(t, 3600).unwrap();
    assert_eq!(made.instant(), t);
    assert_eq!(made.offset(), 3600);
}

#[test]
fn saturating_moves_each_part_to_its_nearest_bound() {
    let kept = LocalDateTime::saturating_new(980_809_200, 5, -3600);
    assert_eq!(kept.instant(), DateTime::new(980_809_200, 5).unwrap());
    assert_eq!(kept.offset(), -3600);
    let high = LocalDateTime::saturating_new(i64::MAX, u32::MAX, i32::MAX);
    assert_eq!(high.instant(), DateTime::new(253_402_300_799, 999_999_999).unwrap());
    assert_eq!(high.offset(), 86_399);
    let low = LocalDateTime::saturating_new(i64::MIN, 0, i32::MIN);
    assert_eq!(low.instant(), DateTime::new(-62_167_219_200, 0).unwrap());
    assert_eq!(low.offset(), -86_399);
    assert_eq!(LocalDateTime::saturating_new(0, 1_000_000_000, 86_400).offset(), 86_399);
    assert_eq!(LocalDateTime::saturating_new(0, 0, -86_400).offset(), -86_399);
}

#[test]
fn wire_text_reads_back_over_a_walk_of_instants() {
    let mut state: u64 = 0x9E37_79B9_7F4A_7C15;
    let mut step = || {
        state ^= state << 13;
        state ^= state >> 7;
        state ^= state << 17;
        state
    };
    let span = 253_402_300_799i64 + 62_167_219_200 + 1;
    for round in 0..2000 {
        let secs = (step() % span as u64) as i64 - 62_167_219_200;
        let nanos = match round % 4 {
            0 => 0,
            1 => (step() % 1000) as u32 * 1_000_000,
            2 => (step() % 1_000_000) as u32 * 1000,
            _ => (step() % 1_000_000_000) as u32,
        };
        let t = DateTime::new(secs, nanos).unwrap();
        assert_eq!(DateTime::parse_from_rfc3339(&t.to_rfc3339()), Some(t));
    }
}

#[test]
fn a_leap_second_is_no_instant_of_the_library() {
    assert!(DateTime::parse_from_rfc3339("2016-12-31T23:59:60Z").is_none());
    assert!(DateTime::parse_from_rfc3339("2016-12-31T23:59:60.5Z").is_none());
    assert!(LocalDateTime::parse_from_rfc3339("2017-01-01T00:59:60+01:00").is_none());
    assert!(DateTime::new(1_483_228_799, 1_000_000_000).is_none());
    // The nearest instant is the last nanosecond before it.
    let last = DateTime::new(1_483_228_799, 999_999_999).unwrap();
    assert_eq!(DateTime::saturating_new(1_483_228_799, 1_000_000_000), last);
    assert_eq!(DateTime::parse_from_rfc3339("2016-12-31T23:59:59.999999999Z"), Some(last));
    assert_eq!(DateTime::drop_leap_second(0), 0);
    assert_eq!(DateTime::drop_leap_second(999_999_999), 999_999_999);
    assert_eq!(DateTime::drop_leap_second(1_000_000_000), 999_999_999);
    assert_eq!(DateTime::drop_leap_second(1_999_999_999), 999_999_999);
}

#[test]
fn what_reads_is_written_and_read_again_without_loss() {
    for text in ["2001-01-30T00:00:00+01:00", "1969-07-20T20:17:40.123456789Z",
        "0000-01-01T00:00:00Z", "9999-12-31T23:59:59.999999999Z", "2016-12-31T23:59:59.5-08:00"]
    {
        let read = DateTime::parse_from_rfc3339(text).unwrap();
        assert_eq!(DateTime::parse_from_rfc3339(&read.to_rfc3339()), Some(read));
    }
}

#[test]
fn saturating_instants_move_to_the_nearest_bound() {
    assert_eq!(DateTime::saturating_new(980_809_200, 5), DateTime::new(980_809_200, 5).unwrap());
    assert_eq!(
        DateTime::saturating_new(1_483_228_799, 1_500_000_000),
        DateTime::new(1_483_228_799, 999_999_999).unwrap()
    );
    assert_eq!(
        DateTime::saturating_new(i64::MAX, 7),
        DateTime::new(253_402_300_799, 7).unwrap()
    );
    assert_eq!(
        DateTime::saturating_new(i64::MIN, u32::MAX),
        DateTime::new(-62_167_219_200, 999_999_999).unwrap()
    );
}
