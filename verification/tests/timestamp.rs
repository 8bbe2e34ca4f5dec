use sntp_client::timestamp::{TimeStamp, UnixTime, NANOS_PER_SECOND, NTP_TO_UNIX_SECONDS};

fn at(secs: u64, nanos: u32) -> UnixTime {
    UnixTime::new(secs, nanos).expect("nanoseconds below one second")
}

#[test]
fn unix_time_keeps_its_parts() {
    let t = at(10, 5_000_000);
    assert_eq!(t.secs(), 10);
    assert_eq!(t.subsec_nanos(), 5_000_000);
    assert_eq!(t.as_nanos(), 10_005_000_000);
}

#[test]
fn unix_time_refuses_a_full_second_of_nanoseconds() {
    assert_eq!(UnixTime::new(0, NANOS_PER_SECOND), None);
    assert_eq!(UnixTime::new(7, u32::MAX), None);
    assert!(UnixTime::new(7, NANOS_PER_SECOND - 1).is_some());
}

#[test]
fn unix_time_of_the_largest_second_count() {
    let t = at(u64::MAX, 999_999_999);
    assert_eq!(t.as_nanos(), u64::MAX as u128 * 1_000_000_000 + 999_999_999);
}

#[test]
fn the_unix_epoch_encodes_to_the_epoch_offset() {
    let stamp = TimeStamp::encode(at(0, 0));
    assert_eq!(stamp.raw(), NTP_TO_UNIX_SECONDS << 32);
    assert_eq!(stamp.raw(), 0x83AA_7E80_0000_0000);
}

#[test]
fn half_a_second_is_half_the_fraction_range() {
    let stamp = TimeStamp::encode(at(1, 500_000_000));
    assert_eq!(stamp.raw(), ((NTP_TO_UNIX_SECONDS + 1) << 32) | 0x8000_0000);
}

#[test]
fn one_nanosecond_takes_the_least_fraction_not_before_it() {
    let stamp = TimeStamp::encode(at(0, 1));
    assert_eq!(stamp.raw() & 0xffff_ffff, 5);
    assert_eq!(TimeStamp { time: (NTP_TO_UNIX_SECONDS << 32) | 4 }.decode(), Some(at(0, 0)));
    assert_eq!(TimeStamp { time: (NTP_TO_UNIX_SECONDS << 32) | 5 }.decode(), Some(at(0, 1)));
}

#[test]
fn the_last_nanosecond_fits_the_fraction() {
    let stamp = TimeStamp::encode(at(3, 999_999_999));
    assert_eq!(stamp.raw() >> 32, NTP_TO_UNIX_SECONDS + 3);
    assert_eq!(stamp.raw() & 0xffff_ffff, 4_294_967_292);
}

#[test]
fn decode_reads_the_fraction_in_whole_nanoseconds() {
    let stamp = TimeStamp { time: ((NTP_TO_UNIX_SECONDS + 100) << 32) | 0xffff_ffff };
    assert_eq!(stamp.decode(), Some(at(100, 999_999_999)));
    let quarter = TimeStamp { time: ((NTP_TO_UNIX_SECONDS + 100) << 32) | 0x4000_0000 };
    assert_eq!(quarter.decode(), Some(at(100, 250_000_000)));
}

#[test]
fn round_trip_gives_the_instant_back() {
    let instants = [
        at(0, 0),
        at(0, 1),
        at(1, 999_999_999),
        at(10, 5_000_000),
        at(1_700_000_000, 123_456_789),
        at(2_085_978_495, 999_999_999),
    ];
    for t in instants {
        assert_eq!(TimeStamp::encode(t).decode(), Some(t));
    }
}

#[test]
fn round_trip_holds_for_every_nanosecond_pattern_tried() {
    let mut nanos: u32 = 0;
    while nanos < NANOS_PER_SECOND {
        let t = at(1_234_567, nanos);
        assert_eq!(TimeStamp::encode(t).decode(), Some(t));
        nanos += 999_983;
    }
}

#[test]
fn the_unset_timestamp_decodes_to_nothing() {
    assert_eq!(TimeStamp { time: 0 }.decode(), None);
    assert_eq!(TimeStamp::default().decode(), None);
    assert_eq!(TimeStamp::default().raw(), 0);
}

#[test]
fn seconds_before_the_unix_epoch_decode_to_nothing() {
    let stamp = TimeStamp { time: ((NTP_TO_UNIX_SECONDS - 1) << 32) | 0xffff_ffff };
    assert_eq!(stamp.decode(), None);
    let first = TimeStamp { time: NTP_TO_UNIX_SECONDS << 32 };
    assert_eq!(first.decode(), Some(at(0, 0)));
}

#[test]
fn seconds_beyond_the_era_wrap_round() {
    let stamp = TimeStamp::encode(at(2_085_978_496, 0));
    assert_eq!(stamp.raw(), 0);
    assert_eq!(stamp.decode(), None);
    let later = TimeStamp::encode(at(2_085_978_496 + 7, 500_000_000));
    assert_eq!(later.raw(), (7 << 32) | 0x8000_0000);
}

#[test]
fn wire_bytes_are_big_endian() {
    let stamp = TimeStamp { time: 0x0102_0304_0506_0708 };
    let mut out = vec![0xaa];
    stamp.put(&mut out);
    assert_eq!(out, vec![0xaa, 1, 2, 3, 4, 5, 6, 7, 8]);
    assert_eq!(TimeStamp::get(&out, 1), stamp);
}

#[test]
fn the_clock_reads_a_time_of_this_century() {
    let t = UnixTime::now().expect("a clock after 1970");
    assert!(t.secs() > 1_577_836_800);
    assert!(t.subsec_nanos() < NANOS_PER_SECOND);
}

#[test]
fn now_is_the_timestamp_of_the_clock() {
    let before = UnixTime::now().expect("a clock after 1970");
    let stamp = TimeStamp::now().expect("a clock after 1970");
    let after = UnixTime::now().expect("a clock after 1970");
    assert_ne!(stamp.raw(), 0);
    let read = stamp.decode().expect("a time within the era");
    assert!(before.as_nanos() <= read.as_nanos());
    assert!(read.as_nanos() <= after.as_nanos());
}

#[test]
fn a_reading_of_the_clock_is_the_instant_read() {
    assert_eq!(UnixTime::from_reading(Some((10, 5_000_000))), Some(at(10, 5_000_000)));
    assert_eq!(UnixTime::from_reading(Some((0, 0))), Some(at(0, 0)));
    assert_eq!(UnixTime::from_reading(Some((u64::MAX, 999_999_999))), Some(at(u64::MAX, 999_999_999)));
}

#[test]
fn no_reading_of_the_clock_is_no_instant() {
    assert_eq!(UnixTime::from_reading(None), None);
    assert_eq!(UnixTime::from_reading(Some((10, NANOS_PER_SECOND))), None);
}

#[test]
fn the_timestamp_of_a_reading_is_that_of_the_instant() {
    let t = at(1, 500_000_000);
    assert_eq!(TimeStamp::from_reading(Some(t)), Some(TimeStamp::encode(t)));
    assert_eq!(
        TimeStamp::from_reading(Some(t)),
        Some(TimeStamp { time: ((NTP_TO_UNIX_SECONDS + 1) << 32) | 0x8000_0000 })
    );
    assert_eq!(TimeStamp::from_reading(None), None);
}
