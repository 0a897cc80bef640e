use rorm_lib::calendar::{FFIDate, FFIDateTime, FFITime};
use rorm_lib::convert::Convert;
use rorm_lib::errors::Error;
use rorm_lib::utils::FFIString;

fn raw(bytes: &[u8]) -> FFIString {
    FFIString { bytes: bytes.to_vec() }
}

#[test]
fn text_survives_being_sent() {
    for text in ["", "id", "Grüße", "日本", "a\0b"] {
        let string = FFIString::new(text);
        assert_eq!(string.bytes, text.as_bytes());
        assert_eq!(string.to_str(), Ok(text));
        assert_eq!(string.convert(), Ok(text.to_string()));
    }
}

#[test]
fn bytes_that_are_no_text_are_refused() {
    for bytes in [&[0xffu8][..], &[0xc3], &[0xc0, 0x80], &[0xed, 0xa0, 0x80], &[b'a', 0x80]] {
        assert_eq!(raw(bytes).to_str(), Err(Error::InvalidStringError));
        assert_eq!(raw(bytes).convert(), Err(Error::InvalidStringError));
    }
}

#[test]
fn dates_follow_the_gregorian_calendar() {
    let date = |year: i32, month: u32, day: u32| FFIDate { year, month, day };
    for (year, month, day) in [(2024, 2, 29), (2000, 2, 29), (-4, 2, 29), (2023, 4, 30), (262142, 12, 31), (-262143, 1, 1)] {
        assert_eq!(date(year, month, day).convert(), Ok(date(year, month, day)));
    }
    for (year, month, day) in [
        (2023, 2, 29),
        (1900, 2, 29),
        (2023, 4, 31),
        (2023, 0, 1),
        (2023, 13, 1),
        (2023, 1, 0),
        (2023, 1, 32),
        (262143, 1, 1),
        (-262144, 12, 31),
    ] {
        assert_eq!(date(year, month, day).convert(), Err(Error::InvalidDateError));
    }
}

#[test]
fn times_stay_within_a_day() {
    let time = |hour: u32, min: u32, sec: u32| FFITime { hour, min, sec };
    assert_eq!(time(0, 0, 0).convert(), Ok(time(0, 0, 0)));
    assert_eq!(time(23, 59, 59).convert(), Ok(time(23, 59, 59)));
    for (hour, min, sec) in [(24, 0, 0), (0, 60, 0), (0, 0, 60), (u32::MAX, 0, 0)] {
        assert_eq!(time(hour, min, sec).convert(), Err(Error::InvalidTimeError));
    }
}

#[test]
fn a_date_with_time_needs_both_to_exist() {
    let at = |month: u32, hour: u32| FFIDateTime { year: 2023, month, day: 30, hour, min: 1, sec: 2 };
    assert_eq!(at(4, 5).convert(), Ok(at(4, 5)));
    assert_eq!(at(2, 5).convert(), Err(Error::InvalidDateTimeError));
    assert_eq!(at(4, 24).convert(), Err(Error::InvalidDateTimeError));
}

#[test]
fn the_ends_of_the_calendar_and_of_the_day() {
    assert_eq!(FFIDate::last(), FFIDate { year: 262142, month: 12, day: 31 });
    assert_eq!(FFITime::midnight(), FFITime { hour: 0, min: 0, sec: 0 });
    assert_eq!(
        FFIDateTime::new(FFIDate::last(), FFITime::midnight()),
        FFIDateTime { year: 262142, month: 12, day: 31, hour: 0, min: 0, sec: 0 }
    );
}

#[test]
fn lists_are_refused_by_their_first_fault() {
    let list = vec![FFIString::new("a"), FFIString::new("b")];
    assert_eq!(list.convert(), Ok(vec!["a".to_string(), "b".to_string()]));
    assert_eq!(vec![FFIString::new("a"), raw(&[0xff])].convert(), Err(Error::InvalidStringError));
    let dates = vec![FFIDate { year: 2023, month: 1, day: 1 }, FFIDate { year: 2023, month: 1, day: 99 }];
    assert_eq!(dates.convert(), Err(Error::InvalidDateError));
    assert_eq!(Vec::<FFIString>::new().convert(), Ok(vec![]));
    assert_eq!(None::<FFIString>.convert(), Ok(None));
    assert_eq!(Some(FFIString::new("t")).convert(), Ok(Some("t".to_string())));
    assert_eq!(Some(raw(&[0x80])).convert(), Err(Error::InvalidStringError));
}
