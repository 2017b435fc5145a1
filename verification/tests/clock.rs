use adalogger::clock::{ClockError, Pcf8253, Timestamp};

fn rtc(registers: [u8; 7]) -> Pcf8253 {
    Pcf8253::new(registers)
}

#[test]
fn bcd2bin_decodes_every_packed_decimal_byte_up_to_59() {
    let chip = rtc([0; 7]);
    for tens in 0u8..=5 {
        for ones in 0u8..=9 {
            let byte = (tens << 4) | ones;
            assert_eq!(chip.bcd2bin(byte), tens * 10 + ones);
            assert_eq!(chip.bcd2bin(byte), (byte >> 4) * 10 + (byte & 0xF));
        }
    }
}

#[test]
fn bcd2bin_exact_values() {
    let chip = rtc([0; 7]);
    assert_eq!(chip.bcd2bin(0x00), 0);
    assert_eq!(chip.bcd2bin(0x09), 9);
    assert_eq!(chip.bcd2bin(0x10), 10);
    assert_eq!(chip.bcd2bin(0x59), 59);
    assert_eq!(chip.bcd2bin(0x99), 99);
    assert_eq!(chip.bcd2bin(0xFF), 165);
}

#[test]
fn bcd2bin_is_byte_minus_six_times_upper_nibble_for_every_byte() {
    let chip = rtc([0; 7]);
    for byte in 0u8..=255 {
        assert_eq!(chip.bcd2bin(byte), byte - 6 * (byte >> 4));
    }
}

#[test]
fn get_timestamp_decodes_registers_in_bus_order() {
    // seconds, minutes, hours, day, weekday, month, year
    let time = rtc([0x30, 0x05, 0x09, 0x14, 0x04, 0x03, 0x24]).get_timestamp().unwrap();
    assert_eq!(time.year(), 2024);
    assert_eq!(time.month(), 3);
    assert_eq!(time.day(), 14);
    assert_eq!(time.hour(), 9);
    assert_eq!(time.minute(), 5);
    assert_eq!(time.second(), 30);
}

#[test]
fn seconds_status_flag_is_ignored() {
    for seconds in 0u8..=0x59 {
        if seconds & 0xF > 9 {
            continue;
        }
        let clear = rtc([seconds, 0x05, 0x09, 0x14, 0x04, 0x03, 0x24]).get_timestamp();
        let set = rtc([seconds | 0x80, 0x05, 0x09, 0x14, 0x04, 0x03, 0x24]).get_timestamp();
        assert_eq!(clear, set);
        assert_eq!(set.unwrap().second(), (seconds >> 4) * 10 + (seconds & 0xF));
    }
}

#[test]
fn weekday_register_is_not_read() {
    let a = rtc([0x30, 0x05, 0x09, 0x14, 0x00, 0x03, 0x24]).get_timestamp();
    let b = rtc([0x30, 0x05, 0x09, 0x14, 0xFF, 0x03, 0x24]).get_timestamp();
    assert_eq!(a, b);
}

#[test]
fn get_timestamp_rejects_components_out_of_range() {
    assert_eq!(
        rtc([0x00, 0x00, 0x00, 0x01, 0x00, 0x13, 0x24]).get_timestamp(),
        Err(ClockError::BadMonth)
    );
    assert_eq!(
        rtc([0x00, 0x00, 0x00, 0x01, 0x00, 0x00, 0x24]).get_timestamp(),
        Err(ClockError::BadMonth)
    );
    assert_eq!(
        rtc([0x00, 0x00, 0x00, 0x32, 0x00, 0x01, 0x24]).get_timestamp(),
        Err(ClockError::BadDay)
    );
    assert_eq!(
        rtc([0x00, 0x00, 0x00, 0x00, 0x00, 0x01, 0x24]).get_timestamp(),
        Err(ClockError::BadDay)
    );
    assert_eq!(
        rtc([0x00, 0x00, 0x24, 0x01, 0x00, 0x01, 0x24]).get_timestamp(),
        Err(ClockError::BadHours)
    );
    assert_eq!(
        rtc([0x00, 0x60, 0x23, 0x01, 0x00, 0x01, 0x24]).get_timestamp(),
        Err(ClockError::BadMinutes)
    );
    assert_eq!(
        rtc([0x60, 0x59, 0x23, 0x01, 0x00, 0x01, 0x24]).get_timestamp(),
        Err(ClockError::BadSeconds)
    );
    // the first component out of range is named
    assert_eq!(
        rtc([0x60, 0x60, 0x24, 0x32, 0x00, 0x13, 0x24]).get_timestamp(),
        Err(ClockError::BadMonth)
    );
}

#[test]
fn from_calendar_names_the_first_bad_component() {
    assert_eq!(Timestamp::from_calendar(1969, 1, 1, 0, 0, 0), Err(ClockError::BadYear));
    assert_eq!(Timestamp::from_calendar(2226, 1, 1, 0, 0, 0), Err(ClockError::BadYear));
    assert_eq!(Timestamp::from_calendar(2024, 0, 1, 0, 0, 0), Err(ClockError::BadMonth));
    assert_eq!(Timestamp::from_calendar(2024, 13, 1, 0, 0, 0), Err(ClockError::BadMonth));
    assert_eq!(Timestamp::from_calendar(2024, 1, 0, 0, 0, 0), Err(ClockError::BadDay));
    assert_eq!(Timestamp::from_calendar(2024, 1, 32, 0, 0, 0), Err(ClockError::BadDay));
    assert_eq!(Timestamp::from_calendar(2024, 1, 1, 24, 0, 0), Err(ClockError::BadHours));
    assert_eq!(Timestamp::from_calendar(2024, 1, 1, 0, 60, 0), Err(ClockError::BadMinutes));
    assert_eq!(Timestamp::from_calendar(2024, 1, 1, 0, 0, 60), Err(ClockError::BadSeconds));
    assert_eq!(Timestamp::from_calendar(1969, 13, 32, 24, 60, 60), Err(ClockError::BadYear));
}

#[test]
fn from_calendar_accepts_the_limits() {
    let first = Timestamp::from_calendar(1970, 1, 1, 0, 0, 0).unwrap();
    assert_eq!(
        (first.year(), first.month(), first.day(), first.hour(), first.minute(), first.second()),
        (1970, 1, 1, 0, 0, 0)
    );
    let last = Timestamp::from_calendar(2225, 12, 31, 23, 59, 59).unwrap();
    assert_eq!(
        (last.year(), last.month(), last.day(), last.hour(), last.minute(), last.second()),
        (2225, 12, 31, 23, 59, 59)
    );
}

#[test]
fn from_calendar_agrees_with_the_filesystem_crate() {
    for (year, month, day, hours, minutes, seconds) in [
        (2024u16, 3u8, 14u8, 9u8, 5u8, 30u8),
        (1970, 1, 1, 0, 0, 0),
        (2225, 12, 31, 23, 59, 59),
        (1969, 1, 1, 0, 0, 0),
        (2024, 2, 31, 12, 0, 0),
        (2024, 12, 1, 24, 0, 0),
    ] {
        let ours = Timestamp::from_calendar(year, month, day, hours, minutes, seconds);
        let theirs =
            embedded_sdmmc::Timestamp::from_calendar(year, month, day, hours, minutes, seconds);
        assert_eq!(ours.is_ok(), theirs.is_ok());
        if let (Ok(ours), Ok(theirs)) = (ours, theirs) {
            assert_eq!(ours.render(), format!("{}", theirs));
        }
    }
}

fn parse(text: &str) -> (u16, u8, u8, u8, u8, u8) {
    let (date, time) = text.split_once(' ').unwrap();
    let date: Vec<&str> = date.split('-').collect();
    let time: Vec<&str> = time.split(':').collect();
    assert_eq!(date.len(), 3);
    assert_eq!(time.len(), 3);
    (
        date[0].parse().unwrap(),
        date[1].parse().unwrap(),
        date[2].parse().unwrap(),
        time[0].parse().unwrap(),
        time[1].parse().unwrap(),
        time[2].parse().unwrap(),
    )
}

#[test]
fn timestamp_text_round_trip() {
    let time = Timestamp::from_calendar(2024, 3, 14, 9, 5, 30).unwrap();
    let text = time.render();
    assert_eq!(text, "2024-03-14 09:05:30");
    assert_eq!(parse(&text), (2024, 3, 14, 9, 5, 30));
    let again = {
        let (year, month, day, hours, minutes, seconds) = parse(&text);
        Timestamp::from_calendar(year, month, day, hours, minutes, seconds).unwrap()
    };
    assert_eq!(again, time);
}

#[test]
fn timestamp_text_pads_to_two_digits_and_has_nineteen_characters() {
    assert_eq!(
        Timestamp::from_calendar(1970, 1, 1, 0, 0, 0).unwrap().render(),
        "1970-01-01 00:00:00"
    );
    assert_eq!(
        Timestamp::from_calendar(2225, 12, 31, 23, 59, 59).unwrap().render(),
        "2225-12-31 23:59:59"
    );
    assert_eq!(
        Timestamp::from_calendar(2000, 10, 9, 10, 9, 10).unwrap().render().len(),
        19
    );
}

#[test]
fn round_trip_through_registers() {
    let time = rtc([0xB0, 0x05, 0x09, 0x14, 0x04, 0x03, 0x24]).get_timestamp().unwrap();
    assert_eq!(time.render(), "2024-03-14 09:05:30");
}
