use adalogger::clock::Timestamp;
use adalogger::line::{data_line, header, CO2_DATA_FILE_NAME, LINE_CAPACITY};

fn pi_day() -> Timestamp {
    Timestamp::from_calendar(2024, 3, 14, 9, 5, 30).unwrap()
}

#[test]
fn file_name_and_header_are_fixed() {
    assert_eq!(CO2_DATA_FILE_NAME, "co2-data.csv");
    assert_eq!(header(), "CO2, Temperature (C), Humidity, Time\n");
    assert_eq!(header().len(), 37);
    assert_eq!(LINE_CAPACITY, 46);
}

#[test]
fn data_line_exact_text() {
    let line = data_line(400, "21.5", "45.25", &pi_day()).unwrap();
    assert_eq!(line.as_str(), "400,21.5,45.25,2024-03-14 09:05:30\n");
}

#[test]
fn data_line_writes_co2_in_decimal_without_padding() {
    let time = pi_day();
    for (co2, text) in [
        (0u16, "0"),
        (7, "7"),
        (10, "10"),
        (99, "99"),
        (100, "100"),
        (1000, "1000"),
        (9999, "9999"),
        (10000, "10000"),
        (40000, "40000"),
        (65535, "65535"),
    ] {
        let line = data_line(co2, "1", "2", &time).unwrap();
        assert_eq!(line.as_str(), format!("{},1,2,2024-03-14 09:05:30\n", text));
    }
}

#[test]
fn data_line_takes_the_readings_as_written() {
    let line = data_line(1, "-0.5", "NaN", &pi_day()).unwrap();
    assert_eq!(line.as_str(), "1,-0.5,NaN,2024-03-14 09:05:30\n");
    let line = data_line(1, "", "", &pi_day()).unwrap();
    assert_eq!(line.as_str(), "1,,,2024-03-14 09:05:30\n");
}

#[test]
fn data_line_of_floats_as_the_sensor_gives_them() {
    let temperature = format!("{}", 21.0f32);
    let humidity = format!("{}", 45.5f32);
    let line = data_line(400, &temperature, &humidity, &pi_day()).unwrap();
    assert_eq!(line.as_str(), "400,21,45.5,2024-03-14 09:05:30\n");
}

#[test]
fn data_line_fills_the_buffer_to_the_last_byte() {
    // 5 digits, 3 commas, 19 characters of time and the line feed leave 18 bytes
    let line = data_line(65535, "123456789", "123456789", &pi_day()).unwrap();
    assert_eq!(line.len(), 46);
    assert_eq!(line.as_str(), "65535,123456789,123456789,2024-03-14 09:05:30\n");
}

#[test]
fn data_line_refuses_one_byte_too_many() {
    assert!(data_line(65535, "1234567890", "123456789", &pi_day()).is_none());
    assert!(data_line(65535, "123456789", "1234567890", &pi_day()).is_none());
    // one digit less makes room for one byte more
    assert!(data_line(9999, "1234567890", "123456789", &pi_day()).is_some());
}

#[test]
fn data_line_counts_bytes_not_characters() {
    // 'é' takes two bytes: nine of them are eighteen bytes
    let wide = "ééééééééé";
    assert_eq!(wide.len(), 18);
    let line = data_line(65535, wide, "", &pi_day()).unwrap();
    assert_eq!(line.len(), 46);
    assert!(data_line(65535, wide, "1", &pi_day()).is_none());
}

#[test]
fn data_line_refuses_a_long_reading() {
    let long = format!("{}", f32::MIN_POSITIVE);
    assert!(long.len() > 40);
    assert!(data_line(400, &long, "45", &pi_day()).is_none());
}
