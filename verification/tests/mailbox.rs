use adalogger::clock::Timestamp;
use adalogger::mailbox::Mailbox;
use adalogger::record::{Measurement, MeasurementData};

fn first() -> MeasurementData {
    MeasurementData {
        co2: 400,
        humidity: 45.0f32.to_bits(),
        temperature: 21.0f32.to_bits(),
        timestamp: Timestamp::from_calendar(2024, 3, 14, 9, 5, 30).unwrap(),
    }
}

fn second() -> MeasurementData {
    MeasurementData {
        co2: 410,
        humidity: 44.0f32.to_bits(),
        temperature: 21.1f32.to_bits(),
        timestamp: Timestamp::from_calendar(2024, 3, 14, 9, 6, 0).unwrap(),
    }
}

#[test]
fn mailbox_starts_without_a_reading() {
    assert_eq!(Mailbox::new().read(), None);
}

#[test]
fn read_returns_the_record_published_last() {
    let mut mailbox = Mailbox::new();
    mailbox.publish(first());
    assert_eq!(mailbox.read(), Some(first()));
    mailbox.publish(second());
    assert_eq!(mailbox.read(), Some(second()));
}

#[test]
fn read_does_not_empty_the_mailbox() {
    let mut mailbox = Mailbox::new();
    mailbox.publish(first());
    assert_eq!(mailbox.read(), Some(first()));
    assert_eq!(mailbox.read(), Some(first()));
}

#[test]
fn interleaved_reads_see_one_whole_record_or_the_other() {
    // a read may come before, between or after the two publishes
    for position in 0..3 {
        let mut mailbox = Mailbox::new();
        mailbox.publish(first());
        let mut seen = None;
        if position == 0 {
            seen = mailbox.read();
        }
        mailbox.publish(second());
        if position > 0 {
            seen = mailbox.read();
        }
        let seen = seen.unwrap();
        assert!(seen == first() || seen == second());
        let whole_first = (seen.co2, seen.temperature, seen.humidity, seen.timestamp)
            == (400, 21.0f32.to_bits(), 45.0f32.to_bits(), first().timestamp);
        let whole_second = (seen.co2, seen.temperature, seen.humidity, seen.timestamp)
            == (410, 21.1f32.to_bits(), 44.0f32.to_bits(), second().timestamp);
        assert!(whole_first != whole_second);
        assert_eq!(whole_first, position == 0);
    }
}

#[test]
fn record_keeps_the_reading_bit_for_bit() {
    let reading = Measurement {
        co2: 400,
        humidity: 45.25f32.to_bits(),
        temperature: (-1.5f32).to_bits(),
    };
    let time = Timestamp::from_calendar(2024, 3, 14, 9, 5, 30).unwrap();
    let record = MeasurementData::new(reading, time);
    assert_eq!(record.co2, 400);
    assert_eq!(f32::from_bits(record.humidity), 45.25);
    assert_eq!(f32::from_bits(record.temperature), -1.5);
    assert_eq!(record.timestamp, time);
}
