//! The real-time clock: a snapshot of its packed-decimal registers and the
//! calendar timestamp decoded from it.

use crate::text::{
    decimal, digit, lemma_decimal_ascii, lemma_decimal_four_digits, lemma_decimal_len,
    lemma_digit_tells_digit, lemma_two_digits, two_digits,
};
use vstd::prelude::*;

verus! {

/// Bus address of the clock chip.
pub const PCF8253_ADDRESS: u8 = 0x68;

/// Register at which the block of time registers starts.
pub const TIME_REGISTER: u8 = 3;

/// The chip stores a two-digit year, counted from this one.
pub const EPOCH_BASE: u16 = 2000;

/// A calendar date and time of day, as plain numbers.
pub struct Calendar {
    pub year: int,
    pub month: int,
    pub day: int,
    pub hour: int,
    pub minute: int,
    pub second: int,
}

impl Calendar {
    /// Every component lies in the range that a `Timestamp` can hold.
    pub open spec fn valid(self) -> bool {
        &&& 1970 <= self.year <= 2225
        &&& 1 <= self.month <= 12
        &&& 1 <= self.day <= 31
        &&& 0 <= self.hour <= 23
        &&& 0 <= self.minute <= 59
        &&& 0 <= self.second <= 59
    }
}

/// Why a calendar time was refused: the first component out of range.
#[derive(Clone, Copy, Debug, PartialEq, Eq, Structural)]
pub enum ClockError {
    BadYear,
    BadMonth,
    BadDay,
    BadHours,
    BadMinutes,
    BadSeconds,
}

/// What `Timestamp::from_calendar` answers for the six components.
pub open spec fn checked_calendar(c: Calendar) -> Result<Calendar, ClockError> {
    if !(1970 <= c.year <= 2225) {
        Err(ClockError::BadYear)
    } else if !(1 <= c.month <= 12) {
        Err(ClockError::BadMonth)
    } else if !(1 <= c.day <= 31) {
        Err(ClockError::BadDay)
    } else if !(0 <= c.hour <= 23) {
        Err(ClockError::BadHours)
    } else if !(0 <= c.minute <= 59) {
        Err(ClockError::BadMinutes)
    } else if !(0 <= c.second <= 59) {
        Err(ClockError::BadSeconds)
    } else {
        Ok(c)
    }
}

/// An instant in local time. Its components are always in range: a value is
/// made by `from_calendar` only and never changes afterwards.
#[derive(Clone, Copy, Debug, PartialEq, Eq, Structural)]
pub struct Timestamp {
    year_since_1970: u8,
    zero_indexed_month: u8,
    zero_indexed_day: u8,
    hours: u8,
    minutes: u8,
    seconds: u8,
}

impl View for Timestamp {
    type V = Calendar;

    closed spec fn view(&self) -> Calendar {
        Calendar {
            year: 1970 + self.year_since_1970,
            month: 1 + self.zero_indexed_month,
            day: 1 + self.zero_indexed_day,
            hour: self.hours as int,
            minute: self.minutes as int,
            second: self.seconds as int,
        }
    }
}

/// Calls `embedded_sdmmc::Timestamp::from_calendar` and copies the fields of
/// what it made. That function accepts the six numbers exactly when the year
/// is 1970 to 2225, the month 1 to 12, the day 1 to 31, the hour at most 23
/// and minute and second at most 59; the timestamp it makes then stands for
/// these numbers. Its error text is dropped.
#[verifier::external_body]
fn calendar_timestamp(year: u16, month: u8, day: u8, hours: u8, minutes: u8, seconds: u8) -> (made:
    Option<Timestamp>)
    ensures
        made is Some <==> (Calendar {
            year: year as int,
            month: month as int,
            day: day as int,
            hour: hours as int,
            minute: minutes as int,
            second: seconds as int,
        }).valid(),
        made matches Some(t) ==> t@ == (Calendar {
            year: year as int,
            month: month as int,
            day: day as int,
            hour: hours as int,
            minute: minutes as int,
            second: seconds as int,
        }),
{
    match embedded_sdmmc::Timestamp::from_calendar(year, month, day, hours, minutes, seconds) {
        Ok(t) => Some(
            Timestamp {
                year_since_1970: t.year_since_1970,
                zero_indexed_month: t.zero_indexed_month,
                zero_indexed_day: t.zero_indexed_day,
                hours: t.hours,
                minutes: t.minutes,
                seconds: t.seconds,
            },
        ),
        Err(_) => None,
    }
}

/// A calendar time as the log shows it: year, month and day with hyphens, a
/// space, then hour, minute and second with colons, each but the year
/// padded to two digits.
pub open spec fn calendar_text(c: Calendar) -> Seq<char> {
    decimal(c.year as nat) + seq!['-'] + two_digits(c.month as nat) + seq!['-'] + two_digits(
        c.day as nat,
    ) + seq![' '] + two_digits(c.hour as nat) + seq![':'] + two_digits(c.minute as nat) + seq![':']
        + two_digits(c.second as nat)
}

/// The text of a valid calendar time has nineteen ASCII characters.
pub proof fn lemma_calendar_text(c: Calendar)
    requires
        c.valid(),
    ensures
        calendar_text(c).len() == 19,
        vstd::utf8::is_ascii_chars(calendar_text(c)),
{
    lemma_decimal_ascii(c.year as nat);
    lemma_decimal_len(c.year as nat);
    lemma_two_digits(c.month as nat);
    lemma_two_digits(c.day as nat);
    lemma_two_digits(c.hour as nat);
    lemma_two_digits(c.minute as nat);
    lemma_two_digits(c.second as nat);
}

/// The nineteen characters of the text of a valid calendar time: each
/// component digit by digit, with the marks between.
pub open spec fn calendar_characters(c: Calendar) -> Seq<char> {
    seq![
        digit(c.year / 1000),
        digit(c.year / 100 % 10),
        digit(c.year / 10 % 10),
        digit(c.year % 10),
        '-',
        digit(c.month / 10),
        digit(c.month % 10),
        '-',
        digit(c.day / 10),
        digit(c.day % 10),
        ' ',
        digit(c.hour / 10),
        digit(c.hour % 10),
        ':',
        digit(c.minute / 10),
        digit(c.minute % 10),
        ':',
        digit(c.second / 10),
        digit(c.second % 10),
    ]
}

/// The text of a valid calendar time, character by character.
pub proof fn lemma_calendar_text_characters(c: Calendar)
    requires
        c.valid(),
    ensures
        calendar_text(c) == calendar_characters(c),
{
    lemma_decimal_four_digits(c.year as nat);
    lemma_two_digits(c.month as nat);
    lemma_two_digits(c.day as nat);
    lemma_two_digits(c.hour as nat);
    lemma_two_digits(c.minute as nat);
    lemma_two_digits(c.second as nat);
    assert(calendar_text(c) =~= calendar_characters(c));
}

/// Two numbers below one hundred with the same two digits are the same.
proof fn lemma_same_two_digits(x: int, y: int)
    requires
        0 <= x <= 99,
        0 <= y <= 99,
        digit(x / 10) == digit(y / 10),
        digit(x % 10) == digit(y % 10),
    ensures
        x == y,
{
    lemma_digit_tells_digit(x / 10, y / 10);
    lemma_digit_tells_digit(x % 10, y % 10);
}

/// Two numbers of four digits with the same digits are the same.
proof fn lemma_same_four_digits(x: int, y: int)
    requires
        1000 <= x <= 9999,
        1000 <= y <= 9999,
        digit(x / 1000) == digit(y / 1000),
        digit(x / 100 % 10) == digit(y / 100 % 10),
        digit(x / 10 % 10) == digit(y / 10 % 10),
        digit(x % 10) == digit(y % 10),
    ensures
        x == y,
{
    lemma_digit_tells_digit(x / 1000, y / 1000);
    lemma_digit_tells_digit(x / 100 % 10, y / 100 % 10);
    lemma_digit_tells_digit(x / 10 % 10, y / 10 % 10);
    lemma_digit_tells_digit(x % 10, y % 10);
}

/// Two valid calendar times with the same characters are the same.
proof fn lemma_same_characters(a: Calendar, b: Calendar)
    requires
        a.valid(),
        b.valid(),
        calendar_characters(a) == calendar_characters(b),
    ensures
        a == b,
{
    let s = calendar_characters(a);
    let t = calendar_characters(b);
    assert(s[0] == t[0] && s[1] == t[1] && s[2] == t[2] && s[3] == t[3]);
    lemma_same_four_digits(a.year, b.year);
    assert(s[5] == t[5] && s[6] == t[6]);
    lemma_same_two_digits(a.month, b.month);
    assert(s[8] == t[8] && s[9] == t[9]);
    lemma_same_two_digits(a.day, b.day);
    assert(s[11] == t[11] && s[12] == t[12]);
    lemma_same_two_digits(a.hour, b.hour);
    assert(s[14] == t[14] && s[15] == t[15]);
    lemma_same_two_digits(a.minute, b.minute);
    assert(s[17] == t[17] && s[18] == t[18]);
    lemma_same_two_digits(a.second, b.second);
}

/// The text tells the time: two valid calendar times that are written
/// alike are the same, so that what is read back from a line of the log is
/// what was written.
pub proof fn lemma_calendar_text_tells_time(a: Calendar, b: Calendar)
    requires
        a.valid(),
        b.valid(),
        calendar_text(a) == calendar_text(b),
    ensures
        a == b,
{
    lemma_calendar_text_characters(a);
    lemma_calendar_text_characters(b);
    lemma_same_characters(a, b);
}

/// Formats an `embedded_sdmmc::Timestamp` with the same fields through its
/// `Display`. That prints the year, a hyphen, month and day padded to two
/// digits with a hyphen between, a space, and hour, minute and second padded
/// to two digits with colons between.
#[verifier::external_body]
fn timestamp_string(t: &Timestamp) -> (text: String)
    requires
        t@.valid(),
    ensures
        text@ == calendar_text(t@),
{
    let t = embedded_sdmmc::Timestamp {
        year_since_1970: t.year_since_1970,
        zero_indexed_month: t.zero_indexed_month,
        zero_indexed_day: t.zero_indexed_day,
        hours: t.hours,
        minutes: t.minutes,
        seconds: t.seconds,
    };
    format!("{}", t)
}

impl Timestamp {
    #[verifier::type_invariant]
    spec fn in_range(self) -> bool {
        &&& self.zero_indexed_month < 12
        &&& self.zero_indexed_day < 31
        &&& self.hours < 24
        &&& self.minutes < 60
        &&& self.seconds < 60
    }

    /// Makes a timestamp from year, month, day, hour, minute and second as
    /// one writes them, or names the first component that is out of range.
    pub fn from_calendar(
        year: u16,
        month: u8,
        day: u8,
        hours: u8,
        minutes: u8,
        seconds: u8,
    ) -> (made: Result<Timestamp, ClockError>)
        ensures
            match made {
                Ok(t) => checked_calendar(
                    Calendar {
                        year: year as int,
                        month: month as int,
                        day: day as int,
                        hour: hours as int,
                        minute: minutes as int,
                        second: seconds as int,
                    },
                ) == Ok::<Calendar, ClockError>(t@),
                Err(e) => checked_calendar(
                    Calendar {
                        year: year as int,
                        month: month as int,
                        day: day as int,
                        hour: hours as int,
                        minute: minutes as int,
                        second: seconds as int,
                    },
                ) == Err::<Calendar, ClockError>(e),
            },
    {
        match calendar_timestamp(year, month, day, hours, minutes, seconds) {
            Some(t) => Ok(t),
            None => {
                if year < 1970 || year > 2225 {
                    Err(ClockError::BadYear)
                } else if month < 1 || month > 12 {
                    Err(ClockError::BadMonth)
                } else if day < 1 || day > 31 {
                    Err(ClockError::BadDay)
                } else if hours > 23 {
                    Err(ClockError::BadHours)
                } else if minutes > 59 {
                    Err(ClockError::BadMinutes)
                } else {
                    Err(ClockError::BadSeconds)
                }
            },
        }
    }

    /// The timestamp as text, as the log and the display show it.
    pub fn render(&self) -> (text: String)
        ensures
            text@ == calendar_text(self@),
            self@.valid(),
    {
        proof {
            use_type_invariant(self);
        }
        timestamp_string(self)
    }

    /// The calendar year.
    pub fn year(&self) -> (year: u16)
        ensures
            year == self@.year,
            self@.valid(),
    {
        proof {
            use_type_invariant(self);
        }
        1970 + self.year_since_1970 as u16
    }

    /// The month, from 1 for January.
    pub fn month(&self) -> (month: u8)
        ensures
            month == self@.month,
    {
        proof {
            use_type_invariant(self);
        }
        self.zero_indexed_month + 1
    }

    /// The day of the month, from 1.
    pub fn day(&self) -> (day: u8)
        ensures
            day == self@.day,
    {
        proof {
            use_type_invariant(self);
        }
        self.zero_indexed_day + 1
    }

    /// The hours past midnight.
    pub fn hour(&self) -> (hour: u8)
        ensures
            hour == self@.hour,
    {
        self.hours
    }

    /// The minutes past the hour.
    pub fn minute(&self) -> (minute: u8)
        ensures
            minute == self@.minute,
    {
        self.minutes
    }

    /// The seconds past the minute.
    pub fn second(&self) -> (second: u8)
        ensures
            second == self@.second,
    {
        self.seconds
    }
}

/// A timestamp is what its calendar time says: two timestamps for the same
/// calendar time are equal.
pub proof fn lemma_calendar_tells_timestamp(a: Timestamp, b: Timestamp)
    requires
        a@ == b@,
    ensures
        a == b,
{
}

/// The value of a packed-decimal byte: the upper nibble counts tens, the
/// lower nibble counts ones.
pub open spec fn bcd_value(byte: u8) -> int {
    (byte as int / 16) * 10 + (byte as int % 16)
}

/// The calendar time that a block of time registers stands for, before any
/// range is checked. Bit 7 of the seconds register is a status flag of the
/// chip and no part of the time.
pub open spec fn register_calendar(registers: [u8; 7]) -> Calendar {
    Calendar {
        year: EPOCH_BASE + bcd_value(registers[6]),
        month: bcd_value(registers[5]),
        day: bcd_value(registers[3]),
        hour: bcd_value(registers[2]),
        minute: bcd_value(registers[1]),
        second: bcd_value(registers[0] & 0x7F),
    }
}

/// A snapshot of the seven time registers of the clock chip, in bus order:
/// seconds, minutes, hours, day, weekday, month, year.
#[derive(Clone, Copy, Debug)]
pub struct Pcf8253 {
    pub registers: [u8; 7],
}

impl Pcf8253 {
    /// Holds one block of registers as read from the chip in one transaction.
    pub fn new(registers: [u8; 7]) -> (rtc: Pcf8253)
        ensures
            rtc.registers == registers,
    {
        Pcf8253 { registers }
    }

    /// Decodes one packed-decimal byte.
    pub fn bcd2bin(&self, bcd_value: u8) -> (value: u8)
        ensures
            value == self::bcd_value(bcd_value),
            value == bcd_value - 6 * (bcd_value >> 4),
            value == (bcd_value >> 4) * 10 + (bcd_value & 0xF),
    {
        let tens: u8 = bcd_value >> 4;
        assert(tens == bcd_value / 16 && (bcd_value & 0xF) == bcd_value % 16) by (bit_vector)
            requires
                tens == bcd_value >> 4,
        ;
        bcd_value - 6 * tens
    }

    /// Decodes the snapshot. The weekday register is not read, and bit 7 of
    /// the seconds register is masked off first.
    pub fn get_timestamp(&self) -> (time: Result<Timestamp, ClockError>)
        ensures
            match time {
                Ok(t) => checked_calendar(register_calendar(self.registers)) == Ok::<
                    Calendar,
                    ClockError,
                >(t@),
                Err(e) => checked_calendar(register_calendar(self.registers)) == Err::<
                    Calendar,
                    ClockError,
                >(e),
            },
    {
        let year: u16 = self.bcd2bin(self.registers[6]) as u16 + EPOCH_BASE;
        Timestamp::from_calendar(
            year,
            self.bcd2bin(self.registers[5]),
            self.bcd2bin(self.registers[3]),
            self.bcd2bin(self.registers[2]),
            self.bcd2bin(self.registers[1]),
            self.bcd2bin(self.registers[0] & 0x7F),
        )
    }
}

/// A valid packed-decimal byte decodes to its two digits read as a number,
/// which is below one hundred.
pub proof fn lemma_bcd_digits(byte: u8)
    requires
        byte >> 4 <= 9,
        byte & 0xF <= 9,
    ensures
        bcd_value(byte) == (byte >> 4) * 10 + (byte & 0xF),
        0 <= bcd_value(byte) <= 99,
{
    assert((byte >> 4) == byte / 16 && (byte & 0xF) == byte % 16) by (bit_vector);
}

/// Two snapshots that differ in nothing but the status flag of the seconds
/// register decode alike.
pub proof fn lemma_seconds_flag_ignored(a: [u8; 7], b: [u8; 7])
    requires
        a[0] & 0x7F == b[0] & 0x7F,
        forall|i: int| 1 <= i < 7 ==> a[i] == b[i],
    ensures
        register_calendar(a) == register_calendar(b),
        checked_calendar(register_calendar(a)) == checked_calendar(register_calendar(b)),
{
}

/// Setting or clearing the status flag of a seconds byte leaves the decoded
/// second unchanged.
pub proof fn lemma_seconds_mask(seconds: u8)
    ensures
        (seconds | 0x80) & 0x7F == seconds & 0x7F,
        (seconds & 0x7F) & 0x7F == seconds & 0x7F,
        bcd_value((seconds | 0x80) & 0x7F) == bcd_value(seconds & 0x7F),
{
    assert((seconds | 0x80) & 0x7F == seconds & 0x7F) by (bit_vector);
    assert((seconds & 0x7F) & 0x7F == seconds & 0x7F) by (bit_vector);
}

} // verus!
