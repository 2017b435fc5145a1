//! The log file's name and header, and one record written as a line of it.

use crate::clock::{calendar_text, lemma_calendar_text, Calendar, Timestamp};
use crate::text::{ascii_bytes, decimal, digit, lemma_ascii_bytes_concat, lemma_ascii_str_bytes};
use vstd::prelude::*;
use vstd::string::StringSliceAdditionalSpecFns;

verus! {

/// Name of the log file in the root directory.
pub const CO2_DATA_FILE_NAME: &'static str = "co2-data.csv";

/// A line never has more bytes than this.
pub const LINE_CAPACITY: usize = 46;

/// `heapless::String`: text in a buffer of fixed size, here of 46 bytes.
#[verifier::external_type_specification]
#[verifier::external_body]
pub struct ExLine<const N: usize>(heapless::String<N>);

/// The bytes that a line buffer holds.
pub uninterp spec fn line_bytes(line: heapless::String<46>) -> Seq<u8>;

/// `heapless::String::new`: a buffer that holds nothing.
#[verifier::external_body]
pub(crate) fn empty_line() -> (line: heapless::String<46>)
    ensures
        line_bytes(line).len() == 0,
{
    heapless::String::new()
}

/// `heapless::String::push_str`: appends the bytes of `text` if they fit
/// into what is left of the 46 bytes, and changes nothing if they do not.
#[verifier::external_body]
fn push_text(line: &mut heapless::String<46>, text: &str) -> (pushed: Result<(), ()>)
    ensures
        pushed is Ok <==> line_bytes(*old(line)).len() + text.spec_bytes().len() <= 46,
        pushed is Ok ==> line_bytes(*final(line)) == line_bytes(*old(line)) + text.spec_bytes(),
        pushed is Err ==> line_bytes(*final(line)) == line_bytes(*old(line)),
{
    line.push_str(text)
}

/// `heapless::String::as_str`: the text in the buffer.
#[verifier::external_body]
pub(crate) fn line_text(line: &heapless::String<46>) -> (text: &str)
    ensures
        text.spec_bytes() == line_bytes(*line),
{
    line.as_str()
}

/// The first line of a fresh log file.
pub open spec fn header_text() -> Seq<char> {
    "CO2, Temperature (C), Humidity, Time\n"@
}

/// The bytes of the header line.
pub open spec fn header_bytes() -> Seq<u8> {
    ascii_bytes(header_text())
}

/// The header line, which names the four columns.
pub fn header() -> (text: &'static str)
    ensures
        text@ == header_text(),
        text.spec_bytes() == header_bytes(),
        header_bytes().len() == 37,
{
    let text = "CO2, Temperature (C), Humidity, Time\n";
    proof {
        reveal_strlit("CO2, Temperature (C), Humidity, Time\n");
        assert(vstd::utf8::is_ascii_chars(text@));
        lemma_ascii_str_bytes(text);
    }
    text
}

/// One record as a line of the log: the CO2 value in decimal, the
/// temperature and the humidity as the caller wrote them, and the time, with
/// commas between and a line feed at the end.
pub open spec fn record_line(co2: u16, temperature: Seq<u8>, humidity: Seq<u8>, time: Calendar) -> Seq<
    u8,
> {
    ascii_bytes(decimal(co2 as nat)) + seq![44u8] + temperature + seq![44u8] + humidity + seq![44u8]
        + ascii_bytes(calendar_text(time)) + seq![10u8]
}

/// The text of one decimal digit.
fn digit_text(d: u8) -> (text: &'static str)
    requires
        d <= 9,
    ensures
        text.spec_bytes() == ascii_bytes(seq![digit(d as int)]),
        text.spec_bytes().len() == 1,
{
    let text = if d == 0 {
        "0"
    } else if d == 1 {
        "1"
    } else if d == 2 {
        "2"
    } else if d == 3 {
        "3"
    } else if d == 4 {
        "4"
    } else if d == 5 {
        "5"
    } else if d == 6 {
        "6"
    } else if d == 7 {
        "7"
    } else if d == 8 {
        "8"
    } else {
        "9"
    };
    proof {
        reveal_strlit("0");
        reveal_strlit("1");
        reveal_strlit("2");
        reveal_strlit("3");
        reveal_strlit("4");
        reveal_strlit("5");
        reveal_strlit("6");
        reveal_strlit("7");
        reveal_strlit("8");
        reveal_strlit("9");
        assert(text@ =~= seq![digit(d as int)]);
        lemma_ascii_str_bytes(text);
    }
    text
}

/// The comma between two fields.
fn comma() -> (text: &'static str)
    ensures
        text.spec_bytes() == seq![44u8],
{
    let text = ",";
    proof {
        reveal_strlit(",");
        lemma_ascii_str_bytes(text);
        assert(ascii_bytes(text@) =~= seq![44u8]);
    }
    text
}

/// The line feed that ends a line.
fn line_feed() -> (text: &'static str)
    ensures
        text.spec_bytes() == seq![10u8],
{
    let text = "\n";
    proof {
        reveal_strlit("\n");
        lemma_ascii_str_bytes(text);
        assert(ascii_bytes(text@) =~= seq![10u8]);
    }
    text
}

/// Appends a number in decimal, as far as the digits fit.
fn push_decimal(line: &mut heapless::String<46>, n: u16) -> (pushed: Result<(), ()>)
    ensures
        pushed is Ok <==> line_bytes(*old(line)).len() + decimal(n as nat).len() <= 46,
        pushed is Ok ==> line_bytes(*final(line)) == line_bytes(*old(line)) + ascii_bytes(
            decimal(n as nat),
        ),
    decreases n,
{
    if n >= 10 {
        match push_decimal(line, n / 10) {
            Ok(()) => {},
            Err(()) => {
                return Err(());
            },
        }
    }
    let last: u8 = (n % 10) as u8;
    let pushed = push_text(line, digit_text(last));
    proof {
        if n >= 10 {
            lemma_ascii_bytes_concat(decimal((n / 10) as nat), seq![digit(last as int)]);
            assert(decimal(n as nat) =~= decimal((n / 10) as nat) + seq![digit(last as int)]);
            assert(line_bytes(*old(line)) + ascii_bytes(decimal((n / 10) as nat)) + ascii_bytes(
                seq![digit(last as int)],
            ) =~= line_bytes(*old(line)) + (ascii_bytes(decimal((n / 10) as nat)) + ascii_bytes(
                seq![digit(last as int)],
            )));
        }
    }
    pushed
}

/// Writes one record as a line of the log, or nothing if the line would
/// have more than `LINE_CAPACITY` bytes. `temperature` and `humidity` are the two
/// readings as text.
pub fn data_line(co2: u16, temperature: &str, humidity: &str, time: &Timestamp) -> (made: Option<
    heapless::String<46>,
>)
    ensures
        made is Some <==> record_line(
            co2,
            temperature.spec_bytes(),
            humidity.spec_bytes(),
            time@,
        ).len() <= LINE_CAPACITY,
        match made {
            Some(line) => line_bytes(line) == record_line(
                co2,
                temperature.spec_bytes(),
                humidity.spec_bytes(),
                time@,
            ),
            None => record_line(co2, temperature.spec_bytes(), humidity.spec_bytes(), time@).len()
                > LINE_CAPACITY,
        },
{
    let stamp = time.render();
    let stamp_text = stamp.as_str();
    proof {
        lemma_calendar_text(time@);
        lemma_ascii_str_bytes(stamp_text);
    }
    let mut line = empty_line();
    assert(line_bytes(line) =~= Seq::<u8>::empty());
    if push_decimal(&mut line, co2).is_err() {
        return None;
    }
    if push_text(&mut line, comma()).is_err() {
        return None;
    }
    if push_text(&mut line, temperature).is_err() {
        return None;
    }
    if push_text(&mut line, comma()).is_err() {
        return None;
    }
    if push_text(&mut line, humidity).is_err() {
        return None;
    }
    if push_text(&mut line, comma()).is_err() {
        return None;
    }
    if push_text(&mut line, stamp_text).is_err() {
        return None;
    }
    if push_text(&mut line, line_feed()).is_err() {
        return None;
    }
    assert(line_bytes(line) =~= record_line(
        co2,
        temperature.spec_bytes(),
        humidity.spec_bytes(),
        time@,
    ));
    Some(line)
}

} // verus!
