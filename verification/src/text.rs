//! Decimal digits as text, and the bytes of ASCII text.

use vstd::prelude::*;

verus! {

/// The character of one decimal digit.
pub open spec fn digit(d: int) -> char {
    if d == 0 {
        '0'
    } else if d == 1 {
        '1'
    } else if d == 2 {
        '2'
    } else if d == 3 {
        '3'
    } else if d == 4 {
        '4'
    } else if d == 5 {
        '5'
    } else if d == 6 {
        '6'
    } else if d == 7 {
        '7'
    } else if d == 8 {
        '8'
    } else {
        '9'
    }
}

/// A number written in decimal, without sign and without leading zeros.
pub open spec fn decimal(n: nat) -> Seq<char>
    decreases n,
{
    if n < 10 {
        seq![digit(n as int)]
    } else {
        decimal(n / 10).push(digit((n % 10) as int))
    }
}

/// A number written in decimal and padded with a zero to two digits.
pub open spec fn two_digits(n: nat) -> Seq<char> {
    if n < 10 {
        seq!['0', digit(n as int)]
    } else {
        decimal(n)
    }
}

/// The bytes of a text of ASCII characters: one byte for each character.
pub open spec fn ascii_bytes(text: Seq<char>) -> Seq<u8> {
    Seq::new(text.len(), |i: int| text[i] as u8)
}

/// A decimal digit is an ASCII character, and its byte is 48 plus the digit.
pub proof fn lemma_digit_ascii(d: int)
    requires
        0 <= d <= 9,
    ensures
        '\0' <= digit(d) <= '\u{7f}',
        digit(d) as u8 == 48 + d,
{
}

/// A number in decimal is ASCII text of at least one digit.
pub proof fn lemma_decimal_ascii(n: nat)
    ensures
        vstd::utf8::is_ascii_chars(decimal(n)),
        decimal(n).len() >= 1,
    decreases n,
{
    if n < 10 {
        lemma_digit_ascii(n as int);
    } else {
        lemma_decimal_ascii(n / 10);
        lemma_digit_ascii((n % 10) as int);
    }
}

/// How many digits a number has in decimal, up to five digits.
pub proof fn lemma_decimal_len(n: nat)
    requires
        n < 100000,
    ensures
        decimal(n).len() == if n < 10 {
            1nat
        } else if n < 100 {
            2nat
        } else if n < 1000 {
            3nat
        } else if n < 10000 {
            4nat
        } else {
            5nat
        },
    decreases n,
{
    if n >= 10 {
        lemma_decimal_len(n / 10);
    }
}

/// A number below one hundred, padded to two digits, is ASCII text of two
/// digits: the tens, then the ones.
pub proof fn lemma_two_digits(n: nat)
    requires
        n < 100,
    ensures
        two_digits(n) == seq![digit((n / 10) as int), digit((n % 10) as int)],
        vstd::utf8::is_ascii_chars(two_digits(n)),
{
    lemma_digit_ascii((n / 10) as int);
    lemma_digit_ascii((n % 10) as int);
    if n >= 10 {
        assert(decimal(n / 10) == seq![digit((n / 10) as int)]);
        assert(decimal(n) =~= seq![digit((n / 10) as int), digit((n % 10) as int)]);
    }
}

/// Different digits have different characters.
pub proof fn lemma_digit_tells_digit(a: int, b: int)
    requires
        0 <= a <= 9,
        0 <= b <= 9,
        digit(a) == digit(b),
    ensures
        a == b,
{
}

/// A number of four digits in decimal: thousands, hundreds, tens, ones.
pub proof fn lemma_decimal_four_digits(n: nat)
    requires
        1000 <= n <= 9999,
    ensures
        decimal(n) == seq![
            digit((n / 1000) as int),
            digit((n / 100 % 10) as int),
            digit((n / 10 % 10) as int),
            digit((n % 10) as int),
        ],
{
    let hundreds = n / 10;
    let tens = hundreds / 10;
    let ones = tens / 10;
    assert(ones == n / 1000 && tens == n / 100);
    assert(decimal(ones) == seq![digit(ones as int)]);
    assert(decimal(tens) == decimal(ones).push(digit((tens % 10) as int)));
    assert(decimal(hundreds) == decimal(tens).push(digit((hundreds % 10) as int)));
    assert(decimal(n) == decimal(hundreds).push(digit((n % 10) as int)));
    assert(decimal(n) =~= seq![
        digit((n / 1000) as int),
        digit((n / 100 % 10) as int),
        digit((n / 10 % 10) as int),
        digit((n % 10) as int),
    ]);
}

/// The bytes of two texts written one after the other.
pub proof fn lemma_ascii_bytes_concat(a: Seq<char>, b: Seq<char>)
    ensures
        ascii_bytes(a + b) == ascii_bytes(a) + ascii_bytes(b),
{
    assert(ascii_bytes(a + b) =~= ascii_bytes(a) + ascii_bytes(b));
}

/// What a string of ASCII characters holds as bytes.
pub proof fn lemma_ascii_str_bytes(s: &str)
    requires
        vstd::utf8::is_ascii_chars(s@),
    ensures
        vstd::string::StringSliceAdditionalSpecFns::spec_bytes(s) == ascii_bytes(s@),
{
    vstd::utf8::is_ascii_chars_encode_utf8(s@);
    assert(vstd::utf8::encode_utf8(s@) =~= ascii_bytes(s@));
}

} // verus!
