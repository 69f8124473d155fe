//! Reading numbers out of fixed-width columns of ASCII text.
//!
//! The spec functions here say what a column of text denotes; the
//! executable functions compute it. Nothing in this file knows about the
//! layout of a record.

use vstd::prelude::*;
use vstd::slice::slice_subrange;
use vstd::string::StringExecFns;
use vstd::utf8::decode_utf8;
use vstd::utf8::valid_utf8;
use crate::decimal::Decimal;

verus! {

/// Whether the byte is one of the ASCII digits `0` to `9`.
pub open spec fn is_digit(byte: u8) -> bool {
    0x30 <= byte <= 0x39
}

/// Whether the byte is ASCII white space: a space, or one of the control
/// characters from horizontal tab to carriage return.
pub open spec fn is_blank(byte: u8) -> bool {
    byte == 0x20 || 0x09 <= byte <= 0x0d
}

/// The number that a digit stands for, and zero for any other byte.
pub open spec fn digit_value(byte: u8) -> nat {
    if is_digit(byte) {
        (byte - 0x30) as nat
    } else {
        0
    }
}

/// Whether every byte of the text is a digit. The empty text qualifies.
pub open spec fn all_digits(text: Seq<u8>) -> bool {
    forall|i: int| 0 <= i < text.len() ==> is_digit(#[trigger] text[i])
}

/// The number that a text of digits denotes in base ten, most significant
/// digit first. The empty text denotes zero.
pub open spec fn digits_value(text: Seq<u8>) -> nat
    decreases text.len(),
{
    if text.len() == 0 {
        0
    } else {
        10 * digits_value(text.drop_last()) + digit_value(text.last())
    }
}

/// The text without the white space it begins with.
pub open spec fn without_leading_blanks(text: Seq<u8>) -> Seq<u8>
    decreases text.len(),
{
    if text.len() > 0 && is_blank(text[0]) {
        without_leading_blanks(text.skip(1))
    } else {
        text
    }
}

/// The text without the white space it ends with.
pub open spec fn without_trailing_blanks(text: Seq<u8>) -> Seq<u8>
    decreases text.len(),
{
    if text.len() > 0 && is_blank(text.last()) {
        without_trailing_blanks(text.drop_last())
    } else {
        text
    }
}

/// The text without the white space around it.
pub open spec fn trimmed(text: Seq<u8>) -> Seq<u8> {
    without_trailing_blanks(without_leading_blanks(text))
}

/// Whether the text begins with a plus or minus sign.
pub open spec fn has_sign(text: Seq<u8>) -> bool {
    text.len() > 0 && (text[0] == 0x2b || text[0] == 0x2d)
}

/// Whether the text begins with a minus sign.
pub open spec fn is_negative(text: Seq<u8>) -> bool {
    text.len() > 0 && text[0] == 0x2d
}

/// The text after its sign, or all of it where it has none.
pub open spec fn unsigned_part(text: Seq<u8>) -> Seq<u8> {
    if has_sign(text) {
        text.skip(1)
    } else {
        text
    }
}

/// The number `magnitude`, negated where `negative` holds.
pub open spec fn with_sign(negative: bool, magnitude: int) -> int {
    if negative {
        -magnitude
    } else {
        magnitude
    }
}

/// The integer that a column denotes: white space around it is ignored,
/// then an optional sign and at least one digit must be all there is.
pub open spec fn integer_text(text: Seq<u8>) -> Option<int> {
    let body = trimmed(text);
    let digits = unsigned_part(body);
    if digits.len() > 0 && all_digits(digits) {
        Some(with_sign(is_negative(body), digits_value(digits) as int))
    } else {
        None
    }
}

/// The position of the first decimal point in the text, or the length of
/// the text where it holds none.
pub open spec fn point_position(text: Seq<u8>) -> int {
    match text.index_of_first(0x2eu8) {
        Some(position) => position,
        None => text.len() as int,
    }
}

/// The digits of a fixed-point text: the text with its first decimal
/// point taken out.
pub open spec fn without_point(text: Seq<u8>) -> Seq<u8> {
    if point_position(text) < text.len() {
        text.remove(point_position(text))
    } else {
        text
    }
}

/// The number of bytes that follow the first decimal point of the text.
pub open spec fn fraction_length(text: Seq<u8>) -> int {
    if point_position(text) < text.len() {
        text.len() - point_position(text) - 1
    } else {
        0
    }
}

/// The integer that a column denotes, where it fits in 32 bits.
pub open spec fn int32_text(text: Seq<u8>) -> Option<i32> {
    match integer_text(text) {
        Some(value) => if i32::MIN <= value <= i32::MAX {
            Some(value as i32)
        } else {
            None
        },
        None => None,
    }
}

/// The integer that a column denotes, where it lies between zero and
/// `limit`.
pub open spec fn natural_text(text: Seq<u8>, limit: int) -> Option<int> {
    match integer_text(text) {
        Some(value) => if 0 <= value <= limit {
            Some(value)
        } else {
            None
        },
        None => None,
    }
}

/// The number that a column denotes in fixed-point notation: white space
/// around it is ignored, then come an optional sign and digits with at
/// most one decimal point among them, before them or after them. There is
/// at least one digit. The mantissa is the digits read as an integer, and
/// must fit in 64 bits; the exponent is minus the number of digits after
/// the point.
pub open spec fn fixed_point_text(text: Seq<u8>) -> Option<Decimal> {
    let body = trimmed(text);
    let number = unsigned_part(body);
    let digits = without_point(number);
    if digits.len() > 0 && all_digits(digits) && digits_value(digits) <= i64::MAX
        && fraction_length(number) <= i32::MAX {
        Some(
            Decimal {
                mantissa: with_sign(is_negative(body), digits_value(digits) as int) as i64,
                exponent: (-fraction_length(number)) as i32,
            },
        )
    } else {
        None
    }
}

/// The number that a column denotes where the decimal point is implied
/// before the first digit: white space around it is ignored, then come an
/// optional sign and at least one digit. `-13101` denotes `-0.13101`.
pub open spec fn implied_decimal_text(text: Seq<u8>) -> Option<Decimal> {
    let body = trimmed(text);
    let digits = unsigned_part(body);
    if digits.len() > 0 && all_digits(digits) && digits_value(digits) <= i64::MAX && digits.len()
        <= i32::MAX {
        Some(
            Decimal {
                mantissa: with_sign(is_negative(body), digits_value(digits) as int) as i64,
                exponent: (-(digits.len() as int)) as i32,
            },
        )
    } else {
        None
    }
}

/// The number that a column of digits denotes where the decimal point is
/// implied before the first of them, and nothing but digits may stand in
/// the column. `0004731` denotes `0.0004731`.
pub open spec fn unsigned_decimal_text(text: Seq<u8>) -> Option<Decimal> {
    if text.len() > 0 && all_digits(text) && digits_value(text) <= i64::MAX && text.len()
        <= i32::MAX {
        Some(
            Decimal {
                mantissa: digits_value(text) as i64,
                exponent: (-(text.len() as int)) as i32,
            },
        )
    } else {
        None
    }
}

/// The number that a column denotes in assumed-decimal notation: its last
/// two bytes are a power of ten, written as an integer, and what stands
/// before them is a mantissa with an implied decimal point. `-13101-3`
/// denotes `-0.13101 × 10^-3`.
pub open spec fn assumed_decimal_text(text: Seq<u8>) -> Option<Decimal> {
    if text.len() < 2 {
        None
    } else {
        match (
            implied_decimal_text(text.take(text.len() - 2)),
            int32_text(text.skip(text.len() - 2)),
        ) {
            (Some(mantissa), Some(power)) => if i32::MIN <= mantissa.exponent + power
                <= i32::MAX {
                Some(
                    Decimal {
                        mantissa: mantissa.mantissa,
                        exponent: (mantissa.exponent + power) as i32,
                    },
                )
            } else {
                None
            },
            _ => None,
        }
    }
}

/// The characters that a column holds: the white space it ends with is
/// ignored, and the rest must be UTF-8.
pub open spec fn string_text(text: Seq<u8>) -> Option<Seq<char>> {
    let body = without_trailing_blanks(text);
    if valid_utf8(body) {
        Some(decode_utf8(body))
    } else {
        None
    }
}

/// A text of `n` digits denotes a number below `10^n`.
pub proof fn lemma_digits_value_bound(text: Seq<u8>)
    ensures
        digits_value(text) < crate::decimal::pow10(text.len()),
    decreases text.len(),
{
    if text.len() > 0 {
        lemma_digits_value_bound(text.drop_last());
    }
}

/// The number that the first `n` digits denote is not above the number
/// that all of them denote.
pub proof fn lemma_digits_value_prefix(text: Seq<u8>, n: int)
    requires
        0 <= n <= text.len(),
    ensures
        digits_value(text.take(n)) <= digits_value(text),
    decreases text.len(),
{
    if n < text.len() {
        lemma_digits_value_prefix(text.drop_last(), n);
        assert(text.drop_last().take(n) =~= text.take(n));
    } else {
        assert(text.take(n) =~= text);
    }
}

/// Whether the byte is ASCII white space.
pub fn is_blank_byte(byte: u8) -> (blank: bool)
    ensures
        blank == is_blank(byte),
{
    byte == 0x20 || (0x09 <= byte && byte <= 0x0d)
}

/// The slice without the white space it begins with.
pub fn trim_start(bytes: &[u8]) -> (rest: &[u8])
    ensures
        rest@ == without_leading_blanks(bytes@),
        rest@.len() <= bytes@.len(),
{
    let mut start: usize = 0;
    assert(bytes@.skip(0) =~= bytes@);
    while start < bytes.len() && is_blank_byte(bytes[start])
        invariant
            start <= bytes.len(),
            without_leading_blanks(bytes@) == without_leading_blanks(bytes@.skip(start as int)),
        decreases bytes.len() - start,
    {
        assert(bytes@.skip(start as int).skip(1) =~= bytes@.skip(start + 1));
        start = start + 1;
    }
    assert(bytes@.skip(start as int) =~= bytes@.subrange(start as int, bytes.len() as int));
    slice_subrange(bytes, start, bytes.len())
}

/// The slice without the white space it ends with.
pub fn trim_end(bytes: &[u8]) -> (rest: &[u8])
    ensures
        rest@ == without_trailing_blanks(bytes@),
        rest@.len() <= bytes@.len(),
{
    let mut end: usize = bytes.len();
    assert(bytes@.take(end as int) =~= bytes@);
    while end > 0 && is_blank_byte(bytes[end - 1])
        invariant
            end <= bytes.len(),
            without_trailing_blanks(bytes@) == without_trailing_blanks(bytes@.take(end as int)),
        decreases end,
    {
        assert(bytes@.take(end as int).drop_last() =~= bytes@.take(end - 1));
        end = end - 1;
    }
    slice_subrange(bytes, 0, end)
}

/// The slice without the white space around it.
pub fn trim(bytes: &[u8]) -> (rest: &[u8])
    ensures
        rest@ == trimmed(bytes@),
        rest@.len() <= bytes@.len(),
{
    trim_end(trim_start(bytes))
}

/// Reads a text that consists of digits only.
///
/// Returns the number they denote; `None` where the text is empty, holds
/// anything but digits, or denotes a number above `u64::MAX`.
pub fn parse_digits(bytes: &[u8]) -> (value: Option<u64>)
    ensures
        value is Some <==> bytes@.len() > 0 && all_digits(bytes@) && digits_value(bytes@)
            <= u64::MAX,
        value matches Some(v) ==> v == digits_value(bytes@),
{
    if bytes.len() == 0 {
        return None;
    }
    let mut value: u64 = 0;
    let mut i: usize = 0;
    assert(bytes@.take(0) =~= Seq::<u8>::empty());
    while i < bytes.len()
        invariant
            i <= bytes.len(),
            all_digits(bytes@.take(i as int)),
            value == digits_value(bytes@.take(i as int)),
        decreases bytes.len() - i,
    {
        let byte: u8 = bytes[i];
        assert(bytes@.take(i + 1).drop_last() =~= bytes@.take(i as int));
        if byte < 0x30 || byte > 0x39 {
            assert(!is_digit(bytes@[i as int]));
            return None;
        }
        let digit: u64 = (byte - 0x30) as u64;
        if value > (u64::MAX - digit) / 10 {
            proof {
                lemma_digits_value_prefix(bytes@, i + 1);
            }
            return None;
        }
        value = value * 10 + digit;
        i = i + 1;
    }
    assert(bytes@.take(i as int) =~= bytes@);
    Some(value)
}

/// Where the first decimal point of the text stands: its index, or the
/// length of the text where it holds none.
pub fn find_point(bytes: &[u8]) -> (position: usize)
    ensures
        position == point_position(bytes@),
        position <= bytes.len(),
{
    let mut i: usize = 0;
    while i < bytes.len() && bytes[i] != 0x2e
        invariant
            i <= bytes.len(),
            forall|j: int| 0 <= j < i ==> bytes@[j] != 0x2e,
        decreases bytes.len() - i,
    {
        i = i + 1;
    }
    proof {
        bytes@.index_of_first_ensures(0x2eu8);
        if i < bytes.len() {
            assert(bytes@.contains(0x2eu8));
        }
    }
    i
}

/// Takes the sign off a number: whether the text begins with a minus
/// sign, and what follows the sign.
pub fn split_sign(bytes: &[u8]) -> (parts: (bool, &[u8]))
    ensures
        parts.0 == is_negative(bytes@),
        parts.1@ == unsigned_part(bytes@),
        parts.1@.len() <= bytes@.len(),
{
    if bytes.len() > 0 && (bytes[0] == 0x2b || bytes[0] == 0x2d) {
        assert(bytes@.skip(1) =~= bytes@.subrange(1, bytes.len() as int));
        (bytes[0] == 0x2d, slice_subrange(bytes, 1, bytes.len()))
    } else {
        (false, bytes)
    }
}

/// Decodes bytes as UTF-8.
///
/// This is std's `String::from_utf8`, called on a copy of the bytes. The
/// contract claims what its documentation says: the call succeeds exactly
/// on well-formed UTF-8, and the string then holds the characters that the
/// bytes encode.
#[verifier::external_body]
pub(crate) fn utf8_to_string(bytes: &[u8]) -> (text: Option<String>)
    ensures
        text is Some <==> valid_utf8(bytes@),
        text matches Some(string) ==> string@ == decode_utf8(bytes@),
{
    String::from_utf8(bytes.to_vec()).ok()
}

/// The character that stands for a digit between zero and nine.
pub open spec fn digit_char(digit: int) -> char {
    ((0x30 + digit) as u8) as char
}

/// The digits that write a natural number in base ten, without leading
/// zeros.
pub open spec fn natural_digits(number: nat) -> Seq<char>
    decreases number,
{
    if number < 10 {
        seq![digit_char(number as int)]
    } else {
        natural_digits(number / 10).push(digit_char((number % 10) as int))
    }
}

/// The characters that write an integer in base ten: a minus sign where
/// it is negative, then its digits.
pub open spec fn integer_digits(number: int) -> Seq<char> {
    if number < 0 {
        seq!['-'] + natural_digits((-number) as nat)
    } else {
        natural_digits(number as nat)
    }
}

/// The text of one digit.
fn digit_text(digit: u32) -> (text: &'static str)
    requires
        digit < 10,
    ensures
        text@ == seq![digit_char(digit as int)],
{
    proof {
        reveal_strlit("0");
        reveal_strlit("1");
        reveal_strlit("2");
        reveal_strlit("3");
        reveal_strlit("4");
        reveal_strlit("5");
        reveal_strlit("6");
        reveal_strlit("7");
        reveal_strlit("8");
        reveal_strlit("9");
    }
    let text = if digit == 0 {
        "0"
    } else if digit == 1 {
        "1"
    } else if digit == 2 {
        "2"
    } else if digit == 3 {
        "3"
    } else if digit == 4 {
        "4"
    } else if digit == 5 {
        "5"
    } else if digit == 6 {
        "6"
    } else if digit == 7 {
        "7"
    } else if digit == 8 {
        "8"
    } else {
        "9"
    };
    assert(text@ =~= seq![digit_char(digit as int)]);
    text
}

/// Writes a natural number in base ten at the end of a string.
pub fn append_natural(text: &mut String, number: u32)
    ensures
        final(text)@ == old(text)@ + natural_digits(number as nat),
    decreases number,
{
    if number >= 10 {
        append_natural(text, number / 10);
    }
    text.append(digit_text(number % 10));
    assert(final(text)@ =~= old(text)@ + natural_digits(number as nat));
}

/// Writes an integer in base ten at the end of a string.
pub fn append_integer(text: &mut String, number: i32)
    ensures
        final(text)@ == old(text)@ + integer_digits(number as int),
{
    if number < 0 {
        proof {
            reveal_strlit("-");
        }
        text.append("-");
        append_natural(text, (0 - number as i64) as u32);
        assert(final(text)@ =~= old(text)@ + integer_digits(number as int));
    } else {
        append_natural(text, number as u32);
    }
}

} // verus!
