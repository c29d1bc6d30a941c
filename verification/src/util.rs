//! The date format of the Xero API.
//!
//! The API writes an instant as `/Date(1750136176637+0000)/`: the milliseconds
//! since the Unix epoch in decimal, then, sometimes, an offset, which carries
//! no information and is ignored.

use crate::text::lemma_decimal_digits_are_digits;
use crate::text::decimal_digits;
use crate::text::chars_of;
use crate::text::decimal;
use crate::text::digit_of;
use crate::text::digit_value;
use crate::text::digits_value;
use crate::text::has_at;
use crate::text::occurs_at;
use crate::text::signed_decimal_string;
use vstd::prelude::*;
use vstd::string::*;

verus! {

/// Whether `chrono` has an instant for the given milliseconds since the Unix
/// epoch.
pub uninterp spec fn chrono_has_millis(millis: i64) -> bool;

/// `DateTime::from_timestamp_millis`, asked only whether it finds an
/// instant: `false` for milliseconds outside the years `chrono` covers. The
/// answer depends on the number alone.
#[verifier::external_body]
pub(crate) fn has_instant(millis: i64) -> (found: bool)
    ensures
        found == chrono_has_millis(millis),
{
    chrono::DateTime::from_timestamp_millis(millis).is_some()
}

/// Why a text is not a date of the API.
#[derive(Clone, Copy, Debug, PartialEq, Eq, Structural)]
pub enum XeroDateError {
    /// There is no digit where the milliseconds should stand.
    Empty,
    /// Something other than a digit stands among the milliseconds.
    InvalidDigit,
    /// The milliseconds do not fit 64 bits.
    TooLarge,
    /// The milliseconds lie outside the years `chrono` covers.
    OutOfRange,
}

/// What a date of the API begins with.
pub open spec fn date_open() -> Seq<char> {
    "/Date("@
}

/// What a date of the API ends with.
pub open spec fn date_close() -> Seq<char> {
    ")/"@
}

/// The text without every copy of `prefix` that it begins with.
pub open spec fn trim_start(text: Seq<char>, prefix: Seq<char>) -> Seq<char>
    decreases text.len(),
{
    if prefix.len() > 0 && occurs_at(text, prefix, 0) {
        trim_start(text.skip(prefix.len() as int), prefix)
    } else {
        text
    }
}

/// The text without every copy of `suffix` that it ends with.
pub open spec fn trim_end(text: Seq<char>, suffix: Seq<char>) -> Seq<char>
    decreases text.len(),
{
    if suffix.len() > 0 && occurs_at(text, suffix, text.len() - suffix.len()) {
        trim_end(text.take(text.len() - suffix.len()), suffix)
    } else {
        text
    }
}

/// A plus or a minus sign.
pub open spec fn is_sign(c: char) -> bool {
    c == '+' || c == '-'
}

/// No sign stands before position `upto`.
pub open spec fn no_sign_before(text: Seq<char>, upto: int) -> bool {
    forall|i: int| 0 <= i < upto ==> !is_sign(#[trigger] text[i])
}

/// Where the first sign of the text stands, or its length if it has none.
pub open spec fn sign_position(text: Seq<char>) -> int {
    choose|at: int|
        0 <= at <= text.len() && no_sign_before(text, at) && (at < text.len() ==> is_sign(
            text[at],
        ))
}

/// No character that is no digit stands before position `upto`.
pub open spec fn digits_before(text: Seq<char>, upto: int) -> bool {
    forall|i: int| 0 <= i < upto ==> (#[trigger] digit_value(text[i])) is Some
}

/// How many digits the text begins with.
pub open spec fn leading_digits(text: Seq<char>) -> int {
    choose|at: int|
        0 <= at <= text.len() && digits_before(text, at) && (at < text.len() ==> digit_value(
            text[at],
        ) is None)
}

/// The number that a text without a sign stands for, read as an `i64` is
/// read from left to right: a number that has grown too large is reported
/// where it happens, before any later character is looked at.
pub open spec fn unsigned_i64(text: Seq<char>) -> Result<i64, XeroDateError> {
    let digits = text.take(leading_digits(text));
    if text.len() == 0 {
        Err(XeroDateError::Empty)
    } else if digits_value(digits) > i64::MAX {
        Err(XeroDateError::TooLarge)
    } else if digits.len() < text.len() {
        Err(XeroDateError::InvalidDigit)
    } else {
        Ok(digits_value(digits) as i64)
    }
}

/// The part of a date in which the milliseconds stand: what is left when
/// the opening and the closing have been taken off, up to the first sign.
pub open spec fn millis_text(text: Seq<char>) -> Seq<char> {
    let inner = trim_end(trim_start(text, date_open()), date_close());
    inner.take(sign_position(inner))
}

/// The milliseconds since the Unix epoch that a date of the API stands for.
pub open spec fn parsed_millis(text: Seq<char>) -> Result<i64, XeroDateError> {
    match unsigned_i64(millis_text(text)) {
        Ok(millis) => if chrono_has_millis(millis) {
            Ok(millis)
        } else {
            Err(XeroDateError::OutOfRange)
        },
        Err(e) => Err(e),
    }
}

/// An instant as the API writes it.
pub open spec fn formatted_millis(millis: i64) -> Seq<char> {
    date_open() + decimal(millis as int) + date_close()
}

/// The position of the first sign is the one position with no sign before
/// it and a sign, or the end of the text, at it.
pub proof fn lemma_sign_position(text: Seq<char>, at: int)
    requires
        0 <= at <= text.len(),
        no_sign_before(text, at),
        at < text.len() ==> is_sign(text[at]),
    ensures
        sign_position(text) == at,
{
    let found = sign_position(text);
    if found < at {
        assert(!is_sign(text[found]));
    } else if at < found {
        assert(!is_sign(text[at]));
    }
}

/// The count of leading digits is the one position with only digits before
/// it and something else, or the end of the text, at it.
pub proof fn lemma_leading_digits(text: Seq<char>, at: int)
    requires
        0 <= at <= text.len(),
        digits_before(text, at),
        at < text.len() ==> digit_value(text[at]) is None,
    ensures
        leading_digits(text) == at,
{
    let found = leading_digits(text);
    if found < at {
        assert(digit_value(text[found]) is Some);
    } else if at < found {
        assert(digit_value(text[at]) is Some);
    }
}

/// Where only digits stand before `from`, the leading digits reach at least
/// that far, and end where the text ends or something else stands.
pub proof fn lemma_leading_digits_reach(text: Seq<char>, from: int)
    requires
        0 <= from <= text.len(),
        digits_before(text, from),
    ensures
        from <= leading_digits(text) <= text.len(),
        digits_before(text, leading_digits(text)),
        leading_digits(text) < text.len() ==> digit_value(text[leading_digits(text)]) is None,
    decreases text.len() - from,
{
    if from < text.len() && digit_value(text[from]) is Some {
        lemma_leading_digits_reach(text, from + 1);
    } else {
        lemma_leading_digits(text, from);
    }
}

/// A longer run of digits stands for a number that is at least as large.
pub proof fn lemma_digits_value_grows(text: Seq<char>, shorter: int, longer: int)
    requires
        0 <= shorter <= longer <= text.len(),
    ensures
        digits_value(text.take(shorter)) <= digits_value(text.take(longer)),
    decreases longer - shorter,
{
    if shorter < longer {
        lemma_digits_value_grows(text, shorter, longer - 1);
        assert(text.take(longer).drop_last() =~= text.take(longer - 1));
    }
}

impl XeroDateError {
    /// What the error says.
    pub open spec fn spec_message(self) -> Seq<char> {
        match self {
            XeroDateError::Empty => "Invalid timestamp: cannot parse integer from empty string"@,
            XeroDateError::InvalidDigit => "Invalid timestamp: invalid digit found in string"@,
            XeroDateError::TooLarge => "Invalid timestamp: number too large to fit in target type"@,
            XeroDateError::OutOfRange => "Invalid timestamp value"@,
        }
    }

    /// What the error says.
    pub fn message(&self) -> (text: String)
        ensures
            text@ == self.spec_message(),
    {
        match self {
            XeroDateError::Empty => String::from_str(
                "Invalid timestamp: cannot parse integer from empty string",
            ),
            XeroDateError::InvalidDigit => String::from_str(
                "Invalid timestamp: invalid digit found in string",
            ),
            XeroDateError::TooLarge => String::from_str(
                "Invalid timestamp: number too large to fit in target type",
            ),
            XeroDateError::OutOfRange => String::from_str("Invalid timestamp value"),
        }
    }
}

/// Reads a text without a sign as an `i64`.
pub fn parse_unsigned(chars: &Vec<char>, len: usize) -> (number: Result<i64, XeroDateError>)
    requires
        len <= chars.len(),
    ensures
        number == unsigned_i64(chars@.take(len as int)),
{
    let ghost text = chars@.take(len as int);
    if len == 0 {
        return Err(XeroDateError::Empty);
    }
    let mut value: u64 = 0;
    let mut i: usize = 0;
    while i < len
        invariant
            0 < len <= chars.len(),
            i <= len,
            text == chars@.take(len as int),
            digits_before(text, i as int),
            value == digits_value(text.take(i as int)),
            value <= i64::MAX,
        decreases len - i,
    {
        proof {
            assert(text[i as int] == chars@[i as int]);
            assert(text.take(i as int + 1).drop_last() =~= text.take(i as int));
            assert(text.take(i as int + 1).last() == text[i as int]);
        }
        match digit_of(chars[i]) {
            None => {
                proof {
                    lemma_leading_digits(text, i as int);
                }
                return Err(XeroDateError::InvalidDigit);
            },
            Some(d) => {
                if value > 922337203685477580 || value * 10 + d as u64 > 9223372036854775807 {
                    proof {
                        // Whatever follows, the digits up to here are too many.
                        let all = leading_digits(text);
                        assert(digits_before(text, i as int + 1));
                        lemma_leading_digits_reach(text, i as int + 1);
                        lemma_digits_value_grows(text, i as int + 1, all);
                    }
                    return Err(XeroDateError::TooLarge);
                }
                value = value * 10 + d as u64;
            },
        }
        i += 1;
    }
    proof {
        lemma_leading_digits(text, len as int);
        assert(text.take(len as int) =~= text);
    }
    Ok(value as i64)
}

/// The milliseconds since the Unix epoch that a date of the API stands for.
///
/// Every `/Date(` at the start and every `)/` at the end is taken off, and
/// what stands before the first `+` or `-` is read as a number. A date before
/// the epoch has its minus sign first and so leaves nothing to read.
pub fn parse_xero_date(s: &str) -> (millis: Result<i64, XeroDateError>)
    ensures
        millis == parsed_millis(s@),
{
    let chars = chars_of(s);
    let open = chars_of("/Date(");
    let close = chars_of(")/");
    proof {
        reveal_strlit("/Date(");
        reveal_strlit(")/");
    }
    let mut start: usize = 0;
    proof {
        assert(chars@.skip(0) =~= chars@);
    }
    while has_at(&chars, &open, start)
        invariant
            start <= chars.len(),
            open@ == date_open(),
            open@.len() == 6,
            trim_start(chars@, open@) == trim_start(chars@.skip(start as int), open@),
        decreases chars.len() - start,
    {
        proof {
            let rest = chars@.skip(start as int);
            assert(rest.subrange(0, 6) =~= chars@.subrange(start as int, start + 6));
            assert(rest.skip(6) =~= chars@.skip(start + 6));
        }
        start += 6;
    }
    proof {
        let rest = chars@.skip(start as int);
        if start + 6 <= chars.len() {
            assert(rest.subrange(0, 6) =~= chars@.subrange(start as int, start + 6));
        }
    }
    let ghost trimmed = chars@.skip(start as int);
    let mut end: usize = chars.len();
    while end - start >= 2 && has_at(&chars, &close, end - 2)
        invariant
            start <= end <= chars.len(),
            close@ == date_close(),
            close@.len() == 2,
            trimmed == chars@.skip(start as int),
            trim_end(trimmed, close@) == trim_end(chars@.subrange(start as int, end as int), close@),
        decreases end - start,
    {
        proof {
            let rest = chars@.subrange(start as int, end as int);
            assert(rest.subrange(rest.len() - 2, rest.len() as int) =~= chars@.subrange(
                end - 2,
                end as int,
            ));
            assert(rest.take(rest.len() - 2) =~= chars@.subrange(start as int, end - 2));
        }
        end -= 2;
    }
    let ghost inner = chars@.subrange(start as int, end as int);
    proof {
        assert(trimmed =~= chars@.subrange(start as int, chars.len() as int));
        if inner.len() >= 2 {
            assert(inner.subrange(inner.len() - 2, inner.len() as int) =~= chars@.subrange(
                end - 2,
                end as int,
            ));
        }
        assert(trim_end(inner, close@) == inner);
    }
    let mut stop: usize = start;
    while stop < end && chars[stop] != '+' && chars[stop] != '-'
        invariant
            start <= stop <= end <= chars.len(),
            inner == chars@.subrange(start as int, end as int),
            no_sign_before(inner, stop - start),
        decreases end - stop,
    {
        proof {
            assert(inner[stop - start] == chars@[stop as int]);
        }
        stop += 1;
    }
    proof {
        if stop < end {
            assert(inner[stop - start] == chars@[stop as int]);
        }
        lemma_sign_position(inner, stop - start);
    }
    let mut digits: Vec<char> = Vec::new();
    let mut i: usize = start;
    while i < stop
        invariant
            start <= i <= stop <= end <= chars.len(),
            inner == chars@.subrange(start as int, end as int),
            digits@ == inner.take(i - start),
        decreases stop - i,
    {
        digits.push(chars[i]);
        proof {
            assert(inner.take(i - start + 1) =~= inner.take(i - start).push(chars@[i as int]));
        }
        i += 1;
    }
    proof {
        assert(digits@.take(digits.len() as int) =~= digits@);
    }
    match parse_unsigned(&digits, digits.len()) {
        Ok(millis) => {
            if has_instant(millis) {
                Ok(millis)
            } else {
                Err(XeroDateError::OutOfRange)
            }
        },
        Err(e) => Err(e),
    }
}

/// An instant as the API writes it: `/Date(`, the milliseconds since the
/// Unix epoch, and `)/`.
pub fn format_xero_date(millis: i64) -> (text: String)
    ensures
        text@ == formatted_millis(millis),
{
    let mut text = String::from_str("/Date(");
    let number = signed_decimal_string(millis);
    text.append(number.as_str());
    text.append(")/");
    proof {
        assert(text@ =~= formatted_millis(millis));
    }
    text
}

/// A date that was written reads back: for every instant from the epoch on
/// that `chrono` has, reading what [`format_xero_date`] writes gives the
/// same milliseconds. (An instant before the epoch is written with a minus
/// sign, which reading takes for the start of an offset.)
pub proof fn law_written_date_reads_back(millis: i64)
    requires
        millis >= 0,
        chrono_has_millis(millis),
    ensures
        parsed_millis(formatted_millis(millis)) == Ok::<i64, XeroDateError>(millis),
{
    reveal_strlit("/Date(");
    reveal_strlit(")/");
    let open = date_open();
    let close = date_close();
    let digits = decimal_digits(millis as nat);
    lemma_decimal_digits_are_digits(millis as nat);
    let text = formatted_millis(millis);
    let rest = digits + close;
    assert(digit_value('/') is None);
    assert(digit_value(digits[0]) is Some);
    assert(digit_value(digits[digits.len() - 1]) is Some);

    assert(text.subrange(0, 6) =~= open);
    assert(text.skip(6) =~= rest);
    assert(!occurs_at(rest, open, 0)) by {
        if occurs_at(rest, open, 0) {
            assert(rest.subrange(0, 6)[0] == rest[0]);
            assert(rest[0] == digits[0]);
        }
    }
    assert(trim_start(text, open) == rest) by {
        reveal_with_fuel(trim_start, 3);
    }

    assert(rest.subrange(rest.len() - 2, rest.len() as int) =~= close);
    assert(rest.take(rest.len() - 2) =~= digits);
    assert(!occurs_at(digits, close, digits.len() - 2)) by {
        if occurs_at(digits, close, digits.len() - 2) {
            assert(digits.subrange(digits.len() - 2, digits.len() as int)[1] == digits[
                digits.len() - 1
            ]);
        }
    }
    assert(trim_end(rest, close) == digits) by {
        reveal_with_fuel(trim_end, 3);
    }

    assert forall|i: int| 0 <= i < digits.len() implies !is_sign(#[trigger] digits[i]) by {
        assert(digit_value(digits[i]) is Some);
    }
    lemma_sign_position(digits, digits.len() as int);
    assert(digits.take(digits.len() as int) =~= digits);
    lemma_leading_digits(digits, digits.len() as int);
}

} // verus!
