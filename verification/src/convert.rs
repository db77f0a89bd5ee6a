//! Conversions between text and values: integers, dates and case.
use vstd::prelude::*;
use chrono::TimeZone;

verus! {

/// Whether every character of `d` is a decimal digit.
pub open spec fn all_digits(d: Seq<char>) -> bool {
    forall|i: int| 0 <= i < d.len() ==> '0' <= #[trigger] d[i] && d[i] <= '9'
}

/// The number that a sequence of decimal digits denotes.
pub open spec fn digits_value(d: Seq<char>) -> int
    decreases d.len(),
{
    if d.len() == 0 {
        0
    } else {
        digits_value(d.drop_last()) * 10 + (d.last() as int - '0' as int)
    }
}

/// The `i8` that a text denotes as `str::parse::<i8>` reads it: an optional
/// `+` or `-` sign followed by at least one decimal digit and nothing else,
/// denoting a number from -128 to 127; `None` for any other text.
pub open spec fn parsed_i8(s: Seq<char>) -> Option<i8> {
    let neg = s.len() > 0 && s[0] == '-';
    let digits = if s.len() > 0 && (s[0] == '-' || s[0] == '+') { s.drop_first() } else { s };
    let v = if neg { -digits_value(digits) } else { digits_value(digits) };
    if digits.len() > 0 && all_digits(digits) && -128 <= v && v <= 127 {
        Some(v as i8)
    } else {
        None
    }
}

/// The message with which `str::parse::<i8>` refuses a text: the text of
/// its error (a function of the text alone).
pub uninterp spec fn i8_parse_error_text(s: Seq<char>) -> Seq<char>;

/// Calls `str::parse::<i8>`: the number the text denotes (an optional sign,
/// then decimal digits, in the range of `i8`), or, when it denotes none,
/// the text of the error, named by `i8_parse_error_text`.
#[verifier::external_body]
pub(crate) fn parse_i8(s: &str) -> (r: Result<i8, String>)
    ensures
        match parsed_i8(s@) {
            Some(v) => r == Ok::<i8, String>(v),
            None => r matches Err(m) && m@ == i8_parse_error_text(s@),
        },
{
    s.parse::<i8>().map_err(|e| e.to_string())
}

/// What `Utc.datetime_from_str` reads from the text in the given `chrono`
/// format: the UTC time (milliseconds since the epoch), or the text of its
/// error when the text does not match the format.
pub uninterp spec fn parsed_utc_millis(s: Seq<char>, fmt: Seq<char>) -> Result<i64, Seq<char>>;

/// Calls `chrono::Utc.datetime_from_str(s, fmt)`: the time it reads, in
/// milliseconds since the epoch, or the text of the error when the text
/// does not match the format. The result is named by `parsed_utc_millis`, a
/// function of the text and the format alone.
#[verifier::external_body]
pub(crate) fn parse_utc_millis(s: &str, fmt: &str) -> (r: Result<i64, String>)
    ensures
        match parsed_utc_millis(s@, fmt@) {
            Ok(t) => r == Ok::<i64, String>(t),
            Err(m) => r matches Err(e) && e@ == m,
        },
{
    #[allow(deprecated)]
    let parsed = chrono::Utc.datetime_from_str(s, fmt);
    parsed.map(|d| d.timestamp_millis()).map_err(|e| e.to_string())
}

/// The time (milliseconds since the epoch, read as UTC) that the text
/// denotes in the given `chrono` format, as `NaiveDateTime::parse_from_str`
/// reads it.
pub uninterp spec fn parsed_naive_millis(s: Seq<char>, fmt: Seq<char>) -> Option<i64>;

/// Calls `chrono::NaiveDateTime::parse_from_str(s, fmt)`: the time it reads,
/// in milliseconds since the epoch, or `None` when the text does not match
/// the format. The result is named by `parsed_naive_millis`, a function of
/// the text and the format alone.
#[verifier::external_body]
pub(crate) fn parse_naive_millis(s: &str, fmt: &str) -> (r: Option<i64>)
    ensures
        r == parsed_naive_millis(s@, fmt@),
{
    chrono::NaiveDateTime::parse_from_str(s, fmt).ok().map(|d| d.and_utc().timestamp_millis())
}

/// The text of a UTC time (milliseconds since the epoch) in the given
/// `chrono` format, or `None` when the time is out of range.
pub uninterp spec fn formatted_utc_millis(millis: i64, fmt: Seq<char>) -> Option<Seq<char>>;

/// Calls `chrono::DateTime::<Utc>::from_timestamp_millis(millis)` and formats
/// the time with `fmt`, the date format `%Y-%m-%d` (writing a malformed
/// format would panic). The result is named by `formatted_utc_millis`, a
/// function of the two arguments alone.
#[verifier::external_body]
pub(crate) fn format_utc_millis(millis: i64, fmt: &str) -> (r: Option<String>)
    requires
        fmt@ == "%Y-%m-%d"@,
    ensures
        match r {
            Some(t) => formatted_utc_millis(millis, fmt@) == Some(t@),
            None => formatted_utc_millis(millis, fmt@).is_none(),
        },
{
    chrono::DateTime::<chrono::Utc>::from_timestamp_millis(millis).map(|d| d.format(fmt).to_string())
}

/// The lower-case form of a text, as `str::to_lowercase` computes it.
pub uninterp spec fn lowercase_of(s: Seq<char>) -> Seq<char>;

/// Calls `str::to_lowercase`: the result is named by `lowercase_of`, a
/// function of the text alone.
#[verifier::external_body]
pub(crate) fn to_lowercase(s: &str) -> (r: String)
    ensures
        r@ == lowercase_of(s@),
{
    s.to_lowercase()
}

/// The decimal digits of a natural number.
pub open spec fn decimal(n: nat) -> Seq<char>
    decreases n,
{
    if n < 10 {
        seq![digit_char(n)]
    } else {
        decimal(n / 10).push(digit_char(n % 10))
    }
}

/// The character of a decimal digit.
pub open spec fn digit_char(d: nat) -> char {
    if d == 0 { '0' }
    else if d == 1 { '1' }
    else if d == 2 { '2' }
    else if d == 3 { '3' }
    else if d == 4 { '4' }
    else if d == 5 { '5' }
    else if d == 6 { '6' }
    else if d == 7 { '7' }
    else if d == 8 { '8' }
    else { '9' }
}

/// The character of the decimal digit `d`.
fn digit(d: u64) -> (c: char)
    requires
        d < 10,
    ensures
        c == digit_char(d as nat),
{
    if d == 0 { '0' }
    else if d == 1 { '1' }
    else if d == 2 { '2' }
    else if d == 3 { '3' }
    else if d == 4 { '4' }
    else if d == 5 { '5' }
    else if d == 6 { '6' }
    else if d == 7 { '7' }
    else if d == 8 { '8' }
    else { '9' }
}

/// The decimal text of `n` (as `n.to_string()` writes it).
pub fn decimal_string(n: u64) -> (r: String)
    ensures
        r@ == decimal(n as nat),
    decreases n,
{
    if n < 10 {
        let mut r = String::new();
        crate::text::push_char(&mut r, digit(n));
        proof {
            assert(r@ =~= seq![digit_char(n as nat)]);
        }
        r
    } else {
        let mut r = decimal_string(n / 10);
        crate::text::push_char(&mut r, digit(n % 10));
        r
    }
}

} // verus!
