use vstd::prelude::*;

verus! {

/// A count of seconds since the Unix epoch as the `i64` that `secs as i64` gives.
pub open spec fn as_signed(secs: u64) -> int {
    if secs <= i64::MAX {
        secs as int
    } else {
        secs - 0x1_0000_0000_0000_0000
    }
}

/// The moments that `chrono::DateTime::from_timestamp` can represent: from the first second of
/// the year -262143 to the last second of the year 262142, counted in seconds from the Unix
/// epoch and read as an `i64`.
pub open spec fn utc_in_range(secs: u64) -> bool {
    -8_334_601_228_800 <= as_signed(secs) <= 8_210_266_876_799
}

/// A conversion in a format pattern that a UTC moment always renders: year, month, day, hour,
/// minute or second.
pub open spec fn is_simple_conversion(c: char) -> bool {
    c == 'Y' || c == 'm' || c == 'd' || c == 'H' || c == 'M' || c == 'S'
}

/// From position `i` on, every `%` of the pattern is followed by a simple conversion.
pub open spec fn simple_pattern_from(p: Seq<char>, i: nat) -> bool
    decreases p.len() - i,
{
    if i >= p.len() {
        true
    } else if p[i as int] == '%' {
        i + 1 < p.len() && is_simple_conversion(p[i + 1int]) && simple_pattern_from(p, i + 2)
    } else {
        simple_pattern_from(p, i + 1)
    }
}

/// A format pattern made of plain text and the conversions `%Y %m %d %H %M %S` alone.
pub open spec fn simple_pattern(p: Seq<char>) -> bool {
    simple_pattern_from(p, 0)
}

/// What `chrono::DateTime::format` renders for the moment `secs` seconds after the Unix epoch
/// (read as an `i64`) under a format pattern.
pub uninterp spec fn utc_text(secs: u64, pattern: Seq<char>) -> Seq<char>;

/// Calls `chrono::DateTime::from_timestamp` and renders the moment with `DateTime::format` under
/// the given pattern; claims that it succeeds exactly on the moments in range and that the text
/// is a function of the seconds and the pattern. A pattern with an unknown conversion, or a `%`
/// at its end, makes the rendering panic, so the pattern is held to the simple conversions,
/// which a UTC moment always renders.
#[verifier::external_body]
pub(crate) fn format_utc(secs: u64, pattern: &str) -> (r: Option<String>)
    requires
        simple_pattern(pattern@),
    ensures
        r is Some <==> utc_in_range(secs),
        r matches Some(t) ==> t@ == utc_text(secs, pattern@),
{
    match chrono::DateTime::from_timestamp(secs as i64, 0) {
        Some(dt) => Some(dt.format(pattern).to_string()),
        None => None,
    }
}

/// Calls `chrono::DateTime::from_timestamp` and gives back the moment as seconds since the
/// epoch; claims that it succeeds exactly on the moments in range and then gives back the
/// seconds it was given (read as an `i64`), as `DateTime::timestamp` documents.
#[verifier::external_body]
pub(crate) fn utc_seconds(secs: u64) -> (r: Option<i64>)
    ensures
        r is Some <==> utc_in_range(secs),
        r matches Some(x) ==> x == secs as i64,
{
    match chrono::DateTime::from_timestamp(secs as i64, 0) {
        Some(dt) => Some(dt.timestamp()),
        None => None,
    }
}

/// What `chrono::DateTime::parse_from_rfc3339` gives for a text: the moment it denotes, as
/// seconds since the Unix epoch, or the `Display` text of its error.
pub uninterp spec fn rfc3339_parse(text: Seq<char>) -> Result<i64, Seq<char>>;

/// Calls `chrono::DateTime::parse_from_rfc3339` and gives back the moment as seconds since the
/// epoch (`DateTime::timestamp`, which does not depend on the offset) or the error's text;
/// claims the result is a function of the text.
#[verifier::external_body]
pub(crate) fn parse_rfc3339(text: &str) -> (r: Result<i64, String>)
    ensures
        match r {
            Ok(t) => rfc3339_parse(text@) == Ok::<i64, Seq<char>>(t),
            Err(e) => rfc3339_parse(text@) == Err::<i64, Seq<char>>(e@),
        },
{
    match chrono::DateTime::parse_from_rfc3339(text) {
        Ok(dt) => Ok(dt.timestamp()),
        Err(e) => Err(e.to_string()),
    }
}

} // verus!
