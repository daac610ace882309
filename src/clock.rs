//! Calls into chrono: validating, printing and parsing wall-clock times, and
//! reading the local time of day.
use chrono::Timelike;
use vstd::prelude::*;

verus! {

/// The two decimal digits of `n`, for `n < 100`.
pub open spec fn two_digits(n: u32) -> Seq<char> {
    let digits = seq!['0', '1', '2', '3', '4', '5', '6', '7', '8', '9'];
    seq![digits[(n / 10) as int], digits[(n % 10) as int]]
}

/// The text `HH:MM:SS` of a time of day, each field as two digits.
pub open spec fn hms_text(hour: u32, minute: u32, second: u32) -> Seq<char> {
    two_digits(hour) + seq![':'] + two_digits(minute) + seq![':'] + two_digits(second)
}

/// What chrono reads from `s` with the pattern `%H:%M:%S`: hour, minute,
/// second and nanosecond, or nothing where `s` does not match.
pub uninterp spec fn parsed_hms(s: Seq<char>) -> Option<(u32, u32, u32, u32)>;

/// Relies on chrono::NaiveTime::from_hms_opt, which accepts exactly the hours
/// below 24, minutes below 60 and seconds below 60.
#[verifier::external_body]
pub(crate) fn is_valid_hms(hour: u32, minute: u32, second: u32) -> (r: bool)
    ensures
        r == (hour < 24 && minute < 60 && second < 60),
{
    chrono::NaiveTime::from_hms_opt(hour, minute, second).is_some()
}

/// Relies on chrono::NaiveTime::format with the pattern `%H:%M:%S`, which
/// prints each field zero-padded to two digits.
#[verifier::external_body]
pub(crate) fn format_hms(hour: u32, minute: u32, second: u32) -> (r: String)
    requires
        hour < 24,
        minute < 60,
        second < 60,
    ensures
        r@ == hms_text(hour, minute, second),
{
    match chrono::NaiveTime::from_hms_opt(hour, minute, second) {
        Some(t) => t.format("%H:%M:%S").to_string(),
        None => String::new(),
    }
}

/// Relies on chrono::NaiveTime::parse_from_str with the pattern `%H:%M:%S`:
/// a time it returns is in range (a leap second shows as second 59 with a
/// nanosecond of at least one billion), and the text it prints for a time
/// reads back as that time.
#[verifier::external_body]
pub(crate) fn parse_hms(s: &str) -> (r: Option<(u32, u32, u32, u32)>)
    ensures
        r == parsed_hms(s@),
        r matches Some((h, m, sec, nano)) ==> h < 24 && m < 60 && sec < 60 && nano
            < 2_000_000_000,
        forall|h: u32, m: u32, sec: u32|
            h < 24 && m < 60 && sec < 60 && s@ == hms_text(h, m, sec) ==> r == Some(
                (h, m, sec, 0u32),
            ),
{
    match chrono::NaiveTime::parse_from_str(s, "%H:%M:%S") {
        Ok(t) => Some((t.hour(), t.minute(), t.second(), t.nanosecond())),
        Err(_) => None,
    }
}

/// Relies on chrono::Local::now and the hour and minute of its time of day;
/// the value depends on the moment and on the machine's time zone.
#[verifier::external_body]
pub(crate) fn local_hour_minute() -> (r: (u32, u32))
    ensures
        r.0 < 24,
        r.1 < 60,
{
    let t = chrono::Local::now().time();
    (t.hour(), t.minute())
}

} // verus!
