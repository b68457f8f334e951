//! The time of day as text.

use std::fmt::Write;
use vstd::prelude::*;

verus! {

/// The format in which a time is written where none is asked for: day,
/// month and year, a quoted `T`, and the time of day.
pub open spec fn default_time_format() -> Seq<char> {
    "%d/%m/%Y'T'%T"@
}

/// The format that a request for a time amounts to.
pub open spec fn format_of(format: Option<&str>) -> Seq<char> {
    match format {
        Some(wanted) => wanted@,
        None => default_time_format(),
    }
}

/// The format to write a time in: the one asked for, or the default one.
pub fn time_format<'a>(format: Option<&'a str>) -> (chosen: &'a str)
    ensures
        chosen@ == format_of(format),
{
    match format {
        Some(wanted) => wanted,
        None => "%d/%m/%Y'T'%T",
    }
}

/// The instant that lies `secs` seconds and `nanos` nanoseconds after the
/// start of 1970, in universal time, written in `format`; `None` where the
/// instant is out of range or the format holds an item that has no meaning.
pub uninterp spec fn formatted_time(secs: int, nanos: int, format: Seq<char>) -> Option<Seq<char>>;

/// An instant as text, from `chrono::DateTime::from_timestamp` and
/// `chrono::DateTime::format`. The result is the one that the name
/// `formatted_time` stands for; where chrono gives no instant or its
/// formatter reports an error, there is none.
#[verifier::external_body]
fn format_timestamp(secs: i64, nanos: u32, format: &str) -> (text: Option<String>)
    ensures
        match text {
            Some(t) => formatted_time(secs as int, nanos as int, format@) == Some(t@),
            None => formatted_time(secs as int, nanos as int, format@) is None,
        },
{
    let time = chrono::DateTime::<chrono::Utc>::from_timestamp(secs, nanos)?;
    let mut text = String::new();
    match write!(text, "{}", time.format(format)) {
        Ok(()) => Some(text),
        Err(_) => None,
    }
}

/// The current instant, from `std::time::SystemTime::now`, turned by
/// chrono's `DateTime::<Utc>::from` into seconds and nanoseconds since the
/// start of 1970 in universal time. Nothing is known of it beforehand.
/// chrono panics where the clock shows an instant beyond the years that it
/// can hold.
#[verifier::external_body]
fn now() -> (instant: (i64, u32)) {
    let time: chrono::DateTime<chrono::Utc> = std::time::SystemTime::now().into();
    (time.timestamp(), time.timestamp_subsec_nanos())
}

/// An instant, given in seconds and nanoseconds since the start of 1970 in
/// universal time, as text in the format asked for or in the default one.
pub fn format_time_at(secs: i64, nanos: u32, format: Option<&str>) -> (text: Option<String>)
    ensures
        match text {
            Some(t) => formatted_time(secs as int, nanos as int, format_of(format)) == Some(t@),
            None => formatted_time(secs as int, nanos as int, format_of(format)) is None,
        },
{
    format_timestamp(secs, nanos, time_format(format))
}

/// The current time as text in the format asked for or in the default one;
/// `None` where the format holds an item that has no meaning.
pub fn get_format_time(format: Option<&str>) -> (text: Option<String>)
    ensures
        exists|secs: i64, nanos: u32|
            match text {
                Some(t) => #[trigger] formatted_time(secs as int, nanos as int, format_of(format))
                    == Some(t@),
                None => formatted_time(secs as int, nanos as int, format_of(format)) is None,
            },
{
    let (secs, nanos) = now();
    let text = format_time_at(secs, nanos, format);
    assert(match text {
        Some(t) => formatted_time(secs as int, nanos as int, format_of(format)) == Some(t@),
        None => formatted_time(secs as int, nanos as int, format_of(format)) is None,
    });
    text
}

} // verus!
