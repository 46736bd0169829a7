//! The read API's decisions: which lookup a request asks for, and the status
//! that answers it.
//!
//! A request names a signature, a UTC calendar day, or neither. A signature
//! wins over a day. A day stands for the closed range of timestamps from its
//! first second to its last. A request that names neither finds nothing.

use chrono::NaiveDate;
use vstd::prelude::*;

verus! {

/// A day of the calendar, as a request names it.
#[derive(Clone, Copy, Debug, PartialEq, Eq, Structural)]
pub struct Day {
    pub year: i32,
    pub month: u32,
    pub day: u32,
}

/// The seconds from the epoch to 00:00:00 UTC of a calendar day, or `None`
/// where the calendar has no such day.
pub uninterp spec fn midnight_seconds(year: i32, month: u32, day: u32) -> Option<i64>;

/// The times of a day: hours up to 23, minutes and seconds up to 59.
pub open spec fn is_time(hour: u32, minute: u32, second: u32) -> bool {
    hour < 24 && minute < 60 && second < 60
}

/// The UTC timestamp of a time of a calendar day, by `chrono`:
/// `NaiveDate::from_ymd_opt`, then `NaiveDate::and_hms_opt`,
/// `NaiveDateTime::and_utc` and `DateTime::timestamp`.
///
/// Trusted: `from_ymd_opt` gives no date exactly where `midnight_seconds`
/// names none; `and_hms_opt` gives no time exactly where the hour is past 23
/// or the minute or second past 59; and `timestamp` counts the seconds from
/// the epoch, which is the day's midnight plus the seconds since midnight.
#[verifier::external_body]
fn utc_timestamp(
    year: i32,
    month: u32,
    day: u32,
    hour: u32,
    minute: u32,
    second: u32,
) -> (seconds: Option<i64>)
    ensures
        (seconds is Some) == (midnight_seconds(year, month, day) is Some && is_time(hour, minute, second)),
        seconds matches Some(t) ==> t == midnight_seconds(year, month, day)->0 + 3600 * hour + 60
            * minute + second,
{
    match NaiveDate::from_ymd_opt(year, month, day) {
        Some(date) => match date.and_hms_opt(hour, minute, second) {
            Some(time) => Some(time.and_utc().timestamp()),
            None => None,
        },
        None => None,
    }
}

/// The lookup that a request asks of the store.
#[derive(Clone, Debug)]
pub enum Lookup {
    /// The records with this signature.
    BySignature(String),
    /// The records whose timestamp lies in `start..=end`.
    ByTimeRange { start: i64, end: i64 },
}

/// A lookup as a plain value.
pub enum LookupView {
    BySignature(Seq<char>),
    ByTimeRange { start: i64, end: i64 },
}

impl View for Lookup {
    type V = LookupView;

    open spec fn view(&self) -> LookupView {
        match self {
            Lookup::BySignature(signature) => LookupView::BySignature(signature@),
            Lookup::ByTimeRange { start, end } => LookupView::ByTimeRange {
                start: *start,
                end: *end,
            },
        }
    }
}

/// The status of a response.
#[derive(Clone, Copy, Debug, PartialEq, Eq, Structural)]
pub enum Status {
    /// 200: the lookup was answered.
    Success,
    /// 400: the request names a day that the calendar does not have.
    BadRequest,
    /// 404: the request names neither a signature nor a day.
    NotFound,
    /// 500: the store failed.
    InternalServerError,
}

impl Status {
    /// The status as a number.
    pub open spec fn number(self) -> u16 {
        match self {
            Status::Success => 200,
            Status::BadRequest => 400,
            Status::NotFound => 404,
            Status::InternalServerError => 500,
        }
    }

    /// The status as a number.
    pub fn code(&self) -> (code: u16)
        ensures
            code == self.number(),
    {
        match self {
            Status::Success => 200,
            Status::BadRequest => 400,
            Status::NotFound => 404,
            Status::InternalServerError => 500,
        }
    }
}

/// The timestamps of a day: from its midnight to its last second, 86399
/// seconds later. `None` where the calendar has no such day.
pub open spec fn day_span(day: Day) -> Option<(i64, i64)> {
    match midnight_seconds(day.year, day.month, day.day) {
        Some(start) => Some((start, (start + 86399) as i64)),
        None => None,
    }
}

/// What a request asks for, given the span of the day it names (`None` where
/// it names no day, `Some(None)` where the calendar has no such day).
pub open spec fn selected(id: Option<Seq<char>>, span: Option<Option<(i64, i64)>>) -> Result<
    LookupView,
    Status,
> {
    match (id, span) {
        (Some(signature), _) => Ok(LookupView::BySignature(signature)),
        (None, Some(Some((start, end)))) => Ok(LookupView::ByTimeRange { start, end }),
        (None, Some(None)) => Err(Status::BadRequest),
        (None, None) => Err(Status::NotFound),
    }
}

/// The view of a request's result.
pub open spec fn lookup_view(result: Result<Lookup, Status>) -> Result<LookupView, Status> {
    match result {
        Ok(lookup) => Ok(lookup@),
        Err(status) => Err(status),
    }
}

/// The first and the last second of a UTC calendar day.
pub fn day_range(day: Day) -> (range: Option<(i64, i64)>)
    ensures
        range == day_span(day),
        range matches Some((start, end)) ==> end == start + 86399,
{
    match utc_timestamp(day.year, day.month, day.day, 0, 0, 0) {
        Some(start) => match utc_timestamp(day.year, day.month, day.day, 23, 59, 59) {
            Some(end) => Some((start, end)),
            None => None,
        },
        None => None,
    }
}

/// Decides what a request asks for from the signature it names and the span
/// of the day it names.
pub fn select(id: Option<String>, span: Option<Option<(i64, i64)>>) -> (result: Result<
    Lookup,
    Status,
>)
    ensures
        lookup_view(result) == selected(
            match id {
                Some(signature) => Some(signature@),
                None => None,
            },
            span,
        ),
{
    match id {
        Some(signature) => Ok(Lookup::BySignature(signature)),
        None => match span {
            Some(Some((start, end))) => Ok(Lookup::ByTimeRange { start, end }),
            Some(None) => Err(Status::BadRequest),
            None => Err(Status::NotFound),
        },
    }
}

/// Decides what a request asks for: the records of a signature where it names
/// one; else the records of a day where it names one; else nothing is found.
pub fn handle(id: Option<String>, day: Option<Day>) -> (result: Result<Lookup, Status>)
    ensures
        lookup_view(result) == selected(
            match id {
                Some(signature) => Some(signature@),
                None => None,
            },
            match day {
                Some(d) => Some(day_span(d)),
                None => None,
            },
        ),
{
    match id {
        Some(signature) => select(Some(signature), None),
        None => match day {
            Some(d) => select(None, Some(day_range(d))),
            None => select(None, None),
        },
    }
}

/// The status that answers a request: that of the refusal where the request
/// was refused; 200 where the store answered the lookup; 500 where it failed.
pub fn respond(request: &Result<Lookup, Status>, store_answered: bool) -> (status: Status)
    ensures
        status == match *request {
            Err(refusal) => refusal,
            Ok(_) => if store_answered {
                Status::Success
            } else {
                Status::InternalServerError
            },
        },
{
    match request {
        Err(refusal) => *refusal,
        Ok(_) => if store_answered {
            Status::Success
        } else {
            Status::InternalServerError
        },
    }
}

} // verus!
