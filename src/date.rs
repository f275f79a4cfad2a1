use vstd::prelude::*;
use chrono::Datelike;

verus! {

/// The operating day of a trip instance, as year, month and day.
#[derive(Clone, Copy, Debug, PartialEq, Eq, Structural, Hash)]
pub struct ServiceDate {
    pub year: i32,
    pub month: u32,
    pub day: u32,
}

impl ServiceDate {
    /// The date as a `(year, month, day)` triple.
    pub open spec fn ymd(self) -> (i32, u32, u32) {
        (self.year, self.month, self.day)
    }
}

/// The calendar date that a `YYYYMMDD` text denotes as `(year, month, day)`,
/// or `None` where chrono rejects the text.
pub uninterp spec fn compact_date_of(s: Seq<char>) -> Option<(i32, u32, u32)>;

/// Relies on chrono's `NaiveDate::parse_from_str` with the format `%Y%m%d`,
/// and on `Datelike` for the year, month and day of the parsed date.
#[verifier::external_body]
pub(crate) fn parse_compact_date(s: &str) -> (r: Option<ServiceDate>)
    ensures
        match r {
            Some(d) => compact_date_of(s@) == Some(d.ymd()),
            None => compact_date_of(s@) is None,
        },
{
    match chrono::NaiveDate::parse_from_str(s, "%Y%m%d") {
        Ok(d) => Some(ServiceDate { year: d.year(), month: d.month(), day: d.day() }),
        Err(_) => None,
    }
}

} // verus!
