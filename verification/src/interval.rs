//! The bucketing granularity for time-series results.

use vstd::prelude::*;

verus! {

/// The granularity at which the API buckets a time-series result. It
/// serializes as its lowercase name.
#[derive(Debug, Clone, Copy, PartialEq, Eq, Structural)]
pub enum Interval {
    Minutely,
    Hourly,
    Daily,
    Weekly,
    Monthly,
    Yearly,
}

/// The lowercase name under which `i` appears in a query string.
pub open spec fn interval_rep(i: Interval) -> Seq<char> {
    match i {
        Interval::Minutely => "minutely"@,
        Interval::Hourly => "hourly"@,
        Interval::Daily => "daily"@,
        Interval::Weekly => "weekly"@,
        Interval::Monthly => "monthly"@,
        Interval::Yearly => "yearly"@,
    }
}

impl Interval {
    /// Render the interval as its lowercase name.
    pub fn render(&self) -> (r: String)
        ensures
            r@ == interval_rep(*self),
    {
        match self {
            Interval::Minutely => "minutely".to_owned(),
            Interval::Hourly => "hourly".to_owned(),
            Interval::Daily => "daily".to_owned(),
            Interval::Weekly => "weekly".to_owned(),
            Interval::Monthly => "monthly".to_owned(),
            Interval::Yearly => "yearly".to_owned(),
        }
    }
}

} // verus!
