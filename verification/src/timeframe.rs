//! The time window a query covers: a relative token or an absolute pair.

use crate::timestamp::rfc3339_rep;
use crate::timestamp::UtcTime;
use vstd::prelude::*;

verus! {

/// The time window over which a metric is computed: either a relative
/// descriptor the API recognizes verbatim (such as `this_2_days`), or an
/// absolute window given by its start and end instants.
#[derive(Debug, Clone)]
pub enum TimeFrame {
    Relative(String),
    Absolute(UtcTime, UtcTime),
}

/// The mathematical value of a [`TimeFrame`].
pub enum TimeFrameV {
    Relative(Seq<char>),
    Absolute(UtcTime, UtcTime),
}

impl View for TimeFrame {
    type V = TimeFrameV;

    open spec fn view(&self) -> TimeFrameV {
        match self {
            TimeFrame::Relative(s) => TimeFrameV::Relative(s@),
            TimeFrame::Absolute(start, end) => TimeFrameV::Absolute(*start, *end),
        }
    }
}

/// How a timeframe appears in the query string: a relative descriptor
/// verbatim and unquoted; an absolute window as a JSON object holding the
/// two instants in RFC 3339 form.
pub open spec fn timeframe_rep(t: TimeFrameV) -> Seq<char> {
    match t {
        TimeFrameV::Relative(s) => s,
        TimeFrameV::Absolute(start, end) => "{\"start\":\""@ + rfc3339_rep(start) + "\",\"end\":\""@
            + rfc3339_rep(end) + "\"}"@,
    }
}

impl TimeFrame {
    /// Render the timeframe's query-string value.
    pub fn render(&self) -> (r: String)
        ensures
            r@ == timeframe_rep(self@),
    {
        match self {
            TimeFrame::Relative(s) => s.as_str().to_owned(),
            TimeFrame::Absolute(start, end) => {
                let mut r = "{\"start\":\"".to_owned();
                let start_str = start.to_rfc3339();
                r.append(start_str.as_str());
                r.append("\",\"end\":\"");
                let end_str = end.to_rfc3339();
                r.append(end_str.as_str());
                r.append("\"}");
                r
            },
        }
    }
}

} // verus!
