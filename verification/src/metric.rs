//! The aggregation operation a query asks for, and its URL path segment.

use vstd::prelude::*;

verus! {

/// The aggregation operation to run over the event collection. Each variant
/// names the property it aggregates where the API asks for one; the
/// percentile level of [`Metric::Percentile`] is given as the decimal
/// literal to embed in the URL (for example `"99.5"`).
#[derive(Debug, Clone)]
pub enum Metric {
    Sum(String),
    Count,
    CountUnique(String),
    Minimum(String),
    Maximum(String),
    Average(String),
    SelectUnique(String),
    Extraction,
    Percentile(String, String),
    Median(String),
}

/// The mathematical value of a [`Metric`]: the same variants over character
/// sequences.
pub enum MetricV {
    Sum(Seq<char>),
    Count,
    CountUnique(Seq<char>),
    Minimum(Seq<char>),
    Maximum(Seq<char>),
    Average(Seq<char>),
    SelectUnique(Seq<char>),
    Extraction,
    Percentile(Seq<char>, Seq<char>),
    Median(Seq<char>),
}

impl View for Metric {
    type V = MetricV;

    open spec fn view(&self) -> MetricV {
        match self {
            Metric::Sum(s) => MetricV::Sum(s@),
            Metric::Count => MetricV::Count,
            Metric::CountUnique(s) => MetricV::CountUnique(s@),
            Metric::Minimum(s) => MetricV::Minimum(s@),
            Metric::Maximum(s) => MetricV::Maximum(s@),
            Metric::Average(s) => MetricV::Average(s@),
            Metric::SelectUnique(s) => MetricV::SelectUnique(s@),
            Metric::Extraction => MetricV::Extraction,
            Metric::Percentile(s, p) => MetricV::Percentile(s@, p@),
            Metric::Median(s) => MetricV::Median(s@),
        }
    }
}

/// The URL segment for a metric: the endpoint name, the `?`, and the
/// metric's own parameters, each terminated by `&` so that the serializer
/// can attach the next parameter directly. `Extraction` ends bare, exactly
/// as the API's extraction endpoint is addressed.
pub open spec fn metric_rep(m: MetricV) -> Seq<char> {
    match m {
        MetricV::Sum(s) => "sum?target_property="@ + s + "&"@,
        MetricV::Count => "count?"@,
        MetricV::CountUnique(s) => "count_unique?target_property="@ + s + "&"@,
        MetricV::Minimum(s) => "minimum?target_property="@ + s + "&"@,
        MetricV::Maximum(s) => "maximum?target_property="@ + s + "&"@,
        MetricV::Average(s) => "average?target_property="@ + s + "&"@,
        MetricV::SelectUnique(s) => "select_unique?target_property="@ + s + "&"@,
        MetricV::Extraction => "extraction"@,
        MetricV::Percentile(s, p) => "percentile?target_property="@ + s + "&percentile="@ + p
            + "&"@,
        MetricV::Median(s) => "median?target_property="@ + s + "&"@,
    }
}

impl Metric {
    /// Render the metric's URL segment.
    pub fn render(&self) -> (r: String)
        ensures
            r@ == metric_rep(self@),
    {
        match self {
            Metric::Sum(s) => {
                let mut r = "sum?target_property=".to_owned();
                r.append(s.as_str());
                r.append("&");
                r
            },
            Metric::Count => "count?".to_owned(),
            Metric::CountUnique(s) => {
                let mut r = "count_unique?target_property=".to_owned();
                r.append(s.as_str());
                r.append("&");
                r
            },
            Metric::Minimum(s) => {
                let mut r = "minimum?target_property=".to_owned();
                r.append(s.as_str());
                r.append("&");
                r
            },
            Metric::Maximum(s) => {
                let mut r = "maximum?target_property=".to_owned();
                r.append(s.as_str());
                r.append("&");
                r
            },
            Metric::Average(s) => {
                let mut r = "average?target_property=".to_owned();
                r.append(s.as_str());
                r.append("&");
                r
            },
            Metric::SelectUnique(s) => {
                let mut r = "select_unique?target_property=".to_owned();
                r.append(s.as_str());
                r.append("&");
                r
            },
            Metric::Extraction => "extraction".to_owned(),
            Metric::Percentile(s, p) => {
                let mut r = "percentile?target_property=".to_owned();
                r.append(s.as_str());
                r.append("&percentile=");
                r.append(p.as_str());
                r.append("&");
                r
            },
            Metric::Median(s) => {
                let mut r = "median?target_property=".to_owned();
                r.append(s.as_str());
                r.append("&");
                r
            },
        }
    }
}

} // verus!
