//! The client (credentials and configuration) and the query builder, with
//! the serialization of a query into its request URL.

use crate::filter::filter_obj_rep;
use crate::filter::Filter;
use crate::filter::FilterV;
use crate::interval::interval_rep;
use crate::interval::Interval;
use crate::metric::metric_rep;
use crate::metric::Metric;
use crate::metric::MetricV;
use crate::render::comma_join;
use crate::render::dec_rep;
use crate::render::lemma_comma_join_step;
use crate::render::quote_string;
use crate::render::quoted;
use crate::render::u64_dec_string;
use crate::timeframe::timeframe_rep;
use crate::timeframe::TimeFrame;
use crate::timeframe::TimeFrameV;
use vstd::prelude::*;

verus! {

/// A keen.io client: the read key and the project identifier every query is
/// issued under, and an optional transport timeout in milliseconds for
/// whatever performs the GET. Credentials are not validated; empty strings
/// simply yield a malformed URL for the API to reject.
#[derive(Debug, Clone)]
pub struct KeenClient {
    key: String,
    project: String,
    timeout: Option<u64>,
}

/// The mathematical value of a [`KeenClient`].
pub struct ClientV {
    pub key: Seq<char>,
    pub project: Seq<char>,
    pub timeout: Option<u64>,
}

impl View for KeenClient {
    type V = ClientV;

    closed spec fn view(&self) -> ClientV {
        ClientV { key: self.key@, project: self.project@, timeout: self.timeout }
    }
}

impl KeenClient {
    /// Create a client from a read key and a project identifier.
    pub fn new(key: &str, project: &str) -> (c: KeenClient)
        ensures
            c@ == (ClientV { key: key@, project: project@, timeout: None }),
    {
        KeenClient { key: key.to_owned(), project: project.to_owned(), timeout: None }
    }

    /// Set the transport timeout, in milliseconds, for later requests.
    pub fn timeout(&mut self, millis: u64)
        ensures
            final(self)@ == (ClientV { timeout: Some(millis), ..old(self)@ }),
    {
        self.timeout = Some(millis);
    }

    /// The configured transport timeout in milliseconds, if any.
    pub fn timeout_millis(&self) -> (t: Option<u64>)
        ensures
            t == self@.timeout,
    {
        self.timeout
    }

    /// Start a query for a metric over an event collection and a timeframe,
    /// bound to this client's credentials: no group-by dimensions, no
    /// filters, no interval, no cache hint, no extra parameters.
    pub fn query(&self, m: Metric, c: String, timeframe: TimeFrame) -> (q: KeenQuery)
        ensures
            q@ == (QueryV {
                key: self@.key,
                project: self@.project,
                metric: m@,
                collection: c@,
                timeframe: timeframe@,
                group_by: Seq::empty(),
                filters: Seq::empty(),
                interval: None,
                max_age: None,
                others: Seq::empty(),
            }),
    {
        let q = KeenQuery {
            key: self.key.clone(),
            project: self.project.clone(),
            metric: m,
            collection: c,
            timeframe,
            group_by: Vec::new(),
            filters: Vec::new(),
            interval: None,
            max_age: None,
            others: Vec::new(),
        };
        proof {
            assert(q@.group_by =~= Seq::<Seq<char>>::empty());
            assert(q@.filters =~= Seq::<FilterV>::empty());
            assert(q@.others =~= Seq::<(Seq<char>, Seq<char>)>::empty());
        }
        q
    }
}

/// One query under construction: the metric, collection and timeframe it
/// was started with, the client credentials it was bound to, and whatever
/// group-by dimensions, filters, interval, cache hint and extra parameters
/// have been added since. Insertion order of the lists is preserved and
/// determines the serialized order.
#[derive(Debug, Clone)]
pub struct KeenQuery {
    key: String,
    project: String,
    metric: Metric,
    collection: String,
    timeframe: TimeFrame,
    group_by: Vec<String>,
    filters: Vec<Filter>,
    interval: Option<Interval>,
    max_age: Option<usize>,
    others: Vec<(String, String)>,
}

/// The mathematical value of a [`KeenQuery`].
pub struct QueryV {
    pub key: Seq<char>,
    pub project: Seq<char>,
    pub metric: MetricV,
    pub collection: Seq<char>,
    pub timeframe: TimeFrameV,
    pub group_by: Seq<Seq<char>>,
    pub filters: Seq<FilterV>,
    pub interval: Option<Interval>,
    pub max_age: Option<usize>,
    pub others: Seq<(Seq<char>, Seq<char>)>,
}

impl View for KeenQuery {
    type V = QueryV;

    closed spec fn view(&self) -> QueryV {
        QueryV {
            key: self.key@,
            project: self.project@,
            metric: self.metric@,
            collection: self.collection@,
            timeframe: self.timeframe@,
            group_by: self.group_by@.map_values(|g: String| g@),
            filters: self.filters@.map_values(|f: Filter| f@),
            interval: self.interval,
            max_age: self.max_age,
            others: self.others@.map_values(|p: (String, String)| (p.0@, p.1@)),
        }
    }
}

/// Each group-by dimension name wrapped in double quotes, in order.
pub open spec fn quoted_parts(gs: Seq<Seq<char>>) -> Seq<Seq<char>> {
    gs.map_values(|g: Seq<char>| quoted(g))
}

/// Each filter rendered as its JSON object, in order.
pub open spec fn filter_parts(fs: Seq<FilterV>) -> Seq<Seq<char>> {
    fs.map_values(|f: FilterV| filter_obj_rep(f))
}

/// The `group_by` parameter's value: a JSON array of the dimension names in
/// insertion order, each double-quoted; `[]` when no dimension was added.
pub open spec fn group_array_rep(gs: Seq<Seq<char>>) -> Seq<char> {
    "["@ + comma_join(quoted_parts(gs)) + "]"@
}

/// The `filters` parameter's value: a JSON array of the filter objects in
/// insertion order; `[]` when no filter was added.
pub open spec fn filter_array_rep(fs: Seq<FilterV>) -> Seq<char> {
    "["@ + comma_join(filter_parts(fs)) + "]"@
}

/// What the interval contributes to the URL: nothing when unset, else the
/// `&interval=` parameter with the lowercase name.
pub open spec fn interval_suffix_rep(i: Option<Interval>) -> Seq<char> {
    match i {
        None => Seq::empty(),
        Some(i) => "&interval="@ + interval_rep(i),
    }
}

/// What the cache hint contributes to the URL: nothing when unset, else the
/// `&max_age=` parameter with the age in seconds.
pub open spec fn max_age_suffix_rep(a: Option<usize>) -> Seq<char> {
    match a {
        None => Seq::empty(),
        Some(a) => "&max_age="@ + dec_rep(a as nat),
    }
}

/// What the extra parameters contribute to the URL: one `&key=value` pair
/// per entry, verbatim and unescaped, in insertion order.
pub open spec fn others_rep(ps: Seq<(Seq<char>, Seq<char>)>) -> Seq<char>
    decreases ps.len(),
{
    if ps.len() == 0 {
        Seq::empty()
    } else {
        others_rep(ps.drop_last()) + "&"@ + ps.last().0 + "="@ + ps.last().1
    }
}

/// The full request URL for a query: the fixed base, the project, the
/// metric's segment (which carries its own `?` and trailing `&`), then in
/// fixed order the API key, the event collection, the group-by array, the
/// hardcoded UTC timezone, the timeframe and the filter array, then the
/// optional interval and cache hint, then the extra parameters. No field is
/// percent-encoded anywhere.
pub open spec fn url_rep(q: QueryV) -> Seq<char> {
    "https://api.keen.io/3.0/projects/"@ + q.project + "/queries/"@ + metric_rep(q.metric)
        + "api_key="@ + q.key + "&event_collection="@ + q.collection + "&group_by="@
        + group_array_rep(q.group_by) + "&timezone=UTC&timeframe="@ + timeframe_rep(q.timeframe)
        + "&filters="@ + filter_array_rep(q.filters) + interval_suffix_rep(q.interval)
        + max_age_suffix_rep(q.max_age) + others_rep(q.others)
}

fn render_group_array(gs: &Vec<String>) -> (r: String)
    ensures
        r@ == group_array_rep(gs@.map_values(|g: String| g@)),
{
    let ghost parts = quoted_parts(gs@.map_values(|g: String| g@));
    let mut items = String::new();
    let mut k: usize = 0;
    while k < gs.len()
        invariant
            k <= gs.len(),
            parts == quoted_parts(gs@.map_values(|g: String| g@)),
            parts.len() == gs@.len(),
            items@ == comma_join(parts.take(k as int)),
        decreases gs.len() - k,
    {
        if k > 0 {
            items.append(",");
        }
        let piece = quote_string(gs[k].as_str());
        items.append(piece.as_str());
        proof {
            lemma_comma_join_step(parts, k as int);
            assert(parts[k as int] == quoted(gs@[k as int]@));
            if k == 0 {
                assert(Seq::<char>::empty() + parts[0] =~= parts[0]);
            }
        }
        k += 1;
    }
    let mut r = "[".to_owned();
    proof {
        assert(parts.take(parts.len() as int) =~= parts);
    }
    r.append(items.as_str());
    r.append("]");
    r
}

fn render_filter_array(fs: &Vec<Filter>) -> (r: String)
    ensures
        r@ == filter_array_rep(fs@.map_values(|f: Filter| f@)),
{
    let ghost parts = filter_parts(fs@.map_values(|f: Filter| f@));
    let mut items = String::new();
    let mut k: usize = 0;
    while k < fs.len()
        invariant
            k <= fs.len(),
            parts == filter_parts(fs@.map_values(|f: Filter| f@)),
            parts.len() == fs@.len(),
            items@ == comma_join(parts.take(k as int)),
        decreases fs.len() - k,
    {
        if k > 0 {
            items.append(",");
        }
        let piece = fs[k].render();
        items.append(piece.as_str());
        proof {
            lemma_comma_join_step(parts, k as int);
            assert(parts[k as int] == filter_obj_rep(fs@[k as int]@));
            if k == 0 {
                assert(Seq::<char>::empty() + parts[0] =~= parts[0]);
            }
        }
        k += 1;
    }
    let mut r = "[".to_owned();
    proof {
        assert(parts.take(parts.len() as int) =~= parts);
    }
    r.append(items.as_str());
    r.append("]");
    r
}

fn render_interval_suffix(i: &Option<Interval>) -> (r: String)
    ensures
        r@ == interval_suffix_rep(*i),
{
    match i {
        None => String::new(),
        Some(i) => {
            let mut r = "&interval=".to_owned();
            let name = i.render();
            r.append(name.as_str());
            r
        },
    }
}

fn render_max_age_suffix(a: &Option<usize>) -> (r: String)
    ensures
        r@ == max_age_suffix_rep(*a),
{
    match a {
        None => String::new(),
        Some(a) => {
            let mut r = "&max_age=".to_owned();
            let age = u64_dec_string(*a as u64);
            r.append(age.as_str());
            r
        },
    }
}

fn render_others(ps: &Vec<(String, String)>) -> (r: String)
    ensures
        r@ == others_rep(ps@.map_values(|p: (String, String)| (p.0@, p.1@))),
{
    let ghost pairs = ps@.map_values(|p: (String, String)| (p.0@, p.1@));
    let mut r = String::new();
    let mut k: usize = 0;
    while k < ps.len()
        invariant
            k <= ps.len(),
            pairs == ps@.map_values(|p: (String, String)| (p.0@, p.1@)),
            pairs.len() == ps@.len(),
            r@ == others_rep(pairs.take(k as int)),
        decreases ps.len() - k,
    {
        r.append("&");
        r.append(ps[k].0.as_str());
        r.append("=");
        r.append(ps[k].1.as_str());
        proof {
            let taken = pairs.take(k as int + 1);
            assert(taken.drop_last() =~= pairs.take(k as int));
            assert(taken.last() == pairs[k as int]);
            assert(pairs[k as int] == (ps@[k as int].0@, ps@[k as int].1@));
        }
        k += 1;
    }
    proof {
        assert(pairs.take(pairs.len() as int) =~= pairs);
    }
    r
}

impl KeenQuery {
    /// Append a group-by dimension; duplicates are allowed and kept.
    pub fn group_by(&mut self, g: &str)
        ensures
            final(self)@ == (QueryV { group_by: old(self)@.group_by.push(g@), ..old(self)@ }),
    {
        self.group_by.push(g.to_owned());
        proof {
            assert(self@.group_by =~= old(self)@.group_by.push(g@));
        }
    }

    /// Append a filter; order is preserved, and nothing is validated.
    pub fn filter(&mut self, f: Filter)
        ensures
            final(self)@ == (QueryV { filters: old(self)@.filters.push(f@), ..old(self)@ }),
    {
        let ghost fv = f@;
        self.filters.push(f);
        proof {
            assert(self@.filters =~= old(self)@.filters.push(fv));
        }
    }

    /// Set the result-bucketing interval, replacing any earlier one: only
    /// the last interval set appears in the URL.
    pub fn interval(&mut self, i: Interval)
        ensures
            final(self)@ == (QueryV { interval: Some(i), ..old(self)@ }),
    {
        self.interval = Some(i);
    }

    /// Set the cache hint in seconds, replacing any earlier one.
    pub fn max_age(&mut self, age: usize)
        ensures
            final(self)@ == (QueryV { max_age: Some(age), ..old(self)@ }),
    {
        self.max_age = Some(age);
    }

    /// Append an arbitrary extra query parameter, verbatim and unescaped;
    /// order is preserved and duplicates are allowed.
    pub fn other(&mut self, key: &str, value: &str)
        ensures
            final(self)@ == (QueryV { others: old(self)@.others.push((key@, value@)), ..old(
                self,
            )@ }),
    {
        self.others.push((key.to_owned(), value.to_owned()));
        proof {
            assert(self@.others =~= old(self)@.others.push((key@, value@)));
        }
    }

    /// Serialize the query into its request URL. The result is a pure
    /// function of the query's state: an unmodified query always renders
    /// the identical string.
    pub fn url(&self) -> (r: String)
        ensures
            r@ == url_rep(self@),
    {
        let mut s = "https://api.keen.io/3.0/projects/".to_owned();
        s.append(self.project.as_str());
        s.append("/queries/");
        let metric = self.metric.render();
        s.append(metric.as_str());
        s.append("api_key=");
        s.append(self.key.as_str());
        s.append("&event_collection=");
        s.append(self.collection.as_str());
        s.append("&group_by=");
        let groups = render_group_array(&self.group_by);
        s.append(groups.as_str());
        s.append("&timezone=UTC&timeframe=");
        let timeframe = self.timeframe.render();
        s.append(timeframe.as_str());
        s.append("&filters=");
        let filters = render_filter_array(&self.filters);
        s.append(filters.as_str());
        let interval = render_interval_suffix(&self.interval);
        s.append(interval.as_str());
        let max_age = render_max_age_suffix(&self.max_age);
        s.append(max_age.as_str());
        let others = render_others(&self.others);
        s.append(others.as_str());
        s
    }
}

} // verus!
