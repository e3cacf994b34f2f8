//! Filters: predicates restricting which events enter an aggregation.
//!
//! A filter value is embedded in the URL as a JSON-compatible literal:
//! numbers unquoted, strings double-quoted, lists bracketed. The
//! [`ToFilterValue`] trait governs that rendering, and its contract pins
//! each impl's output exactly.

use crate::render::comma_join;
use crate::render::i64_dec_string;
use crate::render::int_rep;
use crate::render::lemma_comma_join_step;
use crate::render::quote_string;
use crate::render::quoted;
use crate::render::u64_dec_string;
use vstd::prelude::*;

verus! {

/// A type that can serve as a filter's comparison value. `filter_rep` is the
/// exact character sequence the value contributes to the URL, and
/// `to_filter` is bound to produce it.
pub trait ToFilterValue {
    /// The JSON-compatible literal this value renders as.
    spec fn filter_rep(&self) -> Seq<char>;

    /// Render the value as its JSON-compatible literal.
    fn to_filter(&self) -> (r: String)
        ensures
            r@ == self.filter_rep(),
    ;
}

impl ToFilterValue for i32 {
    open spec fn filter_rep(&self) -> Seq<char> {
        int_rep(*self as int)
    }

    fn to_filter(&self) -> (r: String) {
        i64_dec_string(*self as i64)
    }
}

impl ToFilterValue for i64 {
    open spec fn filter_rep(&self) -> Seq<char> {
        int_rep(*self as int)
    }

    fn to_filter(&self) -> (r: String) {
        i64_dec_string(*self)
    }
}

impl ToFilterValue for isize {
    open spec fn filter_rep(&self) -> Seq<char> {
        int_rep(*self as int)
    }

    fn to_filter(&self) -> (r: String) {
        i64_dec_string(*self as i64)
    }
}

impl ToFilterValue for u32 {
    open spec fn filter_rep(&self) -> Seq<char> {
        int_rep(*self as int)
    }

    fn to_filter(&self) -> (r: String) {
        u64_dec_string(*self as u64)
    }
}

impl ToFilterValue for u64 {
    open spec fn filter_rep(&self) -> Seq<char> {
        int_rep(*self as int)
    }

    fn to_filter(&self) -> (r: String) {
        u64_dec_string(*self)
    }
}

impl ToFilterValue for usize {
    open spec fn filter_rep(&self) -> Seq<char> {
        int_rep(*self as int)
    }

    fn to_filter(&self) -> (r: String) {
        u64_dec_string(*self as u64)
    }
}

impl ToFilterValue for &str {
    open spec fn filter_rep(&self) -> Seq<char> {
        quoted(self@)
    }

    fn to_filter(&self) -> (r: String) {
        quote_string(*self)
    }
}

impl ToFilterValue for String {
    open spec fn filter_rep(&self) -> Seq<char> {
        quoted(self@)
    }

    fn to_filter(&self) -> (r: String) {
        quote_string(self.as_str())
    }
}

impl ToFilterValue for &String {
    open spec fn filter_rep(&self) -> Seq<char> {
        quoted(self@)
    }

    fn to_filter(&self) -> (r: String) {
        quote_string(self.as_str())
    }
}

/// The literals that the elements of `vs` render as, in order.
pub open spec fn value_parts<I: ToFilterValue>(vs: Seq<I>) -> Seq<Seq<char>> {
    vs.map_values(|i: I| i.filter_rep())
}

impl<I: ToFilterValue> ToFilterValue for Vec<I> {
    open spec fn filter_rep(&self) -> Seq<char> {
        "["@ + comma_join(value_parts(self@)) + "]"@
    }

    fn to_filter(&self) -> (r: String) {
        let mut items = String::new();
        let mut k: usize = 0;
        while k < self.len()
            invariant
                k <= self.len(),
                items@ == comma_join(value_parts(self@).take(k as int)),
            decreases self.len() - k,
        {
            if k > 0 {
                items.append(",");
            }
            let piece = self[k].to_filter();
            items.append(piece.as_str());
            proof {
                let parts = value_parts(self@);
                lemma_comma_join_step(parts, k as int);
                assert(parts[k as int] == self@[k as int].filter_rep());
                if k == 0 {
                    assert(Seq::<char>::empty() + parts[0] =~= parts[0]);
                }
            }
            k += 1;
        }
        let mut r = "[".to_owned();
        proof {
            let parts = value_parts(self@);
            assert(parts.take(parts.len() as int) =~= parts);
        }
        r.append(items.as_str());
        r.append("]");
        r
    }
}

/// A predicate on a single event property. Each variant carries the property
/// name and the comparison value, the latter already rendered as the literal
/// that [`ToFilterValue`] produced for it; the variant itself picks the
/// comparison operator.
#[derive(Debug, Clone, PartialEq, Eq)]
pub enum Filter {
    /// The property equals the value.
    Eq(String, String),
    /// The property differs from the value.
    Ne(String, String),
    /// The property is less than the value.
    Lt(String, String),
    /// The property is greater than the value.
    Gt(String, String),
    /// The property is at most the value.
    Lte(String, String),
    /// The property is at least the value.
    Gte(String, String),
    /// The property does not contain the value.
    NotContains(String, String),
    /// The property contains the value.
    Contains(String, String),
    /// The property exists (or not, per the value).
    Exists(String, String),
    /// The property is one of the listed values.
    In(String, String),
}

/// The mathematical value of a [`Filter`]: the property name, the rendered
/// comparison value, and the operator's wire name.
pub struct FilterV {
    pub name: Seq<char>,
    pub value: Seq<char>,
    pub op: Seq<char>,
}

impl View for Filter {
    type V = FilterV;

    open spec fn view(&self) -> FilterV {
        match self {
            Filter::Eq(n, v) => FilterV { name: n@, value: v@, op: "eq"@ },
            Filter::Ne(n, v) => FilterV { name: n@, value: v@, op: "ne"@ },
            Filter::Lt(n, v) => FilterV { name: n@, value: v@, op: "lt"@ },
            Filter::Gt(n, v) => FilterV { name: n@, value: v@, op: "gt"@ },
            Filter::Lte(n, v) => FilterV { name: n@, value: v@, op: "lte"@ },
            Filter::Gte(n, v) => FilterV { name: n@, value: v@, op: "gte"@ },
            Filter::NotContains(n, v) => FilterV { name: n@, value: v@, op: "not_contains"@ },
            Filter::Contains(n, v) => FilterV { name: n@, value: v@, op: "contains"@ },
            Filter::Exists(n, v) => FilterV { name: n@, value: v@, op: "exists"@ },
            Filter::In(n, v) => FilterV { name: n@, value: v@, op: "in"@ },
        }
    }
}

/// How one filter appears inside the `filters` array: a JSON object with the
/// quoted property name, the value literal verbatim (unquoted exactly when
/// the value rendered itself unquoted), and the quoted operator name.
pub open spec fn filter_obj_rep(f: FilterV) -> Seq<char> {
    "{\"property_name\":\""@ + f.name + "\",\"property_value\":"@ + f.value + ",\"operator\":\""@
        + f.op + "\"}"@
}

impl Filter {
    /// Build an equality filter.
    pub fn eq<T: ToFilterValue>(name: &str, value: T) -> (f: Filter)
        ensures
            f@ == (FilterV { name: name@, value: value.filter_rep(), op: "eq"@ }),
    {
        Filter::Eq(name.to_owned(), value.to_filter())
    }

    /// Build an inequality filter.
    pub fn ne<T: ToFilterValue>(name: &str, value: T) -> (f: Filter)
        ensures
            f@ == (FilterV { name: name@, value: value.filter_rep(), op: "ne"@ }),
    {
        Filter::Ne(name.to_owned(), value.to_filter())
    }

    /// Build a less-than filter.
    pub fn lt<T: ToFilterValue>(name: &str, value: T) -> (f: Filter)
        ensures
            f@ == (FilterV { name: name@, value: value.filter_rep(), op: "lt"@ }),
    {
        Filter::Lt(name.to_owned(), value.to_filter())
    }

    /// Build a greater-than filter.
    pub fn gt<T: ToFilterValue>(name: &str, value: T) -> (f: Filter)
        ensures
            f@ == (FilterV { name: name@, value: value.filter_rep(), op: "gt"@ }),
    {
        Filter::Gt(name.to_owned(), value.to_filter())
    }

    /// Build an at-most filter.
    pub fn lte<T: ToFilterValue>(name: &str, value: T) -> (f: Filter)
        ensures
            f@ == (FilterV { name: name@, value: value.filter_rep(), op: "lte"@ }),
    {
        Filter::Lte(name.to_owned(), value.to_filter())
    }

    /// Build an at-least filter.
    pub fn gte<T: ToFilterValue>(name: &str, value: T) -> (f: Filter)
        ensures
            f@ == (FilterV { name: name@, value: value.filter_rep(), op: "gte"@ }),
    {
        Filter::Gte(name.to_owned(), value.to_filter())
    }

    /// Build a containment filter.
    pub fn contains<T: ToFilterValue>(name: &str, value: T) -> (f: Filter)
        ensures
            f@ == (FilterV { name: name@, value: value.filter_rep(), op: "contains"@ }),
    {
        Filter::Contains(name.to_owned(), value.to_filter())
    }

    /// Build a non-containment filter.
    pub fn not_contains<T: ToFilterValue>(name: &str, value: T) -> (f: Filter)
        ensures
            f@ == (FilterV { name: name@, value: value.filter_rep(), op: "not_contains"@ }),
    {
        Filter::NotContains(name.to_owned(), value.to_filter())
    }

    /// Build an existence filter.
    pub fn exists_filter<T: ToFilterValue>(name: &str, value: T) -> (f: Filter)
        ensures
            f@ == (FilterV { name: name@, value: value.filter_rep(), op: "exists"@ }),
    {
        Filter::Exists(name.to_owned(), value.to_filter())
    }

    /// Build a membership filter.
    pub fn isin<T: ToFilterValue>(name: &str, value: T) -> (f: Filter)
        ensures
            f@ == (FilterV { name: name@, value: value.filter_rep(), op: "in"@ }),
    {
        Filter::In(name.to_owned(), value.to_filter())
    }

    /// Render this filter as its JSON object.
    pub fn render(&self) -> (r: String)
        ensures
            r@ == filter_obj_rep(self@),
    {
        let mut r = "{\"property_name\":\"".to_owned();
        match self {
            Filter::Eq(n, v) => {
                r.append(n.as_str());
                r.append("\",\"property_value\":");
                r.append(v.as_str());
                r.append(",\"operator\":\"");
                r.append("eq");
            },
            Filter::Ne(n, v) => {
                r.append(n.as_str());
                r.append("\",\"property_value\":");
                r.append(v.as_str());
                r.append(",\"operator\":\"");
                r.append("ne");
            },
            Filter::Lt(n, v) => {
                r.append(n.as_str());
                r.append("\",\"property_value\":");
                r.append(v.as_str());
                r.append(",\"operator\":\"");
                r.append("lt");
            },
            Filter::Gt(n, v) => {
                r.append(n.as_str());
                r.append("\",\"property_value\":");
                r.append(v.as_str());
                r.append(",\"operator\":\"");
                r.append("gt");
            },
            Filter::Lte(n, v) => {
                r.append(n.as_str());
                r.append("\",\"property_value\":");
                r.append(v.as_str());
                r.append(",\"operator\":\"");
                r.append("lte");
            },
            Filter::Gte(n, v) => {
                r.append(n.as_str());
                r.append("\",\"property_value\":");
                r.append(v.as_str());
                r.append(",\"operator\":\"");
                r.append("gte");
            },
            Filter::NotContains(n, v) => {
                r.append(n.as_str());
                r.append("\",\"property_value\":");
                r.append(v.as_str());
                r.append(",\"operator\":\"");
                r.append("not_contains");
            },
            Filter::Contains(n, v) => {
                r.append(n.as_str());
                r.append("\",\"property_value\":");
                r.append(v.as_str());
                r.append(",\"operator\":\"");
                r.append("contains");
            },
            Filter::Exists(n, v) => {
                r.append(n.as_str());
                r.append("\",\"property_value\":");
                r.append(v.as_str());
                r.append(",\"operator\":\"");
                r.append("exists");
            },
            Filter::In(n, v) => {
                r.append(n.as_str());
                r.append("\",\"property_value\":");
                r.append(v.as_str());
                r.append(",\"operator\":\"");
                r.append("in");
            },
        }
        r.append("\"}");
        r
    }
}

} // verus!
