//! The library's stated laws: proofs that the rendered query string has the
//! shape the serialization promises, for every input and not just the
//! examples the tests exercise.

use crate::client::filter_array_rep;
use crate::client::filter_parts;
use crate::client::group_array_rep;
use crate::client::interval_suffix_rep;
use crate::client::max_age_suffix_rep;
use crate::client::others_rep;
use crate::client::quoted_parts;
use crate::client::url_rep;
use crate::client::QueryV;
use crate::metric::metric_rep;
use crate::render::comma_join;
use crate::render::dec_rep;
use crate::render::digit_rep;
use crate::render::int_rep;
use crate::render::quoted;
use crate::timeframe::timeframe_rep;
use vstd::prelude::*;

verus! {

/// The comma-join of `parts` read off from the front: the first piece bare,
/// then a single comma before each further piece. This is the reading under
/// which insertion order and the absence of a trailing comma are plain.
pub open spec fn join_from_front(parts: Seq<Seq<char>>) -> Seq<char>
    decreases parts.len(),
{
    if parts.len() == 0 {
        Seq::empty()
    } else if parts.len() == 1 {
        parts[0]
    } else {
        parts[0] + ","@ + join_from_front(parts.drop_first())
    }
}

proof fn lemma_comma_join_head(parts: Seq<Seq<char>>)
    requires
        parts.len() >= 2,
    ensures
        comma_join(parts) == parts[0] + ","@ + comma_join(parts.drop_first()),
    decreases parts.len(),
{
    let dl = parts.drop_last();
    let pdf = parts.drop_first();
    assert(comma_join(parts) == comma_join(dl) + ","@ + parts.last());
    if parts.len() == 2 {
        assert(dl.len() == 1);
        assert(comma_join(dl) == dl[0]);
        assert(dl[0] == parts[0]);
        assert(pdf.len() == 1);
        assert(comma_join(pdf) == pdf[0]);
        assert(pdf[0] == parts[1]);
        assert(parts.last() == parts[1]);
    } else {
        lemma_comma_join_head(dl);
        assert(dl[0] == parts[0]);
        assert(comma_join(dl) == parts[0] + ","@ + comma_join(dl.drop_first()));
        assert(pdf.len() >= 2);
        assert(pdf.drop_last() =~= dl.drop_first());
        assert(pdf.last() == parts.last());
        assert(comma_join(pdf) == comma_join(dl.drop_first()) + ","@ + parts.last());
        assert((parts[0] + ","@ + comma_join(dl.drop_first())) + ","@ + parts.last() =~= parts[0]
            + ","@ + (comma_join(dl.drop_first()) + ","@ + parts.last()));
        assert(comma_join(parts) == parts[0] + ","@ + comma_join(pdf));
    }
}

/// The two readings of the comma-join agree: peeling pieces off the front
/// (first bare, a comma before each later piece) yields the same characters
/// as the serializer's definition. Entries therefore appear in insertion
/// order, separated by single commas, with no comma after the last.
pub proof fn lemma_join_from_front(parts: Seq<Seq<char>>)
    ensures
        comma_join(parts) == join_from_front(parts),
    decreases parts.len(),
{
    if parts.len() >= 2 {
        lemma_comma_join_head(parts);
        lemma_join_from_front(parts.drop_first());
    }
}

/// The group-by array renders the dimension names in insertion order, each
/// double-quoted, comma-separated with no trailing comma, inside square
/// brackets.
pub proof fn lemma_group_array_order(gs: Seq<Seq<char>>)
    ensures
        quoted_parts(gs).len() == gs.len(),
        forall|i: int| 0 <= i < gs.len() ==> quoted_parts(gs)[i] == quoted(gs[i]),
        group_array_rep(gs) == "["@ + join_from_front(quoted_parts(gs)) + "]"@,
{
    lemma_join_from_front(quoted_parts(gs));
}

/// An empty group-by list and an empty filter list both render as the
/// literal `[]`.
pub proof fn lemma_empty_arrays()
    ensures
        group_array_rep(Seq::empty()) == "[]"@,
        filter_array_rep(Seq::empty()) == "[]"@,
{
    reveal_strlit("[");
    reveal_strlit("]");
    reveal_strlit("[]");
    assert(quoted_parts(Seq::empty()).len() == 0);
    assert(filter_parts(Seq::empty()).len() == 0);
    assert("["@ + comma_join(quoted_parts(Seq::empty())) + "]"@ =~= "[]"@);
    assert("["@ + comma_join(filter_parts(Seq::empty())) + "]"@ =~= "[]"@);
}

proof fn lemma_digit_rep_is_digit(d: nat)
    ensures
        digit_rep(d).len() == 1,
        '0' <= digit_rep(d)[0] <= '9',
{
    reveal_strlit("0");
    reveal_strlit("1");
    reveal_strlit("2");
    reveal_strlit("3");
    reveal_strlit("4");
    reveal_strlit("5");
    reveal_strlit("6");
    reveal_strlit("7");
    reveal_strlit("8");
    reveal_strlit("9");
}

proof fn lemma_dec_rep_digits(n: nat)
    ensures
        dec_rep(n).len() >= 1,
        forall|k: int| 0 <= k < dec_rep(n).len() ==> '0' <= #[trigger] dec_rep(n)[k] <= '9',
    decreases n,
{
    if n < 10 {
        lemma_digit_rep_is_digit(n);
    } else {
        lemma_dec_rep_digits(n / 10);
        lemma_digit_rep_is_digit(n % 10);
    }
}

/// A numeric filter value renders unquoted: its characters are decimal
/// digits, at most preceded by a minus sign, and in particular no double
/// quote occurs anywhere in it.
pub proof fn lemma_numeric_value_unquoted(i: int)
    ensures
        int_rep(i).len() >= 1,
        forall|k: int| 0 <= k < int_rep(i).len() ==> #[trigger] int_rep(i)[k] != '"',
{
    reveal_strlit("-");
    if i >= 0 {
        lemma_dec_rep_digits(i as nat);
    } else {
        lemma_dec_rep_digits((-i) as nat);
        assert(forall|k: int|
            0 <= k < int_rep(i).len() ==> #[trigger] int_rep(i)[k] == ("-"@ + dec_rep(
                (-i) as nat,
            ))[k]);
    }
}

/// A string filter value renders double-quoted: one quote before, one quote
/// after, and the string's own characters unchanged in between.
pub proof fn lemma_string_value_quoted(s: Seq<char>)
    ensures
        quoted(s).len() == s.len() + 2,
        quoted(s)[0] == '"',
        quoted(s)[s.len() as int + 1] == '"',
        quoted(s).subrange(1, s.len() as int + 1) == s,
{
    reveal_strlit("\"");
    assert(quoted(s).subrange(1, s.len() as int + 1) =~= s);
}

/// The URL is a pure function of the query's state: any two renderings of
/// the same state are byte-identical.
pub proof fn lemma_url_deterministic(q: QueryV, r1: Seq<char>, r2: Seq<char>)
    requires
        r1 == url_rep(q),
        r2 == url_rep(q),
    ensures
        r1 == r2,
{
}

/// `frag` occurs contiguously somewhere in `hay`.
pub open spec fn contains_fragment(hay: Seq<char>, frag: Seq<char>) -> bool {
    exists|lo: int|
        0 <= lo && lo + frag.len() <= hay.len() && #[trigger] hay.subrange(
            lo,
            lo + frag.len() as int,
        ) == frag
}

proof fn lemma_subrange_extend(p: Seq<char>, t: Seq<char>, lo: int, hi: int)
    requires
        0 <= lo <= hi <= p.len(),
    ensures
        (p + t).subrange(lo, hi) == p.subrange(lo, hi),
{
    assert((p + t).subrange(lo, hi) =~= p.subrange(lo, hi));
}

/// The rendered URL contains, each as one contiguous fragment, the
/// `&group_by=` parameter followed by exactly the group array, the
/// hardcoded `&timezone=UTC` together with the `&timeframe=` parameter
/// followed by exactly the timeframe's rendering, and the `&filters=`
/// parameter followed by exactly the filter array.
pub proof fn lemma_url_contains_parameters(q: QueryV)
    ensures
        contains_fragment(url_rep(q), "&group_by="@ + group_array_rep(q.group_by)),
        contains_fragment(
            url_rep(q),
            "&timezone=UTC&timeframe="@ + timeframe_rep(q.timeframe),
        ),
        contains_fragment(url_rep(q), "&filters="@ + filter_array_rep(q.filters)),
{
    let gfrag = "&group_by="@ + group_array_rep(q.group_by);
    let tfrag = "&timezone=UTC&timeframe="@ + timeframe_rep(q.timeframe);
    let ffrag = "&filters="@ + filter_array_rep(q.filters);
    let p8 = "https://api.keen.io/3.0/projects/"@ + q.project + "/queries/"@
        + metric_rep(q.metric) + "api_key="@ + q.key + "&event_collection="@
        + q.collection;
    let p9 = p8 + "&group_by="@;
    let p10 = p9 + group_array_rep(q.group_by);
    let p11 = p10 + "&timezone=UTC&timeframe="@;
    let p12 = p11 + timeframe_rep(q.timeframe);
    let p13 = p12 + "&filters="@;
    let p14 = p13 + filter_array_rep(q.filters);
    let p15 = p14 + interval_suffix_rep(q.interval);
    let p16 = p15 + max_age_suffix_rep(q.max_age);
    let p17 = p16 + others_rep(q.others);
    assert(url_rep(q) == p17);
    let glo = p8.len() as int;
    assert(p10.subrange(glo, glo + gfrag.len() as int) =~= gfrag);
    lemma_subrange_extend(p10, "&timezone=UTC&timeframe="@, glo, glo + gfrag.len() as int);
    lemma_subrange_extend(p11, timeframe_rep(q.timeframe), glo, glo
        + gfrag.len() as int);
    lemma_subrange_extend(p12, "&filters="@, glo, glo + gfrag.len() as int);
    lemma_subrange_extend(p13, filter_array_rep(q.filters), glo, glo + gfrag.len() as int);
    lemma_subrange_extend(p14, interval_suffix_rep(q.interval), glo, glo
        + gfrag.len() as int);
    lemma_subrange_extend(p15, max_age_suffix_rep(q.max_age), glo, glo
        + gfrag.len() as int);
    lemma_subrange_extend(p16, others_rep(q.others), glo, glo
        + gfrag.len() as int);
    assert(url_rep(q).subrange(glo, glo + gfrag.len() as int) == gfrag);
    let tlo = p10.len() as int;
    assert(p12.subrange(tlo, tlo + tfrag.len() as int) =~= tfrag);
    lemma_subrange_extend(p12, "&filters="@, tlo, tlo + tfrag.len() as int);
    lemma_subrange_extend(p13, filter_array_rep(q.filters), tlo, tlo + tfrag.len() as int);
    lemma_subrange_extend(p14, interval_suffix_rep(q.interval), tlo, tlo
        + tfrag.len() as int);
    lemma_subrange_extend(p15, max_age_suffix_rep(q.max_age), tlo, tlo
        + tfrag.len() as int);
    lemma_subrange_extend(p16, others_rep(q.others), tlo, tlo
        + tfrag.len() as int);
    assert(url_rep(q).subrange(tlo, tlo + tfrag.len() as int) == tfrag);
    let flo = p12.len() as int;
    assert(p14.subrange(flo, flo + ffrag.len() as int) =~= ffrag);
    lemma_subrange_extend(p14, interval_suffix_rep(q.interval), flo, flo
        + ffrag.len() as int);
    lemma_subrange_extend(p15, max_age_suffix_rep(q.max_age), flo, flo
        + ffrag.len() as int);
    lemma_subrange_extend(p16, others_rep(q.others), flo, flo
        + ffrag.len() as int);
    assert(url_rep(q).subrange(flo, flo + ffrag.len() as int) == ffrag);
}

} // verus!
