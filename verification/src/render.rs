//! Character-exact rendering primitives shared by the query serializer:
//! decimal notation for integers, double-quoting, and comma-joined lists.

use vstd::prelude::*;

verus! {

/// The one-character string for the decimal digit `d`; digits above nine do
/// not occur at any call site (every argument is some value taken `% 10`).
pub open spec fn digit_rep(d: nat) -> Seq<char> {
    if d == 0 {
        "0"@
    } else if d == 1 {
        "1"@
    } else if d == 2 {
        "2"@
    } else if d == 3 {
        "3"@
    } else if d == 4 {
        "4"@
    } else if d == 5 {
        "5"@
    } else if d == 6 {
        "6"@
    } else if d == 7 {
        "7"@
    } else if d == 8 {
        "8"@
    } else {
        "9"@
    }
}

/// The usual decimal notation of `n`: no sign, no leading zeros (except for
/// the single digit of zero itself).
pub open spec fn dec_rep(n: nat) -> Seq<char>
    decreases n,
{
    if n < 10 {
        digit_rep(n)
    } else {
        dec_rep(n / 10) + digit_rep(n % 10)
    }
}

/// The decimal notation of a signed integer: a leading minus sign for
/// negative values, the plain digits otherwise.
pub open spec fn int_rep(i: int) -> Seq<char> {
    if i >= 0 {
        dec_rep(i as nat)
    } else {
        "-"@ + dec_rep((-i) as nat)
    }
}

/// `s` wrapped in double quotes, as a JSON string literal without escaping
/// (no field of a query is escaped anywhere in this library).
pub open spec fn quoted(s: Seq<char>) -> Seq<char> {
    "\""@ + s + "\""@
}

/// The pieces of `parts` in order, separated by single commas: no separator
/// around the ends, none for the empty list.
pub open spec fn comma_join(parts: Seq<Seq<char>>) -> Seq<char>
    decreases parts.len(),
{
    if parts.len() == 0 {
        Seq::empty()
    } else if parts.len() == 1 {
        parts[0]
    } else {
        comma_join(parts.drop_last()) + ","@ + parts.last()
    }
}

/// How `comma_join` grows when one more piece is taken from `parts`: the
/// first piece comes bare, every later one brings a comma before it.
pub proof fn lemma_comma_join_step(parts: Seq<Seq<char>>, i: int)
    requires
        0 <= i < parts.len(),
    ensures
        i == 0 ==> comma_join(parts.take(1)) == parts[0],
        i > 0 ==> comma_join(parts.take(i + 1)) == comma_join(parts.take(i)) + ","@ + parts[i],
{
    let p = parts.take(i + 1);
    assert(p.drop_last() =~= parts.take(i));
    assert(p.last() == parts[i]);
}

fn digit_str(d: u64) -> (r: &'static str)
    ensures
        r@ == digit_rep(d as nat),
{
    if d == 0 {
        "0"
    } else if d == 1 {
        "1"
    } else if d == 2 {
        "2"
    } else if d == 3 {
        "3"
    } else if d == 4 {
        "4"
    } else if d == 5 {
        "5"
    } else if d == 6 {
        "6"
    } else if d == 7 {
        "7"
    } else if d == 8 {
        "8"
    } else {
        "9"
    }
}

/// Render `n` in decimal.
pub fn u64_dec_string(n: u64) -> (r: String)
    ensures
        r@ == dec_rep(n as nat),
    decreases n,
{
    if n < 10 {
        digit_str(n).to_owned()
    } else {
        assert(n / 10 < n);
        let mut s = u64_dec_string(n / 10);
        s.append(digit_str(n % 10));
        s
    }
}

/// Render `i` in decimal, with a minus sign when negative.
pub fn i64_dec_string(i: i64) -> (r: String)
    ensures
        r@ == int_rep(i as int),
{
    if i >= 0 {
        u64_dec_string(i as u64)
    } else {
        let wide: i128 = -(i as i128);
        assert(0 <= wide <= u64::MAX);
        let magnitude: u64 = wide as u64;
        let mut s = "-".to_owned();
        let digits = u64_dec_string(magnitude);
        s.append(digits.as_str());
        s
    }
}

/// Render `s` wrapped in double quotes.
pub fn quote_string(s: &str) -> (r: String)
    ensures
        r@ == quoted(s@),
{
    let mut q = "\"".to_owned();
    q.append(s);
    q.append("\"");
    q
}

} // verus!
