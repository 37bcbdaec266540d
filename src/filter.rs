//! Predicates of the filtered listings. Each parameter of a query is optional;
//! an absent one accepts every value, and a present one is an equality or a
//! bound (`_from` is `>=`, `_to` is `<=`) on its column. A column that may be
//! empty (`NULL`) satisfies no present predicate.
use vstd::prelude::*;

verus! {

/// An optional equality on an integer column.
pub open spec fn int_eq(p: Option<i32>, v: i32) -> bool {
    p is None || p->Some_0 == v
}

/// An optional equality on a flag.
pub open spec fn flag_eq(p: Option<bool>, v: bool) -> bool {
    p is None || p->Some_0 == v
}

/// An optional equality on a text column.
pub open spec fn text_eq(p: Option<String>, v: String) -> bool {
    p is None || p->Some_0@ == v@
}

/// An optional equality on an instant.
pub open spec fn at_eq(p: Option<i64>, v: i64) -> bool {
    p is None || p->Some_0 == v
}

/// An optional lower bound on an instant.
pub open spec fn at_from(p: Option<i64>, v: i64) -> bool {
    p is None || p->Some_0 <= v
}

/// An optional upper bound on an instant.
pub open spec fn at_to(p: Option<i64>, v: i64) -> bool {
    p is None || v <= p->Some_0
}

/// An optional equality on an instant that may be empty.
pub open spec fn opt_at_eq(p: Option<i64>, v: Option<i64>) -> bool {
    p is None || (v is Some && p->Some_0 == v->Some_0)
}

/// An optional lower bound on an instant that may be empty.
pub open spec fn opt_at_from(p: Option<i64>, v: Option<i64>) -> bool {
    p is None || (v is Some && p->Some_0 <= v->Some_0)
}

/// An optional upper bound on an instant that may be empty.
pub open spec fn opt_at_to(p: Option<i64>, v: Option<i64>) -> bool {
    p is None || (v is Some && v->Some_0 <= p->Some_0)
}

/// Checks an optional equality on an integer column.
pub fn check_int_eq(p: Option<i32>, v: i32) -> (r: bool)
    ensures
        r == int_eq(p, v),
{
    match p {
        Some(x) => x == v,
        None => true,
    }
}

/// Checks an optional equality on a flag.
pub fn check_flag_eq(p: Option<bool>, v: bool) -> (r: bool)
    ensures
        r == flag_eq(p, v),
{
    match p {
        Some(x) => x == v,
        None => true,
    }
}

/// Checks an optional equality on a text column.
pub fn check_text_eq(p: &Option<String>, v: &String) -> (r: bool)
    ensures
        r == text_eq(*p, *v),
{
    match p {
        Some(x) => *x == *v,
        None => true,
    }
}

/// Checks an optional equality on an instant.
pub fn check_at_eq(p: Option<i64>, v: i64) -> (r: bool)
    ensures
        r == at_eq(p, v),
{
    match p {
        Some(x) => x == v,
        None => true,
    }
}

/// Checks an optional lower bound on an instant.
pub fn check_at_from(p: Option<i64>, v: i64) -> (r: bool)
    ensures
        r == at_from(p, v),
{
    match p {
        Some(x) => x <= v,
        None => true,
    }
}

/// Checks an optional upper bound on an instant.
pub fn check_at_to(p: Option<i64>, v: i64) -> (r: bool)
    ensures
        r == at_to(p, v),
{
    match p {
        Some(x) => v <= x,
        None => true,
    }
}

/// Checks an optional equality on an instant that may be empty.
pub fn check_opt_at_eq(p: Option<i64>, v: Option<i64>) -> (r: bool)
    ensures
        r == opt_at_eq(p, v),
{
    match (p, v) {
        (Some(x), Some(y)) => x == y,
        (Some(_), None) => false,
        (None, _) => true,
    }
}

/// Checks an optional lower bound on an instant that may be empty.
pub fn check_opt_at_from(p: Option<i64>, v: Option<i64>) -> (r: bool)
    ensures
        r == opt_at_from(p, v),
{
    match (p, v) {
        (Some(x), Some(y)) => x <= y,
        (Some(_), None) => false,
        (None, _) => true,
    }
}

/// Checks an optional upper bound on an instant that may be empty.
pub fn check_opt_at_to(p: Option<i64>, v: Option<i64>) -> (r: bool)
    ensures
        r == opt_at_to(p, v),
{
    match (p, v) {
        (Some(x), Some(y)) => y <= x,
        (Some(_), None) => false,
        (None, _) => true,
    }
}

/// One step of a loop that keeps the elements of a prefix that satisfy `f`.
pub proof fn lemma_filter_prefix_step<A>(s: Seq<A>, f: spec_fn(A) -> bool, i: int)
    requires
        0 <= i < s.len(),
    ensures
        s.subrange(0, i + 1).filter(f) == (if f(s[i]) {
            s.subrange(0, i).filter(f).push(s[i])
        } else {
            s.subrange(0, i).filter(f)
        }),
{
    reveal(Seq::filter);
    assert(s.subrange(0, i + 1).drop_last() =~= s.subrange(0, i));
}

/// The empty prefix keeps nothing.
pub proof fn lemma_filter_prefix_empty<A>(s: Seq<A>, f: spec_fn(A) -> bool)
    ensures
        s.subrange(0, 0).filter(f) == Seq::<A>::empty(),
{
    reveal(Seq::filter);
}

} // verus!
