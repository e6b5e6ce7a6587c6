//! Putting records in order.

use crate::index::reversed;
use crate::paginate::views;
use crate::text::{chars_of, text_le};
use vstd::prelude::*;
use vstd::seq_lib::to_multiset_insert;

verus! {

/// A record with a total order on its view.
pub trait Ranked: View + Sized {
    /// Whether `a` stands before `b` or equals it.
    spec fn precedes(a: Self::V, b: Self::V) -> bool;

    /// Whether the record stands before the other or equals it.
    fn comes_first(&self, other: &Self) -> (r: bool)
        ensures
            r == Self::precedes(self@, other@),
    ;

    /// Of two records, one stands before the other or equals it.
    proof fn lemma_total(a: Self::V, b: Self::V)
        ensures
            Self::precedes(a, b) || Self::precedes(b, a),
    ;

    /// What stands before a record stands before everything after it.
    proof fn lemma_transitive(a: Self::V, b: Self::V, c: Self::V)
        requires
            Self::precedes(a, b),
            Self::precedes(b, c),
        ensures
            Self::precedes(a, c),
    ;
}

/// Whether the records stand in ascending order.
pub open spec fn in_order<T: Ranked>(items: Seq<T::V>) -> bool {
    forall|i: int, j: int| 0 <= i < j < items.len() ==> T::precedes(items[i], items[j])
}

/// The records in ascending order. Records that equal each other in the
/// order keep their places relative to each other.
pub fn sorted<T: Ranked>(items: Vec<T>) -> (r: Vec<T>)
    ensures
        in_order::<T>(views(r@)),
        views(r@).to_multiset() == views(items@).to_multiset(),
{
    let ghost all = views(items@);
    let mut rest = reversed(items);
    let mut out: Vec<T> = Vec::new();
    let ghost mut done: int = 0;
    proof {
        assert(all.take(0) =~= Seq::<T::V>::empty());
        assert(views(out@) =~= Seq::<T::V>::empty());
    }
    while rest.len() > 0
        invariant
            0 <= done <= all.len(),
            rest@.len() + done == all.len(),
            forall|k: int|
                0 <= k < rest@.len() ==> (#[trigger] rest@[k])@ == all[all.len() - 1 - k],
            in_order::<T>(views(out@)),
            views(out@).to_multiset() == all.take(done).to_multiset(),
        decreases rest@.len(),
    {
        let x = rest.pop().unwrap();
        let ghost before = views(out@);
        let mut p: usize = 0;
        while p < out.len() && out[p].comes_first(&x)
            invariant
                p <= out@.len(),
                before == views(out@),
                forall|k: int| 0 <= k < p ==> T::precedes(#[trigger] before[k], x@),
            decreases out@.len() - p,
        {
            p += 1;
        }
        proof {
            let after = before.insert(p as int, x@);
            assert(views(out@.insert(p as int, x)) =~= after);
            if p < before.len() {
                T::lemma_total(before[p as int], x@);
            }
            assert forall|i: int, j: int| 0 <= i < j < after.len() implies T::precedes(
                after[i],
                after[j],
            ) by {
                if j == p {
                    assert(after[i] == before[i]);
                } else if i == p {
                    assert(after[j] == before[j - 1]);
                    if j - 1 > p {
                        T::lemma_transitive(x@, before[p as int], before[j - 1]);
                    }
                } else if i < p && j < p {
                    assert(after[i] == before[i] && after[j] == before[j]);
                } else if i < p {
                    assert(after[i] == before[i] && after[j] == before[j - 1]);
                } else {
                    assert(after[i] == before[i - 1] && after[j] == before[j - 1]);
                }
            }
            to_multiset_insert(before, p as int, x@);
            let next = all.take(done + 1);
            assert(next =~= all.take(done).push(x@));
            vstd::seq_lib::to_multiset_build(all.take(done), x@);
            done = done + 1;
        }
        out.insert(p, x);
    }
    proof {
        assert(all.take(all.len() as int) =~= all);
    }
    out
}

/// Of two texts, one stands before the other or equals it.
pub proof fn lemma_text_total(a: Seq<char>, b: Seq<char>)
    ensures
        text_le(a, b) || text_le(b, a),
    decreases a.len(),
{
    if a.len() > 0 && b.len() > 0 {
        if a[0] == b[0] {
            lemma_text_total(a.drop_first(), b.drop_first());
        } else {
            vstd::utf8::char_u32_cast(a[0], a[0] as u32);
            vstd::utf8::char_u32_cast(b[0], b[0] as u32);
        }
    }
}

/// Two texts that stand before each other are one text.
pub proof fn lemma_text_antisymmetric(a: Seq<char>, b: Seq<char>)
    requires
        text_le(a, b),
        text_le(b, a),
    ensures
        a == b,
    decreases a.len(),
{
    if a.len() > 0 && b.len() > 0 {
        lemma_text_antisymmetric(a.drop_first(), b.drop_first());
        assert(a =~= seq![a[0]] + a.drop_first());
        assert(b =~= seq![b[0]] + b.drop_first());
    } else {
        assert(a =~= b);
    }
}

/// A text that stands before another stands before every text after that.
pub proof fn lemma_text_transitive(a: Seq<char>, b: Seq<char>, c: Seq<char>)
    requires
        text_le(a, b),
        text_le(b, c),
    ensures
        text_le(a, c),
    decreases a.len(),
{
    if a.len() > 0 && b.len() > 0 && c.len() > 0 {
        if a[0] == b[0] && b[0] == c[0] {
            lemma_text_transitive(a.drop_first(), b.drop_first(), c.drop_first());
        }
    }
}

/// Whether a text stands before another or equals it, in the order of `str`.
pub fn text_before(a: &str, b: &str) -> (r: bool)
    ensures
        r == text_le(a@, b@),
{
    let x = chars_of(a);
    let y = chars_of(b);
    let mut i: usize = 0;
    proof {
        assert(x@.skip(0) =~= x@);
        assert(y@.skip(0) =~= y@);
    }
    loop
        invariant
            i <= x@.len(),
            i <= y@.len(),
            x@ == a@,
            y@ == b@,
            text_le(a@, b@) == text_le(x@.skip(i as int), y@.skip(i as int)),
        decreases x@.len() - i,
    {
        if i == x.len() {
            return true;
        }
        if i == y.len() {
            return false;
        }
        let ghost xs = x@.skip(i as int);
        let ghost ys = y@.skip(i as int);
        proof {
            assert(xs[0] == x@[i as int]);
            assert(ys[0] == y@[i as int]);
            assert(xs.drop_first() =~= x@.skip(i + 1));
            assert(ys.drop_first() =~= y@.skip(i + 1));
        }
        if x[i] != y[i] {
            return (x[i] as u32) < (y[i] as u32);
        }
        i += 1;
    }
}

impl Ranked for String {
    open spec fn precedes(a: Seq<char>, b: Seq<char>) -> bool {
        text_le(a, b)
    }

    fn comes_first(&self, other: &Self) -> (r: bool) {
        text_before(self.as_str(), other.as_str())
    }

    proof fn lemma_total(a: Seq<char>, b: Seq<char>) {
        lemma_text_total(a, b);
    }

    proof fn lemma_transitive(a: Seq<char>, b: Seq<char>, c: Seq<char>) {
        lemma_text_transitive(a, b, c);
    }
}

/// Whether a pair of texts stands before another or equals it: the first
/// texts decide, and the second ones where the first are the same.
pub open spec fn pair_le(a: (Seq<char>, Seq<char>), b: (Seq<char>, Seq<char>)) -> bool {
    if a.0 == b.0 {
        text_le(a.1, b.1)
    } else {
        text_le(a.0, b.0)
    }
}

/// Of two pairs, one stands before the other or equals it.
pub proof fn lemma_pair_total(a: (Seq<char>, Seq<char>), b: (Seq<char>, Seq<char>))
    ensures
        pair_le(a, b) || pair_le(b, a),
{
    lemma_text_total(a.0, b.0);
    lemma_text_total(a.1, b.1);
}

/// A pair that stands before another stands before every pair after that.
pub proof fn lemma_pair_transitive(
    a: (Seq<char>, Seq<char>),
    b: (Seq<char>, Seq<char>),
    c: (Seq<char>, Seq<char>),
)
    requires
        pair_le(a, b),
        pair_le(b, c),
    ensures
        pair_le(a, c),
{
    if a.0 == b.0 && b.0 == c.0 {
        lemma_text_transitive(a.1, b.1, c.1);
    } else if a.0 == b.0 {
    } else if b.0 == c.0 {
    } else {
        lemma_text_transitive(a.0, b.0, c.0);
        if a.0 == c.0 {
            lemma_text_antisymmetric(a.0, b.0);
        }
    }
}

/// Whether a pair of texts stands before another or equals it.
pub fn pair_before(a: (&str, &str), b: (&str, &str)) -> (r: bool)
    ensures
        r == pair_le((a.0@, a.1@), (b.0@, b.1@)),
{
    if crate::text::str_eq(a.0, b.0) {
        text_before(a.1, b.1)
    } else {
        text_before(a.0, b.0)
    }
}

} // verus!
