//! Ordering of results by time: a stable insertion sort and its laws.

use vstd::prelude::*;

verus! {

/// A value that carries a timestamp in milliseconds since the epoch.
pub trait Timed {
    /// The timestamp, as a mathematical integer.
    spec fn time_key(&self) -> int;

    /// The timestamp.
    fn time(&self) -> (r: i64)
        ensures
            r == self.time_key(),
    ;
}

/// Whether no item of `s` comes after one with a later timestamp.
pub open spec fn is_time_sorted<T: Timed>(s: Seq<T>) -> bool {
    forall|i: int, j: int| 0 <= i < j < s.len() ==> #[trigger] s[i].time_key() <= #[trigger] s[j].time_key()
}

/// The items of `s` with timestamp `t`, in their order in `s`.
pub open spec fn with_time<T: Timed>(s: Seq<T>, t: int) -> Seq<T>
    decreases s.len(),
{
    if s.len() == 0 {
        s
    } else if s[0].time_key() == t {
        seq![s[0]] + with_time(s.skip(1), t)
    } else {
        with_time(s.skip(1), t)
    }
}

/// `s` with `x` placed before the first item whose timestamp is not earlier
/// than that of `x`.
pub open spec fn insert_by_time<T: Timed>(x: T, s: Seq<T>) -> Seq<T>
    decreases s.len(),
{
    if s.len() == 0 || x.time_key() <= s[0].time_key() {
        seq![x] + s
    } else {
        seq![s[0]] + insert_by_time(x, s.skip(1))
    }
}

/// `s` ordered by time; items with equal timestamps keep their order.
pub open spec fn sorted_by_time<T: Timed>(s: Seq<T>) -> Seq<T>
    decreases s.len(),
{
    if s.len() == 0 {
        s
    } else {
        insert_by_time(s[0], sorted_by_time(s.skip(1)))
    }
}

/// The index of the first item of `s` whose timestamp is at least `key`.
pub open spec fn first_at_least<T: Timed>(s: Seq<T>, key: int) -> int
    decreases s.len(),
{
    if s.len() == 0 || key <= s[0].time_key() {
        0
    } else {
        1 + first_at_least(s.skip(1), key)
    }
}

proof fn lemma_insert_splits<T: Timed>(x: T, s: Seq<T>)
    ensures
        0 <= first_at_least(s, x.time_key()) <= s.len(),
        forall|k: int| 0 <= k < first_at_least(s, x.time_key()) ==> #[trigger] s[k].time_key() < x.time_key(),
        first_at_least(s, x.time_key()) < s.len() ==> x.time_key() <= s[first_at_least(s, x.time_key())].time_key(),
        insert_by_time(x, s) == s.take(first_at_least(s, x.time_key())) + seq![x] + s.skip(
            first_at_least(s, x.time_key()),
        ),
    decreases s.len(),
{
    let p = first_at_least(s, x.time_key());
    if s.len() == 0 || x.time_key() <= s[0].time_key() {
        assert(s.take(0) + seq![x] + s.skip(0) =~= seq![x] + s);
    } else {
        let r = s.skip(1);
        lemma_insert_splits(x, r);
        let q = first_at_least(r, x.time_key());
        assert forall|k: int| 0 <= k < p implies #[trigger] s[k].time_key() < x.time_key() by {
            if k > 0 {
                assert(s[k] == r[k - 1]);
            }
        }
        assert(seq![s[0]] + (r.take(q) + seq![x] + r.skip(q)) =~= s.take(p) + seq![x] + s.skip(p));
    }
}

proof fn lemma_with_time_add<T: Timed>(a: Seq<T>, b: Seq<T>, t: int)
    ensures
        with_time(a + b, t) == with_time(a, t) + with_time(b, t),
    decreases a.len(),
{
    if a.len() == 0 {
        assert(a + b =~= b);
        assert(with_time(a, t) + with_time(b, t) =~= with_time(b, t));
    } else {
        assert((a + b).skip(1) =~= a.skip(1) + b);
        lemma_with_time_add(a.skip(1), b, t);
        assert(with_time(a + b, t) =~= with_time(a, t) + with_time(b, t));
    }
}

proof fn lemma_with_time_none<T: Timed>(s: Seq<T>, t: int)
    requires
        forall|k: int| 0 <= k < s.len() ==> #[trigger] s[k].time_key() != t,
    ensures
        with_time(s, t) == Seq::<T>::empty(),
    decreases s.len(),
{
    if s.len() > 0 {
        assert forall|k: int| 0 <= k < s.skip(1).len() implies #[trigger] s.skip(1)[k].time_key() != t by {
            assert(s.skip(1)[k] == s[k + 1]);
        }
        lemma_with_time_none(s.skip(1), t);
    }
}

proof fn lemma_with_time_single<T: Timed>(x: T, t: int)
    ensures
        with_time(seq![x], t) == (if x.time_key() == t { seq![x] } else { Seq::<T>::empty() }),
{
    let e = Seq::<T>::empty();
    assert(seq![x].skip(1) =~= e);
    assert(seq![x][0] == x);
    assert(with_time(e, t) == e);
    assert(seq![x] + e =~= seq![x]);
}

/// Inserting into a time-sorted sequence keeps it time-sorted, and puts the
/// new item after the items with its own timestamp.
proof fn lemma_insert_sorted<T: Timed>(x: T, s: Seq<T>)
    requires
        is_time_sorted(s),
    ensures
        is_time_sorted(insert_by_time(x, s)),
        insert_by_time(x, s).len() == s.len() + 1,
        forall|t: int| #[trigger] with_time(insert_by_time(x, s), t) == with_time(seq![x] + s, t),
{
    lemma_insert_splits(x, s);
    let p = first_at_least(s, x.time_key());
    let r = insert_by_time(x, s);
    assert forall|i: int, j: int| 0 <= i < j < r.len() implies #[trigger] r[i].time_key()
        <= #[trigger] r[j].time_key() by {
        if i < p && j > p {
            assert(r[j] == s[j - 1]);
            assert(s[i].time_key() <= s[j - 1].time_key());
        } else if i < p && j == p {
        } else if i == p && j > p {
            assert(r[j] == s[j - 1]);
            if j - 1 > p {
                assert(s[p].time_key() <= s[j - 1].time_key());
            }
        } else if i > p {
            assert(r[i] == s[i - 1]);
            assert(r[j] == s[j - 1]);
        } else {
            assert(r[i] == s[i]);
            assert(r[j] == s[j]);
        }
    }
    assert forall|t: int| #[trigger] with_time(r, t) == with_time(seq![x] + s, t) by {
        let a = s.take(p);
        let b = s.skip(p);
        assert(s =~= a + b);
        lemma_with_time_add(a + seq![x], b, t);
        lemma_with_time_add(a, seq![x], t);
        lemma_with_time_add(seq![x], a + b, t);
        lemma_with_time_add(a, b, t);
        lemma_with_time_single(x, t);
        if x.time_key() == t {
            assert forall|k: int| 0 <= k < a.len() implies #[trigger] a[k].time_key() != t by {
                assert(a[k] == s[k]);
            }
            lemma_with_time_none(a, t);
        }
        assert(with_time(a, t) + with_time(seq![x], t) + with_time(b, t)
            =~= with_time(seq![x], t) + (with_time(a, t) + with_time(b, t)));
    }
}

/// Sorting by time yields a time-sorted sequence of the same length.
pub proof fn lemma_sorted_by_time_is_sorted<T: Timed>(s: Seq<T>)
    ensures
        is_time_sorted(sorted_by_time(s)),
        sorted_by_time(s).len() == s.len(),
    decreases s.len(),
{
    if s.len() > 0 {
        lemma_sorted_by_time_is_sorted(s.skip(1));
        lemma_insert_sorted(s[0], sorted_by_time(s.skip(1)));
    }
}

/// Sorting by time is stable: for every timestamp, the items that carry it
/// come out in the order in which they went in.
pub proof fn lemma_sorted_by_time_stable<T: Timed>(s: Seq<T>, t: int)
    ensures
        with_time(sorted_by_time(s), t) == with_time(s, t),
    decreases s.len(),
{
    if s.len() > 0 {
        let rest = s.skip(1);
        lemma_sorted_by_time_stable(rest, t);
        lemma_sorted_by_time_is_sorted(rest);
        lemma_insert_sorted(s[0], sorted_by_time(rest));
        lemma_with_time_add(seq![s[0]], sorted_by_time(rest), t);
        lemma_with_time_add(seq![s[0]], rest, t);
        assert(s =~= seq![s[0]] + rest);
    }
}

/// Sorting a sequence that is already sorted by time leaves it as it is.
pub proof fn lemma_sorted_by_time_idempotent<T: Timed>(s: Seq<T>)
    requires
        is_time_sorted(s),
    ensures
        sorted_by_time(s) == s,
    decreases s.len(),
{
    if s.len() > 0 {
        let rest = s.skip(1);
        assert forall|i: int, j: int| 0 <= i < j < rest.len() implies #[trigger] rest[i].time_key()
            <= #[trigger] rest[j].time_key() by {
            assert(rest[i] == s[i + 1] && rest[j] == s[j + 1]);
        }
        lemma_sorted_by_time_idempotent(rest);
        if rest.len() > 0 {
            assert(rest[0] == s[1]);
        }
        assert(seq![s[0]] + rest =~= s);
    }
}

/// Orders `v` by time, keeping items with equal timestamps in their order.
pub fn sort_by_time<T: Timed>(v: Vec<T>) -> (r: Vec<T>)
    ensures
        r@ == sorted_by_time(v@),
        is_time_sorted(r@),
        forall|t: int| #[trigger] with_time(r@, t) == with_time(v@, t),
{
    let ghost input = v@;
    let mut rest = v;
    let mut out: Vec<T> = Vec::new();
    assert(input.skip(input.len() as int) =~= Seq::<T>::empty());
    while rest.len() > 0
        invariant
            rest@ == input.take(rest.len() as int),
            rest.len() <= input.len(),
            out@ == sorted_by_time(input.skip(rest.len() as int)),
        decreases rest.len(),
    {
        let n = rest.len();
        let x = rest.pop().unwrap();
        let key = x.time();
        proof {
            assert(rest@ =~= input.take(rest.len() as int));
            let tail = input.skip(n - 1);
            assert(tail[0] == x);
            assert(tail.skip(1) =~= input.skip(n as int));
            lemma_sorted_by_time_is_sorted(input.skip(n as int));
            lemma_insert_splits(x, out@);
        }
        let mut pos: usize = 0;
        while pos < out.len() && out[pos].time() < key
            invariant
                pos <= out.len(),
                key == x.time_key(),
                is_time_sorted(out@),
                forall|k: int| 0 <= k < pos ==> #[trigger] out@[k].time_key() < key,
            decreases out.len() - pos,
        {
            pos += 1;
        }
        proof {
            let p = first_at_least(out@, key as int);
            if (pos as int) < p {
                assert(out@[pos as int].time_key() < key);
            }
            if p < pos {
                assert(out@[p].time_key() < key);
            }
            assert(pos == p);
        }
        out.insert(pos, x);
    }
    proof {
        assert(input.skip(0) =~= input);
        lemma_sorted_by_time_is_sorted(input);
        assert forall|t: int| #[trigger] with_time(out@, t) == with_time(input, t) by {
            lemma_sorted_by_time_stable(input, t);
        }
    }
    out
}

} // verus!
