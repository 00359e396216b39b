use vstd::multiset::Multiset;
use vstd::prelude::*;

verus! {

broadcast use vstd::seq_lib::group_to_multiset_ensures;

/// Whether the faces are in non-decreasing order.
pub open spec fn is_sorted(t: Seq<u8>) -> bool {
    forall|i: int, j: int| 0 <= i < j < t.len() ==> t[i] <= t[j]
}

/// The faces of `s` in non-decreasing order.
pub open spec fn sorted_faces(s: Seq<u8>) -> Seq<u8> {
    sorted_arrangement(s.to_multiset())
}

/// The sequence in non-decreasing order that holds exactly the faces of `m`.
pub open spec fn sorted_arrangement(m: Multiset<u8>) -> Seq<u8> {
    choose|t: Seq<u8>| is_sorted(t) && t.to_multiset() == m
}

/// Two sorted sequences that hold the same faces are the same sequence.
pub proof fn lemma_sorted_unique(t1: Seq<u8>, t2: Seq<u8>)
    requires
        is_sorted(t1),
        is_sorted(t2),
        t1.to_multiset() == t2.to_multiset(),
    ensures
        t1 == t2,
    decreases t1.len(),
{
    assert(t1.len() == t1.to_multiset().len());
    assert(t2.len() == t2.to_multiset().len());
    if t1.len() == 0 {
        assert(t1 =~= t2);
    } else {
        assert(t1.to_multiset().count(t1[0]) > 0);
        assert(t2.to_multiset().count(t2[0]) > 0);
        assert(t2.contains(t1[0]));
        assert(t1.contains(t2[0]));
        assert(t1[0] == t2[0]);
        let r1 = t1.remove(0);
        let r2 = t2.remove(0);
        assert(r1.to_multiset() == t1.to_multiset().remove(t1[0]));
        assert(r2.to_multiset() == t2.to_multiset().remove(t2[0]));
        lemma_sorted_unique(r1, r2);
        assert forall|i: int| 0 <= i < t1.len() implies t1[i] == t2[i] by {
            if i > 0 {
                assert(t1[i] == r1[i - 1]);
                assert(t2[i] == r2[i - 1]);
            }
        }
        assert(t1 =~= t2);
    }
}

/// The sorted sequence of faces of `s` is the one that any sorted
/// rearrangement of `s` gives.
pub proof fn lemma_sorted_faces_is(s: Seq<u8>, t: Seq<u8>)
    requires
        is_sorted(t),
        t.to_multiset() == s.to_multiset(),
    ensures
        sorted_faces(s) == t,
{
    let m = s.to_multiset();
    assert(is_sorted(t) && t.to_multiset() == m);
    let c = sorted_arrangement(m);
    assert(is_sorted(c) && c.to_multiset() == m);
    lemma_sorted_unique(c, t);
}

/// The faces of `v` in non-decreasing order.
pub fn sort_faces(v: &Vec<u8>) -> (r: Vec<u8>)
    ensures
        r@ == sorted_faces(v@),
        is_sorted(r@),
        r@.to_multiset() == v@.to_multiset(),
{
    let mut out: Vec<u8> = Vec::new();
    let mut i: usize = 0;
    while i < v.len()
        invariant
            i <= v.len(),
            is_sorted(out@),
            out@.to_multiset() == v@.subrange(0, i as int).to_multiset(),
        decreases v.len() - i,
    {
        let x = v[i];
        let mut p: usize = 0;
        while p < out.len() && out[p] <= x
            invariant
                p <= out.len(),
                forall|k: int| 0 <= k < p ==> out@[k] <= x,
            decreases out.len() - p,
        {
            p = p + 1;
        }
        let ghost before = out@;
        out.insert(p, x);
        assert(out@ == before.insert(p as int, x));
        assert forall|a: int, b: int| 0 <= a < b < out@.len() implies out@[a] <= out@[b] by {
            if b < p {
            } else if b == p {
            } else if a < p {
                assert(before[a] <= x);
                assert(x <= before[p as int]);
            } else if a == p {
                assert(x < before[p as int]);
            } else {
            }
        }
        assert(v@.subrange(0, i + 1) =~= v@.subrange(0, i as int).push(x));
        i = i + 1;
    }
    assert(v@.subrange(0, v.len() as int) =~= v@);
    proof {
        lemma_sorted_faces_is(v@, out@);
    }
    out
}


/// How many faces of `t` equal `v`.
pub open spec fn count_of(t: Seq<u8>, v: u8) -> nat
    decreases t.len(),
{
    if t.len() == 0 {
        0
    } else {
        count_of(t.drop_last(), v) + if t.last() == v {
            1nat
        } else {
            0nat
        }
    }
}

/// `t` with each group of equal neighbours kept once.
pub open spec fn dedup(t: Seq<u8>) -> Seq<u8>
    decreases t.len(),
{
    if t.len() == 0 {
        t
    } else {
        let p = dedup(t.drop_last());
        if p.len() > 0 && p.last() == t.last() {
            p
        } else {
            p.push(t.last())
        }
    }
}

/// The length of the run of consecutive values of `d` that ends at index `k`.
pub open spec fn run_len_at(d: Seq<u8>, k: int) -> nat
    decreases k,
{
    if k <= 0 {
        1
    } else if d[k] == d[k - 1] + 1 {
        run_len_at(d, k - 1) + 1
    } else {
        1
    }
}

/// The index, among the first `n` of `d`, where the first longest run ends.
pub open spec fn best_run_end(d: Seq<u8>, n: int) -> int
    decreases n,
{
    if n <= 1 {
        0
    } else {
        let b = best_run_end(d, n - 1);
        if run_len_at(d, n - 1) > run_len_at(d, b) {
            n - 1
        } else {
            b
        }
    }
}

/// How many faces of `v` equal `x`.
pub fn count_faces(v: &Vec<u8>, x: u8) -> (r: usize)
    ensures
        r == count_of(v@, x),
{
    let mut n: usize = 0;
    let mut i: usize = 0;
    while i < v.len()
        invariant
            i <= v.len(),
            n == count_of(v@.subrange(0, i as int), x),
            n <= i,
        decreases v.len() - i,
    {
        assert(v@.subrange(0, i + 1).drop_last() =~= v@.subrange(0, i as int));
        if v[i] == x {
            n = n + 1;
        }
        i = i + 1;
    }
    assert(v@.subrange(0, v.len() as int) =~= v@);
    n
}

/// `v` with each group of equal neighbours kept once.
pub fn dedup_faces(v: &Vec<u8>) -> (r: Vec<u8>)
    ensures
        r@ == dedup(v@),
{
    let mut out: Vec<u8> = Vec::new();
    let mut i: usize = 0;
    while i < v.len()
        invariant
            i <= v.len(),
            out@ == dedup(v@.subrange(0, i as int)),
        decreases v.len() - i,
    {
        assert(v@.subrange(0, i + 1).drop_last() =~= v@.subrange(0, i as int));
        let n = out.len();
        if n == 0 || out[n - 1] != v[i] {
            out.push(v[i]);
        }
        i = i + 1;
    }
    assert(v@.subrange(0, v.len() as int) =~= v@);
    out
}

/// A run never holds more values than there are from zero up to its last one.
pub proof fn lemma_run_len_bound(d: Seq<u8>, k: int)
    requires
        0 <= k < d.len(),
    ensures
        1 <= run_len_at(d, k) <= d[k] + 1,
        run_len_at(d, k) <= k + 1,
    decreases k,
{
    if k > 0 && d[k] == d[k - 1] + 1 {
        lemma_run_len_bound(d, k - 1);
    }
}

/// The first best run end lies among the first `n` indices.
pub proof fn lemma_best_run_end_bound(d: Seq<u8>, n: int)
    requires
        1 <= n,
    ensures
        0 <= best_run_end(d, n) < n,
    decreases n,
{
    if n > 1 {
        lemma_best_run_end_bound(d, n - 1);
    }
}

/// The first longest run of consecutive values of a non-empty `d`: its
/// highest value and its length.
pub fn longest_run(d: &Vec<u8>) -> (r: (u8, usize))
    requires
        d@.len() >= 1,
    ensures
        r.0 == d@[best_run_end(d@, d@.len() as int)],
        r.1 == run_len_at(d@, best_run_end(d@, d@.len() as int)),
{
    let mut cur: usize = 1;
    let mut best: usize = 0;
    let mut best_len: usize = 1;
    let mut k: usize = 1;
    while k < d.len()
        invariant
            1 <= k <= d.len(),
            cur == run_len_at(d@, k - 1),
            best == best_run_end(d@, k as int),
            best < k,
            best_len == run_len_at(d@, best as int),
        decreases d.len() - k,
    {
        proof {
            lemma_run_len_bound(d@, k - 1);
        }
        if d[k - 1] < 255 && d[k] == d[k - 1] + 1 {
            cur = cur + 1;
        } else {
            cur = 1;
        }
        if cur > best_len {
            best = k;
            best_len = cur;
        }
        k = k + 1;
    }
    (d[best], best_len)
}


/// Whether every face of `v` equals `x`.
pub fn all_equal_to(v: &Vec<u8>, x: u8) -> (r: bool)
    ensures
        r == (forall|i: int| 0 <= i < v@.len() ==> v@[i] == x),
{
    let mut i: usize = 0;
    while i < v.len()
        invariant
            i <= v.len(),
            forall|k: int| 0 <= k < i ==> v@[k] == x,
        decreases v.len() - i,
    {
        if v[i] != x {
            return false;
        }
        i = i + 1;
    }
    true
}

/// Whether every face of `v` is above `x`.
pub fn all_above(v: &Vec<u8>, x: u8) -> (r: bool)
    ensures
        r == (forall|i: int| 0 <= i < v@.len() ==> v@[i] > x),
{
    let mut i: usize = 0;
    while i < v.len()
        invariant
            i <= v.len(),
            forall|k: int| 0 <= k < i ==> v@[k] > x,
        decreases v.len() - i,
    {
        if v[i] <= x {
            return false;
        }
        i = i + 1;
    }
    true
}

/// Whether every face of `v` is below `x`.
pub fn all_below(v: &Vec<u8>, x: u8) -> (r: bool)
    ensures
        r == (forall|i: int| 0 <= i < v@.len() ==> v@[i] < x),
{
    let mut i: usize = 0;
    while i < v.len()
        invariant
            i <= v.len(),
            forall|k: int| 0 <= k < i ==> v@[k] < x,
        decreases v.len() - i,
    {
        if v[i] >= x {
            return false;
        }
        i = i + 1;
    }
    true
}

/// Whether some face of `v` equals `x`.
pub fn has_face(v: &Vec<u8>, x: u8) -> (r: bool)
    ensures
        r == v@.contains(x),
{
    let mut i: usize = 0;
    while i < v.len()
        invariant
            i <= v.len(),
            forall|k: int| 0 <= k < i ==> v@[k] != x,
        decreases v.len() - i,
    {
        if v[i] == x {
            return true;
        }
        i = i + 1;
    }
    false
}

} // verus!
