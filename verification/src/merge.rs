//! Merging the two separately captured, timestamped line sequences into
//! one combined sequence, ordered by capture timestamp.
//!
//! The merge is stable and loses nothing: lines with equal timestamps
//! keep the standard-output line first and otherwise keep their arrival
//! order, instead of one line silently replacing the other.

use vstd::prelude::*;

verus! {

broadcast use {vstd::seq_lib::group_to_multiset_ensures, vstd::multiset::group_multiset_axioms};

/// A captured line tagged with its capture timestamp.
pub type TaggedLine = (u64, String);

/// True when the capture timestamps in `s` never decrease.
pub open spec fn ts_sorted(s: Seq<TaggedLine>) -> bool {
    forall|i: int, j: int| 0 <= i <= j < s.len() ==> (#[trigger] s[i]).0 <= (#[trigger] s[j]).0
}

/// The stable merge of two timestamped sequences by timestamp
/// ascending. On a timestamp tie the line of `a` -- the standard-output
/// stream -- comes first, so no line is ever dropped.
pub open spec fn merge_tagged(a: Seq<TaggedLine>, b: Seq<TaggedLine>) -> Seq<TaggedLine>
    decreases a.len() + b.len(),
{
    if a.len() == 0 {
        b
    } else if b.len() == 0 {
        a
    } else if a.first().0 <= b.first().0 {
        seq![a.first()] + merge_tagged(a.drop_first(), b)
    } else {
        seq![b.first()] + merge_tagged(a, b.drop_first())
    }
}

/// The merge holds exactly the lines of both inputs: none is lost and
/// none is invented, however the timestamps collide.
pub proof fn lemma_merge_no_loss(a: Seq<TaggedLine>, b: Seq<TaggedLine>)
    ensures
        merge_tagged(a, b).len() == a.len() + b.len(),
        merge_tagged(a, b).to_multiset() == a.to_multiset().add(b.to_multiset()),
    decreases a.len() + b.len(),
{
    broadcast use vstd::seq_lib::lemma_multiset_commutative;

    if a.len() == 0 {
        assert(Seq::<TaggedLine>::empty() + b =~= b);
        assert(merge_tagged(a, b).to_multiset() =~= a.to_multiset().add(b.to_multiset()));
    } else if b.len() == 0 {
        assert(a + Seq::<TaggedLine>::empty() =~= a);
        assert(merge_tagged(a, b).to_multiset() =~= a.to_multiset().add(b.to_multiset()));
    } else if a.first().0 <= b.first().0 {
        lemma_merge_no_loss(a.drop_first(), b);
        assert(seq![a.first()] + a.drop_first() =~= a);
        assert(merge_tagged(a, b).to_multiset() =~= a.to_multiset().add(b.to_multiset()));
    } else {
        lemma_merge_no_loss(a, b.drop_first());
        assert(seq![b.first()] + b.drop_first() =~= b);
        assert(merge_tagged(a, b).to_multiset() =~= a.to_multiset().add(b.to_multiset()));
    }
}

/// Putting `x` in front of an already sorted sequence whose first
/// timestamp `x` does not exceed keeps the whole sequence sorted.
proof fn lemma_cons_ts_sorted(x: TaggedLine, rest: Seq<TaggedLine>)
    requires
        ts_sorted(rest),
        rest.len() > 0 ==> x.0 <= rest.first().0,
    ensures
        ts_sorted(seq![x] + rest),
{
    let s = seq![x] + rest;
    assert forall|i: int, j: int| 0 <= i <= j < s.len() implies (#[trigger] s[i]).0 <= (
    #[trigger] s[j]).0 by {
        if i == 0 {
            if j > 0 {
                assert(s[j] == rest[j - 1]);
                assert(rest[0].0 <= rest[j - 1].0);
            }
        } else {
            assert(s[i] == rest[i - 1]);
            assert(s[j] == rest[j - 1]);
        }
    }
}

/// Dropping the first element keeps a sequence sorted.
proof fn lemma_drop_first_ts_sorted(s: Seq<TaggedLine>)
    requires
        ts_sorted(s),
        s.len() > 0,
    ensures
        ts_sorted(s.drop_first()),
{
    assert forall|i: int, j: int|
        0 <= i <= j < s.drop_first().len() implies (#[trigger] s.drop_first()[i]).0 <= (
    #[trigger] s.drop_first()[j]).0 by {
        assert(s.drop_first()[i] == s[i + 1]);
        assert(s.drop_first()[j] == s[j + 1]);
    }
}

/// Merging two sequences whose timestamps never decrease gives a
/// combined sequence whose timestamps never decrease: the merge orders
/// the lines by capture time.
pub proof fn lemma_merge_ts_sorted(a: Seq<TaggedLine>, b: Seq<TaggedLine>)
    requires
        ts_sorted(a),
        ts_sorted(b),
    ensures
        ts_sorted(merge_tagged(a, b)),
    decreases a.len() + b.len(),
{
    if a.len() == 0 || b.len() == 0 {
    } else if a.first().0 <= b.first().0 {
        lemma_drop_first_ts_sorted(a);
        lemma_merge_ts_sorted(a.drop_first(), b);
        let rest = merge_tagged(a.drop_first(), b);
        if rest.len() > 0 {
            assert(a.first().0 <= rest.first().0) by {
                if a.drop_first().len() == 0 {
                    assert(rest == b);
                } else if a.drop_first().first().0 <= b.first().0 {
                    assert(rest == seq![a.drop_first().first()] + merge_tagged(
                        a.drop_first().drop_first(),
                        b,
                    ));
                    assert(rest.first() == a.drop_first().first());
                    assert(a.first().0 <= a[1].0);
                } else {
                    assert(rest == seq![b.first()] + merge_tagged(
                        a.drop_first(),
                        b.drop_first(),
                    ));
                    assert(rest.first() == b.first());
                }
            }
        }
        lemma_cons_ts_sorted(a.first(), rest);
    } else {
        lemma_drop_first_ts_sorted(b);
        lemma_merge_ts_sorted(a, b.drop_first());
        let rest = merge_tagged(a, b.drop_first());
        if rest.len() > 0 {
            assert(b.first().0 <= rest.first().0) by {
                if b.drop_first().len() == 0 {
                    assert(rest == a);
                } else if a.first().0 <= b.drop_first().first().0 {
                    assert(rest == seq![a.first()] + merge_tagged(
                        a.drop_first(),
                        b.drop_first(),
                    ));
                    assert(rest.first() == a.first());
                } else {
                    assert(rest == seq![b.drop_first().first()] + merge_tagged(
                        a,
                        b.drop_first().drop_first(),
                    ));
                    assert(rest.first() == b.drop_first().first());
                    assert(b.first().0 <= b[1].0);
                }
            }
        }
        lemma_cons_ts_sorted(b.first(), rest);
    }
}

/// True when `x` occurs inside `y` in order, though not necessarily
/// contiguously: greedy matching of `x` against `y` from the front.
pub open spec fn subsequence_of(x: Seq<TaggedLine>, y: Seq<TaggedLine>) -> bool
    decreases x.len() + y.len(),
{
    if x.len() == 0 {
        true
    } else if y.len() == 0 {
        false
    } else if x.first() == y.first() {
        subsequence_of(x.drop_first(), y.drop_first())
    } else {
        subsequence_of(x, y.drop_first())
    }
}

/// Every sequence occurs inside itself.
proof fn lemma_subseq_refl(x: Seq<TaggedLine>)
    ensures
        subsequence_of(x, x),
    decreases x.len(),
{
    if x.len() > 0 {
        lemma_subseq_refl(x.drop_first());
    }
}

/// Dropping the head of `x` keeps it a subsequence.
proof fn lemma_subseq_drop_first(x: Seq<TaggedLine>, y: Seq<TaggedLine>)
    requires
        subsequence_of(x, y),
        x.len() > 0,
    ensures
        subsequence_of(x.drop_first(), y),
    decreases y.len(),
{
    let x1 = x.drop_first();
    if x1.len() > 0 {
        if x.first() == y.first() {
            if x1.first() == y.first() {
                lemma_subseq_drop_first(x1, y.drop_first());
            }
        } else {
            lemma_subseq_drop_first(x, y.drop_first());
            if x1.first() == y.first() {
                lemma_subseq_drop_first(x1, y.drop_first());
            }
        }
    }
}

/// Putting one element in front of `y` keeps every subsequence of `y`
/// a subsequence.
proof fn lemma_subseq_cons(x: Seq<TaggedLine>, y: Seq<TaggedLine>, z: TaggedLine)
    requires
        subsequence_of(x, y),
    ensures
        subsequence_of(x, seq![z] + y),
{
    if x.len() > 0 {
        let c = seq![z] + y;
        assert(c.first() == z);
        assert(c.drop_first() =~= y);
        if x.first() == z {
            lemma_subseq_drop_first(x, y);
        }
    }
}

/// The merge is stable: each input sequence occurs inside the merged
/// sequence in its own original order, whatever the timestamps are.
pub proof fn lemma_merge_stable(a: Seq<TaggedLine>, b: Seq<TaggedLine>)
    ensures
        subsequence_of(a, merge_tagged(a, b)),
        subsequence_of(b, merge_tagged(a, b)),
    decreases a.len() + b.len(),
{
    if a.len() == 0 {
        lemma_subseq_refl(b);
    } else if b.len() == 0 {
        lemma_subseq_refl(a);
    } else if a.first().0 <= b.first().0 {
        lemma_merge_stable(a.drop_first(), b);
        let rest = merge_tagged(a.drop_first(), b);
        let m = seq![a.first()] + rest;
        assert(m.first() == a.first());
        assert(m.drop_first() =~= rest);
        lemma_subseq_cons(b, rest, a.first());
        assert(subsequence_of(b, m));
    } else {
        lemma_merge_stable(a, b.drop_first());
        let rest = merge_tagged(a, b.drop_first());
        let m = seq![b.first()] + rest;
        assert(m.first() == b.first());
        assert(m.drop_first() =~= rest);
        lemma_subseq_cons(a, rest, b.first());
        assert(subsequence_of(a, m));
    }
}

/// Merges the two timestamped line sequences that the two drain tasks
/// produced into one sequence ordered by capture timestamp, stably:
/// exactly the merge that `merge_tagged` describes.
pub fn merge_by_timestamp(a: &Vec<TaggedLine>, b: &Vec<TaggedLine>) -> (r: Vec<TaggedLine>)
    ensures
        r@ == merge_tagged(a@, b@),
{
    let mut r: Vec<TaggedLine> = Vec::new();
    let mut i: usize = 0;
    let mut j: usize = 0;
    proof {
        assert(a@.skip(0) =~= a@);
        assert(b@.skip(0) =~= b@);
        assert(r@ + merge_tagged(a@, b@) =~= merge_tagged(a@, b@));
    }
    while i < a.len() || j < b.len()
        invariant
            i <= a.len(),
            j <= b.len(),
            merge_tagged(a@, b@) == r@ + merge_tagged(a@.skip(i as int), b@.skip(j as int)),
        decreases a.len() - i + b.len() - j,
    {
        let ghost rest_a = a@.skip(i as int);
        let ghost rest_b = b@.skip(j as int);
        let take_a = if i < a.len() {
            if j < b.len() {
                a[i].0 <= b[j].0
            } else {
                true
            }
        } else {
            false
        };
        if take_a {
            let ts = a[i].0;
            let line = a[i].1.clone();
            proof {
                assert(rest_a.first() == a@[i as int]);
                assert((ts, line) == a@[i as int]);
                assert(rest_a.drop_first() =~= a@.skip(i as int + 1));
                if rest_b.len() == 0 {
                    assert(merge_tagged(rest_a, rest_b) == rest_a);
                    assert(rest_a =~= seq![rest_a.first()] + rest_a.drop_first());
                    assert(merge_tagged(rest_a.drop_first(), rest_b) == rest_a.drop_first());
                } else {
                    assert(rest_b.first() == b@[j as int]);
                }
                assert(merge_tagged(rest_a, rest_b) == seq![a@[i as int]] + merge_tagged(
                    a@.skip(i as int + 1),
                    rest_b,
                ));
                assert(r@.push(a@[i as int]) + merge_tagged(a@.skip(i as int + 1), rest_b) =~= r@
                    + merge_tagged(rest_a, rest_b));
            }
            r.push((ts, line));
            i = i + 1;
        } else {
            let ts = b[j].0;
            let line = b[j].1.clone();
            proof {
                assert(rest_b.len() > 0);
                assert(rest_b.first() == b@[j as int]);
                assert((ts, line) == b@[j as int]);
                assert(rest_b.drop_first() =~= b@.skip(j as int + 1));
                if rest_a.len() == 0 {
                    assert(merge_tagged(rest_a, rest_b) == rest_b);
                    assert(rest_b =~= seq![rest_b.first()] + rest_b.drop_first());
                    assert(merge_tagged(rest_a, rest_b.drop_first()) == rest_b.drop_first());
                } else {
                    assert(rest_a.first() == a@[i as int]);
                    assert(!(rest_a.first().0 <= rest_b.first().0));
                }
                assert(merge_tagged(rest_a, rest_b) == seq![b@[j as int]] + merge_tagged(
                    rest_a,
                    b@.skip(j as int + 1),
                ));
                assert(r@.push(b@[j as int]) + merge_tagged(rest_a, b@.skip(j as int + 1)) =~= r@
                    + merge_tagged(rest_a, rest_b));
            }
            r.push((ts, line));
            j = j + 1;
        }
    }
    proof {
        assert(a@.skip(a@.len() as int) =~= Seq::<TaggedLine>::empty());
        assert(b@.skip(b@.len() as int) =~= Seq::<TaggedLine>::empty());
        assert(merge_tagged(a@.skip(i as int), b@.skip(j as int)) =~= Seq::<
            TaggedLine,
        >::empty());
        assert(r@ + Seq::<TaggedLine>::empty() =~= r@);
    }
    r
}

} // verus!
