//! Bookkeeping on the entity lists of a frame: removing the entities that
//! were hit, and capping the length of a trail.
use vstd::prelude::*;

verus! {

/// Marks, for each position below `n`, whether it occurs in `indices`.
pub open spec fn marks_of(indices: Seq<usize>, n: nat) -> Seq<bool> {
    Seq::new(n, |i: int| indices.contains(i as usize))
}

/// The elements of `s` at the positions `lo..hi` whose mark is not set, in order.
pub open spec fn kept_range<T>(s: Seq<T>, marks: Seq<bool>, lo: int, hi: int) -> Seq<T>
    decreases hi - lo,
{
    if lo >= hi {
        Seq::empty()
    } else if marks[lo] {
        kept_range(s, marks, lo + 1, hi)
    } else {
        seq![s[lo]] + kept_range(s, marks, lo + 1, hi)
    }
}

/// The number of set marks at the positions `lo..hi`.
pub open spec fn count_marked(marks: Seq<bool>, lo: int, hi: int) -> nat
    decreases hi - lo,
{
    if lo >= hi {
        0
    } else if marks[lo] {
        1 + count_marked(marks, lo + 1, hi)
    } else {
        count_marked(marks, lo + 1, hi)
    }
}

/// What is left of `s` once every position listed in `indices` is taken out:
/// the other elements, in the order they had. A position listed twice is
/// taken out once.
pub open spec fn without_indices<T>(s: Seq<T>, indices: Seq<usize>) -> Seq<T> {
    kept_range(s, marks_of(indices, s.len()), 0, s.len() as int)
}

/// The last `max` elements of `s`, or all of `s` where it is shorter.
pub open spec fn last_n<T>(s: Seq<T>, max: nat) -> Seq<T> {
    if s.len() > max {
        s.skip(s.len() - max)
    } else {
        s
    }
}

proof fn lemma_kept_range_len<T>(s: Seq<T>, marks: Seq<bool>, lo: int, hi: int)
    requires
        0 <= lo,
        hi <= marks.len(),
    ensures
        lo <= hi ==> kept_range(s, marks, lo, hi).len() + count_marked(marks, lo, hi) == hi - lo,
    decreases hi - lo,
{
    if lo < hi {
        lemma_kept_range_len(s, marks, lo + 1, hi);
    }
}

proof fn lemma_kept_range_none_marked<T>(s: Seq<T>, marks: Seq<bool>, lo: int, hi: int)
    requires
        0 <= lo <= hi,
        hi <= s.len(),
        hi <= marks.len(),
        forall|i: int| lo <= i < hi ==> !marks[i],
    ensures
        kept_range(s, marks, lo, hi) == s.subrange(lo, hi),
    decreases hi - lo,
{
    if lo < hi {
        lemma_kept_range_none_marked(s, marks, lo + 1, hi);
        assert(s.subrange(lo, hi) =~= seq![s[lo]] + s.subrange(lo + 1, hi));
    }
}

proof fn lemma_kept_range_elements<T>(s: Seq<T>, marks: Seq<bool>, lo: int, hi: int, k: int)
    requires
        0 <= lo <= hi,
        hi <= s.len(),
        hi <= marks.len(),
        0 <= k < kept_range(s, marks, lo, hi).len(),
    ensures
        exists|i: int| lo <= i < hi && !marks[i] && s[i] == kept_range(s, marks, lo, hi)[k],
    decreases hi - lo,
{
    if lo < hi {
        if marks[lo] {
            lemma_kept_range_elements(s, marks, lo + 1, hi, k);
        } else if k == 0 {
            assert(kept_range(s, marks, lo, hi)[0] == s[lo]);
        } else {
            lemma_kept_range_elements(s, marks, lo + 1, hi, k - 1);
        }
    }
}

/// Takes out of `v` every position listed in `indices`, in any order and
/// with repetitions (a position listed twice is taken out once), keeping
/// the order of the rest.
pub fn remove_indices<T>(v: &mut Vec<T>, indices: &Vec<usize>)
    requires
        forall|i: int| 0 <= i < indices.len() ==> indices[i] < old(v).len(),
    ensures
        final(v)@ == without_indices(old(v)@, indices@),
{
    let n: usize = v.len();
    let ghost s = v@;
    let mut marked: Vec<bool> = vec![false; n];
    let mut j: usize = 0;
    while j < indices.len()
        invariant
            n == s.len(),
            v@ == s,
            forall|i: int| 0 <= i < indices.len() ==> indices[i] < n,
            j <= indices.len(),
            marked.len() == n,
            forall|p: int| 0 <= p < n ==> marked[p] == indices@.subrange(0, j as int).contains(p as usize),
        decreases indices.len() - j,
    {
        let idx: usize = indices[j];
        marked.set(idx, true);
        proof {
            let sub = indices@.subrange(0, j as int);
            let sub2 = indices@.subrange(0, j + 1);
            assert(sub2 =~= sub.push(idx));
            assert forall|p: int| 0 <= p < n implies marked[p] == sub2.contains(p as usize) by {
                if p == idx as int {
                    assert(sub2[j as int] == idx);
                } else {
                    if sub.contains(p as usize) {
                        let w = choose|w: int| 0 <= w < sub.len() && sub[w] == p as usize;
                        assert(sub2[w] == sub[w]);
                    }
                    if sub2.contains(p as usize) {
                        let w = choose|w: int| 0 <= w < sub2.len() && sub2[w] == p as usize;
                        assert(w != j as int);
                        assert(sub[w] == sub2[w]);
                    }
                }
            }
        }
        j = j + 1;
    }
    assert(indices@.subrange(0, indices.len() as int) =~= indices@);
    let ghost marks = marks_of(indices@, n as nat);
    assert(marked@ =~= marks);
    let mut k: usize = n;
    assert(s.take(n as int) =~= s);
    while k > 0
        invariant
            n == s.len(),
            marked@ == marks,
            marks.len() == n,
            k <= n,
            v@ == s.take(k as int) + kept_range(s, marks, k as int, n as int),
        decreases k,
    {
        let p: usize = k - 1;
        let ghost before = v@;
        if marked[p] {
            v.remove(p);
            assert(v@ =~= s.take(p as int) + kept_range(s, marks, k as int, n as int));
        } else {
            assert(s.take(k as int) =~= s.take(p as int) + seq![s[p as int]]);
            assert(v@ =~= s.take(p as int) + kept_range(s, marks, p as int, n as int));
        }
        k = p;
    }
    assert(v@ =~= kept_range(s, marks, 0, n as int));
}

/// Keeps only the last `max` elements of `v`, dropping the oldest ones from
/// the front.
pub fn keep_last<T>(v: &mut Vec<T>, max: usize)
    ensures
        final(v)@ == last_n(old(v)@, max as nat),
{
    let len: usize = v.len();
    if len > max {
        let tail: Vec<T> = v.split_off(len - max);
        *v = tail;
    }
}

/// Taking out no position leaves a sequence unchanged.
pub proof fn law_remove_nothing<T>(s: Seq<T>)
    ensures
        without_indices(s, Seq::<usize>::empty()) == s,
{
    let marks = marks_of(Seq::<usize>::empty(), s.len());
    lemma_kept_range_none_marked(s, marks, 0, s.len() as int);
    assert(s.subrange(0, s.len() as int) =~= s);
}

/// Taking positions out shortens a sequence by exactly the number of distinct
/// positions taken out, and every element that is left was in it at a position
/// that was not taken out.
pub proof fn law_remove_indices_exact<T>(s: Seq<T>, indices: Seq<usize>)
    requires
        forall|i: int| 0 <= i < indices.len() ==> indices[i] < s.len(),
    ensures
        without_indices(s, indices).len() + count_marked(marks_of(indices, s.len()), 0, s.len() as int)
            == s.len(),
        forall|k: int| 0 <= k < without_indices(s, indices).len() ==>
            exists|i: int| 0 <= i < s.len() && !indices.contains(i as usize) && s[i] == #[trigger] without_indices(s, indices)[k],
{
    let marks = marks_of(indices, s.len());
    lemma_kept_range_len(s, marks, 0, s.len() as int);
    assert forall|k: int| 0 <= k < without_indices(s, indices).len() implies
        exists|i: int| 0 <= i < s.len() && !indices.contains(i as usize) && s[i] == #[trigger] without_indices(s, indices)[k] by {
        lemma_kept_range_elements(s, marks, 0, s.len() as int, k);
    }
}

/// A trail never grows past its cap, and what it keeps is its newest part.
pub proof fn law_keep_last_bounded<T>(s: Seq<T>, max: nat)
    ensures
        last_n(s, max).len() <= max || last_n(s, max) == s,
        last_n(s, max).len() == if s.len() > max { max } else { s.len() },
        forall|k: int| 0 <= k < last_n(s, max).len() ==>
            #[trigger] last_n(s, max)[k] == s[s.len() - last_n(s, max).len() + k],
{
}

} // verus!
