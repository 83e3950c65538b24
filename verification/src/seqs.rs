//! Facts about sequences that the game's proofs share.

use vstd::prelude::*;

verus! {

/// Pushing `x` onto `s` adds `x` and nothing else.
pub proof fn lemma_push<A>(s: Seq<A>, x: A)
    ensures
        forall|p: A| #[trigger] s.push(x).contains(p) <==> p == x || s.contains(p),
{
    let t = s.push(x);
    assert forall|p: A| #[trigger] t.contains(p) <==> p == x || s.contains(p) by {
        if t.contains(p) {
            let k = choose|k: int| 0 <= k < t.len() && t[k] == p;
            if k < s.len() {
                assert(s[k] == p);
            }
        }
        if s.contains(p) {
            let k = choose|k: int| 0 <= k < s.len() && s[k] == p;
            assert(t[k] == p);
        }
        if p == x {
            assert(t[s.len() as int] == p);
        }
    }
}

/// Putting `x` in front of `s` adds `x` and nothing else, keeps what `s`
/// said of each of its members, and repeats nothing unless `s` did or
/// already held `x`.
pub proof fn lemma_insert_front<A>(s: Seq<A>, x: A)
    ensures
        s.insert(0, x).len() == s.len() + 1,
        s.insert(0, x)[0] == x,
        forall|i: int| 0 <= i < s.len() ==> #[trigger] s.insert(0, x)[i + 1] == s[i],
        forall|p: A| #[trigger] s.insert(0, x).contains(p) <==> p == x || s.contains(p),
        s.no_duplicates() && !s.contains(x) ==> s.insert(0, x).no_duplicates(),
{
    let t = s.insert(0, x);
    assert forall|p: A| #[trigger] t.contains(p) <==> p == x || s.contains(p) by {
        if t.contains(p) {
            let k = choose|k: int| 0 <= k < t.len() && t[k] == p;
            if k > 0 {
                assert(s[k - 1] == p);
            }
        }
        if s.contains(p) {
            let k = choose|k: int| 0 <= k < s.len() && s[k] == p;
            assert(t[k + 1] == p);
        }
        if p == x {
            assert(t[0] == p);
        }
    }
    if s.no_duplicates() && !s.contains(x) {
        assert forall|i: int, j: int| 0 <= i < t.len() && 0 <= j < t.len() && i != j implies t[i]
            != t[j] by {
            if i > 0 {
                assert(s.contains(s[i - 1]));
            }
            if j > 0 {
                assert(s.contains(s[j - 1]));
            }
        }
    }
}

/// Dropping the last member of `s` adds nothing and repeats nothing that
/// `s` did not.
pub proof fn lemma_drop_last<A>(s: Seq<A>)
    requires
        s.len() >= 1,
    ensures
        s.drop_last().len() == s.len() - 1,
        forall|i: int| 0 <= i < s.len() - 1 ==> #[trigger] s.drop_last()[i] == s[i],
        forall|p: A| #[trigger] s.drop_last().contains(p) ==> s.contains(p),
        s.no_duplicates() ==> s.drop_last().no_duplicates(),
{
    let t = s.drop_last();
    assert forall|p: A| #[trigger] t.contains(p) implies s.contains(p) by {
        let k = choose|k: int| 0 <= k < t.len() && t[k] == p;
        assert(s[k] == p);
    }
}

/// Removing the member at `at` from `s` adds nothing, keeps every member
/// that differs from the removed one, and repeats nothing that `s` did not;
/// where `s` repeats nothing, the removed member is gone.
pub proof fn lemma_remove<A>(s: Seq<A>, at: int)
    requires
        0 <= at < s.len(),
    ensures
        s.remove(at).len() == s.len() - 1,
        forall|i: int| 0 <= i < at ==> #[trigger] s.remove(at)[i] == s[i],
        forall|i: int| at <= i < s.len() - 1 ==> #[trigger] s.remove(at)[i] == s[i + 1],
        forall|p: A| #[trigger] s.remove(at).contains(p) ==> s.contains(p),
        forall|p: A| s.contains(p) && p != s[at] ==> #[trigger] s.remove(at).contains(p),
        s.no_duplicates() ==> s.remove(at).no_duplicates() && !s.remove(at).contains(s[at]),
{
    let t = s.remove(at);
    assert forall|p: A| #[trigger] t.contains(p) implies s.contains(p) by {
        let k = choose|k: int| 0 <= k < t.len() && t[k] == p;
        if k < at {
            assert(s[k] == p);
        } else {
            assert(s[k + 1] == p);
        }
    }
    assert forall|p: A| s.contains(p) && p != s[at] implies #[trigger] t.contains(p) by {
        let k = choose|k: int| 0 <= k < s.len() && s[k] == p;
        if k < at {
            assert(t[k] == p);
        } else {
            assert(t[k - 1] == p);
        }
    }
    if s.no_duplicates() {
        assert forall|i: int, j: int| 0 <= i < t.len() && 0 <= j < t.len() && i != j implies t[i]
            != t[j] by {
            let si = if i < at { i } else { i + 1 };
            let sj = if j < at { j } else { j + 1 };
            assert(t[i] == s[si] && t[j] == s[sj]);
        }
        if t.contains(s[at]) {
            let k = choose|k: int| 0 <= k < t.len() && t[k] == s[at];
            let sk = if k < at { k } else { k + 1 };
            assert(t[k] == s[sk]);
        }
    }
}

} // verus!
