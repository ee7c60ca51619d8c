//! Counting, summing and filtering over a sequence.

use vstd::prelude::*;

verus! {

/// How many positions below `n` satisfy `f`.
pub open spec fn count_upto(n: nat, f: spec_fn(int) -> bool) -> nat
    decreases n,
{
    if n == 0 {
        0
    } else {
        count_upto((n - 1) as nat, f) + (if f(n - 1) {
            1nat
        } else {
            0nat
        })
    }
}

/// The sum of `f` over the positions below `n`.
pub open spec fn sum_upto(n: nat, f: spec_fn(int) -> int) -> int
    decreases n,
{
    if n == 0 {
        0
    } else {
        sum_upto((n - 1) as nat, f) + f(n - 1)
    }
}

/// A count never exceeds the number of positions.
pub proof fn lemma_count_bound(n: nat, f: spec_fn(int) -> bool)
    ensures
        count_upto(n, f) <= n,
    decreases n,
{
    if n > 0 {
        lemma_count_bound((n - 1) as nat, f);
    }
}

/// Two predicates that agree below `n` give the same count.
pub proof fn lemma_count_agree(n: nat, f: spec_fn(int) -> bool, g: spec_fn(int) -> bool)
    requires
        forall|i: int| 0 <= i < n ==> #[trigger] f(i) == g(i),
    ensures
        count_upto(n, f) == count_upto(n, g),
    decreases n,
{
    if n > 0 {
        lemma_count_agree((n - 1) as nat, f, g);
    }
}

/// Two predicates that agree below `n` except at `k` give counts that differ by what `k` adds.
pub proof fn lemma_count_flip(n: nat, f: spec_fn(int) -> bool, g: spec_fn(int) -> bool, k: int)
    requires
        0 <= k < n,
        forall|i: int| 0 <= i < n && i != k ==> #[trigger] f(i) == g(i),
    ensures
        count_upto(n, g) + (if f(k) {
            1nat
        } else {
            0nat
        }) == count_upto(n, f) + (if g(k) {
            1nat
        } else {
            0nat
        }),
    decreases n,
{
    if k == n - 1 {
        lemma_count_agree((n - 1) as nat, f, g);
    } else {
        lemma_count_flip((n - 1) as nat, f, g, k);
    }
}

/// A position that satisfies `f` makes the count positive.
pub proof fn lemma_count_positive(n: nat, f: spec_fn(int) -> bool, k: int)
    requires
        0 <= k < n,
        f(k),
    ensures
        count_upto(n, f) >= 1,
    decreases n,
{
    if k != n - 1 {
        lemma_count_positive((n - 1) as nat, f, k);
    }
}

/// A predicate that holds nowhere below `n` counts nothing.
pub proof fn lemma_count_none(n: nat, f: spec_fn(int) -> bool)
    requires
        forall|i: int| 0 <= i < n ==> !#[trigger] f(i),
    ensures
        count_upto(n, f) == 0,
    decreases n,
{
    if n > 0 {
        lemma_count_none((n - 1) as nat, f);
    }
}

/// Two functions that agree below `n` give the same sum.
pub proof fn lemma_sum_agree(n: nat, f: spec_fn(int) -> int, g: spec_fn(int) -> int)
    requires
        forall|i: int| 0 <= i < n ==> #[trigger] f(i) == g(i),
    ensures
        sum_upto(n, f) == sum_upto(n, g),
    decreases n,
{
    if n > 0 {
        lemma_sum_agree((n - 1) as nat, f, g);
    }
}

/// A sum of terms between 0 and `bound` lies between 0 and `n * bound`.
pub proof fn lemma_sum_bound(n: nat, f: spec_fn(int) -> int, bound: int)
    requires
        forall|i: int| 0 <= i < n ==> 0 <= #[trigger] f(i) <= bound,
    ensures
        0 <= sum_upto(n, f) <= n * bound,
    decreases n,
{
    if n > 0 {
        lemma_sum_bound((n - 1) as nat, f, bound);
        assert(n * bound == (n - 1) * bound + bound) by (nonlinear_arith);
    } else {
        assert(n * bound == 0) by (nonlinear_arith)
            requires
                n == 0,
        ;
    }
}

/// What a filter keeps: exactly the elements that satisfy the predicate, and
/// none of them twice where the sequence had none twice.
pub proof fn lemma_filter_keeps<A>(s: Seq<A>, p: spec_fn(A) -> bool)
    ensures
        forall|x: A| #[trigger] s.filter(p).contains(x) <==> s.contains(x) && p(x),
        s.no_duplicates() ==> s.filter(p).no_duplicates(),
    decreases s.len(),
{
    reveal(Seq::filter);
    if s.len() == 0 {
        assert forall|x: A| #[trigger] s.filter(p).contains(x) <==> s.contains(x) && p(x) by {}
    } else {
        let rest = s.drop_last();
        let last = s.last();
        lemma_filter_keeps(rest, p);
        assert forall|x: A| #[trigger] s.filter(p).contains(x) <==> s.contains(x) && p(x) by {
            if s.filter(p).contains(x) {
                let i = choose|i: int| 0 <= i < s.filter(p).len() && s.filter(p)[i] == x;
                if p(last) && i == rest.filter(p).len() {
                    assert(s[s.len() - 1] == x);
                } else {
                    assert(rest.filter(p)[i] == x);
                    assert(rest.filter(p).contains(x));
                    let j = choose|j: int| 0 <= j < rest.len() && rest[j] == x;
                    assert(s[j] == x);
                }
            }
            if s.contains(x) && p(x) {
                let j = choose|j: int| 0 <= j < s.len() && s[j] == x;
                if j == s.len() - 1 {
                    assert(s.filter(p)[rest.filter(p).len() as int] == x);
                } else {
                    assert(rest[j] == x);
                    assert(rest.filter(p).contains(x));
                    let i = choose|i: int| 0 <= i < rest.filter(p).len() && rest.filter(p)[i] == x;
                    assert(s.filter(p)[i] == x);
                }
            }
        }
        if s.no_duplicates() {
            assert(rest.no_duplicates());
            if p(last) {
                if rest.filter(p).contains(last) {
                    let j = choose|j: int| 0 <= j < rest.len() && rest[j] == last;
                    assert(s[j] == s[s.len() - 1]);
                }
                assert(s.filter(p).no_duplicates());
            }
        }
    }
}

} // verus!
