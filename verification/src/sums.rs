//! Finite sums of integers, and the rearrangements that leave them unchanged.
use vstd::prelude::*;

verus! {

/// The sum `f(0) + f(1) + ... + f(k - 1)`.
pub open spec fn sum_of(f: spec_fn(int) -> int, k: nat) -> int
    decreases k,
{
    if k == 0 {
        0
    } else {
        sum_of(f, (k - 1) as nat) + f(k - 1)
    }
}

/// Sums of terms that agree are equal.
pub proof fn lemma_sum_of_equal_terms(f: spec_fn(int) -> int, g: spec_fn(int) -> int, k: nat)
    requires
        forall|i: int| 0 <= i < k ==> #[trigger] f(i) == g(i),
    ensures
        sum_of(f, k) == sum_of(g, k),
    decreases k,
{
    if k > 0 {
        lemma_sum_of_equal_terms(f, g, (k - 1) as nat);
    }
}

/// A sum may take its first term last.
pub proof fn lemma_sum_first_term_last(f: spec_fn(int) -> int, g: spec_fn(int) -> int, k: nat)
    requires
        forall|i: int| 0 <= i < k ==> #[trigger] g(i) == f(i + 1),
    ensures
        sum_of(g, k) + f(0) == sum_of(f, k + 1),
    decreases k,
{
    if k > 0 {
        lemma_sum_first_term_last(f, g, (k - 1) as nat);
        assert(g(k - 1) == f(k as int));
    } else {
        assert(sum_of(f, 0) == 0);
    }
    assert(sum_of(f, k + 1) == sum_of(f, k) + f(k as int));
}

/// The sum of the negated terms, taken in the opposite order, is the negated
/// sum.
pub proof fn lemma_sum_negated_backwards(f: spec_fn(int) -> int, g: spec_fn(int) -> int, k: nat)
    requires
        forall|i: int| 0 <= i < k ==> #[trigger] g(i) == -f(k - 1 - i),
    ensures
        sum_of(g, k) == -sum_of(f, k),
    decreases k,
{
    if k > 0 {
        let f_tail = |i: int| f(i + 1);
        let g_head = |i: int| g(i);
        assert forall|i: int| 0 <= i < k - 1 implies #[trigger] g_head(i) == -f_tail(k - 2 - i) by {
            assert(g(i) == -f(k - 1 - i));
        }
        lemma_sum_negated_backwards(f_tail, g_head, (k - 1) as nat);
        lemma_sum_of_equal_terms(g, g_head, (k - 1) as nat);
        lemma_sum_first_term_last(f, f_tail, (k - 1) as nat);
        assert(g(k - 1) == -f(0));
    }
}

/// The differences between neighbours add up to the difference between the
/// ends.
pub proof fn lemma_sum_telescopes(f: spec_fn(int) -> int, d: spec_fn(int) -> int, k: nat)
    requires
        forall|i: int| 0 <= i < k ==> #[trigger] d(i) == f(i + 1) - f(i),
    ensures
        sum_of(d, k) == f(k as int) - f(0),
    decreases k,
{
    if k > 0 {
        lemma_sum_telescopes(f, d, (k - 1) as nat);
    }
}

/// A sum of terms `f(i) + a * g(i) + b * h(i)` splits into three sums.
pub proof fn lemma_sum_splits(
    t: spec_fn(int) -> int,
    f: spec_fn(int) -> int,
    a: int,
    g: spec_fn(int) -> int,
    b: int,
    h: spec_fn(int) -> int,
    k: nat,
)
    requires
        forall|i: int| 0 <= i < k ==> #[trigger] t(i) == f(i) + a * g(i) + b * h(i),
    ensures
        sum_of(t, k) == sum_of(f, k) + a * sum_of(g, k) + b * sum_of(h, k),
    decreases k,
{
    if k > 0 {
        lemma_sum_splits(t, f, a, g, b, h, (k - 1) as nat);
        let sg = sum_of(g, (k - 1) as nat);
        let sh = sum_of(h, (k - 1) as nat);
        assert(a * (sg + g(k - 1)) == a * sg + a * g(k - 1)) by (nonlinear_arith);
        assert(b * (sh + h(k - 1)) == b * sh + b * h(k - 1)) by (nonlinear_arith);
    }
}

} // verus!
