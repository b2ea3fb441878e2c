//! Finite sums over a coefficient type, and what the ring laws give of them.

use crate::traits::laws::add_associative;
use crate::traits::laws::add_commutative;
use crate::traits::laws::additive_identity;
use crate::traits::laws::distributive;
use crate::traits::laws::zero_absorbing;
use crate::traits::Ring;
use vstd::prelude::*;
use vstd::std_specs::ops::AddSpec;
use vstd::std_specs::ops::MulSpec;

verus! {

/// The sum `f(0) + f(1) + ... + f(n - 1)`, added from zero in this order.
pub open spec fn sum<T: Ring>(n: int, f: spec_fn(int) -> T) -> T
    decreases n,
{
    if n <= 0 {
        T::zero_spec()
    } else {
        sum(n - 1, f).add_spec(f(n - 1))
    }
}

/// Sums of terms that agree are equal.
pub proof fn lemma_sum_congruent<T: Ring>(n: int, f: spec_fn(int) -> T, g: spec_fn(int) -> T)
    requires
        forall|i: int| 0 <= i < n ==> #[trigger] f(i) == g(i),
    ensures
        sum(n, f) == sum(n, g),
    decreases n,
{
    if n > 0 {
        lemma_sum_congruent(n - 1, f, g);
    }
}

/// Terms that are zero at the end of a sum can be left out.
pub proof fn lemma_sum_zero_tail<T: Ring>(n: int, m: int, f: spec_fn(int) -> T)
    requires
        additive_identity::<T>(),
        0 <= n <= m,
        forall|i: int| n <= i < m ==> #[trigger] f(i) == T::zero_spec(),
    ensures
        sum(m, f) == sum(n, f),
    decreases m,
{
    if m > n {
        lemma_sum_zero_tail(n, m - 1, f);
    }
}

/// The first term of a sum can be added last.
pub proof fn lemma_sum_first_last<T: Ring>(n: int, f: spec_fn(int) -> T)
    requires
        add_commutative::<T>(),
        add_associative::<T>(),
        n >= 1,
    ensures
        sum(n, f) == sum(n - 1, |i: int| f(i + 1)).add_spec(f(0)),
    decreases n,
{
    let shifted = |i: int| f(i + 1);
    if n > 1 {
        lemma_sum_first_last(n - 1, f);
        let rest = sum(n - 2, shifted);
        assert(sum(n - 1, f) == rest.add_spec(f(0)));
        assert(sum(n, f) == rest.add_spec(f(0)).add_spec(f(n - 1)));
        assert(shifted(n - 2) == f(n - 1));
        assert(rest.add_spec(f(0)).add_spec(f(n - 1)) == rest.add_spec(f(0).add_spec(f(n - 1))));
        assert(f(0).add_spec(f(n - 1)) == f(n - 1).add_spec(f(0)));
        assert(rest.add_spec(f(n - 1)).add_spec(f(0)) == rest.add_spec(f(n - 1).add_spec(f(0))));
        assert(sum(n - 1, shifted) == rest.add_spec(f(n - 1)));
    } else {
        assert(sum(0, f) == T::zero_spec());
        assert(sum(0, shifted) == T::zero_spec());
    }
}

/// A sum can be added in the opposite order.
pub proof fn lemma_sum_reversed<T: Ring>(n: int, f: spec_fn(int) -> T)
    requires
        add_commutative::<T>(),
        add_associative::<T>(),
    ensures
        sum(n, f) == sum(n, |i: int| f(n - 1 - i)),
    decreases n,
{
    if n > 0 {
        let reversed = |i: int| f(n - 1 - i);
        let shifted = |i: int| f(i + 1);
        let shifted_reversed = |i: int| shifted(n - 2 - i);
        lemma_sum_first_last(n, f);
        lemma_sum_reversed(n - 1, shifted);
        assert(sum(n - 1, shifted) == sum(n - 1, shifted_reversed));
        assert forall|i: int| 0 <= i < n - 1 implies #[trigger] shifted_reversed(i) == reversed(i) by {}
        lemma_sum_congruent(n - 1, shifted_reversed, reversed);
        assert(reversed(n - 1) == f(0));
    }
}

/// The sum of `f(i) + g(i)` is the sum of the `f(i)` plus the sum of the
/// `g(i)`.
pub proof fn lemma_sum_of_sums<T: Ring>(n: int, f: spec_fn(int) -> T, g: spec_fn(int) -> T)
    requires
        add_commutative::<T>(),
        add_associative::<T>(),
        additive_identity::<T>(),
    ensures
        sum(n, |i: int| f(i).add_spec(g(i))) == sum(n, f).add_spec(sum(n, g)),
    decreases n,
{
    let both = |i: int| f(i).add_spec(g(i));
    if n > 0 {
        lemma_sum_of_sums(n - 1, f, g);
        let a = sum(n - 1, f);
        let b = sum(n - 1, g);
        let x = f(n - 1);
        let y = g(n - 1);
        assert(sum(n, both) == a.add_spec(b).add_spec(x.add_spec(y)));
        assert(a.add_spec(b).add_spec(x.add_spec(y)) == a.add_spec(b.add_spec(x.add_spec(y))));
        assert(b.add_spec(x.add_spec(y)) == b.add_spec(x).add_spec(y));
        assert(b.add_spec(x) == x.add_spec(b));
        assert(x.add_spec(b).add_spec(y) == x.add_spec(b.add_spec(y)));
        assert(a.add_spec(x).add_spec(b.add_spec(y)) == a.add_spec(x.add_spec(b.add_spec(y))));
    } else {
        assert(T::zero_spec().add_spec(T::zero_spec()) == T::zero_spec());
    }
}

/// A factor on the right of a sum can be taken into each term.
pub proof fn lemma_sum_times<T: Ring>(n: int, f: spec_fn(int) -> T, c: T)
    requires
        distributive::<T>(),
        zero_absorbing::<T>(),
    ensures
        sum(n, f).mul_spec(c) == sum(n, |i: int| f(i).mul_spec(c)),
    decreases n,
{
    if n > 0 {
        lemma_sum_times(n - 1, f, c);
        assert(sum(n - 1, f).add_spec(f(n - 1)).mul_spec(c) == sum(n - 1, f).mul_spec(c).add_spec(
            f(n - 1).mul_spec(c),
        ));
    } else {
        assert(T::zero_spec().mul_spec(c) == T::zero_spec());
    }
}

/// A factor on the left of a sum can be taken into each term.
pub proof fn lemma_times_sum<T: Ring>(n: int, c: T, f: spec_fn(int) -> T)
    requires
        distributive::<T>(),
        zero_absorbing::<T>(),
    ensures
        c.mul_spec(sum(n, f)) == sum(n, |i: int| c.mul_spec(f(i))),
    decreases n,
{
    if n > 0 {
        lemma_times_sum(n - 1, c, f);
        assert(c.mul_spec(sum(n - 1, f).add_spec(f(n - 1))) == c.mul_spec(sum(n - 1, f)).add_spec(
            c.mul_spec(f(n - 1)),
        ));
    } else {
        assert(c.mul_spec(T::zero_spec()) == T::zero_spec());
    }
}

} // verus!
