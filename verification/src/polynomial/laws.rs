//! What holds of the operations on polynomials, over every coefficient
//! type: how the accessors and the mutators relate, and which laws of the
//! coefficient ring carry over to sums and products of polynomials.
//!
//! The polynomials are their coefficient sequences, as the contracts of the
//! operations have them.

use crate::polynomial::arithmetic::convolution;
use crate::polynomial::arithmetic::longer;
use crate::polynomial::arithmetic::product_of;
use crate::polynomial::arithmetic::sum_of;
use crate::polynomial::coefficient_at;
use crate::polynomial::coefficient_or_zero;
use crate::polynomial::raised;
use crate::polynomial::sums::lemma_sum_congruent;
use crate::polynomial::sums::lemma_sum_of_sums;
use crate::polynomial::sums::lemma_sum_reversed;
use crate::polynomial::sums::lemma_sum_times;
use crate::polynomial::sums::lemma_sum_zero_tail;
use crate::polynomial::sums::lemma_times_sum;
use crate::polynomial::sums::sum;
use crate::polynomial::with_coefficient;
use crate::polynomial::zero_polynomial;
use crate::traits::laws::add_associative;
use crate::traits::laws::add_commutative;
use crate::traits::laws::additive_identity;
use crate::traits::laws::distributive;
use crate::traits::laws::mul_associative;
use crate::traits::laws::mul_commutative;
use crate::traits::laws::zero_absorbing;
use crate::traits::Ring;
use vstd::prelude::*;
use vstd::std_specs::ops::AddSpec;
use vstd::std_specs::ops::MulSpec;

verus! {

/// A coefficient that was set is the coefficient that is read at that
/// exponent.
pub proof fn lemma_set_then_get<T: Ring>(p: Seq<T>, d: nat, v: T)
    ensures
        coefficient_at(with_coefficient(p, d, v), d as int) == Some(v),
{
}

/// Setting a coefficient leaves the coefficients at the other exponents as
/// they were, those that the polynomial lacked being zero.
pub proof fn lemma_set_keeps_others<T: Ring>(p: Seq<T>, d: nat, v: T, e: int)
    requires
        0 <= e < with_coefficient(p, d, v).len(),
        e != d,
    ensures
        with_coefficient(p, d, v)[e] == coefficient_or_zero(p, e),
{
}

/// Raising the degree never lowers it, and changes no coefficient that the
/// polynomial had.
pub proof fn lemma_raised_keeps<T: Ring>(p: Seq<T>, d: nat)
    ensures
        raised(p, d).len() == longer(p.len(), d + 1),
        forall|i: int| 0 <= i < p.len() ==> #[trigger] raised(p, d)[i] == p[i],
        forall|i: int| p.len() <= i < raised(p, d).len() ==> #[trigger] raised(p, d)[i] == T::zero_spec(),
{
}

/// The degree of a sum is the larger of the two degrees, and the degree of
/// a product is the sum of the two degrees.
pub proof fn lemma_degrees<T: Ring>(p: Seq<T>, q: Seq<T>)
    requires
        p.len() >= 1,
        q.len() >= 1,
    ensures
        sum_of(p, q).len() - 1 == longer((p.len() - 1) as nat, (q.len() - 1) as nat),
        product_of(p, q).len() - 1 == (p.len() - 1) + (q.len() - 1),
{
}

/// The sum of polynomials is commutative where the sum of coefficients is.
pub proof fn lemma_sum_commutative<T: Ring>(p: Seq<T>, q: Seq<T>)
    requires
        add_commutative::<T>(),
    ensures
        sum_of(p, q) == sum_of(q, p),
{
    assert(sum_of(p, q) =~= sum_of(q, p));
}

/// The sum of polynomials is associative where the sum of coefficients is
/// and zero is its identity.
pub proof fn lemma_sum_associative<T: Ring>(p: Seq<T>, q: Seq<T>, r: Seq<T>)
    requires
        add_associative::<T>(),
        additive_identity::<T>(),
    ensures
        sum_of(sum_of(p, q), r) == sum_of(p, sum_of(q, r)),
{
    let left = sum_of(sum_of(p, q), r);
    let right = sum_of(p, sum_of(q, r));
    assert(left.len() == right.len());
    assert forall|i: int| 0 <= i < left.len() implies left[i] == right[i] by {
        let a = coefficient_or_zero(p, i);
        let b = coefficient_or_zero(q, i);
        let c = coefficient_or_zero(r, i);
        assert(T::zero_spec().add_spec(T::zero_spec()) == T::zero_spec());
        assert(coefficient_or_zero(sum_of(p, q), i) == a.add_spec(b));
        assert(coefficient_or_zero(sum_of(q, r), i) == b.add_spec(c));
        assert(a.add_spec(b).add_spec(c) == a.add_spec(b.add_spec(c)));
    }
    assert(left =~= right);
}

/// As many coefficients as `n`, each of them zero.
pub open spec fn zeros<T: Ring>(n: nat) -> Seq<T> {
    Seq::new(n, |i: int| T::zero_spec())
}

/// Against the canonical zero polynomial, every part of a convolution is
/// zero.
proof fn lemma_convolution_with_zero<T: Ring>(p: Seq<T>, k: int, n: int)
    requires
        additive_identity::<T>(),
        zero_absorbing::<T>(),
        0 <= n <= p.len(),
    ensures
        convolution(p, zero_polynomial::<T>(), k, n) == T::zero_spec(),
    decreases n,
{
    if n > 0 {
        lemma_convolution_with_zero(p, k, n - 1);
        assert(p[n - 1].mul_spec(T::zero_spec()) == T::zero_spec());
        assert(T::zero_spec().add_spec(T::zero_spec()) == T::zero_spec());
    }
}

/// The product with the canonical zero polynomial, on either side, has the
/// degree of the other factor and every coefficient zero, where zero is the
/// identity of the coefficients' sum and absorbs in their product.
pub proof fn lemma_product_with_zero<T: Ring>(p: Seq<T>)
    requires
        additive_identity::<T>(),
        zero_absorbing::<T>(),
        p.len() >= 1,
    ensures
        product_of(p, zero_polynomial::<T>()) == zeros::<T>(p.len()),
        product_of(zero_polynomial::<T>(), p) == zeros::<T>(p.len()),
{
    let zero = zero_polynomial::<T>();
    assert forall|k: int| 0 <= k < p.len() implies product_of(p, zero)[k] == T::zero_spec() by {
        lemma_convolution_with_zero(p, k, p.len() as int);
    }
    assert forall|k: int| 0 <= k < p.len() implies product_of(zero, p)[k] == T::zero_spec() by {
        assert(convolution(zero, p, k, 0) == T::zero_spec());
        assert(convolution(zero, p, k, 1) == T::zero_spec().add_spec(
            T::zero_spec().mul_spec(p[k]),
        ));
        assert(T::zero_spec().mul_spec(p[k]) == T::zero_spec());
        assert(T::zero_spec().add_spec(T::zero_spec()) == T::zero_spec());
    }
    assert(product_of(p, zero) =~= zeros::<T>(p.len()));
    assert(product_of(zero, p) =~= zeros::<T>(p.len()));
}

/// The least exponent of the first factor that meets a term of the second,
/// of length `len`, in the coefficient at `k`.
pub open spec fn window_start(k: int, len: int) -> int {
    if k - len + 1 > 0 {
        k - len + 1
    } else {
        0
    }
}

/// How many of the first `n` terms of the first factor meet a term of the
/// second, of length `len`, in the coefficient at `k`.
pub open spec fn window_count(k: int, n: int, len: int) -> int {
    let end = if n < k + 1 {
        n
    } else {
        k + 1
    };
    if end - window_start(k, len) > 0 {
        end - window_start(k, len)
    } else {
        0
    }
}

/// The products that make up the coefficient at `k`, counted from the first
/// one.
pub open spec fn window_term<T: Ring>(p: Seq<T>, q: Seq<T>, k: int) -> spec_fn(int) -> T {
    |t: int|
        p[window_start(k, q.len() as int) + t].mul_spec(
            q[k - window_start(k, q.len() as int) - t],
        )
}

/// The convolution is the sum of the products of the terms that meet.
pub proof fn lemma_convolution_window<T: Ring>(p: Seq<T>, q: Seq<T>, k: int, n: int)
    requires
        0 <= k,
        0 <= n <= p.len(),
    ensures
        convolution(p, q, k, n) == sum(
            window_count(k, n, q.len() as int),
            window_term(p, q, k),
        ),
    decreases n,
{
    if n > 0 {
        lemma_convolution_window(p, q, k, n - 1);
        let start = window_start(k, q.len() as int);
        if 0 <= k - (n - 1) < q.len() {
            assert(window_count(k, n, q.len() as int) == n - start);
            assert(window_count(k, n - 1, q.len() as int) == n - 1 - start);
            assert(window_term(p, q, k)(n - 1 - start) == p[n - 1].mul_spec(q[k - (n - 1)]));
        } else {
            assert(window_count(k, n, q.len() as int) == window_count(k, n - 1, q.len() as int));
        }
    }
}

/// The product of polynomials is commutative where the sum of coefficients
/// is commutative and associative and their product is commutative.
pub proof fn lemma_product_commutative<T: Ring>(p: Seq<T>, q: Seq<T>)
    requires
        add_commutative::<T>(),
        add_associative::<T>(),
        mul_commutative::<T>(),
        p.len() >= 1,
        q.len() >= 1,
    ensures
        product_of(p, q) == product_of(q, p),
{
    let left = product_of(p, q);
    let right = product_of(q, p);
    assert forall|k: int| 0 <= k < left.len() implies left[k] == right[k] by {
        lemma_convolution_window(p, q, k, p.len() as int);
        lemma_convolution_window(q, p, k, q.len() as int);
        let count = window_count(k, p.len() as int, q.len() as int);
        assert(count == window_count(k, q.len() as int, p.len() as int));
        let forward = window_term(p, q, k);
        let backward = window_term(q, p, k);
        let reversed = |i: int| forward(count - 1 - i);
        lemma_sum_reversed(count, forward);
        assert forall|t: int| 0 <= t < count implies #[trigger] backward(t) == reversed(t) by {
            let i = window_start(k, p.len() as int) + t;
            assert(backward(t) == q[i].mul_spec(p[k - i]));
            assert(reversed(t) == p[k - i].mul_spec(q[i]));
        }
        lemma_sum_congruent(count, backward, reversed);
    }
    assert(left =~= right);
}

/// The products `p[i] * q[k - i]`, a term that a factor lacks counting as
/// zero.
pub open spec fn padded_term<T: Ring>(p: Seq<T>, q: Seq<T>, k: int) -> spec_fn(int) -> T {
    |i: int| coefficient_or_zero(p, i).mul_spec(coefficient_or_zero(q, k - i))
}

/// The Cauchy product at `k`: the sum of `p[i] * q[k - i]` for `i` from
/// zero to `k`, a term that a factor lacks counting as zero.
pub open spec fn cauchy<T: Ring>(p: Seq<T>, q: Seq<T>, k: int) -> T {
    sum(k + 1, padded_term(p, q, k))
}

/// Where zero is the identity of the sum and absorbs in the product, the
/// convolution is the sum of the padded products.
pub proof fn lemma_convolution_padded<T: Ring>(p: Seq<T>, q: Seq<T>, k: int, n: int)
    requires
        additive_identity::<T>(),
        zero_absorbing::<T>(),
        0 <= n <= p.len(),
    ensures
        convolution(p, q, k, n) == sum(n, padded_term(p, q, k)),
    decreases n,
{
    if n > 0 {
        lemma_convolution_padded(p, q, k, n - 1);
        let before = convolution(p, q, k, n - 1);
        if 0 <= k - (n - 1) < q.len() {
        } else {
            assert(padded_term(p, q, k)(n - 1) == p[n - 1].mul_spec(T::zero_spec()));
            assert(before.add_spec(T::zero_spec()) == before);
        }
    }
}

/// Where zero is the identity of the sum and absorbs in the product, every
/// coefficient of the product is the Cauchy product at its exponent, and so
/// are the zeros above its degree.
pub proof fn lemma_product_is_cauchy<T: Ring>(p: Seq<T>, q: Seq<T>, k: int)
    requires
        additive_identity::<T>(),
        zero_absorbing::<T>(),
        p.len() >= 1,
        q.len() >= 1,
        0 <= k,
    ensures
        coefficient_or_zero(product_of(p, q), k) == cauchy(p, q, k),
{
    let term = padded_term(p, q, k);
    assert forall|i: int| p.len() <= i implies #[trigger] term(i) == T::zero_spec() by {
        assert(term(i) == T::zero_spec().mul_spec(coefficient_or_zero(q, k - i)));
    }
    assert forall|i: int| k + 1 <= i implies #[trigger] term(i) == T::zero_spec() by {
        assert(term(i) == coefficient_or_zero(p, i).mul_spec(T::zero_spec()));
    }
    if k < product_of(p, q).len() {
        lemma_convolution_padded(p, q, k, p.len() as int);
        if p.len() <= k + 1 {
            lemma_sum_zero_tail(p.len() as int, k + 1, term);
        } else {
            lemma_sum_zero_tail(k + 1, p.len() as int, term);
        }
    } else {
        assert forall|i: int| 0 <= i < p.len() implies #[trigger] term(i) == T::zero_spec() by {
            assert(term(i) == coefficient_or_zero(p, i).mul_spec(T::zero_spec()));
        }
        lemma_sum_zero_tail(0, k + 1, term);
    }
}

/// The terms `h(i, m - i)`, along the diagonal `m`.
pub open spec fn diagonal<T: Ring>(h: spec_fn(int, int) -> T, m: int) -> spec_fn(int) -> T {
    |i: int| h(i, m - i)
}

/// The terms `h(i, j)`, along the row `i`.
pub open spec fn row<T: Ring>(h: spec_fn(int, int) -> T, i: int) -> spec_fn(int) -> T {
    |j: int| h(i, j)
}

/// The sum of `h(i, j)` over the `i` and `j` with `i + j < n`, taken
/// diagonal by diagonal.
pub open spec fn by_diagonals<T: Ring>(h: spec_fn(int, int) -> T, n: int) -> T {
    sum(n, |m: int| sum(m + 1, diagonal(h, m)))
}

/// The sum of `h(i, j)` over the `i` and `j` with `i + j < n`, taken row by
/// row.
pub open spec fn by_rows<T: Ring>(h: spec_fn(int, int) -> T, n: int) -> T {
    sum(n, |i: int| sum(n - i, row(h, i)))
}

/// Taking the rows one term further adds the next diagonal.
proof fn lemma_rows_step<T: Ring>(h: spec_fn(int, int) -> T, n: int)
    requires
        add_commutative::<T>(),
        add_associative::<T>(),
        additive_identity::<T>(),
        1 <= n,
    ensures
        by_rows(h, n) == by_rows(h, n - 1).add_spec(sum(n, diagonal(h, n - 1))),
{
    let rows = |i: int| sum(n - i, row(h, i));
    let shorter_rows = |i: int| sum(n - 1 - i, row(h, i));
    let last = diagonal(h, n - 1);
    let split = |i: int| shorter_rows(i).add_spec(last(i));
    let rest = by_rows(h, n - 1);
    let corner = h(n - 1, 0);
    assert(sum(n - 1, rows) == rest.add_spec(sum(n - 1, last))) by {
        assert forall|i: int| 0 <= i < n - 1 implies #[trigger] rows(i) == split(i) by {
            assert(sum(n - i, row(h, i)) == sum(n - i - 1, row(h, i)).add_spec(
                row(h, i)(n - i - 1),
            ));
        }
        lemma_sum_congruent(n - 1, rows, split);
        lemma_sum_of_sums(n - 1, shorter_rows, last);
    }
    assert(sum(1, row(h, n - 1)) == corner) by {
        assert(sum(0, row(h, n - 1)) == T::zero_spec());
        assert(sum(1, row(h, n - 1)) == T::zero_spec().add_spec(row(h, n - 1)(0)));
    }
    assert(by_rows(h, n) == sum(n - 1, rows).add_spec(sum(1, row(h, n - 1))));
    assert(sum(n, last) == sum(n - 1, last).add_spec(corner));
    assert(rest.add_spec(sum(n - 1, last)).add_spec(corner) == rest.add_spec(
        sum(n - 1, last).add_spec(corner),
    ));
}

/// A sum over a triangle is the same by diagonals and by rows.
pub proof fn lemma_triangle<T: Ring>(h: spec_fn(int, int) -> T, n: int)
    requires
        add_commutative::<T>(),
        add_associative::<T>(),
        additive_identity::<T>(),
        0 <= n,
    ensures
        by_diagonals(h, n) == by_rows(h, n),
    decreases n,
{
    if n > 0 {
        lemma_triangle(h, n - 1);
        lemma_rows_step(h, n);
        let diagonals = |m: int| sum(m + 1, diagonal(h, m));
        assert(by_diagonals(h, n) == sum(n - 1, diagonals).add_spec(diagonals(n - 1)));
    }
}

/// The products of three coefficients that make up the coefficient at `k`
/// of a product of three polynomials.
pub open spec fn triple_term<T: Ring>(p: Seq<T>, q: Seq<T>, r: Seq<T>, k: int) -> spec_fn(
    int,
    int,
) -> T {
    |i: int, j: int|
        coefficient_or_zero(p, i).mul_spec(coefficient_or_zero(q, j)).mul_spec(
            coefficient_or_zero(r, k - i - j),
        )
}

/// The coefficient at `k` of `(p * q) * r` is the sum of the triple
/// products, taken diagonal by diagonal.
proof fn lemma_left_product<T: Ring>(p: Seq<T>, q: Seq<T>, r: Seq<T>, k: int)
    requires
        additive_identity::<T>(),
        distributive::<T>(),
        zero_absorbing::<T>(),
        p.len() >= 1,
        q.len() >= 1,
        r.len() >= 1,
        0 <= k,
    ensures
        coefficient_or_zero(product_of(product_of(p, q), r), k) == by_diagonals(
            triple_term(p, q, r, k),
            k + 1,
        ),
{
    let pq = product_of(p, q);
    let h = triple_term(p, q, r, k);
    let outer = padded_term(pq, r, k);
    let diagonals = |m: int| sum(m + 1, diagonal(h, m));
    lemma_product_is_cauchy(pq, r, k);
    assert forall|m: int| 0 <= m < k + 1 implies #[trigger] outer(m) == diagonals(m) by {
        let c = coefficient_or_zero(r, k - m);
        let inner = padded_term(p, q, m);
        let scaled = |i: int| inner(i).mul_spec(c);
        lemma_product_is_cauchy(p, q, m);
        lemma_sum_times(m + 1, inner, c);
        assert forall|i: int| 0 <= i < m + 1 implies #[trigger] scaled(i) == diagonal(h, m)(i) by {
            assert(k - i - (m - i) == k - m);
        }
        lemma_sum_congruent(m + 1, scaled, diagonal(h, m));
    }
    lemma_sum_congruent(k + 1, outer, diagonals);
}

/// The coefficient at `k` of `p * (q * r)` is the sum of the triple
/// products, taken row by row.
proof fn lemma_right_product<T: Ring>(p: Seq<T>, q: Seq<T>, r: Seq<T>, k: int)
    requires
        additive_identity::<T>(),
        mul_associative::<T>(),
        distributive::<T>(),
        zero_absorbing::<T>(),
        p.len() >= 1,
        q.len() >= 1,
        r.len() >= 1,
        0 <= k,
    ensures
        coefficient_or_zero(product_of(p, product_of(q, r)), k) == by_rows(
            triple_term(p, q, r, k),
            k + 1,
        ),
{
    let qr = product_of(q, r);
    let h = triple_term(p, q, r, k);
    let outer = padded_term(p, qr, k);
    let rows = |i: int| sum(k + 1 - i, row(h, i));
    lemma_product_is_cauchy(p, qr, k);
    assert forall|i: int| 0 <= i < k + 1 implies #[trigger] outer(i) == rows(i) by {
        let c = coefficient_or_zero(p, i);
        let inner = padded_term(q, r, k - i);
        let scaled = |j: int| c.mul_spec(inner(j));
        lemma_product_is_cauchy(q, r, k - i);
        lemma_times_sum(k - i + 1, c, inner);
        assert forall|j: int| 0 <= j < k - i + 1 implies #[trigger] scaled(j) == row(h, i)(j) by {
            let b = coefficient_or_zero(q, j);
            let d = coefficient_or_zero(r, k - i - j);
            assert(c.mul_spec(b).mul_spec(d) == c.mul_spec(b.mul_spec(d)));
        }
        lemma_sum_congruent(k - i + 1, scaled, row(h, i));
    }
    lemma_sum_congruent(k + 1, outer, rows);
}

/// The product of polynomials is associative where the coefficients form a
/// ring: their sum is commutative and associative with zero as its
/// identity, and their product is associative, distributes over the sum
/// from both sides, and gives zero with zero.
pub proof fn lemma_product_associative<T: Ring>(p: Seq<T>, q: Seq<T>, r: Seq<T>)
    requires
        add_commutative::<T>(),
        add_associative::<T>(),
        additive_identity::<T>(),
        mul_associative::<T>(),
        distributive::<T>(),
        zero_absorbing::<T>(),
        p.len() >= 1,
        q.len() >= 1,
        r.len() >= 1,
    ensures
        product_of(product_of(p, q), r) == product_of(p, product_of(q, r)),
{
    let left = product_of(product_of(p, q), r);
    let right = product_of(p, product_of(q, r));
    assert(left.len() == right.len());
    assert forall|k: int| 0 <= k < left.len() implies left[k] == right[k] by {
        lemma_left_product(p, q, r, k);
        lemma_right_product(p, q, r, k);
        lemma_triangle(triple_term(p, q, r, k), k + 1);
    }
    assert(left =~= right);
}

} // verus!
