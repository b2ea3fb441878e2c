//! Sum, difference and product of polynomials.
//!
//! The three operators take both operands by value and return a new
//! polynomial. A term that an operand lacks counts as zero. Where the
//! coefficient type's own operators are partial, the operands must keep
//! every step defined: [`sum_defined`], [`difference_defined`] and
//! [`product_defined`] say which steps there are.

use crate::polynomial::coefficient_or_zero;
use crate::polynomial::Polynomial;
use crate::traits::Ring;
use core::ops::Add;
use core::ops::Mul;
use core::ops::Sub;
use vstd::prelude::*;
use vstd::std_specs::ops::AddSpec;
use vstd::std_specs::ops::AddSpecImpl;
use vstd::std_specs::ops::MulSpec;
use vstd::std_specs::ops::MulSpecImpl;
use vstd::std_specs::ops::SubSpec;
use vstd::std_specs::ops::SubSpecImpl;

verus! {

/// The larger of two lengths.
pub open spec fn longer(a: nat, b: nat) -> nat {
    if a >= b {
        a
    } else {
        b
    }
}

/// The sum of `p` and `q`: as long as the longer of the two, and at each
/// exponent the sum of their coefficients.
pub open spec fn sum_of<T: Ring>(p: Seq<T>, q: Seq<T>) -> Seq<T> {
    Seq::new(
        longer(p.len(), q.len()),
        |i: int| coefficient_or_zero(p, i).add_spec(coefficient_or_zero(q, i)),
    )
}

/// Whether the coefficient type can add the coefficients of `p` and `q` at
/// every exponent.
pub open spec fn sum_defined<T: Ring>(p: Seq<T>, q: Seq<T>) -> bool {
    forall|i: int|
        0 <= i < longer(p.len(), q.len()) ==> #[trigger] coefficient_or_zero(p, i).add_req(
            coefficient_or_zero(q, i),
        )
}

/// The difference of `p` and `q`: as long as the longer of the two, and at
/// each exponent the difference of their coefficients.
pub open spec fn difference_of<T: Ring>(p: Seq<T>, q: Seq<T>) -> Seq<T> {
    Seq::new(
        longer(p.len(), q.len()),
        |i: int| coefficient_or_zero(p, i).sub_spec(coefficient_or_zero(q, i)),
    )
}

/// Whether the coefficient type can subtract the coefficients of `q` from
/// those of `p` at every exponent.
pub open spec fn difference_defined<T: Ring>(p: Seq<T>, q: Seq<T>) -> bool {
    forall|i: int|
        0 <= i < longer(p.len(), q.len()) ==> #[trigger] coefficient_or_zero(p, i).sub_req(
            coefficient_or_zero(q, i),
        )
}

/// The part of the product's coefficient at the exponent `k` that the first
/// `n` terms of `p` contribute: starting from zero, the products
/// `p[i] * q[k - i]` for `i < n`, added one after the other in the order of
/// `i`, for those `i` at which `q` has the term `k - i`.
pub open spec fn convolution<T: Ring>(p: Seq<T>, q: Seq<T>, k: int, n: int) -> T
    decreases n,
{
    if n <= 0 {
        T::zero_spec()
    } else {
        let before = convolution(p, q, k, n - 1);
        if 0 <= k - (n - 1) < q.len() {
            before.add_spec(p[n - 1].mul_spec(q[k - (n - 1)]))
        } else {
            before
        }
    }
}

/// The product of `p` and `q`, neither empty: its degree is the sum of
/// their degrees, and its coefficient at `k` is the convolution of `p` and
/// `q` at `k`.
pub open spec fn product_of<T: Ring>(p: Seq<T>, q: Seq<T>) -> Seq<T> {
    Seq::new(
        (p.len() + q.len() - 1) as nat,
        |k: int| convolution(p, q, k, p.len() as int),
    )
}

/// Whether the coefficient type can take every step of the product of `p`
/// and `q`: multiply each term of `p` with each term of `q`, and add the
/// product to what the earlier terms of `p` have contributed at that
/// exponent.
pub open spec fn product_defined<T: Ring>(p: Seq<T>, q: Seq<T>) -> bool {
    forall|i: int, j: int|
        0 <= i < p.len() && 0 <= j < q.len() ==> {
            &&& #[trigger] p[i].mul_req(q[j])
            &&& convolution(p, q, i + j, i).add_req(p[i].mul_spec(q[j]))
        }
}

impl<T: Ring> Polynomial<T> {
    /// The coefficient at the exponent `i`, or zero above the degree.
    fn coefficient_or_zero(&self, i: usize) -> (c: T)
        requires
            self.wf(),
        ensures
            c == coefficient_or_zero(self@, i as int),
    {
        match self.get_coefficient(i) {
            Some(c) => c,
            None => T::zero(),
        }
    }
}

impl<T: Ring> AddSpecImpl for Polynomial<T> {
    /// Two polynomials with the same coefficients need not be the same
    /// value, so the sum is stated on the coefficients, by
    /// [`Polynomial::add`] itself.
    open spec fn obeys_add_spec() -> bool {
        false
    }

    open spec fn add_req(self, other: Polynomial<T>) -> bool {
        self.wf() && other.wf() && sum_defined(self@, other@)
    }

    open spec fn add_spec(self, other: Polynomial<T>) -> Polynomial<T> {
        arbitrary()
    }
}

impl<T: Ring> Add for Polynomial<T> {
    type Output = Polynomial<T>;

    /// The sum: its degree is the larger of the two degrees, and each of its
    /// coefficients is the sum of the operands' coefficients at that
    /// exponent.
    fn add(self, other: Polynomial<T>) -> (result: Polynomial<T>)
        ensures
            result.wf(),
            result@ == sum_of(self@, other@),
            result.degree_spec() == longer(self.degree_spec(), other.degree_spec()),
    {
        proof {
            T::lemma_operators();
        }
        let degree = if self.degree() >= other.degree() {
            self.degree()
        } else {
            other.degree()
        };
        let mut result: Polynomial<T> = Polynomial::new();
        result.set_degree(degree);
        let mut i: usize = 0;
        while i <= degree
            invariant
                self.wf(),
                other.wf(),
                result.wf(),
                sum_defined(self@, other@),
                T::obeys_add_spec(),
                degree + 1 == longer(self@.len(), other@.len()),
                result@.len() == degree + 1,
                0 <= i <= degree + 1,
                forall|k: int| 0 <= k < i ==> result@[k] == sum_of(self@, other@)[k],
            decreases degree + 1 - i,
        {
            let c: T = self.coefficient_or_zero(i) + other.coefficient_or_zero(i);
            result.set_coefficient(i, c);
            i = i + 1;
        }
        assert(result@ =~= sum_of(self@, other@));
        result
    }
}

impl<T: Ring> SubSpecImpl for Polynomial<T> {
    /// As for the sum, the difference is stated on the coefficients, by
    /// [`Polynomial::sub`] itself.
    open spec fn obeys_sub_spec() -> bool {
        false
    }

    open spec fn sub_req(self, other: Polynomial<T>) -> bool {
        self.wf() && other.wf() && difference_defined(self@, other@)
    }

    open spec fn sub_spec(self, other: Polynomial<T>) -> Polynomial<T> {
        arbitrary()
    }
}

impl<T: Ring> Sub for Polynomial<T> {
    type Output = Polynomial<T>;

    /// The difference: its degree is the larger of the two degrees, and each
    /// of its coefficients is the difference of the operands' coefficients
    /// at that exponent.
    fn sub(self, other: Polynomial<T>) -> (result: Polynomial<T>)
        ensures
            result.wf(),
            result@ == difference_of(self@, other@),
            result.degree_spec() == longer(self.degree_spec(), other.degree_spec()),
    {
        proof {
            T::lemma_operators();
        }
        let degree = if self.degree() >= other.degree() {
            self.degree()
        } else {
            other.degree()
        };
        let mut result: Polynomial<T> = Polynomial::new();
        result.set_degree(degree);
        let mut i: usize = 0;
        while i <= degree
            invariant
                self.wf(),
                other.wf(),
                result.wf(),
                difference_defined(self@, other@),
                T::obeys_sub_spec(),
                degree + 1 == longer(self@.len(), other@.len()),
                result@.len() == degree + 1,
                0 <= i <= degree + 1,
                forall|k: int| 0 <= k < i ==> result@[k] == difference_of(self@, other@)[k],
            decreases degree + 1 - i,
        {
            let c: T = self.coefficient_or_zero(i) - other.coefficient_or_zero(i);
            result.set_coefficient(i, c);
            i = i + 1;
        }
        assert(result@ =~= difference_of(self@, other@));
        result
    }
}

impl<T: Ring> MulSpecImpl for Polynomial<T> {
    /// As for the sum, the product is stated on the coefficients, by
    /// [`Polynomial::mul`] itself.
    open spec fn obeys_mul_spec() -> bool {
        false
    }

    open spec fn mul_req(self, other: Polynomial<T>) -> bool {
        &&& self.wf()
        &&& other.wf()
        &&& self.degree_spec() + other.degree_spec() < usize::MAX
        &&& product_defined(self@, other@)
    }

    open spec fn mul_spec(self, other: Polynomial<T>) -> Polynomial<T> {
        arbitrary()
    }
}

impl<T: Ring> Mul for Polynomial<T> {
    type Output = Polynomial<T>;

    /// The product: its degree is the sum of the two degrees, and each of
    /// its coefficients is the convolution of the operands' coefficients at
    /// that exponent.
    fn mul(self, other: Polynomial<T>) -> (result: Polynomial<T>)
        ensures
            result.wf(),
            result@ == product_of(self@, other@),
            result.degree_spec() == self.degree_spec() + other.degree_spec(),
    {
        proof {
            T::lemma_operators();
        }
        let mut result: Polynomial<T> = Polynomial::new();
        result.set_degree(self.degree() + other.degree());
        let mut i: usize = 0;
        while i <= self.degree()
            invariant
                self.wf(),
                other.wf(),
                result.wf(),
                product_defined(self@, other@),
                T::obeys_add_spec(),
                T::obeys_mul_spec(),
                self.degree_spec() + other.degree_spec() < usize::MAX,
                result@.len() == self@.len() + other@.len() - 1,
                0 <= i <= self@.len(),
                forall|k: int|
                    0 <= k < result@.len() ==> result@[k] == convolution(
                        self@,
                        other@,
                        k,
                        i as int,
                    ),
            decreases self@.len() - i,
        {
            let mut j: usize = 0;
            while j <= other.degree()
                invariant
                    self.wf(),
                    other.wf(),
                    result.wf(),
                    product_defined(self@, other@),
                    T::obeys_add_spec(),
                    T::obeys_mul_spec(),
                    self.degree_spec() + other.degree_spec() < usize::MAX,
                    result@.len() == self@.len() + other@.len() - 1,
                    0 <= i < self@.len(),
                    0 <= j <= other@.len(),
                    forall|k: int|
                        0 <= k < result@.len() ==> result@[k] == convolution(
                            self@,
                            other@,
                            k,
                            if i <= k < i + j {
                                i + 1
                            } else {
                                i as int
                            },
                        ),
                decreases other@.len() - j,
            {
                assert(self@[i as int].mul_req(other@[j as int]));
                let c: T = result.coefficient_or_zero(i + j) + (self.coefficient_or_zero(i)
                    * other.coefficient_or_zero(j));
                result.set_coefficient(i + j, c);
                j = j + 1;
            }
            i = i + 1;
        }
        assert(result@ =~= product_of(self@, other@));
        result
    }
}

} // verus!
