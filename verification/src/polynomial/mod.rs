//! Dense polynomials in one variable over a generic coefficient ring.
//!
//! A polynomial is its sequence of coefficients, indexed by exponent: the
//! constant term first, the leading term last. The sequence is never empty
//! and never trimmed: the stored degree is its length less one, whatever the
//! coefficients are, and the zero polynomial has the degree zero.

use crate::traits::Ring;
use vstd::prelude::*;

pub mod arithmetic;
pub mod laws;
pub mod render;
pub mod sums;

verus! {

/// The coefficient of `p` at the exponent `i`; the additive identity where
/// `p` has no such term.
pub open spec fn coefficient_or_zero<T: Ring>(p: Seq<T>, i: int) -> T {
    if 0 <= i < p.len() {
        p[i]
    } else {
        T::zero_spec()
    }
}

/// The coefficient of `p` at the exponent `d`, where `p` has such a term.
pub open spec fn coefficient_at<T>(p: Seq<T>, d: int) -> Option<T> {
    if 0 <= d < p.len() {
        Some(p[d])
    } else {
        None
    }
}

/// The canonical zero polynomial: the single coefficient zero.
pub open spec fn zero_polynomial<T: Ring>() -> Seq<T> {
    seq![T::zero_spec()]
}

/// `p` with its degree raised to `d`: padded with zeros up to the exponent
/// `d`, and unchanged where its degree is `d` or more.
pub open spec fn raised<T: Ring>(p: Seq<T>, d: nat) -> Seq<T> {
    if d + 1 > p.len() {
        Seq::new(d + 1, |i: int| coefficient_or_zero(p, i))
    } else {
        p
    }
}

/// `p` with the coefficient at the exponent `d` set to `v`, its degree
/// raised to `d` first.
pub open spec fn with_coefficient<T: Ring>(p: Seq<T>, d: nat, v: T) -> Seq<T> {
    raised(p, d).update(d as int, v)
}

/// A dense polynomial: a degree and the `degree + 1` coefficients, the
/// constant term first.
pub struct Polynomial<T> {
    degree: usize,
    coefficients: Vec<T>,
}

impl<T> View for Polynomial<T> {
    type V = Seq<T>;

    /// The coefficients, indexed by exponent.
    closed spec fn view(&self) -> Seq<T> {
        self.coefficients@
    }
}

impl<T> Polynomial<T> {
    /// The stored degree.
    pub closed spec fn degree_spec(&self) -> nat {
        self.degree as nat
    }

    /// The invariant of the type: there are exactly `degree + 1`
    /// coefficients, as many as a vector can hold.
    pub open spec fn wf(&self) -> bool {
        self@.len() == self.degree_spec() + 1 <= usize::MAX
    }

    /// Creates a polynomial from its coefficients, the constant term first.
    /// No coefficients give the canonical zero polynomial.
    pub fn from_coefficients(coefficients: Vec<T>) -> (p: Polynomial<T>) where T: Ring
        ensures
            p.wf(),
            p@ == if coefficients@.len() == 0 {
                zero_polynomial::<T>()
            } else {
                coefficients@
            },
    {
        if coefficients.len() == 0 {
            return Polynomial::new();
        }
        let degree: usize = coefficients.len() - 1;
        Polynomial { degree, coefficients }
    }

    /// The stored degree: the highest exponent that has a coefficient slot.
    pub fn degree(&self) -> (d: usize)
        ensures
            d == self.degree_spec(),
    {
        self.degree
    }

    /// The coefficients, the constant term first.
    pub fn coefficients(&self) -> (c: &Vec<T>)
        ensures
            c@ == self@,
    {
        &self.coefficients
    }
}

impl<T: Clone> Clone for Polynomial<T> {
    /// A polynomial of the same degree whose coefficients are clones of
    /// those of `self`, in the same order.
    fn clone(&self) -> (copy: Polynomial<T>)
        ensures
            copy.degree_spec() == self.degree_spec(),
            copy@.len() == self@.len(),
            forall|i: int| 0 <= i < self@.len() ==> cloned::<T>(#[trigger] self@[i], copy@[i]),
    {
        Polynomial { degree: self.degree, coefficients: self.coefficients.clone() }
    }
}

impl<T: Ring> Default for Polynomial<T> {
    /// The canonical zero polynomial: degree zero, the single coefficient
    /// zero.
    fn default() -> (p: Polynomial<T>)
        ensures
            p.wf(),
            p@ == zero_polynomial::<T>(),
    {
        let mut coefficients: Vec<T> = Vec::new();
        coefficients.push(T::zero());
        let p = Polynomial { degree: 0, coefficients };
        assert(p@ =~= zero_polynomial::<T>());
        p
    }
}

impl<T: Ring> Polynomial<T> {
    /// The canonical zero polynomial.
    pub fn new() -> (p: Polynomial<T>)
        ensures
            p.wf(),
            p@ == zero_polynomial::<T>(),
    {
        Polynomial::default()
    }

    /// The coefficient at the exponent `degree`; `None` above the stored
    /// degree.
    pub fn get_coefficient(&self, degree: usize) -> (c: Option<T>)
        requires
            self.wf(),
        ensures
            c == coefficient_at(self@, degree as int),
    {
        if degree > self.degree {
            None
        } else {
            Some(self.coefficients[degree])
        }
    }

    /// Raises the degree to `degree`, padding with zeros; does nothing where
    /// the degree is `degree` or more already.
    pub fn set_degree(&mut self, degree: usize)
        requires
            old(self).wf(),
            degree < usize::MAX,
        ensures
            final(self).wf(),
            final(self)@ == raised(old(self)@, degree as nat),
            final(self).degree_spec() >= old(self).degree_spec(),
    {
        if degree > self.degree {
            while self.coefficients.len() < degree + 1
                invariant
                    degree < usize::MAX,
                    old(self)@.len() <= self.coefficients@.len() <= degree + 1,
                    forall|i: int|
                        0 <= i < self.coefficients@.len() ==> self.coefficients@[i]
                            == coefficient_or_zero(old(self)@, i),
                decreases degree + 1 - self.coefficients@.len(),
            {
                self.coefficients.push(T::zero());
            }
            self.degree = degree;
            assert(self@ =~= raised(old(self)@, degree as nat));
        }
    }

    /// Sets the coefficient at the exponent `degree` to `coefficient`,
    /// raising the degree to `degree` first.
    pub fn set_coefficient(&mut self, degree: usize, coefficient: T)
        requires
            old(self).wf(),
            degree < usize::MAX,
        ensures
            final(self).wf(),
            final(self)@ == with_coefficient(old(self)@, degree as nat, coefficient),
    {
        self.set_degree(degree);
        self.coefficients.set(degree, coefficient);
    }
}

} // verus!
