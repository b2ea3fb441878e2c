//! Complex numbers over a generic component type.

use crate::traits::DebugText;
use crate::traits::Ring;
use core::ops::Add;
use core::ops::Mul;
use core::ops::Sub;
use vstd::prelude::*;
use vstd::std_specs::cmp::PartialEqSpec;
use vstd::std_specs::cmp::PartialEqSpecImpl;
use vstd::std_specs::ops::AddSpec;
use vstd::std_specs::ops::AddSpecImpl;
use vstd::std_specs::ops::MulSpec;
use vstd::std_specs::ops::MulSpecImpl;
use vstd::std_specs::ops::SubSpec;
use vstd::std_specs::ops::SubSpecImpl;
use vstd::string::StringExecFns;

verus! {

/// The complex number `re + im i`.
#[derive(Debug)]
pub struct Complex<T> {
    pub re: T,
    pub im: T,
}

impl<T: Copy> Clone for Complex<T> {
    fn clone(&self) -> (c: Complex<T>)
        ensures
            c == *self,
    {
        *self
    }
}

impl<T: Copy> Copy for Complex<T> {

}

impl<T> Complex<T> {
    pub fn new(re: T, im: T) -> (c: Complex<T>)
        ensures
            c.re == re,
            c.im == im,
    {
        Complex { re, im }
    }
}

impl<T: PartialEq> PartialEqSpecImpl for Complex<T> {
    open spec fn obeys_eq_spec() -> bool {
        T::obeys_eq_spec()
    }

    open spec fn eq_spec(&self, other: &Complex<T>) -> bool {
        self.re.eq_spec(&other.re) && self.im.eq_spec(&other.im)
    }
}

impl<T: PartialEq> PartialEq for Complex<T> {
    /// Two complex numbers are equal where both of their parts are.
    fn eq(&self, other: &Complex<T>) -> (r: bool) {
        self.re == other.re && self.im == other.im
    }
}

impl<T: Add<Output = T>> AddSpecImpl for Complex<T> {
    open spec fn obeys_add_spec() -> bool {
        T::obeys_add_spec()
    }

    open spec fn add_req(self, rhs: Complex<T>) -> bool {
        self.re.add_req(rhs.re) && self.im.add_req(rhs.im)
    }

    open spec fn add_spec(self, rhs: Complex<T>) -> Complex<T> {
        Complex { re: self.re.add_spec(rhs.re), im: self.im.add_spec(rhs.im) }
    }
}

impl<T: Add<Output = T>> Add for Complex<T> {
    type Output = Complex<T>;

    /// The sum, part by part.
    fn add(self, rhs: Complex<T>) -> Complex<T> {
        let re: T = self.re + rhs.re;
        let im: T = self.im + rhs.im;
        Complex { re, im }
    }
}

impl<T: Sub<Output = T>> SubSpecImpl for Complex<T> {
    open spec fn obeys_sub_spec() -> bool {
        T::obeys_sub_spec()
    }

    open spec fn sub_req(self, rhs: Complex<T>) -> bool {
        self.re.sub_req(rhs.re) && self.im.sub_req(rhs.im)
    }

    open spec fn sub_spec(self, rhs: Complex<T>) -> Complex<T> {
        Complex { re: self.re.sub_spec(rhs.re), im: self.im.sub_spec(rhs.im) }
    }
}

impl<T: Sub<Output = T>> Sub for Complex<T> {
    type Output = Complex<T>;

    /// The difference, part by part.
    fn sub(self, rhs: Complex<T>) -> Complex<T> {
        let re: T = self.re - rhs.re;
        let im: T = self.im - rhs.im;
        Complex { re, im }
    }
}

impl<T: Ring> MulSpecImpl for Complex<T> {
    open spec fn obeys_mul_spec() -> bool {
        true
    }

    open spec fn mul_req(self, rhs: Complex<T>) -> bool {
        &&& self.re.mul_req(rhs.re)
        &&& self.im.mul_req(rhs.im)
        &&& self.re.mul_spec(rhs.re).sub_req(self.im.mul_spec(rhs.im))
        &&& self.re.mul_req(rhs.im)
        &&& self.im.mul_req(rhs.re)
        &&& self.re.mul_spec(rhs.im).add_req(self.im.mul_spec(rhs.re))
    }

    open spec fn mul_spec(self, rhs: Complex<T>) -> Complex<T> {
        Complex {
            re: self.re.mul_spec(rhs.re).sub_spec(self.im.mul_spec(rhs.im)),
            im: self.re.mul_spec(rhs.im).add_spec(self.im.mul_spec(rhs.re)),
        }
    }
}

impl<T: Ring> Mul for Complex<T> {
    type Output = Complex<T>;

    /// The product `(a + b i)(c + d i) = (ac - bd) + (ad + bc) i`.
    fn mul(self, rhs: Complex<T>) -> Complex<T> {
        proof {
            T::lemma_operators();
        }
        let re: T = self.re * rhs.re - self.im * rhs.im;
        let im: T = self.re * rhs.im + self.im * rhs.re;
        Complex { re, im }
    }
}

impl<T: Ring> Complex<T> {
    /// The square of the norm, `re * re + im * im`.
    pub open spec fn norm_sqr_spec(&self) -> T {
        self.re.mul_spec(self.re).add_spec(self.im.mul_spec(self.im))
    }

    /// Whether every step of the square of the norm is defined.
    pub open spec fn norm_sqr_defined(&self) -> bool {
        &&& self.re.mul_req(self.re)
        &&& self.im.mul_req(self.im)
        &&& self.re.mul_spec(self.re).add_req(self.im.mul_spec(self.im))
    }

    /// The square of the norm, `re * re + im * im`.
    pub fn norm_sqr(&self) -> (r: T)
        requires
            self.norm_sqr_defined(),
        ensures
            r == self.norm_sqr_spec(),
    {
        proof {
            T::lemma_operators();
        }
        self.re * self.re + self.im * self.im
    }
}

impl<T: Ring> Ring for Complex<T> {
    open spec fn zero_spec() -> Complex<T> {
        Complex { re: T::zero_spec(), im: T::zero_spec() }
    }

    open spec fn one_spec() -> Complex<T> {
        Complex { re: T::one_spec(), im: T::zero_spec() }
    }

    fn zero() -> Complex<T> {
        Complex { re: T::zero(), im: T::zero() }
    }

    fn one() -> Complex<T> {
        Complex { re: T::one(), im: T::zero() }
    }

    proof fn lemma_operators() {
        T::lemma_operators();
    }
}

impl<T: DebugText> DebugText for Complex<T> {
    /// The name of the type, then both parts by name between braces.
    open spec fn debug_text_spec(&self) -> Seq<char> {
        "Complex { re: "@ + self.re.debug_text_spec() + ", im: "@ + self.im.debug_text_spec()
            + " }"@
    }

    fn debug_text(&self) -> String {
        let mut text = String::from_str("Complex { re: ");
        text.append(self.re.debug_text().as_str());
        text.append(", im: ");
        text.append(self.im.debug_text().as_str());
        text.append(" }");
        assert(text@ =~= self.debug_text_spec());
        text
    }
}

} // verus!
