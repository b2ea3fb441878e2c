//! The capabilities that a coefficient or component type brings.
//!
//! Arithmetic and comparison are the operators of the standard library;
//! [`Ring`], [`Numeric`] and [`Signed`] add the identities and the text form,
//! and state that the operators mean what their specification functions say.

use core::cmp::Ordering;
use core::ops::Add;
use core::ops::Mul;
use core::ops::Neg;
use core::ops::Sub;
use vstd::prelude::*;
use vstd::std_specs::cmp::PartialEqSpec;
use vstd::std_specs::cmp::PartialOrdSpec;
use vstd::std_specs::ops::AddSpec;
use vstd::std_specs::ops::MulSpec;
use vstd::std_specs::ops::NegSpec;
use vstd::std_specs::ops::SubSpec;
use vstd::string::StringExecFns;

pub mod decimal;
pub mod laws;
pub mod primitives;

verus! {

/// A ring element: a value that can be copied, compared for equality, added,
/// subtracted and multiplied, with an additive and a multiplicative identity.
///
/// `+`, `-` and `*` may be partial (a machine integer overflows): `add_req`,
/// `sub_req` and `mul_req` say where they are defined, and `add_spec`,
/// `sub_spec` and `mul_spec` what they return there.
///
/// The trait asks for the operations, not for the ring laws: those are the
/// predicates of [`laws`], which the machine integers meet.
pub trait Ring: Copy + PartialEq + Add<Output = Self> + Sub<Output = Self> + Mul<Output = Self> {
    /// The additive identity.
    spec fn zero_spec() -> Self;

    /// The multiplicative identity.
    spec fn one_spec() -> Self;

    fn zero() -> (r: Self)
        ensures
            r == Self::zero_spec(),
    ;

    fn one() -> (r: Self)
        ensures
            r == Self::one_spec(),
    ;

    /// The operators return what their specification functions say, and `==`
    /// is equality of values.
    proof fn lemma_operators()
        ensures
            Self::obeys_add_spec(),
            Self::obeys_sub_spec(),
            Self::obeys_mul_spec(),
            Self::obeys_eq_spec(),
            forall|a: Self, b: Self| #[trigger] a.eq_spec(&b) <==> a == b,
    ;
}

/// `a < b`, as the type's own ordering has it.
pub open spec fn is_less<T: PartialOrd>(a: T, b: T) -> bool {
    a.partial_cmp_spec(&b) == Some(Ordering::Less)
}

/// `a > b`, as the type's own ordering has it.
pub open spec fn is_greater<T: PartialOrd>(a: T, b: T) -> bool {
    a.partial_cmp_spec(&b) == Some(Ordering::Greater)
}

/// `<` and `>` on `T` return what [`is_less`] and [`is_greater`] say.
pub open spec fn obeys_ordering<T: PartialOrd>() -> bool {
    T::obeys_partial_cmp_spec()
}

/// A real scalar: a ring element with an ordering and a text form.
pub trait Numeric: Ring + PartialOrd {
    /// The text of the value.
    spec fn text_spec(&self) -> Seq<char>;

    fn to_text(&self) -> (text: String)
        ensures
            text@ == self.text_spec(),
    ;

    proof fn lemma_ordering()
        ensures
            obeys_ordering::<Self>(),
    ;
}

/// The text of `v` with its sign always written: `+` before a value that is
/// not below zero.
pub open spec fn signed_text<T: Numeric>(v: T) -> Seq<char> {
    if is_less(v, T::zero_spec()) {
        v.text_spec()
    } else {
        seq!['+'] + v.text_spec()
    }
}

/// The text of `v` with its sign always written.
pub fn to_signed_text<T: Numeric>(v: T) -> (text: String)
    ensures
        text@ == signed_text(v),
{
    proof {
        T::lemma_ordering();
    }
    if v < T::zero() {
        v.to_text()
    } else {
        proof {
            reveal_strlit("+");
        }
        let mut text = String::new();
        text.append("+");
        text.append(v.to_text().as_str());
        assert(text@ =~= signed_text(v));
        text
    }
}

/// A real scalar that has a negation.
///
/// `-` may be partial (the least machine integer has no negation): `neg_req`
/// says where it is defined, and `neg_spec` what it returns there.
pub trait Signed: Numeric + Neg<Output = Self> {
    /// `-` returns what its specification function says, and the
    /// multiplicative identity has a negation.
    proof fn lemma_negation()
        ensures
            Self::obeys_neg_spec(),
            Self::one_spec().neg_req(),
    ;
}

/// The magnitude of `a`: its negation where it is below zero, else itself.
pub open spec fn magnitude<T: Signed>(a: T) -> T {
    if is_less(a, T::zero_spec()) {
        a.neg_spec()
    } else {
        a
    }
}

/// Whether the magnitude of `a` can be computed: a value below zero has a
/// negation.
pub open spec fn has_magnitude<T: Signed>(a: T) -> bool {
    is_less(a, T::zero_spec()) ==> a.neg_req()
}

/// The magnitude of `a`.
pub fn abs<T: Signed>(a: T) -> (r: T)
    requires
        has_magnitude(a),
    ensures
        r == magnitude(a),
{
    proof {
        T::lemma_ordering();
        T::lemma_negation();
    }
    if a < T::zero() {
        a.neg()
    } else {
        a
    }
}

/// A value with a diagnostic text form.
pub trait DebugText {
    /// The diagnostic text of the value.
    spec fn debug_text_spec(&self) -> Seq<char>;

    fn debug_text(&self) -> (text: String)
        ensures
            text@ == self.debug_text_spec(),
    ;
}

} // verus!
