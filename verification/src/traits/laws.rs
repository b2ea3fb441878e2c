//! The ring laws as predicates on a coefficient type, and their proofs for
//! the machine integers.
//!
//! The laws speak of `add_spec` and `mul_spec`, which are total: for a
//! machine integer they wrap around where the operator itself overflows.

use crate::traits::Ring;
use vstd::prelude::*;
use vstd::std_specs::ops::AddSpec;
use vstd::std_specs::ops::MulSpec;

verus! {

/// `a + b == b + a`.
pub open spec fn add_commutative<T: Ring>() -> bool {
    forall|a: T, b: T| #[trigger] a.add_spec(b) == b.add_spec(a)
}

/// `(a + b) + c == a + (b + c)`.
pub open spec fn add_associative<T: Ring>() -> bool {
    forall|a: T, b: T, c: T| #[trigger] a.add_spec(b).add_spec(c) == a.add_spec(b.add_spec(c))
}

/// `a + 0 == a` and `0 + a == a`.
pub open spec fn additive_identity<T: Ring>() -> bool {
    &&& forall|a: T| #[trigger] a.add_spec(T::zero_spec()) == a
    &&& forall|a: T| #[trigger] T::zero_spec().add_spec(a) == a
}

/// `a * b == b * a`.
pub open spec fn mul_commutative<T: Ring>() -> bool {
    forall|a: T, b: T| #[trigger] a.mul_spec(b) == b.mul_spec(a)
}

/// `(a * b) * c == a * (b * c)`.
pub open spec fn mul_associative<T: Ring>() -> bool {
    forall|a: T, b: T, c: T| #[trigger] a.mul_spec(b).mul_spec(c) == a.mul_spec(b.mul_spec(c))
}

/// `a * (b + c) == a * b + a * c` and `(a + b) * c == a * c + b * c`.
pub open spec fn distributive<T: Ring>() -> bool {
    &&& forall|a: T, b: T, c: T| #[trigger]
        a.mul_spec(b.add_spec(c)) == a.mul_spec(b).add_spec(a.mul_spec(c))
    &&& forall|a: T, b: T, c: T| #[trigger]
        a.add_spec(b).mul_spec(c) == a.mul_spec(c).add_spec(b.mul_spec(c))
}

/// `a * 0 == 0` and `0 * a == 0`.
pub open spec fn zero_absorbing<T: Ring>() -> bool {
    &&& forall|a: T| #[trigger] a.mul_spec(T::zero_spec()) == T::zero_spec()
    &&& forall|a: T| #[trigger] T::zero_spec().mul_spec(a) == T::zero_spec()
}

/// The operators of `i64` obey the ring laws.
pub proof fn lemma_i64_ring()
    ensures
        add_commutative::<i64>(),
        add_associative::<i64>(),
        additive_identity::<i64>(),
        mul_commutative::<i64>(),
        mul_associative::<i64>(),
        distributive::<i64>(),
        zero_absorbing::<i64>(),
{
    assert forall|a: i64, b: i64, c: i64| #[trigger]
        a.add_spec(b).add_spec(c) == a.add_spec(b.add_spec(c)) by {
        assert(((a + b) as i64 + c) as i64 == (a + (b + c) as i64) as i64) by (bit_vector);
    }
    assert forall|a: i64, b: i64| #[trigger] a.mul_spec(b) == b.mul_spec(a) by {
        assert(a * b == b * a) by (nonlinear_arith);
    }
    assert forall|a: i64, b: i64, c: i64| #[trigger]
        a.mul_spec(b).mul_spec(c) == a.mul_spec(b.mul_spec(c)) by {
        assert(((a * b) as i64 * c) as i64 == (a * (b * c) as i64) as i64) by (bit_vector);
    }
    assert forall|a: i64, b: i64, c: i64| #[trigger]
        a.mul_spec(b.add_spec(c)) == a.mul_spec(b).add_spec(a.mul_spec(c)) by {
        assert((a * ((b + c) as i64)) as i64 == ((a * b) as i64 + (a * c) as i64) as i64)
            by (bit_vector);
    }
    assert forall|a: i64, b: i64, c: i64| #[trigger]
        a.add_spec(b).mul_spec(c) == a.mul_spec(c).add_spec(b.mul_spec(c)) by {
        let s = (a + b) as i64;
        assert((c * ((a + b) as i64)) as i64 == ((c * a) as i64 + (c * b) as i64) as i64)
            by (bit_vector);
        assert(s * c == c * s) by (nonlinear_arith);
        assert(a * c == c * a) by (nonlinear_arith);
        assert(b * c == c * b) by (nonlinear_arith);
    }
}

/// The operators of `i32` obey the ring laws.
pub proof fn lemma_i32_ring()
    ensures
        add_commutative::<i32>(),
        add_associative::<i32>(),
        additive_identity::<i32>(),
        mul_commutative::<i32>(),
        mul_associative::<i32>(),
        distributive::<i32>(),
        zero_absorbing::<i32>(),
{
    assert forall|a: i32, b: i32, c: i32| #[trigger]
        a.add_spec(b).add_spec(c) == a.add_spec(b.add_spec(c)) by {
        assert(((a + b) as i32 + c) as i32 == (a + (b + c) as i32) as i32) by (bit_vector);
    }
    assert forall|a: i32, b: i32| #[trigger] a.mul_spec(b) == b.mul_spec(a) by {
        assert(a * b == b * a) by (nonlinear_arith);
    }
    assert forall|a: i32, b: i32, c: i32| #[trigger]
        a.mul_spec(b).mul_spec(c) == a.mul_spec(b.mul_spec(c)) by {
        assert(((a * b) as i32 * c) as i32 == (a * (b * c) as i32) as i32) by (bit_vector);
    }
    assert forall|a: i32, b: i32, c: i32| #[trigger]
        a.mul_spec(b.add_spec(c)) == a.mul_spec(b).add_spec(a.mul_spec(c)) by {
        assert((a * ((b + c) as i32)) as i32 == ((a * b) as i32 + (a * c) as i32) as i32)
            by (bit_vector);
    }
    assert forall|a: i32, b: i32, c: i32| #[trigger]
        a.add_spec(b).mul_spec(c) == a.mul_spec(c).add_spec(b.mul_spec(c)) by {
        let s = (a + b) as i32;
        assert((c * ((a + b) as i32)) as i32 == ((c * a) as i32 + (c * b) as i32) as i32)
            by (bit_vector);
        assert(s * c == c * s) by (nonlinear_arith);
        assert(a * c == c * a) by (nonlinear_arith);
        assert(b * c == c * b) by (nonlinear_arith);
    }
}

/// The operators of `i16` obey the ring laws.
pub proof fn lemma_i16_ring()
    ensures
        add_commutative::<i16>(),
        add_associative::<i16>(),
        additive_identity::<i16>(),
        mul_commutative::<i16>(),
        mul_associative::<i16>(),
        distributive::<i16>(),
        zero_absorbing::<i16>(),
{
    assert forall|a: i16, b: i16, c: i16| #[trigger]
        a.add_spec(b).add_spec(c) == a.add_spec(b.add_spec(c)) by {
        assert(((a + b) as i16 + c) as i16 == (a + (b + c) as i16) as i16) by (bit_vector);
    }
    assert forall|a: i16, b: i16| #[trigger] a.mul_spec(b) == b.mul_spec(a) by {
        assert(a * b == b * a) by (nonlinear_arith);
    }
    assert forall|a: i16, b: i16, c: i16| #[trigger]
        a.mul_spec(b).mul_spec(c) == a.mul_spec(b.mul_spec(c)) by {
        assert(((a * b) as i16 * c) as i16 == (a * (b * c) as i16) as i16) by (bit_vector);
    }
    assert forall|a: i16, b: i16, c: i16| #[trigger]
        a.mul_spec(b.add_spec(c)) == a.mul_spec(b).add_spec(a.mul_spec(c)) by {
        assert((a * ((b + c) as i16)) as i16 == ((a * b) as i16 + (a * c) as i16) as i16)
            by (bit_vector);
    }
    assert forall|a: i16, b: i16, c: i16| #[trigger]
        a.add_spec(b).mul_spec(c) == a.mul_spec(c).add_spec(b.mul_spec(c)) by {
        let s = (a + b) as i16;
        assert((c * ((a + b) as i16)) as i16 == ((c * a) as i16 + (c * b) as i16) as i16)
            by (bit_vector);
        assert(s * c == c * s) by (nonlinear_arith);
        assert(a * c == c * a) by (nonlinear_arith);
        assert(b * c == c * b) by (nonlinear_arith);
    }
}

/// The operators of `i8` obey the ring laws.
pub proof fn lemma_i8_ring()
    ensures
        add_commutative::<i8>(),
        add_associative::<i8>(),
        additive_identity::<i8>(),
        mul_commutative::<i8>(),
        mul_associative::<i8>(),
        distributive::<i8>(),
        zero_absorbing::<i8>(),
{
    assert forall|a: i8, b: i8, c: i8| #[trigger]
        a.add_spec(b).add_spec(c) == a.add_spec(b.add_spec(c)) by {
        assert(((a + b) as i8 + c) as i8 == (a + (b + c) as i8) as i8) by (bit_vector);
    }
    assert forall|a: i8, b: i8| #[trigger] a.mul_spec(b) == b.mul_spec(a) by {
        assert(a * b == b * a) by (nonlinear_arith);
    }
    assert forall|a: i8, b: i8, c: i8| #[trigger]
        a.mul_spec(b).mul_spec(c) == a.mul_spec(b.mul_spec(c)) by {
        assert(((a * b) as i8 * c) as i8 == (a * (b * c) as i8) as i8) by (bit_vector);
    }
    assert forall|a: i8, b: i8, c: i8| #[trigger]
        a.mul_spec(b.add_spec(c)) == a.mul_spec(b).add_spec(a.mul_spec(c)) by {
        assert((a * ((b + c) as i8)) as i8 == ((a * b) as i8 + (a * c) as i8) as i8)
            by (bit_vector);
    }
    assert forall|a: i8, b: i8, c: i8| #[trigger]
        a.add_spec(b).mul_spec(c) == a.mul_spec(c).add_spec(b.mul_spec(c)) by {
        let s = (a + b) as i8;
        assert((c * ((a + b) as i8)) as i8 == ((c * a) as i8 + (c * b) as i8) as i8)
            by (bit_vector);
        assert(s * c == c * s) by (nonlinear_arith);
        assert(a * c == c * a) by (nonlinear_arith);
        assert(b * c == c * b) by (nonlinear_arith);
    }
}

/// The operators of `isize` obey the ring laws.
pub proof fn lemma_isize_ring()
    ensures
        add_commutative::<isize>(),
        add_associative::<isize>(),
        additive_identity::<isize>(),
        mul_commutative::<isize>(),
        mul_associative::<isize>(),
        distributive::<isize>(),
        zero_absorbing::<isize>(),
{
    assert forall|a: isize, b: isize, c: isize| #[trigger]
        a.add_spec(b).add_spec(c) == a.add_spec(b.add_spec(c)) by {
        assert(((a + b) as isize + c) as isize == (a + (b + c) as isize) as isize) by (bit_vector);
    }
    assert forall|a: isize, b: isize| #[trigger] a.mul_spec(b) == b.mul_spec(a) by {
        assert(a * b == b * a) by (nonlinear_arith);
    }
    assert forall|a: isize, b: isize, c: isize| #[trigger]
        a.mul_spec(b).mul_spec(c) == a.mul_spec(b.mul_spec(c)) by {
        assert(((a * b) as isize * c) as isize == (a * (b * c) as isize) as isize) by (bit_vector);
    }
    assert forall|a: isize, b: isize, c: isize| #[trigger]
        a.mul_spec(b.add_spec(c)) == a.mul_spec(b).add_spec(a.mul_spec(c)) by {
        assert((a * ((b + c) as isize)) as isize == ((a * b) as isize + (a * c) as isize) as isize)
            by (bit_vector);
    }
    assert forall|a: isize, b: isize, c: isize| #[trigger]
        a.add_spec(b).mul_spec(c) == a.mul_spec(c).add_spec(b.mul_spec(c)) by {
        let s = (a + b) as isize;
        assert((c * ((a + b) as isize)) as isize == ((c * a) as isize + (c * b) as isize) as isize)
            by (bit_vector);
        assert(s * c == c * s) by (nonlinear_arith);
        assert(a * c == c * a) by (nonlinear_arith);
        assert(b * c == c * b) by (nonlinear_arith);
    }
}

/// The operators of `u64` obey the ring laws.
pub proof fn lemma_u64_ring()
    ensures
        add_commutative::<u64>(),
        add_associative::<u64>(),
        additive_identity::<u64>(),
        mul_commutative::<u64>(),
        mul_associative::<u64>(),
        distributive::<u64>(),
        zero_absorbing::<u64>(),
{
    assert forall|a: u64, b: u64, c: u64| #[trigger]
        a.add_spec(b).add_spec(c) == a.add_spec(b.add_spec(c)) by {
        assert(((a + b) as u64 + c) as u64 == (a + (b + c) as u64) as u64) by (bit_vector);
    }
    assert forall|a: u64, b: u64| #[trigger] a.mul_spec(b) == b.mul_spec(a) by {
        assert(a * b == b * a) by (nonlinear_arith);
    }
    assert forall|a: u64, b: u64, c: u64| #[trigger]
        a.mul_spec(b).mul_spec(c) == a.mul_spec(b.mul_spec(c)) by {
        assert(((a * b) as u64 * c) as u64 == (a * (b * c) as u64) as u64) by (bit_vector);
    }
    assert forall|a: u64, b: u64, c: u64| #[trigger]
        a.mul_spec(b.add_spec(c)) == a.mul_spec(b).add_spec(a.mul_spec(c)) by {
        assert((a * ((b + c) as u64)) as u64 == ((a * b) as u64 + (a * c) as u64) as u64)
            by (bit_vector);
    }
    assert forall|a: u64, b: u64, c: u64| #[trigger]
        a.add_spec(b).mul_spec(c) == a.mul_spec(c).add_spec(b.mul_spec(c)) by {
        let s = (a + b) as u64;
        assert((c * ((a + b) as u64)) as u64 == ((c * a) as u64 + (c * b) as u64) as u64)
            by (bit_vector);
        assert(s * c == c * s) by (nonlinear_arith);
        assert(a * c == c * a) by (nonlinear_arith);
        assert(b * c == c * b) by (nonlinear_arith);
    }
}

/// The operators of `u32` obey the ring laws.
pub proof fn lemma_u32_ring()
    ensures
        add_commutative::<u32>(),
        add_associative::<u32>(),
        additive_identity::<u32>(),
        mul_commutative::<u32>(),
        mul_associative::<u32>(),
        distributive::<u32>(),
        zero_absorbing::<u32>(),
{
    assert forall|a: u32, b: u32, c: u32| #[trigger]
        a.add_spec(b).add_spec(c) == a.add_spec(b.add_spec(c)) by {
        assert(((a + b) as u32 + c) as u32 == (a + (b + c) as u32) as u32) by (bit_vector);
    }
    assert forall|a: u32, b: u32| #[trigger] a.mul_spec(b) == b.mul_spec(a) by {
        assert(a * b == b * a) by (nonlinear_arith);
    }
    assert forall|a: u32, b: u32, c: u32| #[trigger]
        a.mul_spec(b).mul_spec(c) == a.mul_spec(b.mul_spec(c)) by {
        assert(((a * b) as u32 * c) as u32 == (a * (b * c) as u32) as u32) by (bit_vector);
    }
    assert forall|a: u32, b: u32, c: u32| #[trigger]
        a.mul_spec(b.add_spec(c)) == a.mul_spec(b).add_spec(a.mul_spec(c)) by {
        assert((a * ((b + c) as u32)) as u32 == ((a * b) as u32 + (a * c) as u32) as u32)
            by (bit_vector);
    }
    assert forall|a: u32, b: u32, c: u32| #[trigger]
        a.add_spec(b).mul_spec(c) == a.mul_spec(c).add_spec(b.mul_spec(c)) by {
        let s = (a + b) as u32;
        assert((c * ((a + b) as u32)) as u32 == ((c * a) as u32 + (c * b) as u32) as u32)
            by (bit_vector);
        assert(s * c == c * s) by (nonlinear_arith);
        assert(a * c == c * a) by (nonlinear_arith);
        assert(b * c == c * b) by (nonlinear_arith);
    }
}

/// The operators of `u16` obey the ring laws.
pub proof fn lemma_u16_ring()
    ensures
        add_commutative::<u16>(),
        add_associative::<u16>(),
        additive_identity::<u16>(),
        mul_commutative::<u16>(),
        mul_associative::<u16>(),
        distributive::<u16>(),
        zero_absorbing::<u16>(),
{
    assert forall|a: u16, b: u16, c: u16| #[trigger]
        a.add_spec(b).add_spec(c) == a.add_spec(b.add_spec(c)) by {
        assert(((a + b) as u16 + c) as u16 == (a + (b + c) as u16) as u16) by (bit_vector);
    }
    assert forall|a: u16, b: u16| #[trigger] a.mul_spec(b) == b.mul_spec(a) by {
        assert(a * b == b * a) by (nonlinear_arith);
    }
    assert forall|a: u16, b: u16, c: u16| #[trigger]
        a.mul_spec(b).mul_spec(c) == a.mul_spec(b.mul_spec(c)) by {
        assert(((a * b) as u16 * c) as u16 == (a * (b * c) as u16) as u16) by (bit_vector);
    }
    assert forall|a: u16, b: u16, c: u16| #[trigger]
        a.mul_spec(b.add_spec(c)) == a.mul_spec(b).add_spec(a.mul_spec(c)) by {
        assert((a * ((b + c) as u16)) as u16 == ((a * b) as u16 + (a * c) as u16) as u16)
            by (bit_vector);
    }
    assert forall|a: u16, b: u16, c: u16| #[trigger]
        a.add_spec(b).mul_spec(c) == a.mul_spec(c).add_spec(b.mul_spec(c)) by {
        let s = (a + b) as u16;
        assert((c * ((a + b) as u16)) as u16 == ((c * a) as u16 + (c * b) as u16) as u16)
            by (bit_vector);
        assert(s * c == c * s) by (nonlinear_arith);
        assert(a * c == c * a) by (nonlinear_arith);
        assert(b * c == c * b) by (nonlinear_arith);
    }
}

/// The operators of `u8` obey the ring laws.
pub proof fn lemma_u8_ring()
    ensures
        add_commutative::<u8>(),
        add_associative::<u8>(),
        additive_identity::<u8>(),
        mul_commutative::<u8>(),
        mul_associative::<u8>(),
        distributive::<u8>(),
        zero_absorbing::<u8>(),
{
    assert forall|a: u8, b: u8, c: u8| #[trigger]
        a.add_spec(b).add_spec(c) == a.add_spec(b.add_spec(c)) by {
        assert(((a + b) as u8 + c) as u8 == (a + (b + c) as u8) as u8) by (bit_vector);
    }
    assert forall|a: u8, b: u8| #[trigger] a.mul_spec(b) == b.mul_spec(a) by {
        assert(a * b == b * a) by (nonlinear_arith);
    }
    assert forall|a: u8, b: u8, c: u8| #[trigger]
        a.mul_spec(b).mul_spec(c) == a.mul_spec(b.mul_spec(c)) by {
        assert(((a * b) as u8 * c) as u8 == (a * (b * c) as u8) as u8) by (bit_vector);
    }
    assert forall|a: u8, b: u8, c: u8| #[trigger]
        a.mul_spec(b.add_spec(c)) == a.mul_spec(b).add_spec(a.mul_spec(c)) by {
        assert((a * ((b + c) as u8)) as u8 == ((a * b) as u8 + (a * c) as u8) as u8)
            by (bit_vector);
    }
    assert forall|a: u8, b: u8, c: u8| #[trigger]
        a.add_spec(b).mul_spec(c) == a.mul_spec(c).add_spec(b.mul_spec(c)) by {
        let s = (a + b) as u8;
        assert((c * ((a + b) as u8)) as u8 == ((c * a) as u8 + (c * b) as u8) as u8)
            by (bit_vector);
        assert(s * c == c * s) by (nonlinear_arith);
        assert(a * c == c * a) by (nonlinear_arith);
        assert(b * c == c * b) by (nonlinear_arith);
    }
}

/// The operators of `usize` obey the ring laws.
pub proof fn lemma_usize_ring()
    ensures
        add_commutative::<usize>(),
        add_associative::<usize>(),
        additive_identity::<usize>(),
        mul_commutative::<usize>(),
        mul_associative::<usize>(),
        distributive::<usize>(),
        zero_absorbing::<usize>(),
{
    assert forall|a: usize, b: usize, c: usize| #[trigger]
        a.add_spec(b).add_spec(c) == a.add_spec(b.add_spec(c)) by {
        assert(((a + b) as usize + c) as usize == (a + (b + c) as usize) as usize) by (bit_vector);
    }
    assert forall|a: usize, b: usize| #[trigger] a.mul_spec(b) == b.mul_spec(a) by {
        assert(a * b == b * a) by (nonlinear_arith);
    }
    assert forall|a: usize, b: usize, c: usize| #[trigger]
        a.mul_spec(b).mul_spec(c) == a.mul_spec(b.mul_spec(c)) by {
        assert(((a * b) as usize * c) as usize == (a * (b * c) as usize) as usize) by (bit_vector);
    }
    assert forall|a: usize, b: usize, c: usize| #[trigger]
        a.mul_spec(b.add_spec(c)) == a.mul_spec(b).add_spec(a.mul_spec(c)) by {
        assert((a * ((b + c) as usize)) as usize == ((a * b) as usize + (a * c) as usize) as usize)
            by (bit_vector);
    }
    assert forall|a: usize, b: usize, c: usize| #[trigger]
        a.add_spec(b).mul_spec(c) == a.mul_spec(c).add_spec(b.mul_spec(c)) by {
        let s = (a + b) as usize;
        assert((c * ((a + b) as usize)) as usize == ((c * a) as usize + (c * b) as usize) as usize)
            by (bit_vector);
        assert(s * c == c * s) by (nonlinear_arith);
        assert(a * c == c * a) by (nonlinear_arith);
        assert(b * c == c * b) by (nonlinear_arith);
    }
}

} // verus!
