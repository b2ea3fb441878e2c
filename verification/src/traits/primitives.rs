//! The machine integers as ring elements and real scalars.

use crate::traits::decimal::decimal;
use crate::traits::decimal::decimal_string;
use crate::traits::DebugText;
use crate::traits::Numeric;
use crate::traits::Ring;
use crate::traits::Signed;
use vstd::prelude::*;

verus! {

impl Ring for i64 {
    open spec fn zero_spec() -> i64 {
        0
    }

    open spec fn one_spec() -> i64 {
        1
    }

    fn zero() -> i64 {
        0
    }

    fn one() -> i64 {
        1
    }

    proof fn lemma_operators() {
    }
}

impl Numeric for i64 {
    open spec fn text_spec(&self) -> Seq<char> {
        decimal(*self as int)
    }

    fn to_text(&self) -> String {
        decimal_string(*self as i128)
    }

    proof fn lemma_ordering() {
    }
}

impl Signed for i64 {
    proof fn lemma_negation() {
    }
}

impl DebugText for i64 {
    open spec fn debug_text_spec(&self) -> Seq<char> {
        decimal(*self as int)
    }

    fn debug_text(&self) -> String {
        decimal_string(*self as i128)
    }
}

impl Ring for i32 {
    open spec fn zero_spec() -> i32 {
        0
    }

    open spec fn one_spec() -> i32 {
        1
    }

    fn zero() -> i32 {
        0
    }

    fn one() -> i32 {
        1
    }

    proof fn lemma_operators() {
    }
}

impl Numeric for i32 {
    open spec fn text_spec(&self) -> Seq<char> {
        decimal(*self as int)
    }

    fn to_text(&self) -> String {
        decimal_string(*self as i128)
    }

    proof fn lemma_ordering() {
    }
}

impl Signed for i32 {
    proof fn lemma_negation() {
    }
}

impl DebugText for i32 {
    open spec fn debug_text_spec(&self) -> Seq<char> {
        decimal(*self as int)
    }

    fn debug_text(&self) -> String {
        decimal_string(*self as i128)
    }
}

impl Ring for i16 {
    open spec fn zero_spec() -> i16 {
        0
    }

    open spec fn one_spec() -> i16 {
        1
    }

    fn zero() -> i16 {
        0
    }

    fn one() -> i16 {
        1
    }

    proof fn lemma_operators() {
    }
}

impl Numeric for i16 {
    open spec fn text_spec(&self) -> Seq<char> {
        decimal(*self as int)
    }

    fn to_text(&self) -> String {
        decimal_string(*self as i128)
    }

    proof fn lemma_ordering() {
    }
}

impl Signed for i16 {
    proof fn lemma_negation() {
    }
}

impl DebugText for i16 {
    open spec fn debug_text_spec(&self) -> Seq<char> {
        decimal(*self as int)
    }

    fn debug_text(&self) -> String {
        decimal_string(*self as i128)
    }
}

impl Ring for i8 {
    open spec fn zero_spec() -> i8 {
        0
    }

    open spec fn one_spec() -> i8 {
        1
    }

    fn zero() -> i8 {
        0
    }

    fn one() -> i8 {
        1
    }

    proof fn lemma_operators() {
    }
}

impl Numeric for i8 {
    open spec fn text_spec(&self) -> Seq<char> {
        decimal(*self as int)
    }

    fn to_text(&self) -> String {
        decimal_string(*self as i128)
    }

    proof fn lemma_ordering() {
    }
}

impl Signed for i8 {
    proof fn lemma_negation() {
    }
}

impl DebugText for i8 {
    open spec fn debug_text_spec(&self) -> Seq<char> {
        decimal(*self as int)
    }

    fn debug_text(&self) -> String {
        decimal_string(*self as i128)
    }
}

impl Ring for isize {
    open spec fn zero_spec() -> isize {
        0
    }

    open spec fn one_spec() -> isize {
        1
    }

    fn zero() -> isize {
        0
    }

    fn one() -> isize {
        1
    }

    proof fn lemma_operators() {
    }
}

impl Numeric for isize {
    open spec fn text_spec(&self) -> Seq<char> {
        decimal(*self as int)
    }

    fn to_text(&self) -> String {
        decimal_string(*self as i128)
    }

    proof fn lemma_ordering() {
    }
}

impl Signed for isize {
    proof fn lemma_negation() {
    }
}

impl DebugText for isize {
    open spec fn debug_text_spec(&self) -> Seq<char> {
        decimal(*self as int)
    }

    fn debug_text(&self) -> String {
        decimal_string(*self as i128)
    }
}

impl Ring for u64 {
    open spec fn zero_spec() -> u64 {
        0
    }

    open spec fn one_spec() -> u64 {
        1
    }

    fn zero() -> u64 {
        0
    }

    fn one() -> u64 {
        1
    }

    proof fn lemma_operators() {
    }
}

impl Numeric for u64 {
    open spec fn text_spec(&self) -> Seq<char> {
        decimal(*self as int)
    }

    fn to_text(&self) -> String {
        decimal_string(*self as i128)
    }

    proof fn lemma_ordering() {
    }
}

impl DebugText for u64 {
    open spec fn debug_text_spec(&self) -> Seq<char> {
        decimal(*self as int)
    }

    fn debug_text(&self) -> String {
        decimal_string(*self as i128)
    }
}

impl Ring for u32 {
    open spec fn zero_spec() -> u32 {
        0
    }

    open spec fn one_spec() -> u32 {
        1
    }

    fn zero() -> u32 {
        0
    }

    fn one() -> u32 {
        1
    }

    proof fn lemma_operators() {
    }
}

impl Numeric for u32 {
    open spec fn text_spec(&self) -> Seq<char> {
        decimal(*self as int)
    }

    fn to_text(&self) -> String {
        decimal_string(*self as i128)
    }

    proof fn lemma_ordering() {
    }
}

impl DebugText for u32 {
    open spec fn debug_text_spec(&self) -> Seq<char> {
        decimal(*self as int)
    }

    fn debug_text(&self) -> String {
        decimal_string(*self as i128)
    }
}

impl Ring for u16 {
    open spec fn zero_spec() -> u16 {
        0
    }

    open spec fn one_spec() -> u16 {
        1
    }

    fn zero() -> u16 {
        0
    }

    fn one() -> u16 {
        1
    }

    proof fn lemma_operators() {
    }
}

impl Numeric for u16 {
    open spec fn text_spec(&self) -> Seq<char> {
        decimal(*self as int)
    }

    fn to_text(&self) -> String {
        decimal_string(*self as i128)
    }

    proof fn lemma_ordering() {
    }
}

impl DebugText for u16 {
    open spec fn debug_text_spec(&self) -> Seq<char> {
        decimal(*self as int)
    }

    fn debug_text(&self) -> String {
        decimal_string(*self as i128)
    }
}

impl Ring for u8 {
    open spec fn zero_spec() -> u8 {
        0
    }

    open spec fn one_spec() -> u8 {
        1
    }

    fn zero() -> u8 {
        0
    }

    fn one() -> u8 {
        1
    }

    proof fn lemma_operators() {
    }
}

impl Numeric for u8 {
    open spec fn text_spec(&self) -> Seq<char> {
        decimal(*self as int)
    }

    fn to_text(&self) -> String {
        decimal_string(*self as i128)
    }

    proof fn lemma_ordering() {
    }
}

impl DebugText for u8 {
    open spec fn debug_text_spec(&self) -> Seq<char> {
        decimal(*self as int)
    }

    fn debug_text(&self) -> String {
        decimal_string(*self as i128)
    }
}

impl Ring for usize {
    open spec fn zero_spec() -> usize {
        0
    }

    open spec fn one_spec() -> usize {
        1
    }

    fn zero() -> usize {
        0
    }

    fn one() -> usize {
        1
    }

    proof fn lemma_operators() {
    }
}

impl Numeric for usize {
    open spec fn text_spec(&self) -> Seq<char> {
        decimal(*self as int)
    }

    fn to_text(&self) -> String {
        decimal_string(*self as i128)
    }

    proof fn lemma_ordering() {
    }
}

impl DebugText for usize {
    open spec fn debug_text_spec(&self) -> Seq<char> {
        decimal(*self as int)
    }

    fn debug_text(&self) -> String {
        decimal_string(*self as i128)
    }
}

} // verus!
