//! The text forms of a polynomial: a diagnostic list of its terms, and the
//! usual notation in the variable `x`, for real and for complex
//! coefficients.
//!
//! All three write the terms from the highest exponent down to the constant
//! term.

use crate::nums::complex::Complex;
use crate::polynomial::Polynomial;
use crate::traits::abs;
use crate::traits::decimal::decimal;
use crate::traits::decimal::push_decimal;
use crate::traits::has_magnitude;
use crate::traits::is_greater;
use crate::traits::is_less;
use crate::traits::magnitude;
use crate::traits::DebugText;
use crate::traits::Ring;
use crate::traits::Signed;
use vstd::prelude::*;
use vstd::string::StringExecFns;

verus! {

/// The diagnostic text of one term: the exponent and the coefficient's
/// diagnostic text, between brackets.
pub open spec fn debug_term<T: DebugText>(c: T, k: int) -> Seq<char> {
    seq!['('] + decimal(k) + seq![',', ' '] + c.debug_text_spec() + seq![')']
}

/// The diagnostic texts of the terms of `p` from the highest exponent down
/// to `k`, with a comma and a space after each but the constant term.
pub open spec fn debug_terms<T: DebugText>(p: Seq<T>, k: int) -> Seq<char>
    decreases p.len() - k,
{
    if k >= p.len() {
        Seq::<char>::empty()
    } else {
        debug_terms(p, k + 1) + debug_term(p[k], k) + if k > 0 {
            seq![',', ' ']
        } else {
            Seq::<char>::empty()
        }
    }
}

impl<T: DebugText> DebugText for Polynomial<T> {
    /// The diagnostic texts of all terms, from the highest exponent down,
    /// between square brackets.
    open spec fn debug_text_spec(&self) -> Seq<char> {
        seq!['['] + debug_terms(self@, 0) + seq![']']
    }

    fn debug_text(&self) -> String {
        let coefficients = self.coefficients();
        let mut result = String::new();
        let mut k: usize = coefficients.len();
        while k > 0
            invariant
                coefficients@ == self@,
                0 <= k <= self@.len(),
                result@ == debug_terms(self@, k as int),
            decreases k,
        {
            proof {
                reveal_strlit("(");
                reveal_strlit(")");
                reveal_strlit(", ");
            }
            k = k - 1;
            let ghost before = result@;
            result.append("(");
            push_decimal(&mut result, k as i128);
            result.append(", ");
            result.append(coefficients[k].debug_text().as_str());
            result.append(")");
            assert(result@ =~= before + debug_term(self@[k as int], k as int));
            if k > 0 {
                result.append(", ");
            }
            assert(result@ =~= debug_terms(self@, k as int));
        }
        proof {
            reveal_strlit("[");
            reveal_strlit("]");
        }
        let mut text = String::from_str("[");
        text.append(result.as_str());
        text.append("]");
        assert(text@ =~= self.debug_text_spec());
        text
    }
}

/// The variable raised to the exponent `k`: nothing for the constant term,
/// `x` for the linear term, `x^k` above.
pub open spec fn power_text(k: int) -> Seq<char> {
    if k == 0 {
        Seq::<char>::empty()
    } else if k == 1 {
        seq!['x']
    } else {
        seq!['x', '^'] + decimal(k)
    }
}

/// What stands before the magnitude of a term: at the first term that is
/// written only a minus sign and a space, and only for a negative
/// coefficient; at a later term a space, the sign, and a space.
pub open spec fn sign_text(negative: bool, first: bool) -> Seq<char> {
    if first {
        if negative {
            seq!['-', ' ']
        } else {
            Seq::<char>::empty()
        }
    } else {
        if negative {
            seq![' ', '-', ' ']
        } else {
            seq![' ', '+', ' ']
        }
    }
}

/// The text of the term with the coefficient `c`, not zero, at the exponent
/// `k`: the sign, the text of the magnitude of `c`, and the power of the
/// variable.
pub open spec fn term_text<T: Signed>(c: T, k: int, first: bool) -> Seq<char> {
    sign_text(is_less(c, T::zero_spec()), first) + magnitude(c).text_spec() + power_text(k)
}

/// Whether every coefficient of `p` above the exponent `k` is zero, so that
/// no term is written before that of `k`.
pub open spec fn leads<T: Ring>(p: Seq<T>, k: int) -> bool {
    forall|j: int| k < j < p.len() ==> p[j] == T::zero_spec()
}

/// The text of the terms of `p` from the highest exponent down to `k`. A
/// term whose coefficient is zero is not written.
pub open spec fn terms_text<T: Signed>(p: Seq<T>, k: int) -> Seq<char>
    decreases p.len() - k,
{
    if k >= p.len() {
        Seq::<char>::empty()
    } else if p[k] == T::zero_spec() {
        terms_text(p, k + 1)
    } else {
        terms_text(p, k + 1) + term_text(p[k], k, leads(p, k))
    }
}

/// The text of `p` in the variable `x`; empty where every coefficient is
/// zero.
pub open spec fn display_text<T: Signed>(p: Seq<T>) -> Seq<char> {
    terms_text(p, 0)
}

proof fn lemma_zero_terms_have_no_text<T: Signed>(p: Seq<T>, k: int)
    requires
        forall|i: int| 0 <= i < p.len() ==> p[i] == T::zero_spec(),
        0 <= k,
    ensures
        terms_text(p, k) == Seq::<char>::empty(),
    decreases p.len() - k,
{
    if k < p.len() {
        lemma_zero_terms_have_no_text(p, k + 1);
    }
}

/// The text of a polynomial whose coefficients are all zero is empty.
pub proof fn lemma_zero_has_no_text<T: Signed>(p: Seq<T>)
    requires
        forall|i: int| 0 <= i < p.len() ==> p[i] == T::zero_spec(),
    ensures
        display_text(p) == Seq::<char>::empty(),
{
    lemma_zero_terms_have_no_text(p, 0);
}

/// Whether the magnitude of every coefficient of `p` can be computed.
pub open spec fn displayable<T: Signed>(p: Seq<T>) -> bool {
    forall|i: int| 0 <= i < p.len() ==> has_magnitude(#[trigger] p[i])
}

/// Appends what stands before the magnitude of a term.
fn push_sign(text: &mut String, negative: bool, first: bool)
    ensures
        final(text)@ == old(text)@ + sign_text(negative, first),
{
    proof {
        reveal_strlit("- ");
        reveal_strlit("+ ");
        reveal_strlit(" ");
    }
    let sign: &str = if negative {
        "- "
    } else {
        "+ "
    };
    if first {
        if negative {
            text.append(sign);
        }
    } else {
        text.append(" ");
        text.append(sign);
    }
    assert(text@ =~= old(text)@ + sign_text(negative, first));
}

/// Appends the variable raised to the exponent `k`.
fn push_power(text: &mut String, k: usize)
    ensures
        final(text)@ == old(text)@ + power_text(k as int),
{
    proof {
        reveal_strlit("x");
        reveal_strlit("x^");
    }
    if k == 0 {
    } else if k == 1 {
        text.append("x");
    } else {
        text.append("x^");
        push_decimal(text, k as i128);
    }
    assert(text@ =~= old(text)@ + power_text(k as int));
}

/// Appends the term with the coefficient `c` at the exponent `k`.
fn push_term<T: Signed>(text: &mut String, c: T, k: usize, first: bool)
    requires
        has_magnitude(c),
    ensures
        final(text)@ == old(text)@ + term_text(c, k as int, first),
{
    proof {
        T::lemma_ordering();
    }
    let is_neg: bool = c < T::zero();
    let shown: T = abs(c);
    push_sign(text, is_neg, first);
    text.append(shown.to_text().as_str());
    push_power(text, k);
    assert(text@ =~= old(text)@ + term_text(c, k as int, first));
}

impl<T: Signed> Polynomial<T> {
    /// The polynomial in the variable `x`, from the highest exponent down:
    /// `2x^2 - 3x + 1`. Terms with the coefficient zero are left out, so the
    /// text of a polynomial that is zero throughout is empty.
    pub fn to_text(&self) -> (text: String)
        requires
            displayable(self@),
        ensures
            text@ == display_text(self@),
    {
        let coefficients = self.coefficients();
        let mut text = String::new();
        let mut is_first_term: bool = true;
        let mut k: usize = coefficients.len();
        while k > 0
            invariant
                coefficients@ == self@,
                displayable(self@),
                0 <= k <= self@.len(),
                is_first_term == leads(self@, k as int - 1),
                text@ == terms_text(self@, k as int),
            decreases k,
        {
            proof {
                T::lemma_operators();
            }
            k = k - 1;
            let coefficient: T = coefficients[k];
            if coefficient != T::zero() {
                push_term(&mut text, coefficient, k, is_first_term);
                is_first_term = false;
            }
        }
        text
    }
}

/// The text of a complex coefficient that is not zero: the real part unless
/// it is zero, then the imaginary part unless it is zero, as its magnitude
/// and the letter `i`, with a minus sign before it unless it is above zero,
/// and with a plus sign before it where it is above zero and follows a real
/// part.
pub open spec fn complex_text<T: Signed>(c: Complex<T>) -> Seq<char> {
    let real_part = if c.re != T::zero_spec() {
        c.re.text_spec()
    } else {
        Seq::<char>::empty()
    };
    let imaginary = if c.im != T::zero_spec() {
        let sign = if is_greater(c.im, T::zero_spec()) {
            if c.re != T::zero_spec() {
                seq!['+']
            } else {
                Seq::<char>::empty()
            }
        } else {
            seq!['-']
        };
        sign + magnitude(c.im).text_spec() + seq!['i']
    } else {
        Seq::<char>::empty()
    };
    real_part + imaginary
}

/// The text of the term with the complex coefficient `c` at the exponent
/// `k`: a plus sign and a space, the coefficient between brackets, `x^k`,
/// and a space.
pub open spec fn complex_term_text<T: Signed>(c: Complex<T>, k: int) -> Seq<char> {
    seq!['+', ' ', '('] + complex_text(c) + seq![')', 'x', '^'] + decimal(k) + seq![' ']
}

/// The text of the terms of `p` from the highest exponent down to `k`. A
/// term whose coefficient has the squared norm zero is not written.
pub open spec fn complex_terms_text<T: Signed>(p: Seq<Complex<T>>, k: int) -> Seq<char>
    decreases p.len() - k,
{
    if k >= p.len() {
        Seq::<char>::empty()
    } else if p[k].norm_sqr_spec() == T::zero_spec() {
        complex_terms_text(p, k + 1)
    } else {
        complex_terms_text(p, k + 1) + complex_term_text(p[k], k)
    }
}

/// The text of `p`, a polynomial with complex coefficients, in the variable
/// `x`.
pub open spec fn complex_display_text<T: Signed>(p: Seq<Complex<T>>) -> Seq<char> {
    complex_terms_text(p, 0)
}

/// Whether the squared norm of every coefficient of `p` can be computed,
/// and the magnitude of the imaginary part of every coefficient that is
/// written.
pub open spec fn complex_displayable<T: Signed>(p: Seq<Complex<T>>) -> bool {
    forall|i: int|
        0 <= i < p.len() ==> {
            &&& (#[trigger] p[i]).norm_sqr_defined()
            &&& p[i].norm_sqr_spec() != T::zero_spec() && p[i].im != T::zero_spec()
                ==> has_magnitude(p[i].im)
        }
}

/// The text of the complex coefficient `c`.
fn complex_string<T: Signed>(c: Complex<T>) -> (text: String)
    requires
        c.im != T::zero_spec() ==> has_magnitude(c.im),
    ensures
        text@ == complex_text(c),
{
    proof {
        T::lemma_operators();
        T::lemma_ordering();
        reveal_strlit("+");
        reveal_strlit("-");
        reveal_strlit("i");
    }
    let z: T = T::zero();
    let mut result = String::new();
    if c.re != z {
        result.append(c.re.to_text().as_str());
    }
    if c.im != z {
        if c.im > z {
            if c.re != z {
                result.append("+");
            }
        } else {
            result.append("-");
        }
        result.append(abs(c.im).to_text().as_str());
        result.append("i");
    }
    assert(result@ =~= complex_text(c));
    result
}

/// Appends the term with the complex coefficient `c` at the exponent `k`.
fn push_complex_term<T: Signed>(text: &mut String, c: Complex<T>, k: usize)
    requires
        c.im != T::zero_spec() ==> has_magnitude(c.im),
    ensures
        final(text)@ == old(text)@ + complex_term_text(c, k as int),
{
    proof {
        reveal_strlit("+ (");
        reveal_strlit(")x^");
        reveal_strlit(" ");
    }
    let result = complex_string(c);
    text.append("+ (");
    text.append(result.as_str());
    text.append(")x^");
    push_decimal(text, k as i128);
    text.append(" ");
    assert(text@ =~= old(text)@ + complex_term_text(c, k as int));
}

impl<T: Signed> Polynomial<Complex<T>> {
    /// The polynomial in the variable `x`, from the highest exponent down,
    /// each term as `+ (a+bi)x^k ` with a space after it. Terms whose
    /// coefficient has the squared norm zero are left out.
    pub fn to_text(&self) -> (text: String)
        requires
            complex_displayable(self@),
        ensures
            text@ == complex_display_text(self@),
    {
        let coefficients = self.coefficients();
        let mut text = String::new();
        let mut k: usize = coefficients.len();
        while k > 0
            invariant
                coefficients@ == self@,
                complex_displayable(self@),
                0 <= k <= self@.len(),
                text@ == complex_terms_text(self@, k as int),
            decreases k,
        {
            proof {
                T::lemma_operators();
            }
            k = k - 1;
            let coefficient: Complex<T> = coefficients[k];
            if coefficient.norm_sqr() != T::zero() {
                push_complex_term(&mut text, coefficient, k);
            }
        }
        text
    }
}

} // verus!
