use vectra::nums::complex::Complex;
use vectra::polynomial::Polynomial;
use vectra::traits::DebugText;

fn poly(coefficients: &[i32]) -> Polynomial<i32> {
    Polynomial::from_coefficients(coefficients.to_vec())
}

fn complex_poly(coefficients: &[(i32, i32)]) -> Polynomial<Complex<i32>> {
    Polynomial::from_coefficients(coefficients.iter().map(|c| Complex::new(c.0, c.1)).collect())
}

#[test]
fn text_leaves_out_zero_terms_and_leading_plus() {
    assert_eq!(poly(&[0, -3, 2]).to_text(), "2x^2 - 3x");
}

#[test]
fn text_of_all_positive_terms() {
    assert_eq!(poly(&[1, 4, 5]).to_text(), "5x^2 + 4x + 1");
}

#[test]
fn text_of_a_negative_first_term() {
    assert_eq!(poly(&[-1, 0, -5]).to_text(), "- 5x^2 - 1");
    assert_eq!(poly(&[2, -1]).to_text(), "- 1x + 2");
}

#[test]
fn text_of_constants() {
    assert_eq!(poly(&[7]).to_text(), "7");
    assert_eq!(poly(&[-7]).to_text(), "- 7");
}

#[test]
fn text_of_zero_is_empty() {
    assert_eq!(poly(&[]).to_text(), "");
    assert_eq!(poly(&[0]).to_text(), "");
    assert_eq!(poly(&[0, 0, 0]).to_text(), "");
}

#[test]
fn text_skips_leading_zero_coefficients() {
    assert_eq!(poly(&[3, 2, 0, 0]).to_text(), "2x + 3");
    assert_eq!(poly(&[-3, 0, 0]).to_text(), "- 3");
}

#[test]
fn text_of_the_variable_powers() {
    assert_eq!(poly(&[0, 1]).to_text(), "1x");
    assert_eq!(poly(&[0, 0, 1]).to_text(), "1x^2");
    assert_eq!(poly(&[3, 0, 0, 12]).to_text(), "12x^3 + 3");
    let mut p = poly(&[1]);
    p.set_coefficient(10, -1);
    p.set_coefficient(123, 4);
    assert_eq!(p.to_text(), "4x^123 - 1x^10 + 1");
}

#[test]
fn text_of_wide_coefficients() {
    let p: Polynomial<i64> = Polynomial::from_coefficients(vec![i64::MAX, i64::MIN + 1]);
    assert_eq!(p.to_text(), "- 9223372036854775807x + 9223372036854775807");
    let q: Polynomial<i8> = Polynomial::from_coefficients(vec![-127, 127]);
    assert_eq!(q.to_text(), "127x - 127");
}

#[test]
fn debug_text_lists_the_terms_from_the_top() {
    assert_eq!(poly(&[1, 4, 5]).debug_text(), "[(2, 5), (1, 4), (0, 1)]");
}

#[test]
fn debug_text_keeps_zero_and_negative_coefficients() {
    assert_eq!(poly(&[]).debug_text(), "[(0, 0)]");
    assert_eq!(poly(&[-1, 0, 2]).debug_text(), "[(2, 2), (1, 0), (0, -1)]");
}

#[test]
fn debug_text_of_unsigned_coefficients() {
    let p: Polynomial<u64> = Polynomial::from_coefficients(vec![u64::MAX, 0]);
    assert_eq!(p.debug_text(), "[(1, 0), (0, 18446744073709551615)]");
}

#[test]
fn debug_text_of_complex_coefficients() {
    let p = complex_poly(&[(1, 2), (-3, 0)]);
    assert_eq!(p.debug_text(), "[(1, Complex { re: -3, im: 0 }), (0, Complex { re: 1, im: 2 })]");
}

#[test]
fn complex_text_writes_every_term_with_a_plus() {
    let p = complex_poly(&[(1, 2), (0, 0), (3, -4)]);
    assert_eq!(p.to_text(), "+ (3-4i)x^2 + (1+2i)x^0 ");
}

#[test]
fn complex_text_of_single_parts() {
    assert_eq!(complex_poly(&[(7, 0)]).to_text(), "+ (7)x^0 ");
    assert_eq!(complex_poly(&[(-7, 0)]).to_text(), "+ (-7)x^0 ");
    assert_eq!(complex_poly(&[(0, 5)]).to_text(), "+ (5i)x^0 ");
    assert_eq!(complex_poly(&[(0, -5)]).to_text(), "+ (-5i)x^0 ");
}

#[test]
fn complex_text_of_both_parts() {
    assert_eq!(complex_poly(&[(0, 0), (-2, 3)]).to_text(), "+ (-2+3i)x^1 ");
    assert_eq!(complex_poly(&[(0, 0), (-2, -3)]).to_text(), "+ (-2-3i)x^1 ");
    assert_eq!(complex_poly(&[(0, 0), (2, 1)]).to_text(), "+ (2+1i)x^1 ");
}

#[test]
fn complex_text_of_zero_is_empty() {
    assert_eq!(complex_poly(&[]).to_text(), "");
    assert_eq!(complex_poly(&[(0, 0), (0, 0)]).to_text(), "");
}

#[test]
fn complex_polynomials_add_and_multiply() {
    let p = complex_poly(&[(1, 2), (3, 4)]);
    let q = complex_poly(&[(0, 1), (1, 0)]);
    let s = p.clone() + q.clone();
    assert_eq!(s.debug_text(), "[(1, Complex { re: 4, im: 4 }), (0, Complex { re: 1, im: 3 })]");
    let m = p * q;
    assert_eq!(m.degree(), 2);
    assert_eq!(
        m.debug_text(),
        "[(2, Complex { re: 3, im: 4 }), (1, Complex { re: -3, im: 5 }), (0, Complex { re: -2, im: 1 })]"
    );
}
