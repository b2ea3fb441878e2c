use vectra::polynomial::Polynomial;

fn poly(coefficients: &[i32]) -> Polynomial<i32> {
    Polynomial::from_coefficients(coefficients.to_vec())
}

#[test]
fn new_is_the_zero_polynomial() {
    let p: Polynomial<i32> = Polynomial::new();
    assert_eq!(p.degree(), 0);
    assert_eq!(p.coefficients(), &vec![0]);
}

#[test]
fn default_is_the_zero_polynomial() {
    let p: Polynomial<i64> = Polynomial::default();
    assert_eq!(p.degree(), 0);
    assert_eq!(p.coefficients(), &vec![0i64]);
}

#[test]
fn from_coefficients_keeps_the_sequence() {
    let first: Polynomial<i32> = Polynomial::from_coefficients(vec![]);
    let second: Polynomial<i32> = Polynomial::from_coefficients(vec![1]);
    let third: Polynomial<i32> = Polynomial::from_coefficients(vec![1, 4]);
    let fourth: Polynomial<i32> = Polynomial::from_coefficients(vec![1, 4, 5]);

    assert_eq!(first.degree(), 0);
    assert_eq!(first.coefficients(), &vec![0]);

    assert_eq!(second.degree(), 0);
    assert_eq!(second.coefficients(), &vec![1]);

    assert_eq!(third.degree(), 1);
    assert_eq!(third.coefficients(), &vec![1, 4]);

    assert_eq!(fourth.degree(), 2);
    assert_eq!(fourth.coefficients(), &vec![1, 4, 5]);
}

#[test]
fn from_coefficients_does_not_trim_zeros() {
    let p = poly(&[1, 0, 0, 0]);
    assert_eq!(p.degree(), 3);
    assert_eq!(p.coefficients(), &vec![1, 0, 0, 0]);
    let z = poly(&[0, 0]);
    assert_eq!(z.degree(), 1);
    assert_eq!(z.coefficients(), &vec![0, 0]);
}

#[test]
fn no_coefficients_give_the_zero_polynomial() {
    let p: Polynomial<i32> = Polynomial::from_coefficients(vec![]);
    assert_eq!(p.degree(), 0);
    assert_eq!(p.coefficients(), &vec![0]);
}

#[test]
fn degree_is_the_length_less_one() {
    let p = poly(&[1, 4, 5]);
    assert_eq!(p.degree(), 2);
    assert_eq!(p.coefficients().len(), p.degree() + 1);
}

#[test]
fn get_coefficient_is_absent_above_the_degree() {
    let p = poly(&[1, 4, 5]);
    assert_eq!(p.get_coefficient(0), Some(1));
    assert_eq!(p.get_coefficient(1), Some(4));
    assert_eq!(p.get_coefficient(2), Some(5));
    assert_eq!(p.get_coefficient(3), None);
    assert_eq!(p.get_coefficient(usize::MAX), None);
}

#[test]
fn set_degree_pads_with_zeros() {
    let mut p = poly(&[1, 4, 5]);
    p.set_degree(5);
    assert_eq!(p.degree(), 5);
    assert_eq!(p.coefficients(), &vec![1, 4, 5, 0, 0, 0]);
}

#[test]
fn set_degree_never_lowers_the_degree() {
    let mut p = poly(&[1, 4, 5]);
    p.set_degree(1);
    assert_eq!(p.degree(), 2);
    assert_eq!(p.coefficients(), &vec![1, 4, 5]);
    p.set_degree(2);
    assert_eq!(p.degree(), 2);
    assert_eq!(p.coefficients(), &vec![1, 4, 5]);
    p.set_degree(0);
    assert_eq!(p.degree(), 2);
    p.set_degree(4);
    p.set_degree(3);
    assert_eq!(p.degree(), 4);
    assert_eq!(p.coefficients(), &vec![1, 4, 5, 0, 0]);
}

#[test]
fn set_coefficient_overwrites_within_the_degree() {
    let mut p = poly(&[1, 4, 5]);
    p.set_coefficient(1, 9);
    assert_eq!(p.degree(), 2);
    assert_eq!(p.coefficients(), &vec![1, 9, 5]);
    assert_eq!(p.get_coefficient(1), Some(9));
}

#[test]
fn set_coefficient_raises_the_degree() {
    let mut p = poly(&[1, 4, 5]);
    p.set_coefficient(5, 7);
    assert_eq!(p.degree(), 5);
    assert_eq!(p.coefficients(), &vec![1, 4, 5, 0, 0, 7]);
    assert_eq!(p.get_coefficient(5), Some(7));
    assert_eq!(p.get_coefficient(4), Some(0));
    assert_eq!(p.get_coefficient(6), None);
}

#[test]
fn set_then_get_returns_the_value() {
    for d in 0..8usize {
        let mut p = poly(&[3, 1, 4]);
        let before = p.degree();
        p.set_coefficient(d, -11);
        assert_eq!(p.get_coefficient(d), Some(-11));
        assert!(p.degree() >= before);
        assert_eq!(p.coefficients().len(), p.degree() + 1);
    }
}

#[test]
fn sum_of_two_polynomials() {
    let first = poly(&[1, 4, 5]);
    let second = poly(&[2, 8, 10, 12, 14]);
    let third = first + second;
    assert_eq!(third.degree(), 4);
    assert_eq!(third.coefficients(), &vec![3, 12, 15, 12, 14]);
}

#[test]
fn difference_of_two_polynomials() {
    let first = poly(&[1, 4, 5]);
    let second = poly(&[2, 8, 10, 12, 14]);
    let third = first - second;
    assert_eq!(third.degree(), 4);
    assert_eq!(third.coefficients(), &vec![-1, -4, -5, -12, -14]);
}

#[test]
fn difference_keeps_the_longer_left_operand() {
    let third = poly(&[2, 8, 10, 12, 14]) - poly(&[1, 4, 5]);
    assert_eq!(third.degree(), 4);
    assert_eq!(third.coefficients(), &vec![1, 4, 5, 12, 14]);
}

#[test]
fn difference_with_itself_is_not_trimmed() {
    let third = poly(&[1, 4, 5]) - poly(&[1, 4, 5]);
    assert_eq!(third.degree(), 2);
    assert_eq!(third.coefficients(), &vec![0, 0, 0]);
}

#[test]
fn product_of_two_polynomials() {
    let first = poly(&[1, 4, 5]);
    let second = poly(&[2, 8, 10, 12, 14]);
    let third = first * second;
    assert_eq!(third.degree(), 6);
    assert_eq!(third.coefficients(), &vec![2, 16, 52, 92, 112, 116, 70]);
}

#[test]
fn product_of_constants() {
    let third = poly(&[6]) * poly(&[-7]);
    assert_eq!(third.degree(), 0);
    assert_eq!(third.coefficients(), &vec![-42]);
}

#[test]
fn product_with_zero_keeps_the_other_degree() {
    let zero: Polynomial<i32> = Polynomial::new();
    let third = poly(&[1, 4, 5]) * zero;
    assert_eq!(third.degree(), 2);
    assert_eq!(third.coefficients(), &vec![0, 0, 0]);
    let zero: Polynomial<i32> = Polynomial::new();
    let fourth = zero * poly(&[2, 8, 10, 12, 14]);
    assert_eq!(fourth.degree(), 4);
    assert_eq!(fourth.coefficients(), &vec![0, 0, 0, 0, 0]);
}

#[test]
fn degrees_of_sum_and_product() {
    let samples: Vec<Vec<i32>> =
        vec![vec![], vec![5], vec![0, 1], vec![1, -2, 3], vec![0, 0, 0, 0], vec![2, 0, 0, 0, 0, -1]];
    for a in &samples {
        for b in &samples {
            let da = poly(a).degree();
            let db = poly(b).degree();
            assert_eq!((poly(a) + poly(b)).degree(), da.max(db));
            assert_eq!((poly(a) - poly(b)).degree(), da.max(db));
            assert_eq!((poly(a) * poly(b)).degree(), da + db);
        }
    }
}

#[test]
fn sum_and_product_are_commutative() {
    let samples: Vec<Vec<i32>> =
        vec![vec![], vec![5], vec![0, 1], vec![1, -2, 3], vec![4, 0, -6, 7], vec![2, 0, 0, 0, 0, -1]];
    for a in &samples {
        for b in &samples {
            assert_eq!((poly(a) + poly(b)).coefficients(), (poly(b) + poly(a)).coefficients());
            assert_eq!((poly(a) * poly(b)).coefficients(), (poly(b) * poly(a)).coefficients());
        }
    }
}

#[test]
fn sum_and_product_are_associative() {
    let samples: Vec<Vec<i32>> = vec![vec![], vec![5], vec![0, 1], vec![1, -2, 3], vec![4, 0, -6, 7]];
    for a in &samples {
        for b in &samples {
            for c in &samples {
                let left = (poly(a) + poly(b)) + poly(c);
                let right = poly(a) + (poly(b) + poly(c));
                assert_eq!(left.coefficients(), right.coefficients());
                let left = (poly(a) * poly(b)) * poly(c);
                let right = poly(a) * (poly(b) * poly(c));
                assert_eq!(left.coefficients(), right.coefficients());
                assert_eq!(left.degree(), right.degree());
            }
        }
    }
}

#[test]
fn operands_can_be_cloned_before_they_are_consumed() {
    let p = poly(&[1, 2]);
    let square = p.clone() * p.clone();
    assert_eq!(square.coefficients(), &vec![1, 4, 4]);
    assert_eq!(p.coefficients(), &vec![1, 2]);
}

#[test]
fn unsigned_coefficients() {
    let p: Polynomial<u8> = Polynomial::from_coefficients(vec![1, 2, 3]);
    let q: Polynomial<u8> = Polynomial::from_coefficients(vec![4, 5]);
    let r = p * q;
    assert_eq!(r.coefficients(), &vec![4u8, 13, 22, 15]);
}
