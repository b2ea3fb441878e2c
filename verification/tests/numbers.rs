use vectra::nums::complex::Complex;
use vectra::traits::abs;
use vectra::traits::decimal::decimal_string;
use vectra::traits::decimal::push_decimal;
use vectra::traits::decimal::push_decimal_digits;
use vectra::traits::to_signed_text;
use vectra::traits::DebugText;
use vectra::traits::Numeric;
use vectra::traits::Ring;

#[test]
fn decimal_string_of_small_values() {
    assert_eq!(decimal_string(0), "0");
    assert_eq!(decimal_string(7), "7");
    assert_eq!(decimal_string(10), "10");
    assert_eq!(decimal_string(-1), "-1");
    assert_eq!(decimal_string(1203), "1203");
    assert_eq!(decimal_string(-9000), "-9000");
}

#[test]
fn decimal_string_agrees_with_the_standard_text() {
    let samples: [i128; 14] = [
        0,
        1,
        -1,
        9,
        10,
        99,
        100,
        -100,
        12345678901234567890,
        i64::MIN as i128,
        u64::MAX as i128,
        i128::MAX,
        i128::MIN,
        i128::MIN + 1,
    ];
    for v in samples {
        assert_eq!(decimal_string(v), v.to_string());
    }
}

#[test]
fn push_decimal_appends() {
    let mut text = String::from("x^");
    push_decimal(&mut text, 12);
    assert_eq!(text, "x^12");
    push_decimal(&mut text, -3);
    assert_eq!(text, "x^12-3");
    push_decimal_digits(&mut text, 0);
    assert_eq!(text, "x^12-30");
    push_decimal_digits(&mut text, u128::MAX);
    assert_eq!(text, format!("x^12-30{}", u128::MAX));
}

#[test]
fn identities_of_the_integers() {
    assert_eq!(<i8 as Ring>::zero(), 0);
    assert_eq!(<i16 as Ring>::zero(), 0);
    assert_eq!(<i32 as Ring>::zero(), 0);
    assert_eq!(<i64 as Ring>::zero(), 0);
    assert_eq!(<isize as Ring>::zero(), 0);
    assert_eq!(<u8 as Ring>::zero(), 0);
    assert_eq!(<u16 as Ring>::zero(), 0);
    assert_eq!(<u32 as Ring>::zero(), 0);
    assert_eq!(<u64 as Ring>::zero(), 0);
    assert_eq!(<usize as Ring>::zero(), 0);
    assert_eq!(<i8 as Ring>::one(), 1);
    assert_eq!(<i16 as Ring>::one(), 1);
    assert_eq!(<i32 as Ring>::one(), 1);
    assert_eq!(<i64 as Ring>::one(), 1);
    assert_eq!(<isize as Ring>::one(), 1);
    assert_eq!(<u8 as Ring>::one(), 1);
    assert_eq!(<u16 as Ring>::one(), 1);
    assert_eq!(<u32 as Ring>::one(), 1);
    assert_eq!(<u64 as Ring>::one(), 1);
    assert_eq!(<usize as Ring>::one(), 1);
}

#[test]
fn identities_agree_with_num() {
    assert_eq!(<i32 as Ring>::zero(), <i32 as num::Zero>::zero());
    assert_eq!(<i32 as Ring>::one(), <i32 as num::One>::one());
    assert_eq!(<u64 as Ring>::zero(), <u64 as num::Zero>::zero());
    assert_eq!(<u64 as Ring>::one(), <u64 as num::One>::one());
    let z: Complex<i32> = <Complex<i32> as Ring>::zero();
    let nz: num::Complex<i32> = <num::Complex<i32> as num::Zero>::zero();
    assert_eq!((z.re, z.im), (nz.re, nz.im));
    let o: Complex<i32> = <Complex<i32> as Ring>::one();
    let no: num::Complex<i32> = <num::Complex<i32> as num::One>::one();
    assert_eq!((o.re, o.im), (no.re, no.im));
}

#[test]
fn text_of_the_integers() {
    assert_eq!(0i32.to_text(), "0");
    assert_eq!((-45i32).to_text(), "-45");
    assert_eq!(i8::MIN.to_text(), "-128");
    assert_eq!(i16::MIN.to_text(), "-32768");
    assert_eq!(i64::MIN.to_text(), "-9223372036854775808");
    assert_eq!(isize::MAX.to_text(), isize::MAX.to_string());
    assert_eq!(u8::MAX.to_text(), "255");
    assert_eq!(u16::MAX.to_text(), "65535");
    assert_eq!(u32::MAX.to_text(), "4294967295");
    assert_eq!(u64::MAX.to_text(), "18446744073709551615");
    assert_eq!(usize::MAX.to_text(), usize::MAX.to_string());
}

#[test]
fn debug_text_of_the_integers() {
    assert_eq!(17i32.debug_text(), format!("{:?}", 17i32));
    assert_eq!((-17i64).debug_text(), format!("{:?}", -17i64));
    assert_eq!(200u8.debug_text(), format!("{:?}", 200u8));
    assert_eq!(0usize.debug_text(), "0");
    assert_eq!(i16::MIN.debug_text(), "-32768");
    assert_eq!(i8::MAX.debug_text(), "127");
    assert_eq!(isize::MIN.debug_text(), isize::MIN.to_string());
    assert_eq!(u16::MAX.debug_text(), "65535");
    assert_eq!(u32::MAX.debug_text(), "4294967295");
    assert_eq!(u64::MAX.debug_text(), "18446744073709551615");
}

#[test]
fn signed_text_always_has_a_sign() {
    assert_eq!(to_signed_text(5i32), "+5");
    assert_eq!(to_signed_text(-5i32), "-5");
    assert_eq!(to_signed_text(0i32), "+0");
    assert_eq!(to_signed_text(7u8), "+7");
    for v in [-300i64, -1, 0, 1, 42, i64::MAX, i64::MIN] {
        assert_eq!(to_signed_text(v), format!("{:+}", v));
    }
}

#[test]
fn abs_is_the_magnitude() {
    assert_eq!(abs(5i32), 5);
    assert_eq!(abs(-5i32), 5);
    assert_eq!(abs(0i32), 0);
    assert_eq!(abs(i64::MIN + 1), i64::MAX);
    assert_eq!(abs(-128i16), 128);
}

#[test]
fn abs_agrees_with_num() {
    for v in [-1000i32, -3, -1, 0, 1, 2, 999, i32::MAX, i32::MIN + 1] {
        assert_eq!(abs(v), num::abs(v));
    }
    for v in [-128i8 + 1, -1, 0, 1, 127] {
        assert_eq!(abs(v), num::Signed::abs(&v));
    }
}

#[test]
fn complex_new_keeps_the_parts() {
    let c = Complex::new(3, -4);
    assert_eq!(c.re, 3);
    assert_eq!(c.im, -4);
}

#[test]
fn complex_sum_difference_and_product() {
    let a = Complex::new(1, 2);
    let b = Complex::new(3, 4);
    let s = a + b;
    assert_eq!((s.re, s.im), (4, 6));
    let d = a - b;
    assert_eq!((d.re, d.im), (-2, -2));
    let m = a * b;
    assert_eq!((m.re, m.im), (-5, 10));
}

#[test]
fn complex_arithmetic_agrees_with_num() {
    let samples: [(i64, i64); 6] = [(0, 0), (1, 0), (0, 1), (3, -4), (-7, 2), (11, 13)];
    for a in samples {
        for b in samples {
            let ours_a = Complex::new(a.0, a.1);
            let ours_b = Complex::new(b.0, b.1);
            let theirs_a = num::Complex::new(a.0, a.1);
            let theirs_b = num::Complex::new(b.0, b.1);
            let s = ours_a + ours_b;
            let ns = theirs_a + theirs_b;
            assert_eq!((s.re, s.im), (ns.re, ns.im));
            let d = ours_a - ours_b;
            let nd = theirs_a - theirs_b;
            assert_eq!((d.re, d.im), (nd.re, nd.im));
            let m = ours_a * ours_b;
            let nm = theirs_a * theirs_b;
            assert_eq!((m.re, m.im), (nm.re, nm.im));
            assert_eq!(ours_a == ours_b, theirs_a == theirs_b);
        }
        assert_eq!(Complex::new(a.0, a.1).norm_sqr(), num::Complex::new(a.0, a.1).norm_sqr());
    }
}

#[test]
fn complex_norm_sqr() {
    assert_eq!(Complex::new(3, -4).norm_sqr(), 25);
    assert_eq!(Complex::new(0, 0).norm_sqr(), 0);
    assert_eq!(Complex::new(0u8, 5u8).norm_sqr(), 25);
}

#[test]
fn complex_equality_is_by_parts() {
    assert!(Complex::new(1, 2) == Complex::new(1, 2));
    assert!(Complex::new(1, 2) != Complex::new(1, 3));
    assert!(Complex::new(1, 2) != Complex::new(2, 2));
}

#[test]
fn complex_debug_text_agrees_with_num() {
    let c = Complex::new(-3, 14);
    assert_eq!(c.debug_text(), "Complex { re: -3, im: 14 }");
    assert_eq!(c.debug_text(), format!("{:?}", num::Complex::new(-3, 14)));
    assert_eq!(c.debug_text(), format!("{:?}", c));
}
