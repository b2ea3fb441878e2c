use vectra::traits::DebugText;
use vectra::vectors::vector3d::pretty_print;
use vectra::vectors::vector3d::Vector3D;

fn parts(v: &Vector3D<i32>) -> (i32, i32, i32) {
    (v.x, v.y, v.z)
}

#[test]
fn new_keeps_the_components() {
    let v = Vector3D::new(1, -2, 3);
    assert_eq!(parts(&v), (1, -2, 3));
}

#[test]
fn default_is_the_default_of_each_component() {
    let v: Vector3D<i32> = Vector3D::default();
    assert_eq!(parts(&v), (0, 0, 0));
    let b: Vector3D<bool> = Vector3D::default();
    assert_eq!((b.x, b.y, b.z), (false, false, false));
}

#[test]
fn from_array_and_to_array() {
    let v = Vector3D::from_array([7, 8, 9]);
    assert_eq!(parts(&v), (7, 8, 9));
    assert_eq!(v.to_array(), [7, 8, 9]);
    assert_eq!(Vector3D::new(1, 2, 3).to_array(), [1, 2, 3]);
}

#[test]
fn magnitude_squared_and_pow2() {
    let v = Vector3D::new(1, 2, 3);
    assert_eq!(v.magnitude_squared(), 14);
    assert_eq!(v.pow2(), 14);
    let w = Vector3D::new(-3, 0, 4);
    assert_eq!(w.magnitude_squared(), 25);
    assert_eq!(w.pow2(), 25);
}

#[test]
fn dot_product() {
    let v = Vector3D::new(1, 2, 3);
    let w = Vector3D::new(4, 5, 6);
    assert_eq!(v.dot(&w), 32);
    assert_eq!(w.dot(&v), 32);
    assert_eq!(v.dot(&Vector3D::new(0, 0, 0)), 0);
    assert_eq!(v.dot(&Vector3D::new(-1, -1, 1)), 0);
}

#[test]
fn cross_product() {
    let v = Vector3D::new(1, 2, 3);
    let w = Vector3D::new(4, 5, 6);
    assert_eq!(parts(&v.cross(&w)), (-3, 6, -3));
    assert_eq!(parts(&w.cross(&v)), (3, -6, 3));
    let i = Vector3D::new(1, 0, 0);
    let j = Vector3D::new(0, 1, 0);
    assert_eq!(parts(&i.cross(&j)), (0, 0, 1));
    assert_eq!(parts(&v.cross(&v)), (0, 0, 0));
}

#[test]
fn sum_and_difference() {
    let s = Vector3D::new(1, 2, 3) + Vector3D::new(4, 5, 6);
    assert_eq!(parts(&s), (5, 7, 9));
    let d = Vector3D::new(1, 2, 3) - Vector3D::new(4, 5, 6);
    assert_eq!(parts(&d), (-3, -3, -3));
}

#[test]
fn scaling() {
    let m = Vector3D::new(1, -2, 3) * 4;
    assert_eq!(parts(&m), (4, -8, 12));
    let q = Vector3D::new(8, -6, 3) / 2;
    assert_eq!(parts(&q), (4, -3, 1));
}

#[test]
fn debug_text_lists_the_components() {
    assert_eq!(Vector3D::new(1, -2, 3).debug_text(), "(1, -2, 3)");
    assert_eq!(Vector3D::new(0u8, 0, 255).debug_text(), "(0, 0, 255)");
}

#[test]
fn pretty_print_of_units() {
    assert_eq!(pretty_print(1, 1, 1), "i+j+k");
    assert_eq!(pretty_print(-1, -1, -1), "-i-j-k");
    assert_eq!(pretty_print(1, -1, 1), "i-j+k");
    assert_eq!(pretty_print(1, 0, 0), "i");
    assert_eq!(pretty_print(0, 1, 0), "j");
    assert_eq!(pretty_print(0, 0, 1), "k");
    assert_eq!(pretty_print(0, 1, 1), "j+k");
    assert_eq!(pretty_print(1, 0, 1), "i+k");
    assert_eq!(pretty_print(0, -1, 0), "-j");
}

#[test]
fn pretty_print_of_other_values() {
    assert_eq!(pretty_print(2, 3, 4), "2i+3j+4k");
    assert_eq!(pretty_print(-2, -3, -4), "-2i-3j-4k");
    assert_eq!(pretty_print(0, 5, 0), "+5j");
    assert_eq!(pretty_print(0, 0, -12), "-12k");
    assert_eq!(pretty_print(0, 0, 12), "+12k");
    assert_eq!(pretty_print(10, 0, 1), "10i+k");
    assert_eq!(pretty_print(0i64, 2, 1), "+2j+k");
}

#[test]
fn pretty_print_of_zero_is_empty() {
    assert_eq!(pretty_print(0, 0, 0), "");
}

#[test]
fn to_text_is_pretty_print() {
    assert_eq!(Vector3D::new(3, -1, 0).to_text(), "3i-j");
    assert_eq!(Vector3D::new(0i8, 0, 0).to_text(), "");
}
