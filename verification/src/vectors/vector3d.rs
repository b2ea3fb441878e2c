//! Vectors of three components over a generic component type.

use crate::traits::signed_text;
use crate::traits::to_signed_text;
use crate::traits::DebugText;
use crate::traits::Signed;
use core::ops::Add;
use core::ops::Div;
use core::ops::Mul;
use core::ops::Sub;
use vstd::prelude::*;
use vstd::std_specs::ops::AddSpec;
use vstd::std_specs::ops::AddSpecImpl;
use vstd::std_specs::ops::DivSpec;
use vstd::std_specs::ops::DivSpecImpl;
use vstd::std_specs::ops::MulSpec;
use vstd::std_specs::ops::MulSpecImpl;
use vstd::std_specs::ops::NegSpec;
use vstd::std_specs::ops::SubSpec;
use vstd::std_specs::ops::SubSpecImpl;
use vstd::string::StringExecFns;

verus! {

/// A vector with the components `x`, `y` and `z`.
pub struct Vector3D<T> {
    pub x: T,
    pub y: T,
    pub z: T,
}

impl<T: Default> Default for Vector3D<T> {
    /// The vector whose components are the default value of `T`.
    fn default() -> (v: Vector3D<T>)
        ensures
            call_ensures(T::default, (), v.x),
            call_ensures(T::default, (), v.y),
            call_ensures(T::default, (), v.z),
    {
        Vector3D { x: Default::default(), y: Default::default(), z: Default::default() }
    }
}

/// `a * b + c * d + e * f`, evaluated from left to right.
pub open spec fn sum_of_products<T: Mul<Output = T> + Add<Output = T>>(
    a: T,
    b: T,
    c: T,
    d: T,
    e: T,
    f: T,
) -> T {
    a.mul_spec(b).add_spec(c.mul_spec(d)).add_spec(e.mul_spec(f))
}

/// Whether every step of `a * b + c * d + e * f` is defined.
pub open spec fn sum_of_products_defined<T: Mul<Output = T> + Add<Output = T>>(
    a: T,
    b: T,
    c: T,
    d: T,
    e: T,
    f: T,
) -> bool {
    &&& a.mul_req(b)
    &&& c.mul_req(d)
    &&& e.mul_req(f)
    &&& a.mul_spec(b).add_req(c.mul_spec(d))
    &&& a.mul_spec(b).add_spec(c.mul_spec(d)).add_req(e.mul_spec(f))
}

/// `a * b - c * d`.
pub open spec fn difference_of_products<T: Mul<Output = T> + Sub<Output = T>>(
    a: T,
    b: T,
    c: T,
    d: T,
) -> T {
    a.mul_spec(b).sub_spec(c.mul_spec(d))
}

/// Whether every step of `a * b - c * d` is defined.
pub open spec fn difference_of_products_defined<T: Mul<Output = T> + Sub<Output = T>>(
    a: T,
    b: T,
    c: T,
    d: T,
) -> bool {
    &&& a.mul_req(b)
    &&& c.mul_req(d)
    &&& a.mul_spec(b).sub_req(c.mul_spec(d))
}

impl<T> Vector3D<T> {
    pub fn new(x: T, y: T, z: T) -> (v: Vector3D<T>)
        ensures
            v.x == x,
            v.y == y,
            v.z == z,
    {
        Vector3D { x, y, z }
    }

    /// The vector whose components are the three items of `array`, in order.
    pub fn from_array(array: [T; 3]) -> (v: Vector3D<T>) where T: Copy
        ensures
            v.x == array@[0],
            v.y == array@[1],
            v.z == array@[2],
    {
        Vector3D { x: array[0], y: array[1], z: array[2] }
    }

    /// The components, in order.
    pub fn to_array(&self) -> (array: [T; 3]) where T: Copy
        ensures
            array@ == seq![self.x, self.y, self.z],
    {
        let array = [self.x, self.y, self.z];
        assert(array@ =~= seq![self.x, self.y, self.z]);
        array
    }

    /// The dot product of `self` and `other`.
    pub open spec fn dot_spec(&self, other: &Self) -> T where T: Mul<Output = T> + Add<Output = T> {
        sum_of_products(self.x, other.x, self.y, other.y, self.z, other.z)
    }

    /// Whether every step of the dot product is defined.
    pub open spec fn dot_defined(&self, other: &Self) -> bool where T: Mul<Output = T> + Add<Output = T> {
        sum_of_products_defined(self.x, other.x, self.y, other.y, self.z, other.z)
    }

    /// The cross product of `self` and `other`.
    pub open spec fn cross_spec(&self, other: &Self) -> Self where T: Mul<Output = T> + Sub<Output = T> {
        Vector3D {
            x: difference_of_products(self.y, other.z, self.z, other.y),
            y: difference_of_products(self.z, other.x, self.x, other.z),
            z: difference_of_products(self.x, other.y, self.y, other.x),
        }
    }

    /// Whether every step of the cross product is defined.
    pub open spec fn cross_defined(&self, other: &Self) -> bool where T: Mul<Output = T> + Sub<Output = T> {
        &&& difference_of_products_defined(self.y, other.z, self.z, other.y)
        &&& difference_of_products_defined(self.z, other.x, self.x, other.z)
        &&& difference_of_products_defined(self.x, other.y, self.y, other.x)
    }

    /// The square of the length: the dot product of the vector with itself.
    pub fn magnitude_squared(&self) -> (r: T) where T: Copy + Mul<Output = T> + Add<Output = T>
        requires
            T::obeys_mul_spec(),
            T::obeys_add_spec(),
            self.dot_defined(self),
        ensures
            r == self.dot_spec(self),
    {
        self.x * self.x + self.y * self.y + self.z * self.z
    }

    /// The dot product `x * x' + y * y' + z * z'`.
    pub fn dot(&self, other: &Self) -> (r: T) where T: Copy + Mul<Output = T> + Add<Output = T>
        requires
            T::obeys_mul_spec(),
            T::obeys_add_spec(),
            self.dot_defined(other),
        ensures
            r == self.dot_spec(other),
    {
        self.x * other.x + self.y * other.y + self.z * other.z
    }

    /// The cross product
    /// `(y * z' - z * y', z * x' - x * z', x * y' - y * x')`.
    pub fn cross(&self, other: &Self) -> (r: Self) where T: Copy + Mul<Output = T> + Sub<Output = T>
        requires
            T::obeys_mul_spec(),
            T::obeys_sub_spec(),
            self.cross_defined(other),
        ensures
            r == self.cross_spec(other),
    {
        Vector3D {
            x: self.y * other.z - self.z * other.y,
            y: self.z * other.x - self.x * other.z,
            z: self.x * other.y - self.y * other.x,
        }
    }

    /// The square of the vector: the dot product of the vector with itself.
    pub fn pow2(&self) -> (r: T) where T: Copy + Mul<Output = T> + Add<Output = T>
        requires
            T::obeys_mul_spec(),
            T::obeys_add_spec(),
            self.dot_defined(self),
        ensures
            r == self.dot_spec(self),
    {
        self.magnitude_squared()
    }
}

impl<T: Add<Output = T>> AddSpecImpl for Vector3D<T> {
    open spec fn obeys_add_spec() -> bool {
        T::obeys_add_spec()
    }

    open spec fn add_req(self, other: Vector3D<T>) -> bool {
        self.x.add_req(other.x) && self.y.add_req(other.y) && self.z.add_req(other.z)
    }

    open spec fn add_spec(self, other: Vector3D<T>) -> Vector3D<T> {
        Vector3D {
            x: self.x.add_spec(other.x),
            y: self.y.add_spec(other.y),
            z: self.z.add_spec(other.z),
        }
    }
}

impl<T: Add<Output = T>> Add for Vector3D<T> {
    type Output = Vector3D<T>;

    /// The component-wise sum.
    fn add(self, other: Vector3D<T>) -> Vector3D<T> {
        Vector3D { x: self.x + other.x, y: self.y + other.y, z: self.z + other.z }
    }
}

impl<T: Sub<Output = T>> SubSpecImpl for Vector3D<T> {
    open spec fn obeys_sub_spec() -> bool {
        T::obeys_sub_spec()
    }

    open spec fn sub_req(self, other: Vector3D<T>) -> bool {
        self.x.sub_req(other.x) && self.y.sub_req(other.y) && self.z.sub_req(other.z)
    }

    open spec fn sub_spec(self, other: Vector3D<T>) -> Vector3D<T> {
        Vector3D {
            x: self.x.sub_spec(other.x),
            y: self.y.sub_spec(other.y),
            z: self.z.sub_spec(other.z),
        }
    }
}

impl<T: Sub<Output = T>> Sub for Vector3D<T> {
    type Output = Vector3D<T>;

    /// The component-wise difference.
    fn sub(self, other: Vector3D<T>) -> Vector3D<T> {
        Vector3D { x: self.x - other.x, y: self.y - other.y, z: self.z - other.z }
    }
}

impl<T: Mul<Output = T> + Copy> MulSpecImpl<T> for Vector3D<T> {
    open spec fn obeys_mul_spec() -> bool {
        T::obeys_mul_spec()
    }

    open spec fn mul_req(self, scalar: T) -> bool {
        self.x.mul_req(scalar) && self.y.mul_req(scalar) && self.z.mul_req(scalar)
    }

    open spec fn mul_spec(self, scalar: T) -> Vector3D<T> {
        Vector3D {
            x: self.x.mul_spec(scalar),
            y: self.y.mul_spec(scalar),
            z: self.z.mul_spec(scalar),
        }
    }
}

impl<T: Mul<Output = T> + Copy> Mul<T> for Vector3D<T> {
    type Output = Vector3D<T>;

    /// Each component times `scalar`.
    fn mul(self, scalar: T) -> Vector3D<T> {
        Vector3D { x: self.x * scalar, y: self.y * scalar, z: self.z * scalar }
    }
}

impl<T: Div<Output = T> + Copy> DivSpecImpl<T> for Vector3D<T> {
    open spec fn obeys_div_spec() -> bool {
        T::obeys_div_spec()
    }

    open spec fn div_req(self, scalar: T) -> bool {
        self.x.div_req(scalar) && self.y.div_req(scalar) && self.z.div_req(scalar)
    }

    open spec fn div_spec(self, scalar: T) -> Vector3D<T> {
        Vector3D {
            x: self.x.div_spec(scalar),
            y: self.y.div_spec(scalar),
            z: self.z.div_spec(scalar),
        }
    }
}

impl<T: Div<Output = T> + Copy> Div<T> for Vector3D<T> {
    type Output = Vector3D<T>;

    /// Each component divided by `scalar`.
    fn div(self, scalar: T) -> Vector3D<T> {
        Vector3D { x: self.x / scalar, y: self.y / scalar, z: self.z / scalar }
    }
}

impl<T: DebugText> DebugText for Vector3D<T> {
    /// The diagnostic texts of the components, between brackets and
    /// separated by a comma and a space.
    open spec fn debug_text_spec(&self) -> Seq<char> {
        seq!['('] + self.x.debug_text_spec() + seq![',', ' '] + self.y.debug_text_spec() + seq![
            ',',
            ' ',
        ] + self.z.debug_text_spec() + seq![')']
    }

    fn debug_text(&self) -> String {
        proof {
            reveal_strlit("(");
            reveal_strlit(", ");
            reveal_strlit(")");
        }
        let mut text = String::from_str("(");
        text.append(self.x.debug_text().as_str());
        text.append(", ");
        text.append(self.y.debug_text().as_str());
        text.append(", ");
        text.append(self.z.debug_text().as_str());
        text.append(")");
        assert(text@ =~= self.debug_text_spec());
        text
    }
}

/// The text of one component `v` along the axis named `axis`.
///
/// One is the bare axis, with a `+` before it where `follows` says that a
/// component was written before; minus one is `-` and the axis; zero is
/// nothing; any other value is its text and the axis, the text with its sign
/// always written unless `plain`.
pub open spec fn axis_text<T: Signed>(v: T, axis: char, plain: bool, follows: bool) -> Seq<char> {
    if v == T::one_spec() {
        if follows {
            seq!['+', axis]
        } else {
            seq![axis]
        }
    } else if v == T::one_spec().neg_spec() {
        seq!['-', axis]
    } else if v != T::zero_spec() {
        if plain {
            v.text_spec().push(axis)
        } else {
            signed_text(v).push(axis)
        }
    } else {
        Seq::<char>::empty()
    }
}

/// The text of the vector `(x, y, z)` over the unit vectors `i`, `j`, `k`.
pub open spec fn pretty_text<T: Signed>(x: T, y: T, z: T) -> Seq<char> {
    axis_text(x, 'i', true, false) + axis_text(y, 'j', false, x != T::zero_spec()) + axis_text(
        z,
        'k',
        false,
        x != T::zero_spec() || y != T::zero_spec(),
    )
}

fn axis_string<T: Signed>(v: T, axis: &str, plain: bool, follows: bool) -> (text: String)
    requires
        axis@.len() == 1,
    ensures
        text@ == axis_text(v, axis@[0], plain, follows),
{
    proof {
        T::lemma_operators();
        T::lemma_negation();
        reveal_strlit("+");
        reveal_strlit("-");
    }
    let mut text = String::new();
    if v == T::one() {
        if follows {
            text.append("+");
        }
        text.append(axis);
    } else if v == T::one().neg() {
        text.append("-");
        text.append(axis);
    } else if v != T::zero() {
        if plain {
            text.append(v.to_text().as_str());
        } else {
            text.append(to_signed_text(v).as_str());
        }
        text.append(axis);
    }
    assert(text@ =~= axis_text(v, axis@[0], plain, follows));
    text
}

/// The text of the vector `(x, y, z)` over the unit vectors `i`, `j`, `k`.
pub fn pretty_print<T: Signed>(x: T, y: T, z: T) -> (text: String)
    ensures
        text@ == pretty_text(x, y, z),
{
    proof {
        T::lemma_operators();
        reveal_strlit("i");
        reveal_strlit("j");
        reveal_strlit("k");
    }
    let x_present = x != T::zero();
    let y_present = y != T::zero();
    let mut text = axis_string(x, "i", true, false);
    text.append(axis_string(y, "j", false, x_present).as_str());
    text.append(axis_string(z, "k", false, x_present || y_present).as_str());
    text
}

impl<T: Signed> Vector3D<T> {
    /// The text of the vector over the unit vectors `i`, `j`, `k`.
    pub fn to_text(&self) -> (text: String)
        ensures
            text@ == pretty_text(self.x, self.y, self.z),
    {
        pretty_print(self.x, self.y, self.z)
    }
}

} // verus!
