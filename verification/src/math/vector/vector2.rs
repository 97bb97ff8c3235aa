use vstd::prelude::*;
use vstd::std_specs::ops::{AddSpec, DivSpec, MulSpec, NegSpec, RemSpec, SubSpec};
use crate::math::vector::item::VectorItem;
use core::ops::{Div, Neg, Rem};

verus! {

/// A vector of two components.
#[derive(Clone, Copy, Debug, Default, PartialEq)]
pub struct Vector2<T: VectorItem> {
    pub x: T,
    pub y: T,
}

impl<T: VectorItem> Vector2<T> {
    /// The vector with the given components.
    pub fn new(x: T, y: T) -> (v: Self)
        ensures
            v == (Vector2 { x, y }),
    {
        Self { x, y }
    }

    /// The sum of the squares of the two components.
    pub open spec fn spec_length_squared(self) -> T {
        self.x.mul_spec(self.x).add_spec(self.y.mul_spec(self.y))
    }

    /// Whether both squares and their sum can be computed in `T`.
    pub open spec fn length_squared_req(self) -> bool {
        &&& self.x.mul_req(self.x)
        &&& self.y.mul_req(self.y)
        &&& self.x.mul_spec(self.x).add_req(self.y.mul_spec(self.y))
    }

    /// The squared Euclidean length of the vector.
    pub fn length_squared(&self) -> (r: T)
        requires
            self.length_squared_req(),
        ensures
            r == self.spec_length_squared(),
    {
        proof {
            T::obeys_arithmetic();
        }
        self.x * self.x + self.y * self.y
    }
}

/// Component-wise sum of two vectors.
impl<T: VectorItem> core::ops::Add for Vector2<T> {
    type Output = Self;

    fn add(self, rhs: Self) -> (r: Self) {
        proof {
            T::obeys_arithmetic();
        }
        Self { x: self.x + rhs.x, y: self.y + rhs.y }
    }
}

impl<T: VectorItem> vstd::std_specs::ops::AddSpecImpl for Vector2<T> {
    open spec fn obeys_add_spec() -> bool {
        true
    }

    open spec fn add_req(self, rhs: Self) -> bool {
        self.x.add_req(rhs.x) && self.y.add_req(rhs.y)
    }

    open spec fn add_spec(self, rhs: Self) -> Self {
        Vector2 { x: self.x.add_spec(rhs.x), y: self.y.add_spec(rhs.y) }
    }
}

/// Component-wise sum of two vectors, in place.
impl<T: VectorItem> core::ops::AddAssign for Vector2<T> {
    fn add_assign(&mut self, rhs: Self)
        requires
            old(self).add_req(rhs),
        ensures
            *final(self) == old(self).add_spec(rhs),
    {
        proof {
            T::obeys_arithmetic();
        }
        self.x = self.x + rhs.x;
        self.y = self.y + rhs.y;
    }
}

/// Component-wise difference of two vectors.
impl<T: VectorItem> core::ops::Sub for Vector2<T> {
    type Output = Self;

    fn sub(self, rhs: Self) -> (r: Self) {
        proof {
            T::obeys_arithmetic();
        }
        Self { x: self.x - rhs.x, y: self.y - rhs.y }
    }
}

impl<T: VectorItem> vstd::std_specs::ops::SubSpecImpl for Vector2<T> {
    open spec fn obeys_sub_spec() -> bool {
        true
    }

    open spec fn sub_req(self, rhs: Self) -> bool {
        self.x.sub_req(rhs.x) && self.y.sub_req(rhs.y)
    }

    open spec fn sub_spec(self, rhs: Self) -> Self {
        Vector2 { x: self.x.sub_spec(rhs.x), y: self.y.sub_spec(rhs.y) }
    }
}

/// Component-wise difference of two vectors, in place.
impl<T: VectorItem> core::ops::SubAssign for Vector2<T> {
    fn sub_assign(&mut self, rhs: Self)
        requires
            old(self).sub_req(rhs),
        ensures
            *final(self) == old(self).sub_spec(rhs),
    {
        proof {
            T::obeys_arithmetic();
        }
        self.x = self.x - rhs.x;
        self.y = self.y - rhs.y;
    }
}

/// Product of both components by a scalar.
impl<T: VectorItem> core::ops::Mul<T> for Vector2<T> {
    type Output = Self;

    fn mul(self, rhs: T) -> (r: Self) {
        proof {
            T::obeys_arithmetic();
        }
        Self { x: self.x * rhs, y: self.y * rhs }
    }
}

impl<T: VectorItem> vstd::std_specs::ops::MulSpecImpl<T> for Vector2<T> {
    open spec fn obeys_mul_spec() -> bool {
        true
    }

    open spec fn mul_req(self, rhs: T) -> bool {
        self.x.mul_req(rhs) && self.y.mul_req(rhs)
    }

    open spec fn mul_spec(self, rhs: T) -> Self {
        Vector2 { x: self.x.mul_spec(rhs), y: self.y.mul_spec(rhs) }
    }
}

/// Product of both components by a scalar, in place.
impl<T: VectorItem> core::ops::MulAssign<T> for Vector2<T> {
    fn mul_assign(&mut self, rhs: T)
        requires
            old(self).mul_req(rhs),
        ensures
            *final(self) == old(self).mul_spec(rhs),
    {
        proof {
            T::obeys_arithmetic();
        }
        self.x = self.x * rhs;
        self.y = self.y * rhs;
    }
}

/// Quotient of both components by a scalar.
impl<T: VectorItem> core::ops::Div<T> for Vector2<T> {
    type Output = Self;

    fn div(self, rhs: T) -> (r: Self) {
        proof {
            T::obeys_arithmetic();
        }
        Self { x: self.x.div(rhs), y: self.y.div(rhs) }
    }
}

impl<T: VectorItem> vstd::std_specs::ops::DivSpecImpl<T> for Vector2<T> {
    open spec fn obeys_div_spec() -> bool {
        true
    }

    open spec fn div_req(self, rhs: T) -> bool {
        self.x.div_req(rhs) && self.y.div_req(rhs)
    }

    open spec fn div_spec(self, rhs: T) -> Self {
        Vector2 { x: self.x.div_spec(rhs), y: self.y.div_spec(rhs) }
    }
}

/// Quotient of both components by a scalar, in place.
impl<T: VectorItem> core::ops::DivAssign<T> for Vector2<T> {
    fn div_assign(&mut self, rhs: T)
        requires
            old(self).div_req(rhs),
        ensures
            *final(self) == old(self).div_spec(rhs),
    {
        proof {
            T::obeys_arithmetic();
        }
        self.x = self.x.div(rhs);
        self.y = self.y.div(rhs);
    }
}

/// Remainder of both components by a scalar.
impl<T: VectorItem> core::ops::Rem<T> for Vector2<T> {
    type Output = Self;

    fn rem(self, rhs: T) -> (r: Self) {
        proof {
            T::obeys_arithmetic();
        }
        Self { x: self.x.rem(rhs), y: self.y.rem(rhs) }
    }
}

impl<T: VectorItem> vstd::std_specs::ops::RemSpecImpl<T> for Vector2<T> {
    open spec fn obeys_rem_spec() -> bool {
        true
    }

    open spec fn rem_req(self, rhs: T) -> bool {
        self.x.rem_req(rhs) && self.y.rem_req(rhs)
    }

    open spec fn rem_spec(self, rhs: T) -> Self {
        Vector2 { x: self.x.rem_spec(rhs), y: self.y.rem_spec(rhs) }
    }
}

/// Remainder of both components by a scalar, in place.
impl<T: VectorItem> core::ops::RemAssign<T> for Vector2<T> {
    fn rem_assign(&mut self, rhs: T)
        requires
            old(self).rem_req(rhs),
        ensures
            *final(self) == old(self).rem_spec(rhs),
    {
        proof {
            T::obeys_arithmetic();
        }
        self.x = self.x.rem(rhs);
        self.y = self.y.rem(rhs);
    }
}

/// The vector with both components negated.
impl<T: VectorItem + core::ops::Neg<Output = T>> core::ops::Neg for Vector2<T> {
    type Output = Self;

    fn neg(self) -> (r: Self) {
        Self { x: self.x.neg(), y: self.y.neg() }
    }
}

impl<T: VectorItem + core::ops::Neg<Output = T>> vstd::std_specs::ops::NegSpecImpl for Vector2<T> {
    open spec fn obeys_neg_spec() -> bool {
        <T as NegSpec>::obeys_neg_spec()
    }

    open spec fn neg_req(self) -> bool {
        self.x.neg_req() && self.y.neg_req()
    }

    open spec fn neg_spec(self) -> Self {
        Vector2 { x: self.x.neg_spec(), y: self.y.neg_spec() }
    }
}

} // verus!
