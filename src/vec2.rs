use vstd::prelude::*;

use crate::scalar::Scalar;

verus! {

/// A 2D vector.
#[derive(Clone, Copy, Debug)]
pub struct Vec2<S> {
    pub x: S,
    pub y: S,
}

impl<S: Scalar> Vec2<S> {
    pub open spec fn zero_spec() -> Self {
        Vec2 { x: S::of_ratio(0, 1), y: S::of_ratio(0, 1) }
    }

    pub open spec fn add_spec(self, other: Self) -> Self {
        Vec2 { x: self.x.sum(other.x), y: self.y.sum(other.y) }
    }

    pub open spec fn sub_spec(self, other: Self) -> Self {
        Vec2 { x: self.x.difference(other.x), y: self.y.difference(other.y) }
    }

    pub open spec fn mul_spec(self, scalar: S) -> Self {
        Vec2 { x: self.x.product(scalar), y: self.y.product(scalar) }
    }

    pub open spec fn div_spec(self, scalar: S) -> Self {
        Vec2 { x: self.x.quotient(scalar), y: self.y.quotient(scalar) }
    }

    pub open spec fn dot_spec(self, other: Self) -> S {
        self.x.product(other.x).sum(self.y.product(other.y))
    }

    pub open spec fn length_squared_spec(self) -> S {
        self.dot_spec(self)
    }

    pub open spec fn length_spec(self) -> S {
        self.dot_spec(self).root()
    }

    /// `self` divided by its length where that length is above zero, and the
    /// zero vector otherwise.
    pub open spec fn normalize_spec(self) -> Self {
        let len = self.length_spec();
        if S::of_ratio(0, 1).below(len) {
            Vec2 { x: self.x.quotient(len), y: self.y.quotient(len) }
        } else {
            Self::zero_spec()
        }
    }

    pub fn new(x: S, y: S) -> (r: Self)
        ensures
            r.x == x,
            r.y == y,
    {
        Vec2 { x, y }
    }

    pub fn zero() -> (r: Self)
        ensures
            r == Self::zero_spec(),
    {
        let z = S::ratio(0, 1);
        Vec2 { x: z, y: z }
    }

    pub fn dot(self, other: Self) -> (r: S)
        ensures
            r == self.dot_spec(other),
    {
        self.x.times(other.x).plus(self.y.times(other.y))
    }

    pub fn length(self) -> (r: S)
        ensures
            r == self.length_spec(),
    {
        self.dot(self).square_root()
    }

    pub fn length_squared(self) -> (r: S)
        ensures
            r == self.length_squared_spec(),
    {
        self.dot(self)
    }

    /// The unit vector along `self`, or the zero vector where `self` has no
    /// positive length: never a division by zero.
    pub fn normalize(self) -> (r: Self)
        ensures
            r == self.normalize_spec(),
    {
        let len = self.length();
        if S::ratio(0, 1).less_than(len) {
            Vec2::new(self.x.over(len), self.y.over(len))
        } else {
            Vec2::zero()
        }
    }

    pub fn add(self, other: Self) -> (r: Self)
        ensures
            r == self.add_spec(other),
    {
        Vec2::new(self.x.plus(other.x), self.y.plus(other.y))
    }

    pub fn sub(self, other: Self) -> (r: Self)
        ensures
            r == self.sub_spec(other),
    {
        Vec2::new(self.x.minus(other.x), self.y.minus(other.y))
    }

    pub fn mul(self, scalar: S) -> (r: Self)
        ensures
            r == self.mul_spec(scalar),
    {
        Vec2::new(self.x.times(scalar), self.y.times(scalar))
    }

    pub fn div(self, scalar: S) -> (r: Self)
        ensures
            r == self.div_spec(scalar),
    {
        Vec2::new(self.x.over(scalar), self.y.over(scalar))
    }
}

} // verus!
