use vstd::prelude::*;

verus! {

/// The number type that the physics kernel computes with.
///
/// Each operation has a spec counterpart, which an implementation defines as
/// what its operation returns; the kernel's contracts are stated over these.
/// Nothing else is assumed of the arithmetic (no field laws, no order laws),
/// so the kernel is verified for every implementation, for instance one over
/// single-precision floats.
pub trait Scalar: Sized + Copy {
    /// The value `num / den`.
    spec fn of_ratio(num: u32, den: u32) -> Self;

    spec fn sum(self, other: Self) -> Self;

    spec fn difference(self, other: Self) -> Self;

    spec fn product(self, other: Self) -> Self;

    spec fn quotient(self, other: Self) -> Self;

    spec fn root(self) -> Self;

    spec fn abs_value(self) -> Self;

    spec fn max_with(self, other: Self) -> Self;

    spec fn below(self, other: Self) -> bool;

    fn ratio(num: u32, den: u32) -> (r: Self)
        requires
            den > 0,
        ensures
            r == Self::of_ratio(num, den),
    ;

    fn plus(self, other: Self) -> (r: Self)
        ensures
            r == self.sum(other),
    ;

    fn minus(self, other: Self) -> (r: Self)
        ensures
            r == self.difference(other),
    ;

    fn times(self, other: Self) -> (r: Self)
        ensures
            r == self.product(other),
    ;

    fn over(self, other: Self) -> (r: Self)
        ensures
            r == self.quotient(other),
    ;

    fn square_root(self) -> (r: Self)
        ensures
            r == self.root(),
    ;

    fn magnitude(self) -> (r: Self)
        ensures
            r == self.abs_value(),
    ;

    fn larger(self, other: Self) -> (r: Self)
        ensures
            r == self.max_with(other),
    ;

    fn less_than(self, other: Self) -> (r: bool)
        ensures
            r == self.below(other),
    ;
}

} // verus!
