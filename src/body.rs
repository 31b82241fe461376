use vstd::prelude::*;

use crate::scalar::Scalar;
use crate::vec2::Vec2;

verus! {

/// One simulated disk.
#[derive(Clone, Copy, Debug)]
pub struct Body<S> {
    pub position: Vec2<S>,
    pub velocity: Vec2<S>,
    pub mass: S,
    pub radius: S,
}

impl<S: Scalar> Body<S> {
    pub fn new(position: Vec2<S>, velocity: Vec2<S>, mass: S, radius: S) -> (r: Self)
        ensures
            r.position == position,
            r.velocity == velocity,
            r.mass == mass,
            r.radius == radius,
    {
        Body { position, velocity, mass, radius }
    }
}

} // verus!
