use vstd::prelude::*;

use crate::body::Body;
use crate::scalar::Scalar;
use crate::schedule::{
    collision_pairs, contact_pairs, gravity_sources, lemma_each_pair_once, other_body,
};
use crate::vec2::Vec2;

verus! {

/// How many bodies a default simulation seeds.
pub const BODY_COUNT: usize = 500;

/// Half the side of the square, centred on the origin, that a default
/// simulation seeds its bodies in.
pub const SEED_HALF_WIDTH: u32 = 500;

/// The pull of body `j` on body `i`: along the direction from `i` to `j`,
/// of strength `g * mass_j / max(distance², 0.001)`.
pub open spec fn pull<S: Scalar>(bodies: Seq<Body<S>>, g: S, i: int, j: int) -> Vec2<S> {
    let direction = bodies[j].position.sub_spec(bodies[i].position);
    let distance_sq = direction.length_squared_spec().max_with(S::of_ratio(1, 1000));
    let strength = g.product(bodies[j].mass).quotient(distance_sq);
    direction.normalize_spec().mul_spec(strength)
}

/// The sum, from the zero vector and in ascending order of `j`, of the pulls
/// on body `i` of the first `m` bodies other than `i`.
pub open spec fn acceleration_upto<S: Scalar>(bodies: Seq<Body<S>>, g: S, i: int, m: nat) -> Vec2<S>
    decreases m,
{
    if m == 0 {
        Vec2::zero_spec()
    } else {
        acceleration_upto(bodies, g, i, (m - 1) as nat).add_spec(
            pull(bodies, g, i, other_body(i, m - 1)),
        )
    }
}

/// The acceleration of body `i`: the pulls of all other bodies.
pub open spec fn acceleration<S: Scalar>(bodies: Seq<Body<S>>, g: S, i: int) -> Vec2<S> {
    acceleration_upto(bodies, g, i, (bodies.len() - 1) as nat)
}

/// The bodies after the gravity pass.
pub open spec fn gravity_step<S: Scalar>(bodies: Seq<Body<S>>, g: S, dt: S) -> Seq<Body<S>> {
    Seq::new(
        bodies.len(),
        |k: int|
            Body {
                position: bodies[k].position,
                velocity: bodies[k].velocity.add_spec(acceleration(bodies, g, k).mul_spec(dt)),
                mass: bodies[k].mass,
                radius: bodies[k].radius,
            },
    )
}

/// The bodies after the position pass.
pub open spec fn integrate_step<S: Scalar>(bodies: Seq<Body<S>>, dt: S) -> Seq<Body<S>> {
    Seq::new(
        bodies.len(),
        |k: int|
            Body {
                position: bodies[k].position.add_spec(bodies[k].velocity.mul_spec(dt)),
                velocity: bodies[k].velocity,
                mass: bodies[k].mass,
                radius: bodies[k].radius,
            },
    )
}

/// How far the distance of two bodies exceeds the sum of their radii.
pub open spec fn penetration<S: Scalar>(bi: Body<S>, bj: Body<S>) -> S {
    bj.position.sub_spec(bi.position).length_spec().difference(bi.radius.sum(bj.radius))
}

/// Two overlapping bodies after their contact: a normal impulse scaled by
/// `1 + e` where they approach, a shift along the normal by the whole
/// overlap shared by the other body's mass fraction, and a damping impulse
/// of half the tangential relative speed, divided by each body's own mass.
pub open spec fn contact<S: Scalar>(bi: Body<S>, bj: Body<S>, e: S) -> (Body<S>, Body<S>) {
    let zero = S::of_ratio(0, 1);
    let one = S::of_ratio(1, 1);
    let direction = bj.position.sub_spec(bi.position);
    let normal = direction.normalize_spec();
    let relative_velocity = bj.velocity.sub_spec(bi.velocity);
    let closing_speed = relative_velocity.dot_spec(normal);
    let denom = one.quotient(bi.mass).sum(one.quotient(bj.mass));
    let impulse = one.sum(e).product(closing_speed).quotient(denom);
    let impulse_vec = normal.mul_spec(impulse);
    let vi = if closing_speed.below(zero) {
        bi.velocity.add_spec(impulse_vec.div_spec(bi.mass))
    } else {
        bi.velocity
    };
    let vj = if closing_speed.below(zero) {
        bj.velocity.sub_spec(impulse_vec.div_spec(bj.mass))
    } else {
        bj.velocity
    };
    let correction = normal.mul_spec(penetration(bi, bj).abs_value());
    let total_mass = bi.mass.sum(bj.mass);
    let pi = bi.position.sub_spec(correction.mul_spec(bj.mass.quotient(total_mass)));
    let pj = bj.position.add_spec(correction.mul_spec(bi.mass.quotient(total_mass)));
    let tangent_velocity = relative_velocity.sub_spec(normal.mul_spec(closing_speed));
    let tangent_speed = tangent_velocity.length_spec();
    let friction = tangent_velocity.normalize_spec().mul_spec(
        tangent_speed.product(S::of_ratio(1, 2)),
    );
    let vi2 = if zero.below(tangent_speed) {
        vi.add_spec(friction.div_spec(bi.mass))
    } else {
        vi
    };
    let vj2 = if zero.below(tangent_speed) {
        vj.sub_spec(friction.div_spec(bj.mass))
    } else {
        vj
    };
    (
        Body { position: pi, velocity: vi2, mass: bi.mass, radius: bi.radius },
        Body { position: pj, velocity: vj2, mass: bj.mass, radius: bj.radius },
    )
}

/// The bodies after the contact step on the pair `(i, j)`: unchanged unless
/// the pair overlaps.
pub open spec fn pair_step<S: Scalar>(bodies: Seq<Body<S>>, e: S, i: int, j: int) -> Seq<Body<S>> {
    if penetration(bodies[i], bodies[j]).below(S::of_ratio(0, 1)) {
        let c = contact(bodies[i], bodies[j], e);
        bodies.update(i, c.0).update(j, c.1)
    } else {
        bodies
    }
}

/// The bodies after the contact step on the first `p` of `pairs`, in order.
pub open spec fn collide_upto<S: Scalar>(
    bodies: Seq<Body<S>>,
    e: S,
    pairs: Seq<(usize, usize)>,
    p: nat,
) -> Seq<Body<S>>
    decreases p,
{
    if p == 0 {
        bodies
    } else {
        let q = pairs[p - 1];
        pair_step(collide_upto(bodies, e, pairs, (p - 1) as nat), e, q.0 as int, q.1 as int)
    }
}

/// The bodies after the contact pass: the contact step on every pair of
/// `contact_pairs`, in order.
pub open spec fn collide_all<S: Scalar>(bodies: Seq<Body<S>>, e: S) -> Seq<Body<S>> {
    collide_upto(bodies, e, contact_pairs(bodies.len()), contact_pairs(bodies.len()).len())
}

/// The bodies after one step of `dt`.
pub open spec fn step<S: Scalar>(bodies: Seq<Body<S>>, g: S, e: S, dt: S) -> Seq<Body<S>> {
    collide_all(integrate_step(gravity_step(bodies, g, dt), dt), e)
}

/// A body of the default simulation, seeded from a draw `p` of the unit
/// square: at rest, of mass 5 and radius 1, at `(p - (1/2, 1/2)) * 2 * SEED_HALF_WIDTH`.
pub open spec fn seeded_body<S: Scalar>(p: Vec2<S>) -> Body<S> {
    Body {
        position: p.sub_spec(Vec2 { x: S::of_ratio(1, 2), y: S::of_ratio(1, 2) }).mul_spec(
            S::of_ratio((2 * SEED_HALF_WIDTH) as u32, 1),
        ),
        velocity: Vec2::zero_spec(),
        mass: S::of_ratio(5, 1),
        radius: S::of_ratio(1, 1),
    }
}

/// No body attracts itself: every pull summed into the acceleration of body
/// `i` is that of another body of the set, and a lone body's acceleration is
/// the zero vector.
pub proof fn lemma_no_self_pull<S: Scalar>(bodies: Seq<Body<S>>, g: S, i: int)
    requires
        0 <= i < bodies.len(),
    ensures
        forall|m: int|
            0 <= m < bodies.len() - 1 ==> #[trigger] other_body(i, m) != i && 0 <= other_body(i, m)
                < bodies.len(),
        bodies.len() == 1 ==> acceleration(bodies, g, i) == Vec2::<S>::zero_spec(),
{
}

/// Two sequences of bodies of one length whose masses and radii agree body
/// by body.
pub open spec fn same_masses_and_radii<S>(a: Seq<Body<S>>, b: Seq<Body<S>>) -> bool {
    &&& a.len() == b.len()
    &&& forall|k: int| 0 <= k < a.len() ==> (#[trigger] a[k]).mass == b[k].mass && a[k].radius == b[k].radius
}

/// The bodies, the gravitational constant and the coefficient of restitution
/// of one simulation.
pub struct Simulation<S> {
    grav_constant: S,
    coeff_restitution: S,
    bodies: Vec<Body<S>>,
}

impl<S: Scalar> Simulation<S> {
    /// The bodies, in index order.
    pub closed spec fn bodies_view(&self) -> Seq<Body<S>> {
        self.bodies@
    }

    pub closed spec fn grav_constant_view(&self) -> S {
        self.grav_constant
    }

    pub closed spec fn restitution_view(&self) -> S {
        self.coeff_restitution
    }

    /// The constants of `self` and `other` agree.
    pub open spec fn same_constants(&self, other: &Self) -> bool {
        &&& self.grav_constant_view() == other.grav_constant_view()
        &&& self.restitution_view() == other.restitution_view()
    }

    /// A simulation of the given bodies and constants.
    pub fn from_bodies(bodies: Vec<Body<S>>, grav_constant: S, coeff_restitution: S) -> (r: Self)
        ensures
            r.bodies_view() == bodies@,
            r.grav_constant_view() == grav_constant,
            r.restitution_view() == coeff_restitution,
    {
        Simulation { grav_constant, coeff_restitution, bodies }
    }

    /// The default simulation: gravitational constant 600, restitution 0.95,
    /// and one body at rest, of mass 5 and radius 1, for each point of
    /// `unit_points`. Each point is a draw from the unit square; it is moved
    /// to the square of half-width `SEED_HALF_WIDTH` about the origin. A host
    /// draws `BODY_COUNT` points.
    pub fn new(unit_points: &Vec<Vec2<S>>) -> (r: Self)
        ensures
            r.bodies_view().len() == unit_points@.len(),
            forall|k: int|
                0 <= k < unit_points@.len() ==> #[trigger] r.bodies_view()[k] == seeded_body(
                    unit_points@[k],
                ),
            r.grav_constant_view() == S::of_ratio(600, 1),
            r.restitution_view() == S::of_ratio(95, 100),
    {
        let half = S::ratio(1, 2);
        let centre = Vec2::new(half, half);
        let side = S::ratio(2 * SEED_HALF_WIDTH, 1);
        let mass = S::ratio(5, 1);
        let radius = S::ratio(1, 1);
        let velocity = Vec2::zero();
        let mut bodies: Vec<Body<S>> = Vec::new();
        let mut k: usize = 0;
        while k < unit_points.len()
            invariant
                k <= unit_points@.len(),
                bodies@.len() == k,
                centre == (Vec2 { x: S::of_ratio(1, 2), y: S::of_ratio(1, 2) }),
                side == S::of_ratio((2 * SEED_HALF_WIDTH) as u32, 1),
                velocity == Vec2::<S>::zero_spec(),
                mass == S::of_ratio(5, 1),
                radius == S::of_ratio(1, 1),
                forall|m: int| 0 <= m < k ==> #[trigger] bodies@[m] == seeded_body(unit_points@[m]),
            decreases unit_points@.len() - k,
        {
            let position = unit_points[k].sub(centre).mul(side);
            bodies.push(Body::new(position, velocity, mass, radius));
            k = k + 1;
        }
        Simulation {
            grav_constant: S::ratio(600, 1),
            coeff_restitution: S::ratio(95, 100),
            bodies,
        }
    }

    /// The current bodies, for one frame's upload.
    pub fn get_bodies(&self) -> (r: &[Body<S>])
        ensures
            r@ == self.bodies_view(),
    {
        self.bodies.as_slice()
    }

    /// Advances the simulation by `dt`: gravity on the velocities, then the
    /// positions, then the contacts. No body is added, removed or reordered,
    /// and no mass or radius changes.
    pub fn update(&mut self, dt: S)
        ensures
            final(self).bodies_view() == step(
                old(self).bodies_view(),
                old(self).grav_constant_view(),
                old(self).restitution_view(),
                dt,
            ),
            same_masses_and_radii(final(self).bodies_view(), old(self).bodies_view()),
            final(self).same_constants(old(self)),
    {
        self.apply_gravity(dt);
        self.integrate_positions(dt);
        self.resolve_collisions();
    }

    /// The first pass: each body's velocity takes the acceleration that all
    /// other bodies exert on it over `dt`, from the positions as they stood
    /// before the pass. Only velocities are written.
    pub fn apply_gravity(&mut self, dt: S)
        ensures
            final(self).bodies_view() == gravity_step(
                old(self).bodies_view(),
                old(self).grav_constant_view(),
                dt,
            ),
            same_masses_and_radii(final(self).bodies_view(), old(self).bodies_view()),
            forall|k: int|
                0 <= k < old(self).bodies_view().len() ==> (#[trigger] final(self).bodies_view()[k]).position
                    == old(self).bodies_view()[k].position,
            final(self).same_constants(old(self)),
    {
        let n = self.bodies.len();
        let floor = S::ratio(1, 1000);
        let ghost start = self.bodies@;
        let ghost g = self.grav_constant;
        let ghost target = gravity_step(start, g, dt);
        let mut i: usize = 0;
        while i < n
            invariant
                n == self.bodies@.len(),
                start == old(self).bodies@,
                g == self.grav_constant,
                target == gravity_step(start, g, dt),
                floor == S::of_ratio(1, 1000),
                i <= n,
                same_masses_and_radii(self.bodies@, start),
                forall|k: int|
                    0 <= k < n ==> (#[trigger] self.bodies@[k]).position == start[k].position,
                forall|k: int| 0 <= k < i ==> #[trigger] self.bodies@[k] == target[k],
                forall|k: int| i <= k < n ==> #[trigger] self.bodies@[k] == start[k],
                self.grav_constant == old(self).grav_constant,
                self.coeff_restitution == old(self).coeff_restitution,
            decreases n - i,
        {
            let sources = gravity_sources(i, n);
            let position = self.bodies[i].position;
            let mut accel: Vec2<S> = Vec2::zero();
            let mut s: usize = 0;
            while s < sources.len()
                invariant
                    n == self.bodies@.len(),
                    i < n,
                    s <= sources@.len(),
                    position == start[i as int].position,
                    floor == S::of_ratio(1, 1000),
                    g == self.grav_constant,
                    same_masses_and_radii(self.bodies@, start),
                    forall|k: int|
                        0 <= k < n ==> (#[trigger] self.bodies@[k]).position == start[k].position,
                    sources@.len() == n - 1,
                    forall|k: int| 0 <= k < sources@.len() ==> #[trigger] sources@[k] == other_body(i as int, k),
                    forall|k: int| 0 <= k < sources@.len() ==> #[trigger] sources@[k] < n,
                    accel == acceleration_upto(start, g, i as int, s as nat),
                decreases sources@.len() - s,
            {
                let j = sources[s];
                let other = self.bodies[j];
                let direction = other.position.sub(position);
                let distance_sq = direction.length_squared().larger(floor);
                let strength = self.grav_constant.times(other.mass).over(distance_sq);
                accel = accel.add(direction.normalize().mul(strength));
                assert(pull(start, g, i as int, j as int) == direction.normalize_spec().mul_spec(strength));
                s = s + 1;
            }
            let mut body = self.bodies[i];
            body.velocity = body.velocity.add(accel.mul(dt));
            assert(body == target[i as int]);
            self.bodies.set(i, body);
            i = i + 1;
        }
        assert(self.bodies@ =~= target);
    }

    /// The second pass: each body moves by its velocity over `dt`. Only
    /// positions are written.
    pub fn integrate_positions(&mut self, dt: S)
        ensures
            final(self).bodies_view() == integrate_step(old(self).bodies_view(), dt),
            same_masses_and_radii(final(self).bodies_view(), old(self).bodies_view()),
            forall|k: int|
                0 <= k < old(self).bodies_view().len() ==> (#[trigger] final(self).bodies_view()[k]).velocity
                    == old(self).bodies_view()[k].velocity,
            final(self).same_constants(old(self)),
    {
        let n = self.bodies.len();
        let ghost target = integrate_step(self.bodies@, dt);
        let mut i: usize = 0;
        while i < n
            invariant
                n == self.bodies@.len(),
                i <= n,
                target == integrate_step(old(self).bodies@, dt),
                same_masses_and_radii(self.bodies@, old(self).bodies@),
                forall|k: int|
                    0 <= k < n ==> (#[trigger] self.bodies@[k]).velocity == old(self).bodies@[k].velocity,
                forall|k: int| 0 <= k < i ==> #[trigger] self.bodies@[k] == target[k],
                forall|k: int| i <= k < n ==> #[trigger] self.bodies@[k] == old(self).bodies@[k],
                self.grav_constant == old(self).grav_constant,
                self.coeff_restitution == old(self).coeff_restitution,
            decreases n - i,
        {
            let mut body = self.bodies[i];
            body.position = body.position.add(body.velocity.mul(dt));
            self.bodies.set(i, body);
            i = i + 1;
        }
        assert(self.bodies@ =~= target);
    }

    /// The third pass: `resolve_pair` on each unordered pair of bodies once,
    /// in the order of `contact_pairs`.
    pub fn resolve_collisions(&mut self)
        ensures
            final(self).bodies_view() == collide_all(old(self).bodies_view(), old(self).restitution_view()),
            same_masses_and_radii(final(self).bodies_view(), old(self).bodies_view()),
            final(self).same_constants(old(self)),
    {
        let n = self.bodies.len();
        let pairs = collision_pairs(n);
        proof {
            lemma_each_pair_once(n as nat);
        }
        let mut p: usize = 0;
        while p < pairs.len()
            invariant
                n == self.bodies@.len(),
                p <= pairs@.len(),
                pairs@ == contact_pairs(n as nat),
                forall|a: usize, b: usize| contact_pairs(n as nat).contains((a, b)) <==> (a < b && b < n),
                self.bodies@ == collide_upto(old(self).bodies@, self.coeff_restitution, pairs@, p as nat),
                same_masses_and_radii(self.bodies@, old(self).bodies@),
                self.grav_constant == old(self).grav_constant,
                self.coeff_restitution == old(self).coeff_restitution,
            decreases pairs@.len() - p,
        {
            let (i, j) = pairs[p];
            assert(pairs@.contains((i, j)));
            self.resolve_pair(i, j);
            p = p + 1;
        }
    }

    /// Resolves the contact between bodies `i` and `j`, if their disks
    /// overlap: an impulse along the normal where they approach, a shift that
    /// separates them by the overlap, shared by mass, and a damping impulse
    /// against their tangential relative velocity. Only these two bodies'
    /// positions and velocities are written.
    pub fn resolve_pair(&mut self, i: usize, j: usize)
        requires
            i < j < old(self).bodies_view().len(),
        ensures
            final(self).bodies_view() == pair_step(
                old(self).bodies_view(),
                old(self).restitution_view(),
                i as int,
                j as int,
            ),
            same_masses_and_radii(final(self).bodies_view(), old(self).bodies_view()),
            forall|k: int|
                0 <= k < old(self).bodies_view().len() && k != i && k != j
                    ==> #[trigger] final(self).bodies_view()[k] == old(self).bodies_view()[k],
            final(self).same_constants(old(self)),
    {
        let mut bi = self.bodies[i];
        let mut bj = self.bodies[j];
        let zero = S::ratio(0, 1);
        let direction = bj.position.sub(bi.position);
        let distance = direction.length();
        let min_distance = bi.radius.plus(bj.radius);
        let penetration = distance.minus(min_distance);
        if penetration.less_than(zero) {
            let ghost c = contact(bi, bj, self.coeff_restitution);
            let normal = direction.normalize();
            let relative_velocity = bj.velocity.sub(bi.velocity);
            let closing_speed = relative_velocity.dot(normal);
            if closing_speed.less_than(zero) {
                let one = S::ratio(1, 1);
                let denom = one.over(bi.mass).plus(one.over(bj.mass));
                let impulse = one.plus(self.coeff_restitution).times(closing_speed).over(denom);
                let impulse_vec = normal.mul(impulse);
                bi.velocity = bi.velocity.add(impulse_vec.div(bi.mass));
                bj.velocity = bj.velocity.sub(impulse_vec.div(bj.mass));
            }
            let correction = normal.mul(penetration.magnitude());
            let total_mass = bi.mass.plus(bj.mass);
            bi.position = bi.position.sub(correction.mul(bj.mass.over(total_mass)));
            bj.position = bj.position.add(correction.mul(bi.mass.over(total_mass)));
            let tangent_velocity = relative_velocity.sub(normal.mul(closing_speed));
            let tangent_speed = tangent_velocity.length();
            if zero.less_than(tangent_speed) {
                let friction = tangent_velocity.normalize().mul(tangent_speed.times(S::ratio(1, 2)));
                bi.velocity = bi.velocity.add(friction.div(bi.mass));
                bj.velocity = bj.velocity.sub(friction.div(bj.mass));
            }
            assert(bi == c.0 && bj == c.1);
            self.bodies.set(i, bi);
            self.bodies.set(j, bj);
        }
    }
}

} // verus!
