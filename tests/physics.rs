use nbody::{Body, Scalar, Simulation, Vec2};

#[derive(Clone, Copy, Debug, PartialEq)]
struct F(f32);

impl Scalar for F {
    fn of_ratio(num: u32, den: u32) -> F {
        F(num as f32 / den as f32)
    }
    fn sum(self, other: F) -> F {
        F(self.0 + other.0)
    }
    fn difference(self, other: F) -> F {
        F(self.0 - other.0)
    }
    fn product(self, other: F) -> F {
        F(self.0 * other.0)
    }
    fn quotient(self, other: F) -> F {
        F(self.0 / other.0)
    }
    fn root(self) -> F {
        F(self.0.sqrt())
    }
    fn abs_value(self) -> F {
        F(self.0.abs())
    }
    fn max_with(self, other: F) -> F {
        F(self.0.max(other.0))
    }
    fn below(self, other: F) -> bool {
        self.0 < other.0
    }
    fn ratio(num: u32, den: u32) -> F {
        F::of_ratio(num, den)
    }
    fn plus(self, other: F) -> F {
        self.sum(other)
    }
    fn minus(self, other: F) -> F {
        self.difference(other)
    }
    fn times(self, other: F) -> F {
        self.product(other)
    }
    fn over(self, other: F) -> F {
        self.quotient(other)
    }
    fn square_root(self) -> F {
        self.root()
    }
    fn magnitude(self) -> F {
        self.abs_value()
    }
    fn larger(self, other: F) -> F {
        self.max_with(other)
    }
    fn less_than(self, other: F) -> bool {
        self.below(other)
    }
}

fn v(x: f32, y: f32) -> Vec2<F> {
    Vec2::new(F(x), F(y))
}

fn body(x: f32, y: f32, vx: f32, vy: f32, mass: f32, radius: f32) -> Body<F> {
    Body::new(v(x, y), v(vx, vy), F(mass), F(radius))
}

fn sim(bodies: Vec<Body<F>>, g: f32, e: f32) -> Simulation<F> {
    Simulation::from_bodies(bodies, F(g), F(e))
}

fn close(a: f32, b: f32) -> bool {
    (a - b).abs() <= 1e-4 * (1.0 + a.abs().max(b.abs()))
}

fn gap(s: &Simulation<F>, i: usize, j: usize) -> f32 {
    let b = s.get_bodies();
    let d = b[j].position.sub(b[i].position).length().0;
    d - (b[i].radius.0 + b[j].radius.0)
}

fn closing_speed(s: &Simulation<F>, i: usize, j: usize) -> f32 {
    let b = s.get_bodies();
    let normal = b[j].position.sub(b[i].position).normalize();
    b[j].velocity.sub(b[i].velocity).dot(normal).0
}

#[test]
fn vector_arithmetic() {
    let a = v(1.0, 2.0);
    let b = v(3.0, -4.0);
    let s = a.add(b);
    assert_eq!((s.x.0, s.y.0), (4.0, -2.0));
    let d = a.sub(b);
    assert_eq!((d.x.0, d.y.0), (-2.0, 6.0));
    let m = b.mul(F(2.0));
    assert_eq!((m.x.0, m.y.0), (6.0, -8.0));
    let q = b.div(F(2.0));
    assert_eq!((q.x.0, q.y.0), (1.5, -2.0));
    assert_eq!(a.dot(b).0, -5.0);
    assert_eq!(b.length().0, 5.0);
    assert_eq!(b.length_squared().0, 25.0);
    let z = Vec2::<F>::zero();
    assert_eq!((z.x.0, z.y.0), (0.0, 0.0));
}

#[test]
fn normalize_unit_and_zero() {
    let n = v(3.0, 4.0).normalize();
    assert!(close(n.x.0, 0.6) && close(n.y.0, 0.8));
    let z = Vec2::<F>::zero().normalize();
    assert_eq!((z.x.0, z.y.0), (0.0, 0.0));
    for &(x, y) in &[(1e-30f32, 0.0f32), (-1e-20, 1e-20), (1e20, -1e20), (0.0, -7.0), (-0.0, 0.0)] {
        let n = v(x, y).normalize();
        assert!(n.x.0.is_finite() && n.y.0.is_finite());
    }
}

#[test]
fn gravity_sources_skip_the_body_itself() {
    assert_eq!(nbody::gravity_sources(2, 5), vec![0, 1, 3, 4]);
    assert_eq!(nbody::gravity_sources(0, 3), vec![1, 2]);
    assert_eq!(nbody::gravity_sources(0, 1), Vec::<usize>::new());
}

#[test]
fn collision_pairs_in_order() {
    assert_eq!(
        nbody::collision_pairs(4),
        vec![(0, 1), (0, 2), (0, 3), (1, 2), (1, 3), (2, 3)]
    );
    assert!(nbody::collision_pairs(0).is_empty());
    assert!(nbody::collision_pairs(1).is_empty());
    assert_eq!(nbody::collision_pairs(500).len(), 500 * 499 / 2);
}

#[test]
fn single_body_keeps_its_velocity() {
    let mut s = sim(vec![body(3.0, -1.0, 2.0, 0.5, 5.0, 1.0)], 600.0, 0.95);
    s.update(F(0.01));
    let b = s.get_bodies()[0];
    assert_eq!((b.velocity.x.0, b.velocity.y.0), (2.0, 0.5));
    assert!(close(b.position.x.0, 3.02) && close(b.position.y.0, -0.995));
}

#[test]
fn gravity_is_mutual_and_scales_with_mass_and_distance() {
    let mut s = sim(
        vec![body(0.0, 0.0, 0.0, 0.0, 2.0, 0.1), body(4.0, 0.0, 0.0, 0.0, 8.0, 0.1)],
        1.0,
        0.95,
    );
    s.apply_gravity(F(1.0));
    let b = s.get_bodies();
    assert!(close(b[0].velocity.x.0, 0.5) && b[0].velocity.y.0 == 0.0);
    assert!(close(b[1].velocity.x.0, -0.125) && b[1].velocity.y.0 == 0.0);
    assert!(close(b[0].velocity.x.0 / -b[1].velocity.x.0, 8.0 / 2.0));
    assert_eq!(b[0].position.x.0, 0.0);
    assert_eq!(b[1].position.x.0, 4.0);

    let mut far = sim(
        vec![body(0.0, 0.0, 0.0, 0.0, 2.0, 0.1), body(8.0, 0.0, 0.0, 0.0, 8.0, 0.1)],
        1.0,
        0.95,
    );
    far.apply_gravity(F(1.0));
    assert!(close(far.get_bodies()[0].velocity.x.0, 0.125));
}

#[test]
fn gravity_distance_floor() {
    let mut s = sim(
        vec![body(0.0, 0.0, 0.0, 0.0, 1.0, 1.0), body(0.01, 0.0, 0.0, 0.0, 1.0, 1.0)],
        1.0,
        0.95,
    );
    s.apply_gravity(F(1.0));
    let b = s.get_bodies();
    assert!(close(b[0].velocity.x.0, 1000.0));
    assert!(close(b[1].velocity.x.0, -1000.0));

    let mut same = sim(
        vec![body(1.0, 1.0, 0.0, 0.0, 1.0, 1.0), body(1.0, 1.0, 0.0, 0.0, 1.0, 1.0)],
        1.0,
        0.95,
    );
    same.update(F(0.1));
    for b in same.get_bodies() {
        assert!(b.position.x.0.is_finite() && b.velocity.x.0.is_finite());
    }
}

#[test]
fn two_bodies_fall_toward_each_other() {
    let mut s = sim(
        vec![body(-2.0, 0.0, 0.0, 0.0, 5.0, 1.0), body(2.0, 0.0, 0.0, 0.0, 5.0, 1.0)],
        600.0,
        0.95,
    );
    s.update(F(0.01));
    let b = s.get_bodies();
    assert!(b[0].position.x.0 > -2.0 && b[1].position.x.0 < 2.0);
    assert_eq!(b[0].position.x.0, -b[1].position.x.0);
    assert_eq!(b[0].position.y.0, 0.0);
    assert_eq!(b[1].position.y.0, 0.0);
    assert!(close(b[0].position.x.0, -1.98125));
}

#[test]
fn overlapping_pair_bounces_with_restitution() {
    let mut s = sim(
        vec![body(-0.5, 0.0, 1.0, 0.0, 5.0, 1.0), body(0.5, 0.0, -1.0, 0.0, 5.0, 1.0)],
        0.0,
        0.95,
    );
    let overlap_before = -gap(&s, 0, 1);
    let speed_before = closing_speed(&s, 0, 1);
    assert!(speed_before < 0.0);
    s.update(F(0.01));
    let speed_after = closing_speed(&s, 0, 1);
    assert!(speed_after > 0.0);
    assert!(close(speed_after, -0.95 * speed_before));
    let overlap_after = (-gap(&s, 0, 1)).max(0.0);
    assert!(overlap_after <= overlap_before);
}

#[test]
fn elastic_collision_keeps_momentum() {
    let mut s = sim(
        vec![body(0.0, 0.0, 3.0, 1.0, 5.0, 1.0), body(1.5, 0.0, -1.0, 2.0, 5.0, 1.0)],
        0.0,
        1.0,
    );
    let before: Vec<Body<F>> = s.get_bodies().to_vec();
    s.resolve_pair(0, 1);
    let after = s.get_bodies();
    let px = |b: &[Body<F>]| b[0].mass.0 * b[0].velocity.x.0 + b[1].mass.0 * b[1].velocity.x.0;
    let py = |b: &[Body<F>]| b[0].mass.0 * b[0].velocity.y.0 + b[1].mass.0 * b[1].velocity.y.0;
    assert!(close(px(&before), px(after)));
    assert!(close(py(&before), py(after)));
    assert!(close(after[0].velocity.x.0, -1.0));
    assert!(close(after[1].velocity.x.0, 3.0));
}

#[test]
fn correction_removes_the_overlap() {
    let mut s = sim(
        vec![body(0.0, 0.0, 0.0, 0.0, 2.0, 1.0), body(0.6, 0.8, 0.0, 0.0, 6.0, 1.5)],
        0.0,
        0.95,
    );
    assert!(gap(&s, 0, 1) < 0.0);
    s.resolve_pair(0, 1);
    assert!(gap(&s, 0, 1) >= -1e-5);
    let b = s.get_bodies();
    assert!(close(b[0].position.x.0, -0.6 * 1.5 * 0.75));
    assert!(close(b[1].position.x.0, 0.6 + 0.6 * 1.5 * 0.25));
}

#[test]
fn separate_pair_is_untouched() {
    let mut s = sim(
        vec![body(0.0, 0.0, 1.0, 0.0, 5.0, 1.0), body(2.5, 0.0, -1.0, 0.0, 5.0, 1.0)],
        0.0,
        0.95,
    );
    s.resolve_pair(0, 1);
    let b = s.get_bodies();
    assert_eq!((b[0].position.x.0, b[0].velocity.x.0), (0.0, 1.0));
    assert_eq!((b[1].position.x.0, b[1].velocity.x.0), (2.5, -1.0));
}

#[test]
fn separating_overlap_is_only_pushed_apart() {
    let mut s = sim(
        vec![body(0.0, 0.0, -1.0, 0.0, 5.0, 1.0), body(1.0, 0.0, 1.0, 0.0, 5.0, 1.0)],
        0.0,
        0.95,
    );
    s.resolve_pair(0, 1);
    let b = s.get_bodies();
    assert_eq!((b[0].velocity.x.0, b[1].velocity.x.0), (-1.0, 1.0));
    assert!(close(b[0].position.x.0, -0.5) && close(b[1].position.x.0, 1.5));
}

#[test]
fn tangential_damping_uses_direct_mass_division() {
    let mut s = sim(
        vec![body(0.0, 0.0, 0.0, 0.0, 2.0, 1.0), body(1.0, 0.0, 0.0, 4.0, 4.0, 1.0)],
        0.0,
        0.95,
    );
    s.resolve_pair(0, 1);
    let b = s.get_bodies();
    assert!(close(b[0].velocity.y.0, 1.0));
    assert!(close(b[1].velocity.y.0, 3.5));
    assert_eq!(b[0].velocity.x.0, 0.0);
}

#[test]
fn update_keeps_count_masses_and_radii() {
    let mut s = sim(
        vec![
            body(0.0, 0.0, 0.0, 0.0, 5.0, 1.0),
            body(1.0, 0.0, 0.0, 0.0, 3.0, 1.0),
            body(0.5, 0.5, 0.0, 0.0, 7.0, 2.0),
        ],
        600.0,
        0.95,
    );
    for _ in 0..10 {
        s.update(F(0.01));
    }
    let b = s.get_bodies();
    assert_eq!(b.len(), 3);
    assert_eq!((b[0].mass.0, b[1].mass.0, b[2].mass.0), (5.0, 3.0, 7.0));
    assert_eq!((b[0].radius.0, b[1].radius.0, b[2].radius.0), (1.0, 1.0, 2.0));
}

#[test]
fn default_simulation_seeds_at_rest() {
    let points = vec![v(0.0, 0.0), v(0.5, 0.5), v(0.75, 0.25)];
    let s = Simulation::new(&points);
    let b = s.get_bodies();
    assert_eq!(b.len(), 3);
    assert_eq!((b[0].position.x.0, b[0].position.y.0), (-500.0, -500.0));
    assert_eq!((b[1].position.x.0, b[1].position.y.0), (0.0, 0.0));
    assert_eq!((b[2].position.x.0, b[2].position.y.0), (250.0, -250.0));
    for x in b {
        assert_eq!((x.velocity.x.0, x.velocity.y.0), (0.0, 0.0));
        assert_eq!((x.mass.0, x.radius.0), (5.0, 1.0));
    }
    assert_eq!(nbody::BODY_COUNT, 500);
}
