//! A brute-force N-body kernel: point-mass disks under mutual gravity, with
//! impulse-based contact resolution, plus the sizing policy of the buffer
//! that a renderer uploads the bodies into.

mod body;
mod scalar;
mod schedule;
mod simulation;
mod upload;
mod vec2;

pub use body::Body;
pub use scalar::Scalar;
pub use schedule::{
    collision_pairs, contact_pairs, gravity_sources, lemma_each_pair_once, other_body, pair_before,
    pair_row, pairs_in_rows,
};
pub use simulation::{
    acceleration, acceleration_upto, collide_all, collide_upto, contact, gravity_step,
    integrate_step, lemma_no_self_pull, pair_step, penetration, pull, same_masses_and_radii,
    seeded_body, step, Simulation, BODY_COUNT, SEED_HALF_WIDTH,
};
pub use upload::{
    bodies_buffer_bytes, grown_capacity, plan_upload, UploadPlan, BODY_RECORD_BYTES,
    INITIAL_BODY_CAPACITY,
};
pub use vec2::Vec2;
