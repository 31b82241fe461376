use vstd::prelude::*;

verus! {

/// Room for this many bodies is allocated before the first upload.
pub const INITIAL_BODY_CAPACITY: u32 = 1;

/// Bytes of one body's record in the bodies buffer: four 32-bit words.
pub const BODY_RECORD_BYTES: u64 = 16;

/// Room for half again as many bodies as `needed`, rounded up, within `u32`.
pub open spec fn grown_capacity(needed: int) -> int {
    let grown = (3 * needed + 1) / 2;
    if grown > u32::MAX {
        u32::MAX as int
    } else {
        grown
    }
}

/// What one upload of bodies to the renderer does with the bodies buffer.
#[derive(Clone, Copy, Debug, PartialEq, Eq, Structural)]
pub struct UploadPlan {
    /// How many bodies are drawn.
    pub num_bodies: u32,
    /// Room for how many bodies the buffer has after the upload.
    pub capacity: u32,
    /// Whether the buffer is allocated anew, at the new capacity.
    pub reallocate: bool,
}

/// The plan for uploading `len` bodies into a buffer with room for
/// `capacity`: the buffer is kept while they fit, and otherwise replaced by
/// one with room for half again as many, rounded up.
pub fn plan_upload(len: usize, capacity: u32) -> (r: UploadPlan)
    requires
        len <= u32::MAX,
    ensures
        r.num_bodies == len,
        r.reallocate == (len > capacity),
        r.capacity == if len > capacity {
            grown_capacity(len as int)
        } else {
            capacity as int
        },
        r.num_bodies <= r.capacity,
{
    let num_bodies = len as u32;
    if num_bodies > capacity {
        let grown: u64 = (3 * (num_bodies as u64) + 1) / 2;
        let capacity = if grown > u32::MAX as u64 {
            u32::MAX
        } else {
            grown as u32
        };
        UploadPlan { num_bodies, capacity, reallocate: true }
    } else {
        UploadPlan { num_bodies, capacity, reallocate: false }
    }
}

/// The size in bytes of a bodies buffer with room for `capacity` bodies.
pub fn bodies_buffer_bytes(capacity: u32) -> (r: u64)
    ensures
        r == capacity as int * BODY_RECORD_BYTES,
{
    capacity as u64 * BODY_RECORD_BYTES
}

} // verus!
