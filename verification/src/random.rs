//! The random source and the draws that the generators make from it.
//!
//! The thread's generator reseeds itself from the operating system from time
//! to time. A draw panics if the system refuses the entropy for that, and no
//! contract here can leave that out: the contracts of the draws hold of every
//! draw that returns.
use vstd::prelude::*;
use rand::rngs::ThreadRng;
use rand::Rng;

verus! {

#[verifier::external_type_specification]
#[verifier::external_body]
pub struct ExThreadRng(ThreadRng);

/// Calls `Rng::gen_range` on the half-open range `low..high` of `u32`.
///
/// The draw is some value of the range; which one is not specified. The call
/// panics on an empty range, which `requires` leaves out.
#[verifier::external_body]
pub(crate) fn draw_u32(rng: &mut ThreadRng, low: u32, high: u32) -> (value: u32)
    requires
        low < high,
    ensures
        low <= value < high,
{
    rng.gen_range(low..high)
}

/// Calls `Rng::gen_range` on the half-open range `low..high` of `i32`.
///
/// The draw is some value of the range; which one is not specified. The call
/// panics on an empty range, which `requires` leaves out.
#[verifier::external_body]
pub(crate) fn draw_i32(rng: &mut ThreadRng, low: i32, high: i32) -> (value: i32)
    requires
        low < high,
    ensures
        low <= value < high,
{
    rng.gen_range(low..high)
}

/// Calls `Rng::gen_range` on the half-open range `0..len` of `usize`.
///
/// The draw is some index below `len`; which one is not specified. The call
/// panics on an empty range, which `requires` leaves out.
#[verifier::external_body]
pub(crate) fn draw_index(rng: &mut ThreadRng, len: usize) -> (index: usize)
    requires
        0 < len,
    ensures
        index < len,
{
    rng.gen_range(0..len)
}

} // verus!
