use vstd::prelude::*;
use crate::params::NORM_ONE;

verus! {

/// Whether a draw `draw` out of the 2^32 equally likely `u32` values falls
/// below a loss chance of `chance` (a normalized value).
pub open spec fn lost_spec(draw: u32, chance: u32) -> bool {
    (draw as nat) * (NORM_ONE as nat) < (chance as nat) * 0x1_0000_0000
}

/// Decides the fate of one packet: it is lost when the uniform draw
/// `draw / 2^32` falls below `chance / NORM_ONE`.
pub fn packet_lost(draw: u32, chance: u32) -> (r: bool)
    ensures
        r == lost_spec(draw, chance),
        chance == 0 ==> !r,
        chance >= NORM_ONE ==> r,
{
    let a: u64 = draw as u64;
    let b: u64 = chance as u64;
    assert(a * 1_000_000 <= 0xffff_ffffu64 * 1_000_000) by (nonlinear_arith)
        requires
            a <= 0xffff_ffffu64,
    ;
    assert(b * 0x1_0000_0000 <= 0xffff_ffffu64 * 0x1_0000_0000) by (nonlinear_arith)
        requires
            b <= 0xffff_ffffu64,
    ;
    assert(b >= 1_000_000 ==> a * 1_000_000 < b * 0x1_0000_0000) by (nonlinear_arith)
        requires
            a <= 0xffff_ffffu64,
    ;
    a * 1_000_000 < b * 0x1_0000_0000
}

/// Relies on `rand::random::<u32>`: a value drawn from the thread-local
/// generator. Nothing is promised of it.
#[verifier::external_body]
pub(crate) fn random_draw() -> (r: u32) {
    rand::random::<u32>()
}

} // verus!
