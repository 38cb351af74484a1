//! HEALPix resolution parameters shared by the two dust maps.

use vstd::prelude::*;

verus! {

/// Largest `nside` that the NESTED scheme supports (`2^29`).
pub const NSIDE_MAX: u32 = 0x2000_0000;

/// `nside` is a power of two in `[1, 2^29]`: the NESTED scheme's valid
/// resolutions.
pub open spec fn is_nside(nside: u32) -> bool {
    &&& nside > 0
    &&& nside & ((nside - 1) as u32) == 0
    &&& nside <= NSIDE_MAX
}

/// Number of HEALPix pixels on the sphere at resolution `nside`.
pub open spec fn n_pixels(nside: int) -> int {
    12 * nside * nside
}

/// The depth of a valid `nside`, through `cdshealpix::depth`: `nside`
/// is `2^depth` and the depth is at most 29. The function panics on an
/// invalid `nside`, which the `requires` leaves out.
#[verifier::external_body]
fn cdshealpix_depth(nside: u32) -> (depth: u8)
    requires
        is_nside(nside),
    ensures
        depth <= 29,
        nside == 1u32 << depth,
{
    cdshealpix::depth(nside)
}

/// The NESTED depth of `nside` (`log2(nside)`), or `None` where `nside` is
/// not a power of two in `[1, 2^29]`.
pub fn nested_depth(nside: u32) -> (depth: Option<u8>)
    ensures
        depth is Some <==> is_nside(nside),
        depth matches Some(d) ==> d <= 29 && nside == 1u32 << d,
{
    if nside > 0 && nside & (nside - 1) == 0 && nside <= NSIDE_MAX {
        Some(cdshealpix_depth(nside))
    } else {
        None
    }
}

/// Every power of two `2^depth` with `depth <= 29` is a valid `nside`, and
/// `depth` is the only exponent up to 29 that gives it: `nested_depth`
/// hands back `Some(depth)` for it.
pub proof fn lemma_depth_of_power_of_two(depth: u8)
    requires
        depth <= 29,
    ensures
        is_nside(1u32 << depth),
        forall|other: u8| other <= 29 && (1u32 << other) == (1u32 << depth) ==> other == depth,
{
    let nside = 1u32 << depth;
    assert(nside > 0 && nside & ((nside - 1) as u32) == 0 && nside <= 0x2000_0000u32) by (bit_vector)
        requires
            depth <= 29,
            nside == 1u32 << depth,
    ;
    assert forall|other: u8| other <= 29 && (1u32 << other) == (1u32 << depth) implies other == depth by {
        assert(other <= 29 && depth <= 29 && (1u32 << other) == (1u32 << depth) ==> other == depth)
            by (bit_vector);
    }
}

} // verus!
