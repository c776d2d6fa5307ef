//! Rejection sampling of the unit ball.
use vstd::prelude::*;
use crate::scalar::{Scalar, Vec3, ONE_BITS};

verus! {

/// The verdict of the sampler on a candidate with the given squared length:
/// the candidate itself if that length is below 1.0, nothing otherwise.
pub open spec fn accepted(candidate: Vec3, norm_squared: Scalar) -> Option<Vec3> {
    if norm_squared.less(Scalar::of(ONE_BITS)) {
        Some(candidate)
    } else {
        None
    }
}

/// One round of rejection sampling: a candidate drawn uniformly from the
/// cube `[-1, 1]^3` is returned if it falls inside the unit ball, and
/// rejected otherwise, in which case the caller draws again. Whatever is
/// returned has a squared length below 1.0.
pub fn random_in_unit_sphere(candidate: Vec3, norm_squared: Scalar) -> (point: Option<Vec3>)
    ensures
        point == accepted(candidate, norm_squared),
        point.is_some() ==> norm_squared.less(Scalar::of(ONE_BITS)),
{
    if norm_squared.lt(Scalar::one()) {
        Some(candidate)
    } else {
        None
    }
}

} // verus!
