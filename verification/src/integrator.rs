//! The rule by which a light path goes on or ends.
use vstd::prelude::*;

verus! {

/// The number of bounces after which a path is cut off.
pub const MAX_DEPTH: i32 = 50;

/// The bit pattern of 0.001: hits nearer than this to a ray's origin are
/// ignored, so that a scattered ray does not hit the surface it leaves.
pub const T_MIN_BITS: u32 = 0x3a83_126f;

/// The bit pattern of the largest finite number, the far end of every
/// nearest-hit query.
pub const T_MAX_BITS: u32 = 0x7f7f_ffff;

/// What happens at the end of one ray of a path.
#[derive(Clone, Copy, Debug, PartialEq, Eq, Structural)]
pub enum Step {
    /// The ray left the scene: the path ends with the colour of the sky.
    Sky,
    /// The ray hit a surface at the depth limit: the path ends in black.
    Black,
    /// The ray hit a surface: its material is asked to scatter, and a
    /// scattered ray is followed at the given depth.
    Scatter { next_depth: i32 },
}

/// The step taken at depth `depth` by a ray that did or did not hit a
/// surface.
pub open spec fn step_of(hit: bool, depth: i32) -> Step {
    if !hit {
        Step::Sky
    } else if depth < MAX_DEPTH {
        Step::Scatter { next_depth: (depth + 1) as i32 }
    } else {
        Step::Black
    }
}

/// The number of scatterings that a path at depth `depth` can still make.
pub open spec fn budget(depth: i32) -> nat {
    if depth < MAX_DEPTH {
        (MAX_DEPTH - depth) as nat
    } else {
        0
    }
}

/// Every scattering spends one unit of the budget, and a path without
/// budget ends at its next hit: a path that starts at depth 0 follows at
/// most `MAX_DEPTH` scattered rays.
pub proof fn lemma_paths_are_bounded(hit: bool, depth: i32)
    ensures
        step_of(hit, depth) matches Step::Scatter { next_depth } ==> budget(depth) > 0 && budget(
            next_depth,
        ) == budget(depth) - 1,
        hit && budget(depth) == 0 ==> step_of(hit, depth) == Step::Black,
        budget(0) == MAX_DEPTH,
{
}

/// Decides how the radiance along a ray is evaluated. A ray that hits
/// nothing sees the sky. A ray that hits a surface below the depth limit
/// hands over to the material, and the path continues one level deeper if
/// the material scatters. At or beyond the depth limit a hit is black,
/// whatever the material.
pub fn colour(hit: bool, depth: i32) -> (step: Step)
    ensures
        step == step_of(hit, depth),
        hit && depth >= MAX_DEPTH ==> step == Step::Black,
        step matches Step::Scatter { next_depth } ==> next_depth == depth + 1 && next_depth
            <= MAX_DEPTH,
{
    if hit {
        if depth < MAX_DEPTH {
            Step::Scatter { next_depth: depth + 1 }
        } else {
            Step::Black
        }
    } else {
        Step::Sky
    }
}

} // verus!
