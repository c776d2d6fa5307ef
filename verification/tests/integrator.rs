use raytracer3::integrator::{colour, Step, MAX_DEPTH, T_MAX_BITS, T_MIN_BITS};

#[test]
fn query_bounds_are_the_numbers_they_stand_for() {
    assert_eq!(f32::from_bits(T_MIN_BITS), 0.001);
    assert_eq!(f32::from_bits(T_MAX_BITS), f32::MAX);
    assert_eq!(MAX_DEPTH, 50);
}

#[test]
fn a_ray_that_hits_nothing_sees_the_sky() {
    for depth in [0, 1, 49, 50, 51, i32::MAX, -1, i32::MIN] {
        assert_eq!(colour(false, depth), Step::Sky);
    }
}

#[test]
fn a_hit_below_the_limit_scatters_one_level_deeper() {
    assert_eq!(colour(true, 0), Step::Scatter { next_depth: 1 });
    assert_eq!(colour(true, 1), Step::Scatter { next_depth: 2 });
    assert_eq!(colour(true, 48), Step::Scatter { next_depth: 49 });
    assert_eq!(colour(true, 49), Step::Scatter { next_depth: 50 });
    assert_eq!(colour(true, -7), Step::Scatter { next_depth: -6 });
    assert_eq!(colour(true, i32::MIN), Step::Scatter { next_depth: i32::MIN + 1 });
}

#[test]
fn a_hit_at_the_limit_is_black() {
    assert_eq!(colour(true, 50), Step::Black);
    assert_eq!(colour(true, 51), Step::Black);
    assert_eq!(colour(true, i32::MAX), Step::Black);
}

#[test]
fn a_path_is_cut_after_fifty_bounces() {
    let mut depth = 0;
    let mut bounces = 0;
    loop {
        match colour(true, depth) {
            Step::Scatter { next_depth } => {
                depth = next_depth;
                bounces += 1;
            }
            other => {
                assert_eq!(other, Step::Black);
                break;
            }
        }
    }
    assert_eq!(bounces, 50);
}
