use cgmath::{InnerSpace, Vector3};
use rand::{thread_rng, Rng};
use raytracer3::scalar::{Scalar, Vec3};
use raytracer3::utils::random_in_unit_sphere;

fn s(x: f32) -> Scalar {
    Scalar::from_bits(x.to_bits())
}

fn f(x: Scalar) -> f32 {
    f32::from_bits(x.to_bits())
}

/// Draws candidates from the cube until the sampler accepts one.
fn sample() -> Vector3<f32> {
    let mut rng = thread_rng();
    loop {
        let p = 2.0 * Vector3::new(rng.gen::<f32>(), rng.gen::<f32>(), rng.gen::<f32>())
            - Vector3::new(1.0, 1.0, 1.0);
        let candidate = Vec3::new(s(p.x), s(p.y), s(p.z));
        if let Some(q) = random_in_unit_sphere(candidate, s(p.magnitude2())) {
            return Vector3::new(f(q.x), f(q.y), f(q.z));
        }
    }
}

#[test]
fn test_random_in_unit_sphere() {
    for _sample in 0..1000 {
        // Not really a great way to test random...
        let choice = sample();
        assert!(choice.magnitude2() < 1.0);
    }
}

#[test]
fn candidates_inside_the_ball_are_returned_unchanged() {
    let p = Vec3::new(s(0.5), s(-0.25), s(0.125));
    assert_eq!(random_in_unit_sphere(p, s(0.328_125)), Some(p));
    assert_eq!(random_in_unit_sphere(p, s(0.0)), Some(p));
    assert_eq!(random_in_unit_sphere(p, s(0.999_999_9)), Some(p));
}

#[test]
fn candidates_on_or_outside_the_sphere_are_rejected() {
    let p = Vec3::new(s(1.0), s(0.0), s(0.0));
    assert_eq!(random_in_unit_sphere(p, s(1.0)), None);
    assert_eq!(random_in_unit_sphere(p, s(1.000_000_1)), None);
    assert_eq!(random_in_unit_sphere(p, s(3.0)), None);
    assert_eq!(random_in_unit_sphere(p, s(f32::INFINITY)), None);
    assert_eq!(random_in_unit_sphere(p, s(f32::NAN)), None);
}
