use raytracer3::hittables::HitRecord;
use raytracer3::materials::{refract, Dielectric, Lambertian, Material, Metal, Passage, Scatter};
use raytracer3::scalar::{Scalar, Vec3};

fn s(x: f32) -> Scalar {
    Scalar::from_bits(x.to_bits())
}

fn f(x: Scalar) -> f32 {
    f32::from_bits(x.to_bits())
}

fn v(x: f32, y: f32, z: f32) -> Vec3 {
    Vec3::new(s(x), s(y), s(z))
}

fn record_at(p: Vec3) -> HitRecord {
    let mut rec = HitRecord::new();
    rec.t = s(2.0);
    rec.p = p;
    rec.normal = v(0.0, 1.0, 0.0);
    rec
}

#[test]
fn test_box_clone_trait() {
    let a1 = Box::new(Lambertian::new(s(1.0), s(0.8), s(0.5)));
    let a2 = a1.clone();
    assert_eq!(f(a2.albedo.x), 1.0);
    assert_eq!(f(a2.albedo.y), 0.8);
    assert_eq!(f(a2.albedo.z), 0.5);
}

#[test]
fn test_lambertian_constructor() {
    let l = Lambertian::new(s(1.0), s(2.0), s(3.0));
    assert_eq!(f(l.albedo.x), 1.0);
    assert_eq!(f(l.albedo.y), 2.0);
    assert_eq!(f(l.albedo.z), 3.0);
}

#[test]
fn test_metal_constructor() {
    let m = Metal::new(s(1.0), s(2.0), s(3.0), s(0.5));
    assert_eq!(f(m.albedo().x), 1.0);
    assert_eq!(f(m.albedo().y), 2.0);
    assert_eq!(f(m.albedo().z), 3.0);
    assert_eq!(f(m.fuzziness()), 0.5);
}

#[test]
fn test_dielectric_constructor() {
    let d = Dielectric::new(s(0.75));
    assert_eq!(f(d.ref_idx), 0.75);
}

#[test]
fn test_metal_constructor_fuzziness_clamps() {
    let m = Metal::new(s(1.0), s(1.0), s(1.0), s(6.0));
    assert_eq!(f(m.fuzziness()), 1.0); // must clamp to <= 1.0
}

#[test]
fn metal_fuzziness_is_the_lesser_of_the_request_and_one() {
    for (asked, kept) in [
        (0.0f32, 0.0f32),
        (0.25, 0.25),
        (0.999_999_9, 0.999_999_9),
        (1.0, 1.0),
        (1.000_000_1, 1.0),
        (6.0, 1.0),
        (f32::MAX, 1.0),
        (f32::INFINITY, 1.0),
        (-3.0, -3.0),
        (f32::NEG_INFINITY, f32::NEG_INFINITY),
    ] {
        let m = Metal::new(s(0.1), s(0.2), s(0.3), s(asked));
        assert_eq!(f(m.fuzziness()), kept, "asked for {:?}", asked);
        assert_eq!(f(m.fuzziness()), asked.min(1.0));
    }
    let m = Metal::new(s(0.1), s(0.2), s(0.3), s(f32::NAN));
    assert_eq!(f(m.fuzziness()), 1.0);
    assert_eq!(f(m.fuzziness()), f32::NAN.min(1.0));
    let m = Metal::new(s(0.1), s(0.2), s(0.3), s(-0.0));
    assert_eq!(m.fuzziness().to_bits(), (-0.0f32).to_bits());
}

#[test]
fn lambertian_always_scatters_with_its_albedo() {
    let l = Lambertian::new(s(0.8), s(0.3), s(0.3));
    let rec = record_at(v(1.0, 2.0, 3.0));
    for direction in [v(0.0, 1.0, 0.0), v(0.0, -1.0, 0.0), v(0.0, 0.0, 0.0), v(f32::NAN, 1.0, 1.0)] {
        let out = l.scatter(&rec, direction);
        assert_eq!(
            out,
            Some(Scatter { attenuation: v(0.8, 0.3, 0.3), origin: v(1.0, 2.0, 3.0), direction })
        );
    }
}

#[test]
fn metal_scatters_only_away_from_the_surface() {
    let m = Metal::new(s(0.8), s(0.6), s(0.2), s(0.3));
    let rec = record_at(v(1.0, 2.0, 3.0));
    let direction = v(0.6, 0.8, 0.0);
    let expected =
        Some(Scatter { attenuation: v(0.8, 0.6, 0.2), origin: v(1.0, 2.0, 3.0), direction });
    assert_eq!(m.scatter(&rec, direction, s(0.8)), expected);
    assert_eq!(m.scatter(&rec, direction, s(f32::MIN_POSITIVE)), expected);
    assert_eq!(m.scatter(&rec, direction, s(f32::INFINITY)), expected);
    assert_eq!(m.scatter(&rec, direction, s(0.0)), None);
    assert_eq!(m.scatter(&rec, direction, s(-0.0)), None);
    assert_eq!(m.scatter(&rec, direction, s(-0.8)), None);
    assert_eq!(m.scatter(&rec, direction, s(f32::NAN)), None);
}

#[test]
fn passage_follows_the_sign_of_the_incidence() {
    let d = Dielectric::new(s(1.5));
    assert_eq!(d.passage(s(0.3)), Passage::Leaving);
    assert_eq!(d.passage(s(f32::MIN_POSITIVE)), Passage::Leaving);
    assert_eq!(d.passage(s(0.0)), Passage::Entering);
    assert_eq!(d.passage(s(-0.0)), Passage::Entering);
    assert_eq!(d.passage(s(-0.3)), Passage::Entering);
    assert_eq!(d.passage(s(f32::NAN)), Passage::Entering);
}

#[test]
fn refraction_needs_a_positive_discriminant() {
    let bent = v(0.1, -0.9, 0.2);
    assert_eq!(refract(s(0.4), bent), Some(bent));
    assert_eq!(refract(s(f32::MIN_POSITIVE), bent), Some(bent));
    assert_eq!(refract(s(0.0), bent), None);
    assert_eq!(refract(s(-0.0), bent), None);
    assert_eq!(refract(s(-0.4), bent), None);
    assert_eq!(refract(s(f32::NAN), bent), None);
}

#[test]
fn dielectric_attenuation_is_always_one() {
    let d = Dielectric::new(s(1.5));
    let rec = record_at(v(1.0, 2.0, 3.0));
    let reflected = v(0.0, 1.0, 0.0);
    let bent = v(0.0, -1.0, 0.0);
    for refracted in [Some(bent), None] {
        for reflectance in [0.0f32, 0.04, 0.5, 1.0, f32::NAN] {
            for draw in [0.0f32, 0.039, 0.04, 0.5, 0.999_999_9, 1.0, f32::NAN] {
                let out = d.scatter(&rec, reflected, refracted, s(reflectance), s(draw));
                let out = out.expect("glass never absorbs");
                assert_eq!(out.attenuation, v(1.0, 1.0, 1.0));
                assert_eq!(out.origin, v(1.0, 2.0, 3.0));
            }
        }
    }
}

#[test]
fn dielectric_reflects_when_the_draw_is_below_the_reflectance() {
    let d = Dielectric::new(s(1.5));
    let rec = record_at(v(0.0, 0.0, 0.0));
    let reflected = v(0.0, 1.0, 0.0);
    let bent = v(0.0, -1.0, 0.0);
    let direction = |reflectance: f32, draw: f32| {
        d.scatter(&rec, reflected, Some(bent), s(reflectance), s(draw)).unwrap().direction
    };
    assert_eq!(direction(0.04, 0.039), reflected);
    assert_eq!(direction(0.04, 0.0), reflected);
    assert_eq!(direction(0.04, 0.04), bent);
    assert_eq!(direction(0.04, 0.5), bent);
    assert_eq!(direction(0.0, 0.0), bent);
    assert_eq!(direction(1.0, 0.999_999_9), reflected);
    assert_eq!(direction(f32::NAN, 0.5), bent);
}

#[test]
fn total_internal_reflection_always_reflects() {
    let d = Dielectric::new(s(1.5));
    let rec = record_at(v(0.0, 0.0, 0.0));
    let reflected = v(0.3, 0.4, 0.5);
    for reflectance in [0.0f32, 0.04, 1.0, f32::NAN] {
        for draw in [0.0f32, 0.25, 0.5, 0.999_999_9] {
            let out = d.scatter(&rec, reflected, None, s(reflectance), s(draw)).unwrap();
            assert_eq!(out.direction, reflected);
        }
    }
    let out = d.scatter(&rec, reflected, None, s(0.04), s(1.0)).unwrap();
    assert_eq!(out.direction, v(0.0, 0.0, 0.0));
}

#[test]
fn materials_compare_by_kind_and_content() {
    let a = Material::Lambertian(Lambertian::new(s(0.1), s(0.2), s(0.3)));
    let b = Material::Lambertian(Lambertian::new(s(0.1), s(0.2), s(0.3)));
    let c = Material::Metal(Metal::new(s(0.1), s(0.2), s(0.3), s(0.0)));
    let d = Material::Dielectric(Dielectric::new(s(1.5)));
    assert_eq!(a, b);
    assert_ne!(a, c);
    assert_ne!(c, d);
    assert_eq!(c, Material::Metal(Metal::new(s(0.1), s(0.2), s(0.3), s(0.0))));
}
