//! Surface materials and the choices they make when a ray arrives.
//!
//! A material decides whether an arriving ray is scattered or absorbed, how
//! much light survives, and (for glass) whether the ray is mirrored or bent.
//! The directions among which it chooses are measured by the caller; what is
//! decided here holds for every direction and every random draw.
use vstd::prelude::*;
use crate::scalar::{Scalar, Vec3, ONE_BITS};
use crate::hittables::HitRecord;

verus! {

/// What leaves a surface after a ray has been scattered.
#[derive(Clone, Copy, Debug, PartialEq, Eq, Structural)]
pub struct Scatter {
    /// The fraction of light that survives, per colour channel.
    pub attenuation: Vec3,
    /// Where the outgoing ray starts.
    pub origin: Vec3,
    /// Where the outgoing ray points; not normalised.
    pub direction: Vec3,
}

/// An ideal diffuse surface.
#[derive(Clone, Copy, Debug, PartialEq, Eq, Structural)]
pub struct Lambertian {
    pub albedo: Vec3,
}

impl Lambertian {
    /// A diffuse surface with the given reflective colour.
    pub fn new(r: Scalar, g: Scalar, b: Scalar) -> (l: Lambertian)
        ensures
            l.albedo == (Vec3 { x: r, y: g, z: b }),
    {
        Lambertian { albedo: Vec3 { x: r, y: g, z: b } }
    }

    /// What a diffuse surface does with a ray that arrives at `rec`, given
    /// the outgoing direction (the surface normal plus a random point of the
    /// unit ball).
    pub open spec fn scattered(self, rec: HitRecord, direction: Vec3) -> Option<Scatter> {
        Some(Scatter { attenuation: self.albedo, origin: rec.p, direction })
    }

    /// A diffuse surface never absorbs: the ray leaves the hit point in the
    /// given direction, tinted by the albedo.
    pub fn scatter(&self, rec: &HitRecord, direction: Vec3) -> (out: Option<Scatter>)
        ensures
            out == self.scattered(*rec, direction),
    {
        Some(Scatter { attenuation: self.albedo, origin: rec.p, direction })
    }
}

/// The fuzziness that a metal keeps when asked for `fuzziness`: the lesser
/// of it and 1.0, and 1.0 when it is not a number.
pub open spec fn clamped_fuzziness(fuzziness: Scalar) -> Scalar {
    if fuzziness.less(Scalar::of(ONE_BITS)) {
        fuzziness
    } else {
        Scalar::of(ONE_BITS)
    }
}

/// A mirror whose reflections are blurred by a random perturbation.
#[derive(Clone, Copy, Debug, PartialEq, Eq, Structural)]
pub struct Metal {
    albedo: Vec3,
    fuzziness: Scalar,
}

impl Metal {
    /// The fuzziness never exceeds 1.0 and is never a NaN.
    #[verifier::type_invariant]
    closed spec fn bounded(self) -> bool {
        self.fuzziness.at_most(Scalar::of(ONE_BITS))
    }

    /// The reflective colour.
    pub closed spec fn spec_albedo(&self) -> Vec3 {
        self.albedo
    }

    /// The scale of the random perturbation.
    pub closed spec fn spec_fuzziness(&self) -> Scalar {
        self.fuzziness
    }

    /// The metal that `new` builds from the given colour and fuzziness.
    pub closed spec fn made(r: Scalar, g: Scalar, b: Scalar, fuzziness: Scalar) -> Metal {
        Metal { albedo: Vec3 { x: r, y: g, z: b }, fuzziness: clamped_fuzziness(fuzziness) }
    }

    /// What `made` keeps of its arguments.
    pub proof fn lemma_made(r: Scalar, g: Scalar, b: Scalar, fuzziness: Scalar)
        ensures
            Metal::made(r, g, b, fuzziness).spec_albedo() == (Vec3 { x: r, y: g, z: b }),
            Metal::made(r, g, b, fuzziness).spec_fuzziness() == clamped_fuzziness(fuzziness),
    {
    }

    /// A metal with the given reflective colour. A fuzziness above 1.0 is
    /// stored as exactly 1.0, one that is not a number as 1.0 too, and any
    /// other unchanged.
    pub fn new(r: Scalar, g: Scalar, b: Scalar, fuzziness: Scalar) -> (m: Metal)
        ensures
            m == Metal::made(r, g, b, fuzziness),
            m.spec_albedo() == (Vec3 { x: r, y: g, z: b }),
            m.spec_fuzziness() == clamped_fuzziness(fuzziness),
            Scalar::of(ONE_BITS).less(fuzziness) ==> m.spec_fuzziness() == Scalar::of(ONE_BITS),
    {
        let one = Scalar::one();
        let kept = if fuzziness.lt(one) { fuzziness } else { one };
        Metal { albedo: Vec3 { x: r, y: g, z: b }, fuzziness: kept }
    }

    /// The reflective colour.
    #[verifier::when_used_as_spec(spec_albedo)]
    pub fn albedo(&self) -> (v: Vec3)
        ensures
            v == self.spec_albedo(),
    {
        self.albedo
    }

    /// The scale of the random perturbation, at most 1.0.
    #[verifier::when_used_as_spec(spec_fuzziness)]
    pub fn fuzziness(&self) -> (f: Scalar)
        ensures
            f == self.spec_fuzziness(),
            f.at_most(Scalar::of(ONE_BITS)),
    {
        proof {
            use_type_invariant(self);
        }
        self.fuzziness
    }

    /// What a metal does with a ray that arrives at `rec`, given the
    /// perturbed mirror direction and its dot product with the surface
    /// normal: the ray leaves only if it points away from the surface.
    pub open spec fn scattered(self, rec: HitRecord, direction: Vec3, alignment: Scalar) -> Option<
        Scatter,
    > {
        if Scalar::of(0).less(alignment) {
            Some(Scatter { attenuation: self.spec_albedo(), origin: rec.p, direction })
        } else {
            None
        }
    }

    /// Scatters along `direction` when `alignment`, the dot product of that
    /// direction with the surface normal, is positive; absorbs otherwise.
    pub fn scatter(&self, rec: &HitRecord, direction: Vec3, alignment: Scalar) -> (out: Option<
        Scatter,
    >)
        ensures
            out == self.scattered(*rec, direction, alignment),
            out.is_some() <==> Scalar::of(0).less(alignment),
    {
        if alignment.gt(Scalar::zero()) {
            Some(Scatter { attenuation: self.albedo, origin: rec.p, direction })
        } else {
            None
        }
    }
}

/// On which side of a glass surface a ray travels.
#[derive(Clone, Copy, Debug, PartialEq, Eq, Structural)]
pub enum Passage {
    /// The ray comes from outside and meets the surface against its normal.
    Entering,
    /// The ray comes from inside and meets the surface along its normal.
    Leaving,
}

/// The bent direction of Snell's law, which exists only where the
/// discriminant of the law is positive.
pub open spec fn refracted(discriminant: Scalar, bent: Vec3) -> Option<Vec3> {
    if Scalar::of(0).less(discriminant) {
        Some(bent)
    } else {
        None
    }
}

/// Keeps the bent direction where Snell's law has a solution. A
/// discriminant that is zero, negative or not a number means total internal
/// reflection.
pub fn refract(discriminant: Scalar, bent: Vec3) -> (out: Option<Vec3>)
    ensures
        out == refracted(discriminant, bent),
{
    if discriminant.gt(Scalar::zero()) {
        Some(bent)
    } else {
        None
    }
}

/// A clear refracting solid.
#[derive(Clone, Copy, Debug, PartialEq, Eq, Structural)]
pub struct Dielectric {
    pub ref_idx: Scalar,
}

impl Dielectric {
    /// Glass with the given refractive index.
    pub fn new(ri: Scalar) -> (d: Dielectric)
        ensures
            d.ref_idx == ri,
    {
        Dielectric { ref_idx: ri }
    }

    /// The side from which a ray meets the surface, by the dot product of
    /// its direction with the surface normal.
    pub open spec fn passage_of(incidence: Scalar) -> Passage {
        if Scalar::of(0).less(incidence) {
            Passage::Leaving
        } else {
            Passage::Entering
        }
    }

    /// A ray whose direction has a positive dot product with the normal is
    /// leaving the solid; every other ray is entering it.
    pub fn passage(&self, incidence: Scalar) -> (side: Passage)
        ensures
            side == Dielectric::passage_of(incidence),
    {
        if incidence.gt(Scalar::zero()) {
            Passage::Leaving
        } else {
            Passage::Entering
        }
    }

    /// The probability with which the ray is mirrored: the Fresnel estimate
    /// where a bent ray exists, and 1.0 under total internal reflection.
    pub open spec fn reflect_probability(refracted: Option<Vec3>, reflectance: Scalar) -> Scalar {
        match refracted {
            Some(_) => reflectance,
            None => Scalar::of(ONE_BITS),
        }
    }

    /// The direction that leaves the surface: the mirrored one when the
    /// draw falls below the reflection probability, the bent one otherwise.
    pub open spec fn outgoing(
        reflected: Vec3,
        refracted: Option<Vec3>,
        reflectance: Scalar,
        draw: Scalar,
    ) -> Vec3 {
        if draw.less(Dielectric::reflect_probability(refracted, reflectance)) {
            reflected
        } else {
            match refracted {
                Some(bent) => bent,
                None => Vec3::of_bits(0, 0, 0),
            }
        }
    }

    /// Glass absorbs nothing and always scatters. Between the mirrored and
    /// the bent direction it chooses by one uniform `draw` against the
    /// reflection probability, which is `reflectance` where a bent
    /// direction exists and 1.0 where it does not.
    pub fn scatter(
        &self,
        rec: &HitRecord,
        reflected: Vec3,
        refracted: Option<Vec3>,
        reflectance: Scalar,
        draw: Scalar,
    ) -> (out: Option<Scatter>)
        ensures
            out == Some(
                Scatter {
                    attenuation: Vec3::of_bits(ONE_BITS, ONE_BITS, ONE_BITS),
                    origin: rec.p,
                    direction: Dielectric::outgoing(reflected, refracted, reflectance, draw),
                },
            ),
            out is Some,
            out->0.attenuation == Vec3::of_bits(ONE_BITS, ONE_BITS, ONE_BITS),
            refracted is None && draw.less(Scalar::of(ONE_BITS)) ==> out->0.direction == reflected,
    {
        let reflect_prob = match refracted {
            Some(_) => reflectance,
            None => Scalar::one(),
        };
        let direction = if draw.lt(reflect_prob) {
            reflected
        } else {
            match refracted {
                Some(bent) => bent,
                None => Vec3::from_bits(0, 0, 0),
            }
        };
        Some(
            Scatter {
                attenuation: Vec3::from_bits(ONE_BITS, ONE_BITS, ONE_BITS),
                origin: rec.p,
                direction,
            },
        )
    }
}

/// The material of a surface: one of the three kinds.
#[derive(Clone, Copy, Debug, PartialEq, Eq, Structural)]
pub enum Material {
    Lambertian(Lambertian),
    Metal(Metal),
    Dielectric(Dielectric),
}

} // verus!
