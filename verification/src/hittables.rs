//! Spheres, the record of a hit, and the search for the nearest hit.
use vstd::prelude::*;
use crate::scalar::{Scalar, Vec3};
use crate::materials::{Material, Lambertian};

verus! {

/// Where and how a ray met a surface.
#[derive(Clone, Copy, Debug, PartialEq, Eq, Structural)]
pub struct HitRecord {
    /// The ray parameter of the hit.
    pub t: Scalar,
    /// The point of the hit.
    pub p: Vec3,
    /// The surface normal at that point.
    pub normal: Vec3,
    /// The material of the surface that was hit.
    pub material: Material,
}

impl HitRecord {
    /// The record that stands in before anything was hit: all zeros, with a
    /// black diffuse material.
    pub open spec fn blank() -> HitRecord {
        HitRecord {
            t: Scalar::of(0),
            p: Vec3::of_bits(0, 0, 0),
            normal: Vec3::of_bits(0, 0, 0),
            material: Material::Lambertian(Lambertian { albedo: Vec3::of_bits(0, 0, 0) }),
        }
    }

    /// A blank record.
    pub fn new() -> (rec: HitRecord)
        ensures
            rec == HitRecord::blank(),
    {
        HitRecord {
            t: Scalar::zero(),
            p: Vec3::from_bits(0, 0, 0),
            normal: Vec3::from_bits(0, 0, 0),
            material: Material::Lambertian(
                Lambertian::new(Scalar::zero(), Scalar::zero(), Scalar::zero()),
            ),
        }
    }
}

/// One point at which a ray crosses the surface of a sphere.
#[derive(Clone, Copy, Debug, PartialEq, Eq, Structural)]
pub struct Crossing {
    /// The ray parameter of the point.
    pub t: Scalar,
    /// The point itself.
    pub p: Vec3,
    /// The outward surface normal there.
    pub normal: Vec3,
}

/// What one ray does to one sphere: the discriminant of their quadratic and
/// its two roots, the nearer one first.
#[derive(Clone, Copy, Debug, PartialEq, Eq, Structural)]
pub struct Probe {
    discriminant: Scalar,
    near: Crossing,
    far: Crossing,
}

impl Probe {
    /// The far crossing is never nearer than the near one.
    #[verifier::type_invariant]
    closed spec fn sorted(self) -> bool {
        !self.far.t.less(self.near.t)
    }

    /// The discriminant of the quadratic.
    pub closed spec fn spec_discriminant(&self) -> Scalar {
        self.discriminant
    }

    /// The crossing at the smaller root.
    pub closed spec fn spec_near(&self) -> Crossing {
        self.near
    }

    /// The crossing at the larger root.
    pub closed spec fn spec_far(&self) -> Crossing {
        self.far
    }

    /// Whether the roots are in order: what every probe built by `new`
    /// satisfies.
    pub open spec fn ordered(self) -> bool {
        !self.spec_far().t.less(self.spec_near().t)
    }

    /// Records a discriminant and the two crossings, putting the one with
    /// the smaller parameter first.
    pub fn new(discriminant: Scalar, first: Crossing, second: Crossing) -> (probe: Probe)
        ensures
            probe.ordered(),
            probe.spec_discriminant() == discriminant,
            probe.spec_near() == (if second.t.less(first.t) { second } else { first }),
            probe.spec_far() == (if second.t.less(first.t) { first } else { second }),
    {
        if second.t.lt(first.t) {
            Probe { discriminant, near: second, far: first }
        } else {
            Probe { discriminant, near: first, far: second }
        }
    }

    /// The discriminant of the quadratic.
    #[verifier::when_used_as_spec(spec_discriminant)]
    pub fn discriminant(&self) -> (d: Scalar)
        ensures
            d == self.spec_discriminant(),
    {
        self.discriminant
    }

    /// The crossing at the smaller root.
    #[verifier::when_used_as_spec(spec_near)]
    pub fn near(&self) -> (c: Crossing)
        ensures
            c == self.spec_near(),
            self.ordered(),
    {
        proof {
            use_type_invariant(self);
        }
        self.near
    }

    /// The crossing at the larger root.
    #[verifier::when_used_as_spec(spec_far)]
    pub fn far(&self) -> (c: Crossing)
        ensures
            c == self.spec_far(),
            self.ordered(),
    {
        proof {
            use_type_invariant(self);
        }
        self.far
    }

    /// The crossing that counts as the hit within `(t_min, t_max)`: none
    /// unless the discriminant is positive; then the near crossing if its
    /// parameter lies strictly inside the interval, else the far one if its
    /// parameter does, else none.
    pub open spec fn chosen(self, t_min: Scalar, t_max: Scalar) -> Option<Crossing> {
        if !Scalar::of(0).less(self.spec_discriminant()) {
            None
        } else if self.spec_near().t.between(t_min, t_max) {
            Some(self.spec_near())
        } else if self.spec_far().t.between(t_min, t_max) {
            Some(self.spec_far())
        } else {
            None
        }
    }
}

/// A sphere with its material.
#[derive(Clone, Copy, Debug, PartialEq, Eq, Structural)]
pub struct Sphere {
    pub radius: Scalar,
    pub centre: Vec3,
    pub material: Material,
}

impl Sphere {
    /// The sphere around `centre` with the given radius and material.
    pub fn new(centre: Vec3, radius: Scalar, material: Material) -> (s: Sphere)
        ensures
            s == (Sphere { radius, centre, material }),
    {
        Sphere { radius, centre, material }
    }

    /// The record of a hit at `crossing` on this sphere.
    pub open spec fn record(self, crossing: Crossing) -> HitRecord {
        HitRecord { t: crossing.t, p: crossing.p, normal: crossing.normal, material: self.material }
    }

    /// The hit of the probed ray on this sphere within `(t_min, t_max)`.
    pub open spec fn outcome(self, probe: Probe, t_min: Scalar, t_max: Scalar) -> Option<
        HitRecord,
    > {
        match probe.chosen(t_min, t_max) {
            Some(crossing) => Some(self.record(crossing)),
            None => None,
        }
    }

    /// Tests the probed ray against the sphere. A hit is reported only for a
    /// parameter strictly inside `(t_min, t_max)`, the smaller root before
    /// the larger; the record then carries the crossing and this sphere's
    /// material. Without a hit the record is left as it was.
    pub fn hit(&self, probe: &Probe, t_min: Scalar, t_max: Scalar, rec: &mut HitRecord) -> (found:
        bool)
        ensures
            found == self.outcome(*probe, t_min, t_max).is_some(),
            found ==> Some(*final(rec)) == self.outcome(*probe, t_min, t_max),
            !found ==> *final(rec) == *old(rec),
    {
        if probe.discriminant().gt(Scalar::zero()) {
            let near = probe.near();
            if near.t.within(t_min, t_max) {
                rec.t = near.t;
                rec.p = near.p;
                rec.normal = near.normal;
                rec.material = self.material;
                return true;
            }
            let far = probe.far();
            if far.t.within(t_min, t_max) {
                rec.t = far.t;
                rec.p = far.p;
                rec.normal = far.normal;
                rec.material = self.material;
                return true;
            }
        }
        false
    }
}

/// A member of a scene.
#[derive(Clone, Copy, Debug, PartialEq, Eq, Structural)]
pub enum Hittable {
    Sphere(Sphere),
}

impl Hittable {
    /// The hit of the probed ray on this member within `(t_min, t_max)`.
    pub open spec fn outcome(self, probe: Probe, t_min: Scalar, t_max: Scalar) -> Option<
        HitRecord,
    > {
        match self {
            Hittable::Sphere(sphere) => sphere.outcome(probe, t_min, t_max),
        }
    }

    /// The material of this member.
    pub open spec fn spec_material(&self) -> Material {
        match *self {
            Hittable::Sphere(sphere) => sphere.material,
        }
    }

    /// The material of this member.
    #[verifier::when_used_as_spec(spec_material)]
    pub fn material(&self) -> (m: Material)
        ensures
            m == self.spec_material(),
    {
        match self {
            Hittable::Sphere(sphere) => sphere.material,
        }
    }

    /// Tests the probed ray against this member; see `Sphere::hit`.
    pub fn hit(&self, probe: &Probe, t_min: Scalar, t_max: Scalar, rec: &mut HitRecord) -> (found:
        bool)
        ensures
            found == self.outcome(*probe, t_min, t_max).is_some(),
            found ==> Some(*final(rec)) == self.outcome(*probe, t_min, t_max),
            !found ==> *final(rec) == *old(rec),
    {
        match self {
            Hittable::Sphere(sphere) => sphere.hit(probe, t_min, t_max, rec),
        }
    }
}

/// The hit of member `i` of a scene within `(t_min, t_max)`, where
/// `probes[i]` is what the ray does to that member.
pub open spec fn member_hit(
    v: Seq<Hittable>,
    probes: Seq<Probe>,
    t_min: Scalar,
    t_max: Scalar,
    i: int,
) -> Option<HitRecord> {
    v[i].outcome(probes[i], t_min, t_max)
}

/// Whether member `k` is the nearest hit of the scene: it is hit, no member
/// is hit at a smaller parameter, and every member before it is hit, if at
/// all, at a strictly larger one.
pub open spec fn nearest_at(
    v: Seq<Hittable>,
    probes: Seq<Probe>,
    t_min: Scalar,
    t_max: Scalar,
    k: int,
) -> bool {
    &&& 0 <= k < v.len()
    &&& member_hit(v, probes, t_min, t_max, k) is Some
    &&& forall|i: int|
        0 <= i < v.len() && (#[trigger] member_hit(v, probes, t_min, t_max, i)) is Some
            ==> !member_hit(v, probes, t_min, t_max, i)->0.t.less(
            member_hit(v, probes, t_min, t_max, k)->0.t,
        )
    &&& forall|i: int|
        0 <= i < k && (#[trigger] member_hit(v, probes, t_min, t_max, i)) is Some
            ==> member_hit(v, probes, t_min, t_max, k)->0.t.less(
            member_hit(v, probes, t_min, t_max, i)->0.t,
        )
}

/// A reported hit lies strictly inside the interval it was asked for, at
/// one of the two crossings of the probe, and carries the material of the
/// member that was hit.
pub proof fn lemma_hit_within(item: Hittable, probe: Probe, t_min: Scalar, t_max: Scalar)
    ensures
        item.outcome(probe, t_min, t_max) matches Some(h) ==> {
            &&& h.t.between(t_min, t_max)
            &&& h.material == item.spec_material()
            &&& (h.t == probe.spec_near().t && h.p == probe.spec_near().p && h.normal
                == probe.spec_near().normal) || (h.t == probe.spec_far().t && h.p
                == probe.spec_far().p && h.normal == probe.spec_far().normal)
        },
{
}

/// For a ray that meets the sphere at two real roots, the reported hit is
/// the smaller root wherever that root lies strictly inside the interval,
/// and the larger root only where the smaller one lies outside and the
/// larger one inside. Either way no root inside the interval is nearer than
/// the reported one.
pub proof fn lemma_hit_prefers_smaller_root(
    item: Hittable,
    probe: Probe,
    t_min: Scalar,
    t_max: Scalar,
)
    requires
        probe.ordered(),
        Scalar::of(0).less(probe.spec_discriminant()),
    ensures
        probe.spec_near().t.between(t_min, t_max) ==> item.outcome(probe, t_min, t_max) is Some
            && item.outcome(probe, t_min, t_max)->0.t == probe.spec_near().t,
        !probe.spec_near().t.between(t_min, t_max) && probe.spec_far().t.between(t_min, t_max)
            ==> item.outcome(probe, t_min, t_max) is Some && item.outcome(
            probe,
            t_min,
            t_max,
        )->0.t == probe.spec_far().t,
        !probe.spec_near().t.between(t_min, t_max) && !probe.spec_far().t.between(t_min, t_max)
            ==> item.outcome(probe, t_min, t_max) is None,
        item.outcome(probe, t_min, t_max) is Some && probe.spec_near().t.between(t_min, t_max)
            ==> item.outcome(probe, t_min, t_max)->0.t.at_most(probe.spec_near().t),
        item.outcome(probe, t_min, t_max) is Some && probe.spec_far().t.between(t_min, t_max)
            ==> item.outcome(probe, t_min, t_max)->0.t.at_most(probe.spec_far().t),
{
}

/// Lowering the upper end of the interval to a bound inside it keeps
/// exactly the hits that lie below the bound, unchanged.
pub proof fn lemma_narrowed_hit(
    item: Hittable,
    probe: Probe,
    t_min: Scalar,
    t_max: Scalar,
    bound: Scalar,
)
    requires
        probe.ordered(),
        bound == t_max || bound.between(t_min, t_max),
    ensures
        item.outcome(probe, t_min, bound) == (match item.outcome(probe, t_min, t_max) {
            Some(h) => if h.t.less(bound) {
                Some(h)
            } else {
                None
            },
            None => None,
        }),
{
}

/// At most one member is the nearest hit.
pub proof fn lemma_nearest_unique(
    v: Seq<Hittable>,
    probes: Seq<Probe>,
    t_min: Scalar,
    t_max: Scalar,
    k1: int,
    k2: int,
)
    requires
        nearest_at(v, probes, t_min, t_max, k1),
        nearest_at(v, probes, t_min, t_max, k2),
    ensures
        k1 == k2,
{
}

/// Whether every member of the first scene, with its probe, also occurs in
/// the second.
pub open spec fn contained_in(
    v: Seq<Hittable>,
    probes: Seq<Probe>,
    w: Seq<Hittable>,
    others: Seq<Probe>,
) -> bool {
    forall|i: int|
        0 <= i < v.len() ==> exists|j: int|
            0 <= j < w.len() && #[trigger] w[j] == #[trigger] v[i] && others[j] == probes[i]
}

/// The order of a scene does not change how near its nearest hit is: two
/// scenes with the same members are hit at the same parameter, whichever
/// way each of them is arranged.
pub proof fn lemma_nearest_order_free(
    v: Seq<Hittable>,
    probes: Seq<Probe>,
    w: Seq<Hittable>,
    others: Seq<Probe>,
    t_min: Scalar,
    t_max: Scalar,
    k: int,
    l: int,
)
    requires
        contained_in(v, probes, w, others),
        contained_in(w, others, v, probes),
        nearest_at(v, probes, t_min, t_max, k),
        nearest_at(w, others, t_min, t_max, l),
    ensures
        member_hit(v, probes, t_min, t_max, k)->0.t.rank() == member_hit(
            w,
            others,
            t_min,
            t_max,
            l,
        )->0.t.rank(),
{
    let j = choose|j: int| 0 <= j < w.len() && #[trigger] w[j] == v[k] && others[j] == probes[k];
    assert(member_hit(w, others, t_min, t_max, j) == member_hit(v, probes, t_min, t_max, k));
    let i = choose|i: int| 0 <= i < v.len() && #[trigger] v[i] == w[l] && probes[i] == others[l];
    assert(member_hit(v, probes, t_min, t_max, i) == member_hit(w, others, t_min, t_max, l));
    lemma_hit_within(v[k], probes[k], t_min, t_max);
    lemma_hit_within(w[l], others[l], t_min, t_max);
}

/// Finds the nearest hit of a probed ray in a scene, where `probes[i]` is
/// what the ray does to `v[i]`. The members are tried in order, each against
/// the interval that ends at the closest hit found so far. On success the
/// record is that of the nearest member, its material included; among
/// members hit at exactly the same parameter the first one wins. Without a
/// hit the record is left as it was.
pub fn hit_visitor(
    v: &Vec<Hittable>,
    probes: &Vec<Probe>,
    t_min: Scalar,
    t_max: Scalar,
    rec: &mut HitRecord,
) -> (found: bool)
    requires
        v.len() == probes.len(),
    ensures
        found <==> exists|i: int|
            0 <= i < v.len() && (#[trigger] member_hit(v@, probes@, t_min, t_max, i)) is Some,
        found ==> exists|k: int|
            nearest_at(v@, probes@, t_min, t_max, k) && #[trigger] member_hit(
                v@,
                probes@,
                t_min,
                t_max,
                k,
            ) == Some(*final(rec)) && final(rec).material == v@[k].spec_material(),
        found ==> final(rec).t.between(t_min, t_max),
        !found ==> *final(rec) == *old(rec),
{
    let mut temp_rec = HitRecord::new();
    let mut hit_anything = false;
    let mut closest_so_far = t_max;
    let ghost mut best: int = 0;
    let mut i: usize = 0;
    while i < v.len()
        invariant
            i <= v.len(),
            v.len() == probes.len(),
            closest_so_far == t_max || closest_so_far.between(t_min, t_max),
            !hit_anything ==> closest_so_far == t_max && *rec == *old(rec),
            !hit_anything ==> forall|j: int|
                0 <= j < i ==> (#[trigger] member_hit(v@, probes@, t_min, t_max, j)) is None,
            hit_anything ==> 0 <= best < i && closest_so_far == rec.t && member_hit(
                v@,
                probes@,
                t_min,
                t_max,
                best,
            ) == Some(*rec),
            hit_anything ==> forall|j: int|
                0 <= j < i && (#[trigger] member_hit(v@, probes@, t_min, t_max, j)) is Some
                    ==> !member_hit(v@, probes@, t_min, t_max, j)->0.t.less(rec.t),
            hit_anything ==> forall|j: int|
                0 <= j < best && (#[trigger] member_hit(v@, probes@, t_min, t_max, j)) is Some
                    ==> rec.t.less(member_hit(v@, probes@, t_min, t_max, j)->0.t),
        decreases v.len() - i,
    {
        let item = &v[i];
        let probe = &probes[i];
        proof {
            use_type_invariant(probe);
            lemma_narrowed_hit(*item, *probe, t_min, t_max, closest_so_far);
        }
        if item.hit(probe, t_min, closest_so_far, &mut temp_rec) {
            proof {
                best = i as int;
            }
            hit_anything = true;
            closest_so_far = temp_rec.t;
            *rec = temp_rec;
        }
        i += 1;
    }
    hit_anything
}

} // verus!
