//! The layout of the demonstration scene: a ground sphere, a grid of small
//! spheres with randomly chosen materials, and three large spheres.
use vstd::prelude::*;
use crate::scalar::{Scalar, Vec3, ONE_BITS};
use crate::materials::{Material, Lambertian, Metal, Dielectric};
use crate::hittables::{Hittable, Sphere};

verus! {

/// The grid of small spheres spans the cells `-GRID_REACH .. GRID_REACH` in
/// both directions.
pub const GRID_REACH: i32 = 11;

/// The number of cells along one side of the grid.
pub const GRID_SIDE: usize = 22;

/// The number of cells of the grid.
pub const GRID_CELLS: usize = 484;

/// The bit pattern of 0.9: below it a material draw gives a diffuse sphere,
/// and a small sphere must stay farther than this from the point (4, 0.2, 0).
pub const DIFFUSE_BELOW: u32 = 0x3f66_6666;

/// The bit pattern of 0.95: below it, and not below 0.9, a material draw
/// gives a metal sphere.
pub const METAL_BELOW: u32 = 0x3f73_3333;

/// The bit pattern of 0.2, the radius of a small sphere and the height of
/// its centre.
pub const SMALL_RADIUS: u32 = 0x3e4c_cccd;

/// The bit pattern of 1.5, the refractive index of every glass sphere.
pub const GLASS_INDEX: u32 = 0x3fc0_0000;

/// The material kind of a small sphere.
#[derive(Clone, Copy, Debug, PartialEq, Eq, Structural)]
pub enum Choice {
    Diffuse,
    Metal,
    Glass,
}

/// The `k`-th cell of the grid, row by row.
pub open spec fn grid_cell(k: int) -> (int, int) {
    (k / 22 - 11, k % 22 - 11)
}

/// The cells of the grid in the order in which they are filled: the first
/// coordinate runs from -11 to 10, and for each of its values the second
/// one does.
pub fn grid() -> (cells: Vec<(i32, i32)>)
    ensures
        cells@.len() == GRID_CELLS,
        forall|k: int|
            0 <= k < GRID_CELLS ==> (#[trigger] cells@[k]).0 == grid_cell(k).0 && cells@[k].1
                == grid_cell(k).1,
{
    let mut cells: Vec<(i32, i32)> = Vec::new();
    let mut a: i32 = -GRID_REACH;
    while a < GRID_REACH
        invariant
            -GRID_REACH <= a <= GRID_REACH,
            cells@.len() == (a + 11) * 22,
            forall|k: int|
                0 <= k < cells@.len() ==> (#[trigger] cells@[k]).0 == grid_cell(k).0 && cells@[k].1
                    == grid_cell(k).1,
        decreases GRID_REACH - a,
    {
        let mut b: i32 = -GRID_REACH;
        while b < GRID_REACH
            invariant
                -GRID_REACH <= a < GRID_REACH,
                -GRID_REACH <= b <= GRID_REACH,
                cells@.len() == (a + 11) * 22 + (b + 11),
                forall|k: int|
                    0 <= k < cells@.len() ==> (#[trigger] cells@[k]).0 == grid_cell(k).0
                        && cells@[k].1 == grid_cell(k).1,
            decreases GRID_REACH - b,
        {
            cells.push((a, b));
            b += 1;
        }
        a += 1;
    }
    cells
}

/// Whether a grid cell gets a small sphere, and of which kind. `clearance`
/// is the distance of the sphere's centre from the point (4, 0.2, 0): only
/// a centre farther than 0.9 from it is kept. A kept sphere is diffuse for
/// a material draw below 0.9, metal for one below 0.95, and glass for every
/// other draw.
pub open spec fn choice_of(choose_mat: Scalar, clearance: Scalar) -> Option<Choice> {
    if !Scalar::of(DIFFUSE_BELOW).less(clearance) {
        None
    } else if choose_mat.less(Scalar::of(DIFFUSE_BELOW)) {
        Some(Choice::Diffuse)
    } else if choose_mat.less(Scalar::of(METAL_BELOW)) {
        Some(Choice::Metal)
    } else {
        Some(Choice::Glass)
    }
}

/// Decides whether a grid cell gets a small sphere, and of which kind.
pub fn choose_material(choose_mat: Scalar, clearance: Scalar) -> (choice: Option<Choice>)
    ensures
        choice == choice_of(choose_mat, clearance),
{
    if clearance.gt(Scalar::from_bits(DIFFUSE_BELOW)) {
        if choose_mat.lt(Scalar::from_bits(DIFFUSE_BELOW)) {
            Some(Choice::Diffuse)
        } else if choose_mat.lt(Scalar::from_bits(METAL_BELOW)) {
            Some(Choice::Metal)
        } else {
            Some(Choice::Glass)
        }
    } else {
        None
    }
}

/// The sphere with the given centre, radius and material, all numbers as
/// bit patterns.
pub open spec fn ball(x: u32, y: u32, z: u32, radius: u32, material: Material) -> Hittable {
    Hittable::Sphere(Sphere { radius: Scalar::of(radius), centre: Vec3::of_bits(x, y, z), material })
}

/// The small sphere of radius 0.2 that rests on the ground at `(x, z)`.
pub open spec fn small_ball(x: Scalar, z: Scalar, material: Material) -> Hittable {
    Hittable::Sphere(
        Sphere {
            radius: Scalar::of(SMALL_RADIUS),
            centre: Vec3 { x, y: Scalar::of(SMALL_RADIUS), z },
            material,
        },
    )
}

/// The small sphere of radius 0.2 that rests on the ground at `(x, z)`.
pub fn small_sphere(x: Scalar, z: Scalar, material: Material) -> (s: Hittable)
    ensures
        s == small_ball(x, z, material),
{
    let r = Scalar::from_bits(SMALL_RADIUS);
    Hittable::Sphere(Sphere::new(Vec3::new(x, r, z), r, material))
}

/// The ground: a grey diffuse sphere of radius 1000 centred at
/// (0, -1000, 0).
pub open spec fn ground() -> Hittable {
    ball(
        0,
        0xc47a_0000,
        0,
        0x447a_0000,
        Material::Lambertian(Lambertian { albedo: Vec3::of_bits(0x3f00_0000, 0x3f00_0000, 0x3f00_0000) }),
    )
}

/// The three large spheres of radius 1 that stand at height 1: glass of
/// index 1.5 at x = 0, a brown diffuse one at x = -2, and a polished metal
/// one at x = 2.
pub open spec fn landmarks() -> Seq<Hittable> {
    seq![
        ball(0, ONE_BITS, 0, ONE_BITS, Material::Dielectric(Dielectric { ref_idx: Scalar::of(GLASS_INDEX) })),
        ball(
            0xc000_0000,
            ONE_BITS,
            0,
            ONE_BITS,
            Material::Lambertian(
                Lambertian { albedo: Vec3::of_bits(0x3ecc_cccd, 0x3e4c_cccd, 0x3dcc_cccd) },
            ),
        ),
        ball(
            0x4000_0000,
            ONE_BITS,
            0,
            ONE_BITS,
            Material::Metal(
                Metal::made(
                    Scalar::of(0x3f33_3333),
                    Scalar::of(0x3f19_999a),
                    Scalar::of(0x3f00_0000),
                    Scalar::of(0),
                ),
            ),
        ),
    ]
}

/// What was drawn and measured for one cell of the grid.
#[derive(Clone, Copy, Debug, PartialEq, Eq, Structural)]
pub struct Cell {
    /// The uniform draw that picks the material kind.
    pub choose_mat: Scalar,
    /// The first coordinate of the sphere's centre.
    pub x: Scalar,
    /// The third coordinate of the sphere's centre.
    pub z: Scalar,
    /// The distance of the centre from the point (4, 0.2, 0).
    pub clearance: Scalar,
    /// The albedo drawn for a diffuse or metal sphere.
    pub tint: Vec3,
    /// The fuzziness drawn for a metal sphere.
    pub fuzz: Scalar,
}

/// The small sphere that a cell contributes to the scene, if any.
pub open spec fn placed(cell: Cell) -> Option<Hittable> {
    match choice_of(cell.choose_mat, cell.clearance) {
        None => None,
        Some(Choice::Diffuse) => Some(
            small_ball(cell.x, cell.z, Material::Lambertian(Lambertian { albedo: cell.tint })),
        ),
        Some(Choice::Metal) => Some(
            small_ball(
                cell.x,
                cell.z,
                Material::Metal(Metal::made(cell.tint.x, cell.tint.y, cell.tint.z, cell.fuzz)),
            ),
        ),
        Some(Choice::Glass) => Some(
            small_ball(
                cell.x,
                cell.z,
                Material::Dielectric(Dielectric { ref_idx: Scalar::of(GLASS_INDEX) }),
            ),
        ),
    }
}

/// Builds the small sphere that a cell contributes to the scene, if any.
pub fn place(cell: &Cell) -> (sphere: Option<Hittable>)
    ensures
        sphere == placed(*cell),
{
    match choose_material(cell.choose_mat, cell.clearance) {
        None => None,
        Some(Choice::Diffuse) => Some(
            small_sphere(
                cell.x,
                cell.z,
                Material::Lambertian(Lambertian::new(cell.tint.x, cell.tint.y, cell.tint.z)),
            ),
        ),
        Some(Choice::Metal) => Some(
            small_sphere(
                cell.x,
                cell.z,
                Material::Metal(Metal::new(cell.tint.x, cell.tint.y, cell.tint.z, cell.fuzz)),
            ),
        ),
        Some(Choice::Glass) => Some(
            small_sphere(
                cell.x,
                cell.z,
                Material::Dielectric(Dielectric::new(Scalar::from_bits(GLASS_INDEX))),
            ),
        ),
    }
}

/// The small spheres that a run of cells contributes, in the order of the
/// cells.
pub open spec fn placed_all(cells: Seq<Cell>) -> Seq<Hittable>
    decreases cells.len(),
{
    if cells.len() == 0 {
        Seq::empty()
    } else {
        let before = placed_all(cells.drop_last());
        match placed(cells.last()) {
            Some(sphere) => before.push(sphere),
            None => before,
        }
    }
}

/// Assembles the scene: the ground first, then the small spheres of the
/// cells that keep one, in the order of the cells, then the three large
/// spheres.
pub fn random_scene(cells: &Vec<Cell>) -> (list: Vec<Hittable>)
    ensures
        list@ == seq![ground()] + placed_all(cells@) + landmarks(),
{
    let mut list: Vec<Hittable> = Vec::new();
    let half = Scalar::from_bits(0x3f00_0000);
    let one = Scalar::one();
    let zero = Scalar::zero();
    list.push(
        Hittable::Sphere(
            Sphere::new(
                Vec3::from_bits(0, 0xc47a_0000, 0),
                Scalar::from_bits(0x447a_0000),
                Material::Lambertian(Lambertian::new(half, half, half)),
            ),
        ),
    );
    let mut i: usize = 0;
    while i < cells.len()
        invariant
            i <= cells.len(),
            list@ == seq![ground()] + placed_all(cells@.subrange(0, i as int)),
        decreases cells.len() - i,
    {
        proof {
            assert(cells@.subrange(0, i + 1).drop_last() == cells@.subrange(0, i as int));
        }
        match place(&cells[i]) {
            Some(sphere) => {
                list.push(sphere);
            },
            None => {},
        }
        i += 1;
    }
    assert(cells@.subrange(0, i as int) == cells@);
    list.push(
        Hittable::Sphere(
            Sphere::new(
                Vec3::from_bits(0, ONE_BITS, 0),
                one,
                Material::Dielectric(Dielectric::new(Scalar::from_bits(GLASS_INDEX))),
            ),
        ),
    );
    list.push(
        Hittable::Sphere(
            Sphere::new(
                Vec3::from_bits(0xc000_0000, ONE_BITS, 0),
                one,
                Material::Lambertian(
                    Lambertian::new(
                        Scalar::from_bits(0x3ecc_cccd),
                        Scalar::from_bits(0x3e4c_cccd),
                        Scalar::from_bits(0x3dcc_cccd),
                    ),
                ),
            ),
        ),
    );
    list.push(
        Hittable::Sphere(
            Sphere::new(
                Vec3::from_bits(0x4000_0000, ONE_BITS, 0),
                one,
                Material::Metal(
                    Metal::new(
                        Scalar::from_bits(0x3f33_3333),
                        Scalar::from_bits(0x3f19_999a),
                        half,
                        zero,
                    ),
                ),
            ),
        ),
    );
    list
}

} // verus!
