//! The starting scene: a ground slab, a stack of cube layers and the player's
//! capsule. Lengths are whole hundredths of a world unit.
use vstd::prelude::*;

verus! {

/// Number of cube layers in the stack.
pub const CUBE_LAYERS: usize = 20;
/// Cubes along each side of a layer.
pub const CUBES_PER_ROW: usize = 8;
/// Half the side of a cube.
pub const CUBE_HALF_EXTENT: i64 = 100;
/// Distance between the centres of neighbouring cubes.
pub const CUBE_SPACING: i64 = 3 * CUBE_HALF_EXTENT;
/// How far the centre of a row lies from its first cube, before the layer
/// offset is applied.
pub const ROW_CENTRE: i64 = 4 * CUBE_SPACING;
/// Height of the lowest layer's centres: half the spacing, lifted by three
/// world units.
pub const BASE_HEIGHT: i64 = 150 + 300;
/// The horizontal offset of the lowest layer.
pub const FIRST_OFFSET: i64 = -4 * CUBE_SPACING;
/// Each layer is shifted by this much further than the one below it: a
/// twentieth of the half extent for each of the seven gaps of a row.
pub const LAYER_SHIFT: i64 = 5 * 7;

/// Half the side of the ground slab, along `x` and `z`.
pub const GROUND_HALF_SIZE: i64 = 20010;
/// Half the thickness of the ground slab.
pub const GROUND_HALF_HEIGHT: i64 = 10;

/// A point, or a vector, in hundredths of a world unit.
#[derive(Clone, Copy, Debug, PartialEq, Eq, Structural)]
pub struct Point {
    pub x: i64,
    pub y: i64,
    pub z: i64,
}

/// A capsule: the segment from `a` to `b`, thickened by `radius`.
#[derive(Clone, Copy, Debug, PartialEq, Eq, Structural)]
pub struct Capsule {
    pub a: Point,
    pub b: Point,
    pub radius: i64,
}

/// Where each body of the starting scene stands, and its shape.
pub struct SceneLayout {
    /// The centre of the fixed ground slab.
    pub ground_center: Point,
    /// The half extents of the ground slab.
    pub ground_half_extents: Point,
    /// Half the side of every cube.
    pub cube_half_extent: i64,
    /// The centres of the dynamic cubes, layer by layer from the bottom, and
    /// within a layer row by row along `x`, each row along `z`.
    pub cubes: Vec<Point>,
    /// The position of the player.
    pub player_position: Point,
    /// The player's collider, relative to its position.
    pub player_capsule: Capsule,
}

/// The centre of the cube in layer `j`, row `i` and column `k`.
pub open spec fn cube_center(j: int, i: int, k: int) -> Point {
    let offset = FIRST_OFFSET - LAYER_SHIFT * j;
    Point {
        x: (CUBE_SPACING * i - ROW_CENTRE + offset) as i64,
        y: (CUBE_SPACING * j + BASE_HEIGHT) as i64,
        z: (CUBE_SPACING * k - ROW_CENTRE + offset) as i64,
    }
}

/// The position in the list of cubes of the cube in layer `j`, row `i` and
/// column `k`.
pub open spec fn cube_index(j: int, i: int, k: int) -> int {
    64 * j + 8 * i + k
}

/// The centre of the `n`-th cube of the list.
pub open spec fn cube_at(n: int) -> Point {
    cube_center(n / 64, (n % 64) / 8, n % 8)
}

/// The ground's centre: its top face lies at height zero.
pub open spec fn ground_center() -> Point {
    Point { x: 0, y: (0 - GROUND_HALF_HEIGHT) as i64, z: 0 }
}

/// The player's starting position.
pub open spec fn player_start() -> Point {
    Point { x: -3000i64, y: 3000, z: 5000 }
}

/// The player's capsule: upright, from 50 to 150 above its position, of
/// radius 50.
pub open spec fn player_shape() -> Capsule {
    Capsule { a: Point { x: 0, y: 50, z: 0 }, b: Point { x: 0, y: 150, z: 0 }, radius: 50 }
}

proof fn lemma_cube_index(j: int, i: int, k: int)
    requires
        0 <= j,
        0 <= i < 8,
        0 <= k < 8,
    ensures
        cube_at(cube_index(j, i, k)) == cube_center(j, i, k),
{
    let n = cube_index(j, i, k);
    assert(n / 64 == j && n % 64 == 8 * i + k) by (nonlinear_arith)
        requires n == 64 * j + 8 * i + k, 0 <= j, 0 <= i < 8, 0 <= k < 8;
    assert((8 * i + k) / 8 == i && (8 * i + k) % 8 == k) by (nonlinear_arith)
        requires 0 <= i < 8, 0 <= k < 8;
    assert(n % 8 == k) by (nonlinear_arith)
        requires n == 64 * j + 8 * i + k, 0 <= j, 0 <= i < 8, 0 <= k < 8;
}

/// Plans the starting scene: the ground slab, twenty layers of eight by eight
/// cubes, each layer shifted a little further than the one below, and the
/// player.
pub fn setup_physics() -> (r: SceneLayout)
    ensures
        r.ground_center == ground_center(),
        r.ground_half_extents == (Point { x: GROUND_HALF_SIZE, y: GROUND_HALF_HEIGHT, z: GROUND_HALF_SIZE }),
        r.cube_half_extent == CUBE_HALF_EXTENT,
        r.cubes@.len() == CUBE_LAYERS * CUBES_PER_ROW * CUBES_PER_ROW,
        forall|n: int| 0 <= n < r.cubes@.len() ==> #[trigger] r.cubes@[n] == cube_at(n),
        r.player_position == player_start(),
        r.player_capsule == player_shape(),
{
    assert(CUBE_SPACING == 300 && ROW_CENTRE == 1200 && FIRST_OFFSET == -1200 && LAYER_SHIFT == 35);
    let mut cubes: Vec<Point> = Vec::new();
    let mut offset: i64 = FIRST_OFFSET;
    let mut j: usize = 0;
    while j < CUBE_LAYERS
        invariant
            j <= CUBE_LAYERS,
            cubes@.len() == 64 * j,
            offset == FIRST_OFFSET - LAYER_SHIFT * j,
            CUBE_SPACING == 300 && ROW_CENTRE == 1200 && FIRST_OFFSET == -1200 && LAYER_SHIFT == 35,
            forall|n: int| 0 <= n < cubes@.len() ==> #[trigger] cubes@[n] == cube_at(n),
        decreases CUBE_LAYERS - j,
    {
        let mut i: usize = 0;
        while i < CUBES_PER_ROW
            invariant
                j < CUBE_LAYERS,
                i <= CUBES_PER_ROW,
                cubes@.len() == 64 * j + 8 * i,
                offset == FIRST_OFFSET - LAYER_SHIFT * j,
                CUBE_SPACING == 300 && ROW_CENTRE == 1200 && FIRST_OFFSET == -1200 && LAYER_SHIFT == 35,
            CUBE_SPACING == 300 && ROW_CENTRE == 1200 && FIRST_OFFSET == -1200 && LAYER_SHIFT == 35,
                forall|n: int| 0 <= n < cubes@.len() ==> #[trigger] cubes@[n] == cube_at(n),
            decreases CUBES_PER_ROW - i,
        {
            let mut k: usize = 0;
            while k < CUBES_PER_ROW
                invariant
                    j < CUBE_LAYERS,
                    i < CUBES_PER_ROW,
                    k <= CUBES_PER_ROW,
                    cubes@.len() == 64 * j + 8 * i + k,
                    offset == FIRST_OFFSET - LAYER_SHIFT * j,
                    CUBE_SPACING == 300 && ROW_CENTRE == 1200 && FIRST_OFFSET == -1200 && LAYER_SHIFT == 35,
                CUBE_SPACING == 300 && ROW_CENTRE == 1200 && FIRST_OFFSET == -1200 && LAYER_SHIFT == 35,
            CUBE_SPACING == 300 && ROW_CENTRE == 1200 && FIRST_OFFSET == -1200 && LAYER_SHIFT == 35,
                    forall|n: int| 0 <= n < cubes@.len() ==> #[trigger] cubes@[n] == cube_at(n),
                decreases CUBES_PER_ROW - k,
            {
                let x: i64 = (i as i64) * CUBE_SPACING - ROW_CENTRE + offset;
                let y: i64 = (j as i64) * CUBE_SPACING + BASE_HEIGHT;
                let z: i64 = (k as i64) * CUBE_SPACING - ROW_CENTRE + offset;
                proof {
                    lemma_cube_index(j as int, i as int, k as int);
                }
                cubes.push(Point { x, y, z });
                k = k + 1;
            }
            i = i + 1;
        }
        offset = offset - LAYER_SHIFT;
        j = j + 1;
    }
    SceneLayout {
        ground_center: Point { x: 0, y: -GROUND_HALF_HEIGHT, z: 0 },
        ground_half_extents: Point { x: GROUND_HALF_SIZE, y: GROUND_HALF_HEIGHT, z: GROUND_HALF_SIZE },
        cube_half_extent: CUBE_HALF_EXTENT,
        cubes,
        player_position: Point { x: -3000, y: 3000, z: 5000 },
        player_capsule: Capsule {
            a: Point { x: 0, y: 50, z: 0 },
            b: Point { x: 0, y: 150, z: 0 },
            radius: 50,
        },
    }
}

} // verus!
