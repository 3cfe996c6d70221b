//! The instance grid: a square arrangement of per-object placements.
//!
//! Placements sit on a grid of `n` rows by `n` columns, spaced three world
//! units apart and centered by displacing every coordinate by half the grid
//! width. Grid coordinates of the form `3 * (index - n/2)` fall on half
//! units when `n` is odd, so this model stores every coordinate doubled and
//! keeps the layout exactly integral for every grid size. The placement
//! sitting at the world origin carries the identity rotation; every other
//! placement carries a 45-degree rotation about its own normalized position
//! vector, which the caller bakes into a transform matrix.

use vstd::prelude::*;
use vstd::arithmetic::div_mod::lemma_fundamental_div_mod_converse;

verus! {

/// How many placements a grid row holds by default.
pub const INSTANCES_PER_ROW: u32 = 10;

/// The rotation a placement carries.
#[derive(Clone, Copy, Debug, PartialEq, Eq, Structural)]
pub enum RotationKind {
    /// No rotation; taken exactly by the placement at the world origin,
    /// whose position vector cannot be normalized.
    Identity,
    /// A 45-degree rotation about the placement's own normalized position
    /// vector.
    AboutPosition,
}

/// One placement of the instance grid.
///
/// `x2`, `y2` and `z2` are twice the world-space coordinates, which keeps
/// them integral for every grid size; `y2` is always zero since the grid
/// lies in the ground plane.
#[derive(Clone, Copy, Debug, PartialEq, Eq, Structural)]
pub struct Instance {
    pub x2: i64,
    pub y2: i64,
    pub z2: i64,
    pub rotation: RotationKind,
}

/// The placement at row `row`, column `col` of an `n` by `n` grid: doubled
/// world coordinates `3 * (2*index - n)`, and the identity rotation exactly
/// at the world origin.
pub open spec fn grid_instance(n: int, row: int, col: int) -> Instance {
    Instance {
        x2: (3 * (2 * col - n)) as i64,
        y2: 0,
        z2: (3 * (2 * row - n)) as i64,
        rotation: if 2 * col == n && 2 * row == n {
            RotationKind::Identity
        } else {
            RotationKind::AboutPosition
        },
    }
}

/// Build the `n` by `n` instance grid in row-major order.
pub fn make_grid(n: u32) -> (v: Vec<Instance>)
    ensures
        v@.len() == n * n,
        forall|i: int|
            0 <= i < v@.len() ==> v@[i] == grid_instance(n as int, i / (n as int), i % (n as int)),
{
    let mut v: Vec<Instance> = Vec::new();
    let mut row: u32 = 0;
    while row < n
        invariant
            row <= n,
            v@.len() == row * n,
            forall|i: int|
                0 <= i < v@.len() ==> v@[i] == grid_instance(
                    n as int,
                    i / (n as int),
                    i % (n as int),
                ),
        decreases n - row,
    {
        let mut col: u32 = 0;
        while col < n
            invariant
                row < n,
                col <= n,
                v@.len() == row * n + col,
                forall|i: int|
                    0 <= i < v@.len() ==> v@[i] == grid_instance(
                        n as int,
                        i / (n as int),
                        i % (n as int),
                    ),
            decreases n - col,
        {
            let x2: i64 = 3 * (2 * (col as i64) - (n as i64));
            let z2: i64 = 3 * (2 * (row as i64) - (n as i64));
            let rotation = if x2 == 0 && z2 == 0 {
                RotationKind::Identity
            } else {
                RotationKind::AboutPosition
            };
            v.push(Instance { x2, y2: 0, z2, rotation });
            proof {
                lemma_fundamental_div_mod_converse(
                    row * n + col,
                    n as int,
                    row as int,
                    col as int,
                );
            }
            col = col + 1;
        }
        row = row + 1;
        proof {
            assert(v@.len() == (row - 1) * n + n == row * n) by (nonlinear_arith)
                requires
                    v@.len() == (row - 1) * n + n,
                    row >= 1,
            ;
        }
    }
    v
}

/// Grid generation is deterministic: any two sequences of the grid's shape
/// for the same size are equal, element for element.
pub proof fn lemma_grid_deterministic(a: Seq<Instance>, b: Seq<Instance>, n: int)
    requires
        a.len() == n * n,
        b.len() == n * n,
        forall|i: int| 0 <= i < a.len() ==> #[trigger] a[i] == grid_instance(n, i / n, i % n),
        forall|i: int| 0 <= i < b.len() ==> #[trigger] b[i] == grid_instance(n, i / n, i % n),
    ensures
        a == b,
{
    assert(a =~= b);
}

/// The placement at the exact grid center sits at the world origin and is
/// the one and only placement with the identity rotation; every other
/// placement sits away from the origin and is rotated about its own
/// position vector.
pub proof fn lemma_grid_rotations(n: int, row: int, col: int)
    requires
        0 <= row < n,
        0 <= col < n,
        n <= u32::MAX,
    ensures
        grid_instance(n, row, col).rotation == RotationKind::Identity <==> (2 * col == n && 2 * row
            == n),
        grid_instance(n, row, col).rotation == RotationKind::Identity <==> (grid_instance(
            n,
            row,
            col,
        ).x2 == 0 && grid_instance(n, row, col).y2 == 0 && grid_instance(n, row, col).z2 == 0),
{
}

} // verus!
