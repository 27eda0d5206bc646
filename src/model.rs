use vstd::prelude::*;
use crate::units::{ONE, within3};
use crate::rotation::Vector3;

verus! {

/// Largest coordinate, in raw units, of a model vertex.
pub const MODEL_LIMIT: i64 = 40_000_000_000_000;

/// The corners of the cube `[-1, 1]^3`: the front face (`z = -1`) counter-
/// clockwise from bottom left, then the back face in the same order.
pub open spec fn corner(i: int) -> (int, int, int) {
    seq![
        (-1int, -1int, -1int),
        (1, -1, -1),
        (1, 1, -1),
        (-1, 1, -1),
        (-1, -1, 1),
        (1, -1, 1),
        (1, 1, 1),
        (-1, 1, 1),
    ][i]
}

/// The twelve edges as pairs of corner indices: the front face, the back
/// face, then the edges that join them.
pub open spec fn cube_edge_list() -> Seq<(usize, usize)> {
    seq![
        (0usize, 1usize),
        (1, 2),
        (2, 3),
        (3, 0),
        (4, 5),
        (5, 6),
        (6, 7),
        (7, 4),
        (0, 4),
        (1, 5),
        (2, 6),
        (3, 7),
    ]
}

/// Number of coordinates in which two corners differ.
pub open spec fn differing(a: (int, int, int), b: (int, int, int)) -> int {
    (if a.0 != b.0 { 1int } else { 0 }) + (if a.1 != b.1 { 1int } else { 0 }) + (if a.2 != b.2 {
        1int
    } else {
        0
    })
}

/// Two index pairs name the same edge, in either direction.
pub open spec fn same_edge(e: (usize, usize), f: (usize, usize)) -> bool {
    (e.0 == f.0 && e.1 == f.1) || (e.0 == f.1 && e.1 == f.0)
}

/// Each listed edge joins two corners that differ in exactly one coordinate,
/// and no edge is listed twice. A cube has exactly twelve such pairs, so the
/// list holds every edge of the cube once.
pub proof fn lemma_edges_are_the_cube_edges()
    ensures
        cube_edge_list().len() == 12,
        forall|i: int|
            #![trigger cube_edge_list()[i]]
            0 <= i < 12 ==> {
                let e = cube_edge_list()[i];
                e.0 < 8 && e.1 < 8 && differing(corner(e.0 as int), corner(e.1 as int)) == 1
            },
        forall|i: int, j: int|
            0 <= i < j < 12 ==> !same_edge(
                #[trigger] cube_edge_list()[i],
                #[trigger] cube_edge_list()[j],
            ),
{
}

/// The solid: eight vertices in the order of `corner`.
#[derive(Clone, Copy, Debug)]
pub struct Cube {
    pub vertices: [Vector3; 8],
}

impl Cube {
    /// Every vertex lies within `MODEL_LIMIT`.
    pub open spec fn wf(self) -> bool {
        forall|i: int| 0 <= i < 8 ==> within3(#[trigger] self.vertices[i]@, MODEL_LIMIT as int)
    }

    /// The vertices are the corners of `[-1, 1]^3` in raw units.
    pub open spec fn is_unit(self) -> bool {
        forall|i: int|
            0 <= i < 8 ==> #[trigger] self.vertices[i]@ == {
                let c = corner(i);
                (c.0 * ONE, c.1 * ONE, c.2 * ONE)
            }
    }

    /// The cube with corners at `(+-1, +-1, +-1)`, centered on the origin.
    pub fn default() -> (r: Cube)
        ensures
            r.is_unit(),
            r.wf(),
    {
        let n = -ONE;
        let p = ONE;
        let r = Cube {
            vertices: [
                Vector3 { x: n, y: n, z: n },
                Vector3 { x: p, y: n, z: n },
                Vector3 { x: p, y: p, z: n },
                Vector3 { x: n, y: p, z: n },
                Vector3 { x: n, y: n, z: p },
                Vector3 { x: p, y: n, z: p },
                Vector3 { x: p, y: p, z: p },
                Vector3 { x: n, y: p, z: p },
            ],
        };
        assert(r.is_unit());
        r
    }
}

/// The twelve edges of the cube as pairs of vertex indices.
pub fn cube_edges() -> (r: [(usize, usize); 12])
    ensures
        r@ == cube_edge_list(),
{
    let r: [(usize, usize); 12] = [
        (0, 1),
        (1, 2),
        (2, 3),
        (3, 0),
        (4, 5),
        (5, 6),
        (6, 7),
        (7, 4),
        (0, 4),
        (1, 5),
        (2, 6),
        (3, 7),
    ];
    assert(r@ =~= cube_edge_list());
    r
}

} // verus!
