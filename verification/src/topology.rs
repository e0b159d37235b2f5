//! The facelets that meet at each corner piece and at each edge piece.
//!
//! Both tables are fixed facts about the layout of the six grids on the
//! cube. A row of a table is a descriptor: the coordinates of the facelets
//! that belong to one physical piece, in the order in which the piece is
//! reported.

use vstd::prelude::*;
use crate::cube::{in_grid, Coordinate};
use crate::face::Face;

verus! {

/// The three facelets of each of the eight corner pieces.
pub const CORNERS: [[Coordinate; 3]; 8] = [
    [(Face::U, 2, 0), (Face::L, 0, 2), (Face::F, 0, 0)],
    [(Face::U, 2, 2), (Face::F, 0, 2), (Face::R, 0, 0)],
    [(Face::U, 0, 2), (Face::R, 0, 2), (Face::B, 0, 0)],
    [(Face::U, 0, 0), (Face::B, 0, 2), (Face::L, 0, 0)],
    [(Face::D, 0, 0), (Face::L, 2, 2), (Face::F, 2, 0)],
    [(Face::D, 0, 2), (Face::F, 2, 2), (Face::R, 2, 0)],
    [(Face::D, 2, 2), (Face::R, 2, 2), (Face::B, 2, 0)],
    [(Face::D, 2, 0), (Face::B, 2, 2), (Face::L, 2, 0)],
];

/// The two facelets of each of the twelve edge pieces.
///
/// The rows for the back-right and the back-left edge name the same back
/// facelet, `(B, 1, 0)`, and no row names `(B, 1, 2)`. The table is kept
/// that way: the back-left edge is reported from the facelet that it
/// shares with the back-right edge. [`lemma_edge_table`] states the
/// repetition.
pub const EDGES: [[Coordinate; 2]; 12] = [
    [(Face::F, 0, 1), (Face::U, 2, 1)],
    [(Face::F, 1, 2), (Face::R, 1, 0)],
    [(Face::F, 2, 1), (Face::D, 0, 1)],
    [(Face::F, 1, 0), (Face::L, 1, 2)],
    [(Face::B, 0, 1), (Face::U, 0, 1)],
    [(Face::B, 1, 0), (Face::R, 1, 2)],
    [(Face::B, 2, 1), (Face::D, 2, 1)],
    [(Face::B, 1, 0), (Face::L, 1, 0)],
    [(Face::U, 1, 2), (Face::R, 0, 1)],
    [(Face::U, 1, 0), (Face::L, 0, 1)],
    [(Face::D, 1, 2), (Face::R, 2, 1)],
    [(Face::D, 1, 0), (Face::L, 2, 1)],
];

/// Whether a descriptor names a facelet of `face`.
pub open spec fn touches(d: Seq<Coordinate>, face: Face) -> bool {
    exists|k: int| 0 <= k < d.len() && (#[trigger] d[k]).0 == face
}

/// Whether a coordinate is one of the four corner cells of its grid.
pub open spec fn is_corner_cell(pt: Coordinate) -> bool {
    (pt.1 == 0 || pt.1 == 2) && (pt.2 == 0 || pt.2 == 2)
}

/// Whether a coordinate is one of the four cells in the middle of a side of
/// its grid.
pub open spec fn is_edge_cell(pt: Coordinate) -> bool {
    (pt.1 == 1 && (pt.2 == 0 || pt.2 == 2)) || (pt.2 == 1 && (pt.1 == 0 || pt.1 == 2))
}

/// Whether three faces meet at a corner of the cube: each is adjacent to
/// the other two.
pub open spec fn meet_at_corner(a: Face, b: Face, c: Face) -> bool {
    a.adjacent(b) && a.adjacent(c) && b.adjacent(c)
}

/// Whether row `i` of [`CORNERS`] names a facelet of each of three faces.
pub open spec fn corner_row_touches(i: int, a: Face, b: Face, c: Face) -> bool {
    touches(CORNERS[i]@, a) && touches(CORNERS[i]@, b) && touches(CORNERS[i]@, c)
}

/// Whether row `i` of [`EDGES`] names a facelet of each of two faces.
pub open spec fn edge_row_touches(i: int, a: Face, b: Face) -> bool {
    touches(EDGES[i]@, a) && touches(EDGES[i]@, b)
}

/// The row of [`CORNERS`] for the corner at which three faces meet.
spec fn corner_row(a: Face, b: Face, c: Face) -> int {
    let layer: int = if a == Face::D || b == Face::D || c == Face::D {
        4
    } else {
        0
    };
    let back = a == Face::B || b == Face::B || c == Face::B;
    let right = a == Face::R || b == Face::R || c == Face::R;
    if back {
        if right {
            layer + 2
        } else {
            layer + 3
        }
    } else {
        if right {
            layer + 1
        } else {
            layer
        }
    }
}

/// The row of [`EDGES`] for the edge at which two faces meet.
spec fn edge_row(a: Face, b: Face) -> int {
    let up = a == Face::U || b == Face::U;
    let down = a == Face::D || b == Face::D;
    let right = a == Face::R || b == Face::R;
    let side: int = if up {
        0
    } else if right {
        1
    } else if down {
        2
    } else {
        3
    };
    if a == Face::F || b == Face::F {
        side
    } else if a == Face::B || b == Face::B {
        4 + side
    } else if up {
        if right {
            8
        } else {
            9
        }
    } else {
        if right {
            10
        } else {
            11
        }
    }
}

/// Row `i` of [`CORNERS`] touches just the faces of its three facelets.
proof fn lemma_corner_row_faces(i: int, face: Face)
    requires
        0 <= i < 8,
    ensures
        touches(CORNERS[i]@, face) <==> CORNERS[i][0].0 == face || CORNERS[i][1].0 == face
            || CORNERS[i][2].0 == face,
{
    let d = CORNERS[i]@;
    assert(d[0] == CORNERS[i][0] && d[1] == CORNERS[i][1] && d[2] == CORNERS[i][2]);
}

/// Row `i` of [`EDGES`] touches just the faces of its two facelets.
proof fn lemma_edge_row_faces(i: int, face: Face)
    requires
        0 <= i < 12,
    ensures
        touches(EDGES[i]@, face) <==> EDGES[i][0].0 == face || EDGES[i][1].0 == face,
{
    let d = EDGES[i]@;
    assert(d[0] == EDGES[i][0] && d[1] == EDGES[i][1]);
}

/// The corner table covers the eight corners of the cube, each once.
///
/// Every row names three corner cells, on three faces that meet at a
/// corner. For every three faces that meet at a corner, one row and no
/// other names a facelet of each. No facelet stands in the table twice.
pub proof fn lemma_corner_table()
    ensures
        forall|i: int, k: int|
            0 <= i < 8 && 0 <= k < 3 ==> is_corner_cell(#[trigger] CORNERS[i][k]) && in_grid(
                CORNERS[i][k],
            ),
        forall|i: int|
            0 <= i < 8 ==> meet_at_corner(
                (#[trigger] CORNERS[i])[0].0,
                CORNERS[i][1].0,
                CORNERS[i][2].0,
            ),
        forall|a: Face, b: Face, c: Face| #[trigger]
            meet_at_corner(a, b, c) ==> exists|i: int|
                0 <= i < 8 && #[trigger] corner_row_touches(i, a, b, c),
        forall|i: int, j: int, a: Face, b: Face, c: Face|
            0 <= i < 8 && 0 <= j < 8 && meet_at_corner(a, b, c) && #[trigger] corner_row_touches(
                i,
                a,
                b,
                c,
            ) && #[trigger] corner_row_touches(j, a, b, c) ==> i == j,
        forall|i: int, k: int, j: int, l: int|
            0 <= i < 8 && 0 <= k < 3 && 0 <= j < 8 && 0 <= l < 3 && #[trigger] CORNERS[i][k]
                == #[trigger] CORNERS[j][l] ==> i == j && k == l,
{
    assert forall|a: Face, b: Face, c: Face| #[trigger] meet_at_corner(a, b, c) implies exists|
        i: int,
    |
        0 <= i < 8 && #[trigger] corner_row_touches(i, a, b, c) by {
        let i = corner_row(a, b, c);
        lemma_corner_row_faces(i, a);
        lemma_corner_row_faces(i, b);
        lemma_corner_row_faces(i, c);
        assert(corner_row_touches(i, a, b, c));
    }
    assert forall|i: int, j: int, a: Face, b: Face, c: Face|
        0 <= i < 8 && 0 <= j < 8 && meet_at_corner(a, b, c) && #[trigger] corner_row_touches(
            i,
            a,
            b,
            c,
        ) && #[trigger] corner_row_touches(j, a, b, c) implies i == j by {
        lemma_corner_row_faces(i, a);
        lemma_corner_row_faces(i, b);
        lemma_corner_row_faces(i, c);
        lemma_corner_row_faces(j, a);
        lemma_corner_row_faces(j, b);
        lemma_corner_row_faces(j, c);
        assert(i == corner_row(a, b, c) && j == corner_row(a, b, c));
    }
}

/// The edge table has a row for each of the twelve edges of the cube.
///
/// Every row names two edge cells, on two adjacent faces. For every two
/// adjacent faces, one row and no other names a facelet of each. The
/// facelet `(B, 1, 0)` stands in the table twice, in rows 5 and 7, and
/// `(B, 1, 2)` does not stand in it; no other facelet stands in it twice.
pub proof fn lemma_edge_table()
    ensures
        forall|i: int, k: int|
            0 <= i < 12 && 0 <= k < 2 ==> is_edge_cell(#[trigger] EDGES[i][k]) && in_grid(
                EDGES[i][k],
            ),
        forall|i: int| 0 <= i < 12 ==> (#[trigger] EDGES[i])[0].0.adjacent(EDGES[i][1].0),
        forall|a: Face, b: Face| #[trigger]
            a.adjacent(b) ==> exists|i: int| 0 <= i < 12 && #[trigger] edge_row_touches(i, a, b),
        forall|i: int, j: int, a: Face, b: Face|
            0 <= i < 12 && 0 <= j < 12 && a.adjacent(b) && #[trigger] edge_row_touches(i, a, b)
                && #[trigger] edge_row_touches(j, a, b) ==> i == j,
        EDGES[5][0] == (Face::B, 1usize, 0usize),
        EDGES[7][0] == (Face::B, 1usize, 0usize),
        forall|i: int, k: int|
            0 <= i < 12 && 0 <= k < 2 ==> #[trigger] EDGES[i][k] != (Face::B, 1usize, 2usize),
        forall|i: int, k: int, j: int, l: int|
            0 <= i < 12 && 0 <= k < 2 && 0 <= j < 12 && 0 <= l < 2 && #[trigger] EDGES[i][k]
                == #[trigger] EDGES[j][l] ==> (i == j && k == l) || (k == 0 && l == 0 && (i == 5
                || i == 7) && (j == 5 || j == 7)),
{
    assert forall|a: Face, b: Face| #[trigger] a.adjacent(b) implies exists|i: int|
        0 <= i < 12 && #[trigger] edge_row_touches(i, a, b) by {
        let i = edge_row(a, b);
        lemma_edge_row_faces(i, a);
        lemma_edge_row_faces(i, b);
        assert(edge_row_touches(i, a, b));
    }
    assert forall|i: int, j: int, a: Face, b: Face|
        0 <= i < 12 && 0 <= j < 12 && a.adjacent(b) && #[trigger] edge_row_touches(i, a, b)
            && #[trigger] edge_row_touches(j, a, b) implies i == j by {
        lemma_edge_row_faces(i, a);
        lemma_edge_row_faces(i, b);
        lemma_edge_row_faces(j, a);
        lemma_edge_row_faces(j, b);
        assert(i == edge_row(a, b) && j == edge_row(a, b));
    }
}

} // verus!
