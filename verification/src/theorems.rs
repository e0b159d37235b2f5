//! What holds of the lookups and of resolution on every cube.

use vstd::prelude::*;
use crate::cube::{
    center_of, centers_distinct, color_at, has_center, in_grid, owner_of, Coordinate, Registry,
};
use crate::face::Face;
use crate::resolver::{
    corner_resolver, edge_resolver, resolved, resolved_corner, resolved_corners, resolved_edge,
    resolved_edges, side_of,
};
use crate::sequences::lemma_filter_map_total;
use crate::topology::{touches, CORNERS, EDGES};

verus! {

/// All six faces are present.
pub open spec fn fully_populated(m: Registry) -> bool {
    forall|f: Face| m.contains_key(f)
}

/// Every facelet of a face that is present shows a colour that some face
/// shows in its middle.
pub open spec fn colors_known(m: Registry) -> bool {
    forall|pt: Coordinate| m.contains_key(pt.0) && in_grid(pt) ==> #[trigger] side_of(m, pt) is Some
}

/// Every facelet of a face that is present shows the colour in the middle
/// of that face.
pub open spec fn solved(m: Registry) -> bool {
    forall|pt: Coordinate|
        m.contains_key(pt.0) && in_grid(pt) ==> #[trigger] color_at(m, pt) == center_of(m, pt.0)
}

/// The faces of the coordinates of a descriptor, in its order.
pub open spec fn faces_of(d: Seq<Coordinate>) -> Seq<Face> {
    Seq::new(d.len(), |k: int| d[k].0)
}

/// Where no two faces share a centre colour, the centre colour of a face
/// leads back to that face.
pub proof fn lemma_center_round_trip(m: Registry, face: Face)
    requires
        centers_distinct(m),
        m.contains_key(face),
    ensures
        owner_of(m, center_of(m, face).unwrap()) == Some(face),
{
    let color = m[face][1][1];
    assert forall|g: Face| g != face implies !has_center(m, g, color) by {}
}

/// A descriptor that names a facelet of an absent face does not resolve.
pub proof fn lemma_absent_face_fails(m: Registry, d: Seq<Coordinate>, face: Face)
    requires
        !m.contains_key(face),
        touches(d, face),
    ensures
        resolved(m, d) is None,
{
}

/// Taking a face away from a cube changes nothing for a descriptor that
/// names no facelet of that face and resolved to other faces only: it
/// resolves as before.
pub proof fn lemma_absent_face_spares(m: Registry, d: Seq<Coordinate>, face: Face)
    requires
        !touches(d, face),
        resolved(m, d) is Some,
        !resolved(m, d).unwrap().contains(face),
    ensures
        resolved(m.remove(face), d) == resolved(m, d),
{
    let less = m.remove(face);
    let sides = resolved(m, d).unwrap();
    assert forall|k: int| 0 <= k < d.len() implies side_of(less, #[trigger] d[k]) == side_of(
        m,
        d[k],
    ) by {
        // The facelet lies on a face that stays, and its colour is owned
        // by a face that stays.
        assert(sides.contains(sides[k]));
        let color = color_at(m, d[k]).unwrap();
        assert(color_at(less, d[k]) == Some(color));
        assert forall|g: Face| has_center(less, g, color) == (g != face && has_center(
            m,
            g,
            color,
        )) by {}
    }
    assert(resolved(less, d).unwrap() =~= sides);
}

/// Where every facelet shows the centre colour of some face, a descriptor
/// resolves as soon as the faces of its facelets are present.
pub proof fn lemma_present_faces_resolve(m: Registry, d: Seq<Coordinate>)
    requires
        colors_known(m),
        forall|k: int| 0 <= k < d.len() ==> m.contains_key((#[trigger] d[k]).0) && in_grid(d[k]),
    ensures
        resolved(m, d) is Some,
{
}

/// On a solved cube without shared centre colours, a descriptor whose
/// faces are all present resolves to just these faces.
pub proof fn lemma_solved_resolves_to_itself(m: Registry, d: Seq<Coordinate>)
    requires
        solved(m),
        centers_distinct(m),
        forall|k: int| 0 <= k < d.len() ==> m.contains_key((#[trigger] d[k]).0) && in_grid(d[k]),
    ensures
        resolved(m, d) == Some(faces_of(d)),
{
    assert forall|k: int| 0 <= k < d.len() implies side_of(m, #[trigger] d[k]) == Some(
        d[k].0,
    ) by {
        lemma_center_round_trip(m, d[k].0);
    }
}

/// On a cube with all six faces, on which every facelet shows the centre
/// colour of some face, each of the eight corners resolves: the report
/// holds the eight pieces in table order.
pub proof fn lemma_all_corners_resolve(m: Registry)
    requires
        fully_populated(m),
        colors_known(m),
    ensures
        resolved_corners(m).len() == 8,
        forall|i: int|
            0 <= i < 8 ==> resolved_corner(m, CORNERS[i]) == Some(#[trigger] resolved_corners(m)[i]),
{
    assert forall|i: int| 0 <= i < 8 implies corner_resolver(m)(#[trigger] CORNERS@[i]) is Some by {
        lemma_present_faces_resolve(m, CORNERS[i]@);
    }
    lemma_filter_map_total(CORNERS@, corner_resolver(m), 8);
    assert(CORNERS@.take(8) =~= CORNERS@);
}

/// Facelets of different colours stand for different faces: a corner whose
/// three facelets differ in colour resolves to three different faces.
pub proof fn lemma_corner_faces_differ(m: Registry, d: [Coordinate; 3])
    requires
        resolved_corner(m, d) is Some,
        color_at(m, d[0]) != color_at(m, d[1]),
        color_at(m, d[0]) != color_at(m, d[2]),
        color_at(m, d[1]) != color_at(m, d[2]),
    ensures
        ({
            let piece = resolved_corner(m, d).unwrap();
            piece.0 != piece.1 && piece.0 != piece.2 && piece.1 != piece.2
        }),
{
}

/// On a cube with all six faces, on which every facelet shows the centre
/// colour of some face, each of the twelve edge descriptors resolves: the
/// report holds twelve pieces in table order. The pieces at positions 5 and
/// 7 have their first face from one and the same back facelet.
pub proof fn lemma_all_edges_resolve(m: Registry)
    requires
        fully_populated(m),
        colors_known(m),
    ensures
        resolved_edges(m).len() == 12,
        forall|i: int|
            0 <= i < 12 ==> resolved_edge(m, EDGES[i]) == Some(#[trigger] resolved_edges(m)[i]),
        resolved_edges(m)[5].0 == resolved_edges(m)[7].0,
{
    assert forall|i: int| 0 <= i < 12 implies edge_resolver(m)(#[trigger] EDGES@[i]) is Some by {
        lemma_present_faces_resolve(m, EDGES[i]@);
    }
    lemma_filter_map_total(EDGES@, edge_resolver(m), 12);
    assert(EDGES@.take(12) =~= EDGES@);
}

/// On a solved cube with all six faces and no shared centre colour, the
/// reports list the faces of the tables: each corner and each edge
/// resolves to the faces on which its facelets lie.
pub proof fn lemma_solved_reports(m: Registry)
    requires
        fully_populated(m),
        solved(m),
        centers_distinct(m),
    ensures
        resolved_corners(m).len() == 8,
        forall|i: int|
            0 <= i < 8 ==> #[trigger] resolved_corners(m)[i] == (
                CORNERS[i][0].0,
                CORNERS[i][1].0,
                CORNERS[i][2].0,
            ),
        resolved_edges(m).len() == 12,
        forall|i: int|
            0 <= i < 12 ==> #[trigger] resolved_edges(m)[i] == (EDGES[i][0].0, EDGES[i][1].0),
{
    assert forall|i: int| 0 <= i < 8 implies corner_resolver(m)(#[trigger] CORNERS@[i]) == Some(
        (CORNERS[i][0].0, CORNERS[i][1].0, CORNERS[i][2].0),
    ) by {
        lemma_solved_resolves_to_itself(m, CORNERS[i]@);
    }
    lemma_filter_map_total(CORNERS@, corner_resolver(m), 8);
    assert(CORNERS@.take(8) =~= CORNERS@);
    assert forall|i: int| 0 <= i < 12 implies edge_resolver(m)(#[trigger] EDGES@[i]) == Some(
        (EDGES[i][0].0, EDGES[i][1].0),
    ) by {
        lemma_solved_resolves_to_itself(m, EDGES[i]@);
    }
    lemma_filter_map_total(EDGES@, edge_resolver(m), 12);
    assert(EDGES@.take(12) =~= EDGES@);
}

} // verus!
