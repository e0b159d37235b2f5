//! Resolution of descriptors: from the facelets of a piece to the faces
//! whose colours they show.

use vstd::prelude::*;
use crate::cube::{color_at, in_grid, owner_of, Coordinate, RawCube, Registry};
use crate::face::Face;
use crate::topology::{CORNERS, EDGES};

verus! {

/// The face whose colour the facelet at `pt` shows. There is none if the
/// face of `pt` is absent, or if no face shows that colour in its middle.
pub open spec fn side_of(m: Registry, pt: Coordinate) -> Option<Face> {
    match color_at(m, pt) {
        Some(color) => owner_of(m, color),
        None => None,
    }
}

/// Whether every facelet of a descriptor shows the colour of some face.
pub open spec fn resolvable(m: Registry, d: Seq<Coordinate>) -> bool {
    forall|k: int| 0 <= k < d.len() ==> side_of(m, #[trigger] d[k]) is Some
}

/// The faces that the facelets of a descriptor stand for, in the order of
/// the descriptor; `None` unless every one of them stands for a face.
pub open spec fn resolved(m: Registry, d: Seq<Coordinate>) -> Option<Seq<Face>> {
    if resolvable(m, d) {
        Some(Seq::new(d.len(), |k: int| side_of(m, d[k]).unwrap()))
    } else {
        None
    }
}

/// The three faces of a corner piece, if its descriptor resolves.
pub open spec fn resolved_corner(m: Registry, d: [Coordinate; 3]) -> Option<(Face, Face, Face)> {
    match resolved(m, d@) {
        Some(sides) => Some((sides[0], sides[1], sides[2])),
        None => None,
    }
}

/// The two faces of an edge piece, if its descriptor resolves.
pub open spec fn resolved_edge(m: Registry, d: [Coordinate; 2]) -> Option<(Face, Face)> {
    match resolved(m, d@) {
        Some(sides) => Some((sides[0], sides[1])),
        None => None,
    }
}

/// [`resolved_corner`] on a fixed cube, as a function of the descriptor.
pub open spec fn corner_resolver(m: Registry) -> spec_fn([Coordinate; 3]) -> Option<
    (Face, Face, Face),
> {
    |d: [Coordinate; 3]| resolved_corner(m, d)
}

/// [`resolved_edge`] on a fixed cube, as a function of the descriptor.
pub open spec fn edge_resolver(m: Registry) -> spec_fn([Coordinate; 2]) -> Option<(Face, Face)> {
    |d: [Coordinate; 2]| resolved_edge(m, d)
}

/// The corner pieces in table order, without those that do not resolve.
pub open spec fn resolved_corners(m: Registry) -> Seq<(Face, Face, Face)> {
    CORNERS@.filter_map(corner_resolver(m))
}

/// The edge pieces in table order, without those that do not resolve.
pub open spec fn resolved_edges(m: Registry) -> Seq<(Face, Face)> {
    EDGES@.filter_map(edge_resolver(m))
}

impl RawCube {
    /// The face whose colour the facelet at `pt` shows.
    pub fn fetch_side(&self, pt: &Coordinate) -> (face: Option<Face>)
        requires
            in_grid(*pt),
        ensures
            face == side_of(self@, *pt),
    {
        match self.fetch_point(pt) {
            Some(color) => self.face_for_color(color),
            None => None,
        }
    }

    /// Resolves one descriptor: the faces that its facelets stand for, in
    /// the order of the descriptor, or `None` if any of them stands for no
    /// face.
    pub fn resolve_piece(&self, descriptor: &[Coordinate]) -> (piece: Option<Vec<Face>>)
        requires
            forall|k: int| 0 <= k < descriptor@.len() ==> in_grid(#[trigger] descriptor@[k]),
        ensures
            match piece {
                Some(sides) => resolved(self@, descriptor@) == Some(sides@),
                None => resolved(self@, descriptor@) is None,
            },
    {
        let mut sides: Vec<Face> = Vec::new();
        let mut k: usize = 0;
        while k < descriptor.len()
            invariant
                k <= descriptor@.len(),
                sides@.len() == k,
                forall|j: int| 0 <= j < descriptor@.len() ==> in_grid(#[trigger] descriptor@[j]),
                forall|j: int|
                    0 <= j < k ==> side_of(self@, #[trigger] descriptor@[j]) == Some(sides@[j]),
            decreases descriptor@.len() - k,
        {
            match self.fetch_side(&descriptor[k]) {
                Some(face) => {
                    sides.push(face);
                },
                None => {
                    return None;
                },
            }
            k += 1;
        }
        Some(sides)
    }

    /// Resolves the eight corner descriptors in table order and returns the
    /// pieces that resolve. A corner that does not resolve is left out.
    pub fn resolve_all_corners(&self) -> (pieces: Vec<(Face, Face, Face)>)
        ensures
            pieces@ == resolved_corners(self@),
    {
        let table = CORNERS;
        let mut pieces: Vec<(Face, Face, Face)> = Vec::new();
        let mut i: usize = 0;
        while i < 8
            invariant
                i <= 8,
                table == CORNERS,
                pieces@ == CORNERS@.take(i as int).filter_map(corner_resolver(self@)),
            decreases 8 - i,
        {
            proof {
                CORNERS@.lemma_filter_map_take_succ(corner_resolver(self@), i as int);
            }
            match self.resolve_piece(&table[i]) {
                Some(sides) => {
                    pieces.push((sides[0], sides[1], sides[2]));
                },
                None => {},
            }
            i += 1;
        }
        assert(CORNERS@.take(8) =~= CORNERS@);
        pieces
    }

    /// Resolves the twelve edge descriptors in table order and returns the
    /// pieces that resolve. An edge that does not resolve is left out.
    pub fn resolve_all_edges(&self) -> (pieces: Vec<(Face, Face)>)
        ensures
            pieces@ == resolved_edges(self@),
    {
        let table = EDGES;
        let mut pieces: Vec<(Face, Face)> = Vec::new();
        let mut i: usize = 0;
        while i < 12
            invariant
                i <= 12,
                table == EDGES,
                pieces@ == EDGES@.take(i as int).filter_map(edge_resolver(self@)),
            decreases 12 - i,
        {
            proof {
                EDGES@.lemma_filter_map_take_succ(edge_resolver(self@), i as int);
            }
            match self.resolve_piece(&table[i]) {
                Some(sides) => {
                    pieces.push((sides[0], sides[1]));
                },
                None => {},
            }
            i += 1;
        }
        assert(EDGES@.take(12) =~= EDGES@);
        pieces
    }

    /// The piece report of the cube: its corner pieces, as
    /// [`RawCube::resolve_all_corners`] gives them.
    pub fn facelet(&self) -> (pieces: Vec<(Face, Face, Face)>)
        ensures
            pieces@ == resolved_corners(self@),
    {
        self.resolve_all_corners()
    }
}

} // verus!
