//! The registry of faces: which of the six faces were supplied, and what
//! their grids show.

use vstd::prelude::*;
use crate::face::Face;
use crate::grid::{is_grid, Grid, RawFace};
use crate::sequences::lemma_filter_map_has;

verus! {

/// What a cube holds: the grid of each face that was supplied.
pub type Registry = Map<Face, Grid>;

/// A position on the surface of the cube: a face, a row and a column.
pub type Coordinate = (Face, usize, usize);

/// The colour in the middle of `face`, if the face was supplied.
pub open spec fn center_of(m: Registry, face: Face) -> Option<char> {
    if m.contains_key(face) {
        Some(m[face][1][1])
    } else {
        None
    }
}

/// Whether `face` was supplied and shows `color` in its middle.
pub open spec fn has_center(m: Registry, face: Face, color: char) -> bool {
    center_of(m, face) == Some(color)
}

/// The face that `color` stands for: the one that shows it in its middle.
/// Where several faces do, it is the last of them in the order
/// U, R, F, D, L, B.
pub open spec fn owner_of(m: Registry, color: char) -> Option<Face> {
    if has_center(m, Face::B, color) {
        Some(Face::B)
    } else if has_center(m, Face::L, color) {
        Some(Face::L)
    } else if has_center(m, Face::D, color) {
        Some(Face::D)
    } else if has_center(m, Face::F, color) {
        Some(Face::F)
    } else if has_center(m, Face::R, color) {
        Some(Face::R)
    } else if has_center(m, Face::U, color) {
        Some(Face::U)
    } else {
        None
    }
}

/// The owner of a colour is the face that shows it in its middle and
/// that no other such face follows in the order U, R, F, D, L, B.
pub proof fn lemma_owner_is_last(m: Registry, color: char, face: Face)
    ensures
        owner_of(m, color) == Some(face) <==> has_center(m, face, color) && forall|g: Face| #[trigger]
            has_center(m, g, color) ==> g.index() <= face.index(),
{
}

/// A colour has no owner exactly when no face shows it in its middle.
pub proof fn lemma_owner_is_none(m: Registry, color: char)
    ensures
        owner_of(m, color) is None <==> forall|g: Face| !#[trigger] has_center(m, g, color),
{
}

/// Whether a coordinate lies inside the 3x3 grid of its face.
pub open spec fn in_grid(pt: Coordinate) -> bool {
    pt.1 < 3 && pt.2 < 3
}

/// The colour at a coordinate, if its face was supplied.
pub open spec fn color_at(m: Registry, pt: Coordinate) -> Option<char> {
    if m.contains_key(pt.0) {
        Some(m[pt.0][pt.1 as int][pt.2 as int])
    } else {
        None
    }
}

/// No two supplied faces show the same colour in their middle.
pub open spec fn centers_distinct(m: Registry) -> bool {
    forall|f: Face, g: Face|
        m.contains_key(f) && m.contains_key(g) && f != g ==> #[trigger] m[f][1][1]
            != #[trigger] m[g][1][1]
}

/// The entry of `face` in the list of centre colours, if the face has one.
pub open spec fn center_entry(m: Registry) -> spec_fn(Face) -> Option<(Face, char)> {
    |face: Face|
        match center_of(m, face) {
            Some(color) => Some((face, color)),
            None => None,
        }
}

/// The entry of `face` in the list of colour owners: its centre colour and
/// itself, if the face is present and owns that colour.
pub open spec fn owner_entry(m: Registry) -> spec_fn(Face) -> Option<(char, Face)> {
    |face: Face|
        match center_of(m, face) {
            Some(color) => if owner_of(m, color) == Some(face) {
                Some((color, face))
            } else {
                None
            },
            None => None,
        }
}

/// Each face that is present with its centre colour, in the order
/// U, R, F, D, L, B.
pub open spec fn center_list(m: Registry) -> Seq<(Face, char)> {
    Face::order().filter_map(center_entry(m))
}

/// Each centre colour with the face that owns it, in the order
/// U, R, F, D, L, B of the owners.
pub open spec fn owner_list(m: Registry) -> Seq<(char, Face)> {
    Face::order().filter_map(owner_entry(m))
}

/// The list of centre colours holds a face with a colour exactly when the
/// face is present and shows that colour in its middle.
pub proof fn lemma_center_list_agrees(m: Registry, face: Face, color: char)
    ensures
        center_list(m).contains((face, color)) <==> center_of(m, face) == Some(color),
{
    Face::lemma_index_at();
    let entry = center_entry(m);
    if center_list(m).contains((face, color)) {
        Face::order().lemma_filter_map_contains(entry, (face, color));
    }
    if center_of(m, face) == Some(color) {
        lemma_filter_map_has(Face::order(), entry, face.index());
    }
}

/// The list of colour owners holds a colour with a face exactly when the
/// face owns the colour.
pub proof fn lemma_owner_list_agrees(m: Registry, color: char, face: Face)
    ensures
        owner_list(m).contains((color, face)) <==> owner_of(m, color) == Some(face),
{
    Face::lemma_index_at();
    let entry = owner_entry(m);
    if owner_list(m).contains((color, face)) {
        Face::order().lemma_filter_map_contains(entry, (color, face));
    }
    if owner_of(m, color) == Some(face) {
        lemma_filter_map_has(Face::order(), entry, face.index());
    }
}

/// Every grid of the cube has three rows of three symbols.
pub open spec fn well_formed(m: Registry) -> bool {
    forall|f: Face| m.contains_key(f) ==> is_grid(#[trigger] m[f])
}

/// The six faces of a cube, each present or absent.
#[derive(Debug)]
pub struct RawCube {
    faces: [Option<RawFace>; 6],
}

impl View for RawCube {
    type V = Registry;

    closed spec fn view(&self) -> Registry {
        Map::new(
            |f: Face| self.faces[f.index()] is Some,
            |f: Face| self.faces[f.index()].unwrap()@,
        )
    }
}

impl RawCube {
    /// A cube to which no face has been supplied yet.
    pub fn new() -> (cube: RawCube)
        ensures
            cube@ == Map::<Face, Grid>::empty(),
    {
        RawCube { faces: [None, None, None, None, None, None] }
    }

    /// Stores `grid` under `face`, in place of any grid stored there before.
    pub fn register(&mut self, face: Face, grid: RawFace)
        ensures
            final(self)@ == old(self)@.insert(face, grid@),
    {
        let i = face.ordinal();
        self.faces[i] = Some(grid);
        proof {
            Face::lemma_index_at();
        }
    }

    /// What a cube holds is well formed, whatever was supplied to it.
    pub proof fn lemma_well_formed(&self)
        ensures
            well_formed(self@),
    {
        assert forall|f: Face| self@.contains_key(f) implies is_grid(#[trigger] self@[f]) by {
            self.faces[f.index()].unwrap().lemma_shape();
        }
    }

    /// The colour in the middle of `face`, or `None` if the face is absent.
    pub fn center_color(&self, face: Face) -> (color: Option<char>)
        ensures
            color == center_of(self@, face),
    {
        match &self.faces[face.ordinal()] {
            Some(grid) => Some(grid.center()),
            None => None,
        }
    }

    /// The face that `color` stands for, or `None` if no face shows it in
    /// its middle.
    pub fn face_for_color(&self, color: char) -> (face: Option<Face>)
        ensures
            face == owner_of(self@, color),
    {
        let mut i: usize = 6;
        while i > 0
            invariant
                i <= 6,
                forall|g: Face| #[trigger] has_center(self@, g, color) ==> g.index() < i,
            decreases i,
        {
            i -= 1;
            let face = Face::from_ordinal(i);
            proof {
                Face::lemma_index_at();
            }
            if self.center_color(face) == Some(color) {
                proof {
                    lemma_owner_is_last(self@, color, face);
                }
                return Some(face);
            }
        }
        proof {
            lemma_owner_is_none(self@, color);
        }
        None
    }

    /// The centre colour of each face that is present, in the order
    /// U, R, F, D, L, B of the faces.
    pub fn face_colors(&self) -> (list: Vec<(Face, char)>)
        ensures
            list@ == center_list(self@),
    {
        let mut list: Vec<(Face, char)> = Vec::new();
        let mut i: usize = 0;
        while i < 6
            invariant
                i <= 6,
                list@ == Face::order().take(i as int).filter_map(center_entry(self@)),
            decreases 6 - i,
        {
            proof {
                Face::order().lemma_filter_map_take_succ(center_entry(self@), i as int);
            }
            let face = Face::from_ordinal(i);
            match self.center_color(face) {
                Some(color) => {
                    list.push((face, color));
                },
                None => {},
            }
            i += 1;
        }
        assert(Face::order().take(6) =~= Face::order());
        list
    }

    /// The face that each centre colour stands for, in the order
    /// U, R, F, D, L, B of these faces. A colour occurs once, with its
    /// owner.
    pub fn color_to_faces(&self) -> (list: Vec<(char, Face)>)
        ensures
            list@ == owner_list(self@),
    {
        let mut list: Vec<(char, Face)> = Vec::new();
        let mut i: usize = 0;
        while i < 6
            invariant
                i <= 6,
                list@ == Face::order().take(i as int).filter_map(owner_entry(self@)),
            decreases 6 - i,
        {
            proof {
                Face::order().lemma_filter_map_take_succ(owner_entry(self@), i as int);
            }
            let face = Face::from_ordinal(i);
            match self.center_color(face) {
                Some(color) => {
                    if self.face_for_color(color) == Some(face) {
                        list.push((color, face));
                    }
                },
                None => {},
            }
            i += 1;
        }
        assert(Face::order().take(6) =~= Face::order());
        list
    }

    /// The colour at a coordinate, or `None` if its face is absent.
    pub fn fetch_point(&self, pt: &Coordinate) -> (color: Option<char>)
        requires
            in_grid(*pt),
        ensures
            color == color_at(self@, *pt),
    {
        match &self.faces[pt.0.ordinal()] {
            Some(grid) => Some(grid.get(pt.1, pt.2)),
            None => None,
        }
    }
}

} // verus!
