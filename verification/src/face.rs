//! The six faces of the cube and the fixed order in which they are listed.

use vstd::prelude::*;

verus! {

/// One side of the cube: up, right, front, down, left or back.
#[derive(Clone, Copy, PartialEq, Eq, Structural, Hash, Debug)]
pub enum Face {
    U,
    R,
    F,
    D,
    L,
    B,
}

impl Face {
    /// Position of the face in the order U, R, F, D, L, B.
    pub open spec fn index(self) -> int {
        match self {
            Face::U => 0,
            Face::R => 1,
            Face::F => 2,
            Face::D => 3,
            Face::L => 4,
            Face::B => 5,
        }
    }

    /// The face at position `i` of the order U, R, F, D, L, B.
    pub open spec fn at(i: int) -> Face {
        if i == 0 {
            Face::U
        } else if i == 1 {
            Face::R
        } else if i == 2 {
            Face::F
        } else if i == 3 {
            Face::D
        } else if i == 4 {
            Face::L
        } else {
            Face::B
        }
    }

    /// The six faces in order.
    pub open spec fn order() -> Seq<Face> {
        Seq::new(6, |i: int| Face::at(i))
    }

    /// The face on the other side of the cube.
    pub open spec fn opposite(self) -> Face {
        match self {
            Face::U => Face::D,
            Face::R => Face::L,
            Face::F => Face::B,
            Face::D => Face::U,
            Face::L => Face::R,
            Face::B => Face::F,
        }
    }

    /// Whether two faces share an edge of the cube.
    pub open spec fn adjacent(self, other: Face) -> bool {
        self != other && self.opposite() != other
    }

    /// The position of the face in the order U, R, F, D, L, B.
    pub fn ordinal(self) -> (i: usize)
        ensures
            i == self.index(),
            i < 6,
    {
        match self {
            Face::U => 0,
            Face::R => 1,
            Face::F => 2,
            Face::D => 3,
            Face::L => 4,
            Face::B => 5,
        }
    }

    /// The face at position `i` of the order U, R, F, D, L, B.
    pub fn from_ordinal(i: usize) -> (face: Face)
        requires
            i < 6,
        ensures
            face == Face::at(i as int),
            face.index() == i,
    {
        if i == 0 {
            Face::U
        } else if i == 1 {
            Face::R
        } else if i == 2 {
            Face::F
        } else if i == 3 {
            Face::D
        } else if i == 4 {
            Face::L
        } else {
            Face::B
        }
    }

    /// `index` and `at` are inverse to each other on the six positions.
    pub proof fn lemma_index_at()
        ensures
            forall|f: Face| 0 <= #[trigger] f.index() < 6 && Face::at(f.index()) == f,
            forall|i: int| 0 <= i < 6 ==> (#[trigger] Face::at(i)).index() == i,
    {
    }
}

} // verus!
