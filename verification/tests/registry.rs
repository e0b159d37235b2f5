use rubiks_cube::cube::RawCube;
use rubiks_cube::face::Face;
use rubiks_cube::grid::RawFace;

const FACES: [Face; 6] = [Face::U, Face::R, Face::F, Face::D, Face::L, Face::B];

fn plain(color: char) -> RawFace {
    RawFace::new([[color; 3]; 3])
}

fn solved() -> RawCube {
    let mut cube = RawCube::new();
    cube.register(Face::U, plain('U'));
    cube.register(Face::R, plain('R'));
    cube.register(Face::F, plain('F'));
    cube.register(Face::D, plain('D'));
    cube.register(Face::L, plain('L'));
    cube.register(Face::B, plain('B'));
    cube
}

#[test]
fn ordinal_follows_the_order_of_the_faces() {
    let mut i: usize = 0;
    while i < 6 {
        assert_eq!(FACES[i].ordinal(), i);
        assert_eq!(Face::from_ordinal(i), FACES[i]);
        i += 1;
    }
}

#[test]
fn grid_is_read_by_row_and_column() {
    let grid = RawFace::new([['a', 'b', 'c'], ['d', 'e', 'f'], ['g', 'h', 'i']]);
    assert_eq!(grid.get(0, 0), 'a');
    assert_eq!(grid.get(0, 2), 'c');
    assert_eq!(grid.get(1, 0), 'd');
    assert_eq!(grid.get(2, 1), 'h');
    assert_eq!(grid.get(2, 2), 'i');
    assert_eq!(grid.center(), 'e');
}

#[test]
fn new_cube_has_no_face() {
    let cube = RawCube::new();
    for face in FACES {
        assert_eq!(cube.center_color(face), None);
        assert_eq!(cube.fetch_point(&(face, 1, 1)), None);
    }
    assert_eq!(cube.face_for_color('U'), None);
    assert_eq!(cube.face_for_color('\0'), None);
    assert!(cube.face_colors().is_empty());
    assert!(cube.color_to_faces().is_empty());
}

#[test]
fn center_color_is_the_middle_symbol() {
    let mut cube = RawCube::new();
    cube.register(Face::F, RawFace::new([['a', 'b', 'c'], ['d', 'e', 'f'], ['g', 'h', 'i']]));
    assert_eq!(cube.center_color(Face::F), Some('e'));
    assert_eq!(cube.center_color(Face::B), None);
    assert_eq!(cube.face_for_color('e'), Some(Face::F));
    assert_eq!(cube.face_for_color('a'), None);
}

#[test]
fn fetch_point_reads_the_named_cell() {
    let mut cube = RawCube::new();
    cube.register(Face::L, RawFace::new([['a', 'b', 'c'], ['d', 'e', 'f'], ['g', 'h', 'i']]));
    assert_eq!(cube.fetch_point(&(Face::L, 0, 0)), Some('a'));
    assert_eq!(cube.fetch_point(&(Face::L, 0, 2)), Some('c'));
    assert_eq!(cube.fetch_point(&(Face::L, 1, 1)), Some('e'));
    assert_eq!(cube.fetch_point(&(Face::L, 2, 0)), Some('g'));
    assert_eq!(cube.fetch_point(&(Face::L, 2, 2)), Some('i'));
    assert_eq!(cube.fetch_point(&(Face::R, 0, 0)), None);
}

#[test]
fn register_replaces_the_grid_of_a_face() {
    let mut cube = RawCube::new();
    cube.register(Face::D, plain('x'));
    cube.register(Face::D, plain('y'));
    assert_eq!(cube.center_color(Face::D), Some('y'));
    assert_eq!(cube.face_for_color('x'), None);
    assert_eq!(cube.face_for_color('y'), Some(Face::D));
    assert_eq!(cube.face_colors(), vec![(Face::D, 'y')]);
}

#[test]
fn center_color_leads_back_to_its_face() {
    let cube = solved();
    for face in FACES {
        let color = cube.center_color(face).unwrap();
        assert_eq!(cube.face_for_color(color), Some(face));
    }
}

#[test]
fn center_color_leads_back_on_a_partial_cube() {
    let mut cube = RawCube::new();
    cube.register(Face::R, plain('r'));
    cube.register(Face::L, plain('l'));
    cube.register(Face::B, plain('b'));
    for face in [Face::R, Face::L, Face::B] {
        let color = cube.center_color(face).unwrap();
        assert_eq!(cube.face_for_color(color), Some(face));
    }
    for face in [Face::U, Face::F, Face::D] {
        assert_eq!(cube.center_color(face), None);
    }
}

#[test]
fn face_colors_lists_present_faces_in_order() {
    let cube = solved();
    assert_eq!(
        cube.face_colors(),
        vec![
            (Face::U, 'U'),
            (Face::R, 'R'),
            (Face::F, 'F'),
            (Face::D, 'D'),
            (Face::L, 'L'),
            (Face::B, 'B'),
        ]
    );
    let mut partial = RawCube::new();
    partial.register(Face::L, plain('l'));
    partial.register(Face::R, plain('r'));
    assert_eq!(partial.face_colors(), vec![(Face::R, 'r'), (Face::L, 'l')]);
}

#[test]
fn color_to_faces_inverts_face_colors() {
    let cube = solved();
    assert_eq!(
        cube.color_to_faces(),
        vec![
            ('U', Face::U),
            ('R', Face::R),
            ('F', Face::F),
            ('D', Face::D),
            ('L', Face::L),
            ('B', Face::B),
        ]
    );
    for (color, face) in cube.color_to_faces() {
        assert_eq!(cube.face_for_color(color), Some(face));
        assert_eq!(cube.center_color(face), Some(color));
    }
}

#[test]
fn shared_center_color_goes_to_the_last_face() {
    let mut cube = RawCube::new();
    cube.register(Face::U, plain('w'));
    cube.register(Face::F, plain('w'));
    cube.register(Face::L, plain('g'));
    assert_eq!(cube.face_for_color('w'), Some(Face::F));
    assert_eq!(cube.face_for_color('g'), Some(Face::L));
    assert_eq!(cube.color_to_faces(), vec![('w', Face::F), ('g', Face::L)]);
    assert_eq!(
        cube.face_colors(),
        vec![(Face::U, 'w'), (Face::F, 'w'), (Face::L, 'g')]
    );
    // The order in which the faces were supplied does not matter.
    let mut other = RawCube::new();
    other.register(Face::F, plain('w'));
    other.register(Face::U, plain('w'));
    assert_eq!(other.face_for_color('w'), Some(Face::F));
}
