use rubiks_cube::cube::RawCube;
use rubiks_cube::face::Face;
use rubiks_cube::reader::read_raw_cube;

const FACES: [Face; 6] = [Face::U, Face::R, Face::F, Face::D, Face::L, Face::B];

fn lines(text: &[&str]) -> Vec<String> {
    text.iter().map(|line| line.to_string()).collect()
}

/// Every cell of the cube, face by face and row by row.
fn cells(cube: &RawCube) -> Vec<Option<char>> {
    let mut all = Vec::new();
    for face in FACES {
        let mut row: usize = 0;
        while row < 3 {
            let mut col: usize = 0;
            while col < 3 {
                all.push(cube.fetch_point(&(face, row, col)));
                col += 1;
            }
            row += 1;
        }
    }
    all
}

const FULL: [&str; 18] = [
    "abc", "def", "ghi", "jkl", "mno", "pqr", "stu", "vwx", "yz0", "123", "456", "789", "ABC",
    "DEF", "GHI", "JKL", "MNO", "PQR",
];

#[test]
fn eighteen_rows_fill_six_faces() {
    let cube = read_raw_cube(&lines(&FULL));
    let expected: Vec<Option<char>> = FULL.concat().chars().map(Some).collect();
    assert_eq!(cells(&cube), expected);
    assert_eq!(
        cube.face_colors(),
        vec![
            (Face::U, 'e'),
            (Face::R, 'n'),
            (Face::F, 'w'),
            (Face::D, '5'),
            (Face::L, 'E'),
            (Face::B, 'N'),
        ]
    );
    assert_eq!(cube.fetch_point(&(Face::U, 0, 0)), Some('a'));
    assert_eq!(cube.fetch_point(&(Face::R, 0, 2)), Some('l'));
    assert_eq!(cube.fetch_point(&(Face::F, 2, 0)), Some('y'));
    assert_eq!(cube.fetch_point(&(Face::B, 2, 2)), Some('R'));
}

#[test]
fn no_lines_give_an_empty_cube() {
    let cube = read_raw_cube(&[]);
    assert!(cube.face_colors().is_empty());
    assert_eq!(cells(&cube), vec![None; 54]);
}

#[test]
fn lines_of_other_lengths_are_skipped() {
    let noisy = lines(&[
        "",
        "# top",
        "abc",
        "def",
        "",
        "ghi",
        "ab",
        "jkl",
        "abcd",
        "mno",
        "pqr",
        "   x",
        "stu",
        "vwx",
        "yz0",
        "right after front",
        "123",
        "456",
        "789",
        "a",
        "ABC",
        "DEF",
        "GHI",
        "JKL",
        "MNO",
        "",
        "PQR",
        "end of cube",
    ]);
    let clean = lines(&FULL);
    assert_eq!(cells(&read_raw_cube(&noisy)), cells(&read_raw_cube(&clean)));
    assert_eq!(
        read_raw_cube(&noisy).face_colors(),
        read_raw_cube(&clean).face_colors()
    );
}

#[test]
fn skipped_lines_do_not_move_the_rows() {
    let cube = read_raw_cube(&lines(&["abc", "", "def", "toolong", "ghi"]));
    assert_eq!(cube.face_colors(), vec![(Face::U, 'e')]);
    assert_eq!(cube.fetch_point(&(Face::U, 0, 1)), Some('b'));
    assert_eq!(cube.fetch_point(&(Face::U, 1, 0)), Some('d'));
    assert_eq!(cube.fetch_point(&(Face::U, 2, 2)), Some('i'));
}

#[test]
fn a_face_with_missing_rows_is_absent() {
    let cube = read_raw_cube(&lines(&FULL[..10]));
    assert_eq!(
        cube.face_colors(),
        vec![(Face::U, 'e'), (Face::R, 'n'), (Face::F, 'w')]
    );
    assert_eq!(cube.center_color(Face::D), None);
    assert_eq!(cube.center_color(Face::L), None);
    assert_eq!(cube.center_color(Face::B), None);
    assert_eq!(cube.fetch_point(&(Face::D, 0, 0)), None);
    let two_rows = read_raw_cube(&lines(&FULL[..2]));
    assert!(two_rows.face_colors().is_empty());
}

#[test]
fn rows_after_the_sixth_face_are_ignored() {
    let mut text: Vec<&str> = FULL.to_vec();
    text.extend_from_slice(&["xxx", "yyy", "zzz", "xxx", "yyy", "zzz", "xxx"]);
    let cube = read_raw_cube(&lines(&text));
    assert_eq!(cells(&cube), cells(&read_raw_cube(&lines(&FULL))));
    assert_eq!(cube.face_for_color('y'), None);
    assert_eq!(cube.center_color(Face::U), Some('e'));
    assert_eq!(cube.center_color(Face::B), Some('N'));
}

#[test]
fn a_row_has_three_symbols_not_three_bytes() {
    // Three symbols of two or three bytes each are a row.
    let cube = read_raw_cube(&lines(&["\u{e9}\u{20ac}\u{df}", "abc", "def"]));
    assert_eq!(cube.fetch_point(&(Face::U, 0, 0)), Some('\u{e9}'));
    assert_eq!(cube.fetch_point(&(Face::U, 0, 1)), Some('\u{20ac}'));
    assert_eq!(cube.fetch_point(&(Face::U, 0, 2)), Some('\u{df}'));
    assert_eq!(cube.center_color(Face::U), Some('b'));
    // One symbol of three bytes is not.
    let other = read_raw_cube(&lines(&["\u{20ac}", "abc", "def", "ghi"]));
    assert_eq!(other.fetch_point(&(Face::U, 0, 0)), Some('a'));
    assert_eq!(other.center_color(Face::U), Some('e'));
}

#[test]
fn blanks_count_as_symbols() {
    let cube = read_raw_cube(&lines(&["   ", " x ", "\t\t\t"]));
    assert_eq!(cube.center_color(Face::U), Some('x'));
    assert_eq!(cube.fetch_point(&(Face::U, 0, 0)), Some(' '));
    assert_eq!(cube.fetch_point(&(Face::U, 2, 2)), Some('\t'));
}
