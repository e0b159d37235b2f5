//! Reading a cube from the lines of its textual description.
//!
//! A line of exactly three symbols is a row. The rows fill the grids of the
//! faces U, R, F, D, L, B in that order, three rows to a grid, top row
//! first. Every other line is skipped. A face whose three rows are not all
//! there is absent from the cube, and rows after the eighteenth are
//! ignored.

use vstd::prelude::*;
use vstd::string::*;
use crate::cube::{RawCube, Registry};
use crate::face::Face;
use crate::grid::RawFace;

verus! {

/// Whether a line is a row of a grid: it has exactly three symbols.
pub open spec fn is_row(line: Seq<char>) -> bool {
    line.len() == 3
}

/// [`is_row`] as a predicate to filter by.
pub open spec fn row_filter() -> spec_fn(Seq<char>) -> bool {
    |line: Seq<char>| is_row(line)
}

/// The rows among `lines`, in their order.
pub open spec fn rows_in(lines: Seq<Seq<char>>) -> Seq<Seq<char>> {
    lines.filter(row_filter())
}

/// The cube that a sequence of rows describes: the face at position `k` of
/// the order U, R, F, D, L, B is present if the rows `3k`, `3k + 1` and
/// `3k + 2` exist, and these are then the rows of its grid.
pub open spec fn cube_of_rows(rows: Seq<Seq<char>>) -> Registry {
    Map::new(
        |f: Face| 3 * f.index() + 3 <= rows.len(),
        |f: Face| rows.subrange(3 * f.index(), 3 * f.index() + 3),
    )
}

/// The cube that a sequence of lines describes.
pub open spec fn parsed(lines: Seq<Seq<char>>) -> Registry {
    cube_of_rows(rows_in(lines))
}

/// The symbols of each line.
pub open spec fn texts(lines: Seq<String>) -> Seq<Seq<char>> {
    lines.map_values(|line: String| line@)
}

/// One more line adds itself to the rows if it is a row, and nothing
/// otherwise.
proof fn lemma_rows_step(lines: Seq<Seq<char>>, n: int)
    requires
        0 <= n < lines.len(),
    ensures
        rows_in(lines.take(n + 1)) == if is_row(lines[n]) {
            rows_in(lines.take(n)).push(lines[n])
        } else {
            rows_in(lines.take(n))
        },
{
    reveal(Seq::filter);
    assert(lines.take(n + 1).drop_last() =~= lines.take(n));
}

/// A row that does not complete a grid of one of the six faces leaves the
/// cube as it was.
proof fn lemma_row_inside_grid(rows: Seq<Seq<char>>, row: Seq<char>)
    requires
        (rows.len() + 1) % 3 != 0 || rows.len() >= 18,
    ensures
        cube_of_rows(rows.push(row)) == cube_of_rows(rows),
{
    let more = cube_of_rows(rows.push(row));
    let less = cube_of_rows(rows);
    assert forall|f: Face| less.contains_key(f) implies more[f] == less[f] by {
        assert(rows.push(row).subrange(3 * f.index(), 3 * f.index() + 3) =~= rows.subrange(
            3 * f.index(),
            3 * f.index() + 3,
        ));
    }
}

/// The third row of a grid adds the face of that grid to the cube.
proof fn lemma_row_completes_grid(rows: Seq<Seq<char>>, row: Seq<char>, i: int)
    requires
        0 <= i < 6,
        rows.len() + 1 == 3 * i + 3,
    ensures
        cube_of_rows(rows.push(row)) == cube_of_rows(rows).insert(
            Face::at(i),
            rows.push(row).subrange(3 * i, 3 * i + 3),
        ),
{
    Face::lemma_index_at();
    let more = cube_of_rows(rows.push(row));
    let less = cube_of_rows(rows).insert(Face::at(i), rows.push(row).subrange(3 * i, 3 * i + 3));
    assert forall|f: Face| more.contains_key(f) implies more[f] == less[f] by {
        if f != Face::at(i) {
            assert(rows.push(row).subrange(3 * f.index(), 3 * f.index() + 3) =~= rows.subrange(
                3 * f.index(),
                3 * f.index() + 3,
            ));
        }
    }
}

/// Builds the cube that `lines` describe.
pub fn read_raw_cube(lines: &[String]) -> (cube: RawCube)
    ensures
        cube@ == parsed(texts(lines@)),
{
    let ghost all = texts(lines@);
    let mut cube = RawCube::new();
    let mut colors: [[char; 3]; 3] = [['\0', '\0', '\0'], ['\0', '\0', '\0'], ['\0', '\0', '\0']];
    let mut i: usize = 0;
    let mut j: usize = 0;
    let mut n: usize = 0;
    while n < lines.len()
        invariant
            n <= lines@.len(),
            all == texts(lines@),
            i <= 6,
            j < 3,
            i < 6 ==> rows_in(all.take(n as int)).len() == 3 * i + j,
            i == 6 ==> j == 0 && rows_in(all.take(n as int)).len() >= 18,
            forall|k: int| 0 <= k < j ==> colors[k]@ == rows_in(all.take(n as int))[3 * i + k],
            cube@ == cube_of_rows(rows_in(all.take(n as int))),
        decreases lines@.len() - n,
    {
        let ghost before = rows_in(all.take(n as int));
        let ghost after = rows_in(all.take(n + 1));
        let line = lines[n].as_str();
        proof {
            lemma_rows_step(all, n as int);
            if is_row(line@) && (i == 6 || j < 2) {
                lemma_row_inside_grid(before, line@);
            }
        }
        if i < 6 && line.unicode_len() == 3 {
            colors[j][0] = line.get_char(0);
            colors[j][1] = line.get_char(1);
            colors[j][2] = line.get_char(2);
            assert(colors[j as int]@ =~= line@);
            j += 1;
            if j == 3 {
                let grid = RawFace::new(colors);
                let face = Face::from_ordinal(i);
                cube.register(face, grid);
                proof {
                    assert(grid@ =~= after.subrange(3 * i, 3 * i + 3));
                    lemma_row_completes_grid(before, line@, i as int);
                }
                i += 1;
                j = 0;
            }
        }
        n += 1;
    }
    assert(all.take(n as int) =~= all);
    cube
}

/// Filtering twice keeps what filtering once keeps.
proof fn lemma_rows_of_rows(lines: Seq<Seq<char>>)
    ensures
        rows_in(rows_in(lines)) == rows_in(lines),
    decreases lines.len(),
{
    reveal(Seq::filter);
    if lines.len() > 0 {
        lemma_rows_of_rows(lines.drop_last());
        let rest = rows_in(lines.drop_last());
        if is_row(lines.last()) {
            assert(rest.push(lines.last()).drop_last() =~= rest);
        }
    }
}

/// Lines that are not rows do not matter: a description gives the same
/// cube as the description without them.
pub proof fn lemma_skipped_lines(lines: Seq<Seq<char>>)
    ensures
        parsed(lines) == parsed(rows_in(lines)),
{
    lemma_rows_of_rows(lines);
}

/// A line that is not a row can be put anywhere into a description, or
/// taken out of it, and the cube stays the same.
pub proof fn lemma_skipped_line(before: Seq<Seq<char>>, line: Seq<char>, after: Seq<Seq<char>>)
    requires
        !is_row(line),
    ensures
        parsed(before + seq![line] + after) == parsed(before + after),
{
    reveal_with_fuel(Seq::filter, 2);
    Seq::filter_distributes_over_add(before, seq![line], row_filter());
    Seq::filter_distributes_over_add(before + seq![line], after, row_filter());
    Seq::filter_distributes_over_add(before, after, row_filter());
}

} // verus!
