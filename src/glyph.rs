use vstd::prelude::*;

verus! {

/// A grid cell as (row, column).
pub type Cell = (u8, u8);

/// Rows and columns of the LED grid.
pub const ROWS: u8 = 4;
pub const COLUMNS: u8 = 3;

/// Number of digits that have a glyph.
pub const DIGITS: u8 = 10;

/// A cell lies on the 4 x 3 grid.
pub open spec fn valid_cell(c: Cell) -> bool {
    c.0 < ROWS && c.1 < COLUMNS
}

/// The lit cells of each digit, in table order.
pub open spec fn glyph(d: int) -> Seq<Cell> {
    if d == 0 {
        seq![(0, 0), (0, 1), (0, 2), (1, 0), (1, 2), (2, 0), (2, 2), (3, 0), (3, 1), (3, 2)]
    } else if d == 1 {
        seq![(0, 1), (1, 0), (1, 1), (2, 1), (3, 0), (3, 1), (3, 2)]
    } else if d == 2 {
        seq![(0, 0), (0, 1), (0, 2), (1, 2), (2, 0), (2, 1), (3, 0), (3, 1), (3, 2)]
    } else if d == 3 {
        seq![(0, 0), (0, 1), (0, 2), (1, 1), (1, 2), (2, 2), (3, 0), (3, 1), (3, 2)]
    } else if d == 4 {
        seq![(0, 0), (0, 2), (1, 0), (1, 2), (2, 0), (2, 1), (2, 2), (3, 2)]
    } else if d == 5 {
        seq![(0, 0), (0, 1), (0, 2), (1, 0), (2, 1), (2, 2), (3, 0), (3, 1), (3, 2)]
    } else if d == 6 {
        seq![(0, 0), (0, 1), (0, 2), (1, 0), (2, 0), (2, 1), (2, 2), (3, 0), (3, 1), (3, 2)]
    } else if d == 7 {
        seq![(0, 0), (0, 1), (0, 2), (1, 2), (2, 2), (3, 2)]
    } else if d == 8 {
        seq![(0, 0), (0, 1), (0, 2), (1, 0), (1, 2), (2, 0), (2, 1), (2, 2), (3, 0), (3, 1), (3, 2)]
    } else {
        seq![(0, 0), (0, 1), (0, 2), (1, 0), (1, 2), (2, 0), (2, 1), (2, 2), (3, 2)]
    }
}

/// Every cell of every glyph lies on the grid.
pub proof fn glyph_cells_in_bounds(d: int)
    requires
        0 <= d < DIGITS,
    ensures
        forall|k: int| 0 <= k < glyph(d).len() ==> #[trigger] valid_cell(glyph(d)[k]),
{
}

/// The lit cells of `digit`.
pub fn glyph_cells(digit: u8) -> (cells: &'static [Cell])
    requires
        digit < DIGITS,
    ensures
        cells@ == glyph(digit as int),
{
    let cells: &'static [Cell] = match digit {
        0 => &[(0, 0), (0, 1), (0, 2), (1, 0), (1, 2), (2, 0), (2, 2), (3, 0), (3, 1), (3, 2)],
        1 => &[(0, 1), (1, 0), (1, 1), (2, 1), (3, 0), (3, 1), (3, 2)],
        2 => &[(0, 0), (0, 1), (0, 2), (1, 2), (2, 0), (2, 1), (3, 0), (3, 1), (3, 2)],
        3 => &[(0, 0), (0, 1), (0, 2), (1, 1), (1, 2), (2, 2), (3, 0), (3, 1), (3, 2)],
        4 => &[(0, 0), (0, 2), (1, 0), (1, 2), (2, 0), (2, 1), (2, 2), (3, 2)],
        5 => &[(0, 0), (0, 1), (0, 2), (1, 0), (2, 1), (2, 2), (3, 0), (3, 1), (3, 2)],
        6 => &[(0, 0), (0, 1), (0, 2), (1, 0), (2, 0), (2, 1), (2, 2), (3, 0), (3, 1), (3, 2)],
        7 => &[(0, 0), (0, 1), (0, 2), (1, 2), (2, 2), (3, 2)],
        8 => &[(0, 0), (0, 1), (0, 2), (1, 0), (1, 2), (2, 0), (2, 1), (2, 2), (3, 0), (3, 1), (3, 2)],
        _ => &[(0, 0), (0, 1), (0, 2), (1, 0), (1, 2), (2, 0), (2, 1), (2, 2), (3, 2)],
    };
    cells
}

} // verus!
