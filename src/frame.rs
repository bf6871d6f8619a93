use vstd::prelude::*;

use crate::color::{Color, lit_color, off_color};
use crate::glyph::{Cell, DIGITS, glyph, glyph_cells, glyph_cells_in_bounds, valid_cell};

verus! {

/// Number of LEDs on the strip, one per grid cell.
pub const LED_COUNT: usize = 12;

/// The colors of one frame, in the strip's transmission order.
pub type LedStates = [Color; 12];

/// Position of a cell on the strip: row-major order.
pub open spec fn cell_index(c: Cell) -> int {
    c.0 * 3 + c.1
}

/// Some cell among the first `n` of `cells` sits at strip position `i`.
pub open spec fn lit_among(cells: Seq<Cell>, n: int, i: int) -> bool {
    exists|k: int| 0 <= k < n && cell_index(#[trigger] cells[k]) == i
}

/// The glyph of `d` lights strip position `i`.
pub open spec fn lit_at(d: int, i: int) -> bool {
    lit_among(glyph(d), glyph(d).len() as int, i)
}

/// The frame that shows digit `d`: lit where its glyph has a cell, off elsewhere.
pub open spec fn frame(d: int) -> Seq<Color> {
    Seq::new(LED_COUNT as nat, |i: int| if lit_at(d, i) { lit_color() } else { off_color() })
}

/// Distinct cells of the grid sit at distinct strip positions.
pub proof fn cell_index_injective(a: Cell, b: Cell)
    requires
        valid_cell(a),
        valid_cell(b),
        a != b,
    ensures
        cell_index(a) != cell_index(b),
{
}

/// The strip positions of the grid's cells are exactly 0 through 11.
pub proof fn cell_index_image(i: int)
    ensures
        (exists|c: Cell| valid_cell(c) && cell_index(c) == i) <==> 0 <= i < LED_COUNT,
{
    if 0 <= i < LED_COUNT {
        let c: Cell = ((i / 3) as u8, (i % 3) as u8);
        assert(valid_cell(c) && cell_index(c) == i);
    }
}

/// Linear position of the cell at `row`, `column` in the strip's wiring order.
pub fn map_coord_to_index(row: u8, column: u8) -> (r: u8)
    requires
        valid_cell((row, column)),
    ensures
        r == cell_index((row, column)),
{
    row * 3 + column
}

/// The frame that shows `digit`.
pub fn get_led_states(digit: u8) -> (states: LedStates)
    requires
        digit < DIGITS,
    ensures
        states@ == frame(digit as int),
{
    let cells = glyph_cells(digit);
    proof {
        glyph_cells_in_bounds(digit as int);
    }
    let mut states = [Color::off(); 12];
    let mut k: usize = 0;
    while k < cells.len()
        invariant
            cells@ == glyph(digit as int),
            forall|j: int| 0 <= j < cells@.len() ==> #[trigger] valid_cell(cells@[j]),
            k <= cells@.len(),
            forall|i: int|
                0 <= i < LED_COUNT ==> #[trigger] states@[i] == if lit_among(cells@, k as int, i) {
                    lit_color()
                } else {
                    off_color()
                },
        decreases cells@.len() - k,
    {
        let (row, column) = cells[k];
        assert(valid_cell(cells@[k as int]));
        let index = map_coord_to_index(row, column);
        let ghost before = states@;
        states[index as usize] = Color::red();
        assert forall|i: int| 0 <= i < LED_COUNT implies #[trigger] states@[i] == if lit_among(
            cells@,
            k + 1,
            i,
        ) {
            lit_color()
        } else {
            off_color()
        } by {
            if i == index {
                assert(cell_index(cells@[k as int]) == i);
            } else {
                if lit_among(cells@, k + 1, i) {
                    let j = choose|j: int| 0 <= j < k + 1 && cell_index(#[trigger] cells@[j]) == i;
                    assert(j != k);
                }
                assert(states@[i] == before[i]);
            }
        }
        k += 1;
    }
    assert(states@ =~= frame(digit as int));
    states
}

/// Rendering depends on the digit alone: two frames rendered for one digit are equal.
pub proof fn render_deterministic(digit: u8, first: LedStates, second: LedStates)
    requires
        digit < DIGITS,
        first@ == frame(digit as int),
        second@ == frame(digit as int),
    ensures
        first == second,
{
    assert(first =~= second);
}

} // verus!
