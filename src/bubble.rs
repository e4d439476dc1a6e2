//! Choice of the lit cell on the 5x5 grid, and the grid that shows it.

use vstd::prelude::*;

use crate::axes::{convert_axes, converted};
use crate::mode::Mode;

verus! {

/// Number of rows, and of columns, of the LED grid.
pub const GRID_SIZE: usize = 5;

/// The LED grid: `grid[row][col]` is 1 for a lit cell and 0 for a dark one.
pub type Grid = [[u8; 5]; 5];

/// A cell of the grid.
#[derive(Clone, Copy, Debug, PartialEq, Eq, Structural)]
pub struct GridPosition {
    pub row: usize,
    pub col: usize,
}

/// The cell index for an in-plane axis value `v` at `d` milli-g per cell:
/// `floor(v / d + 2.5)`, computed exactly as `floor((2v + 5d) / 2d)`, then
/// clamped to `[0, 4]`.
pub open spec fn cell_of(v: int, d: int) -> int {
    let c = (2 * v + 5 * d) / (2 * d);
    if c < 0 {
        0
    } else if c > 4 {
        4
    } else {
        c
    }
}

/// The lit cell for display-frame axes `(a, b, o)` in a mode: none when the
/// out-of-plane axis `o` is negative (the board faces down), else the row
/// from `a` and the column from `b`.
pub open spec fn bubble_at(axes: (int, int, int), mode: Mode) -> Option<(int, int)> {
    if axes.2 < 0 {
        None
    } else {
        Some((cell_of(axes.0, mode.divisor_spec()), cell_of(axes.1, mode.divisor_spec())))
    }
}

/// The cell, as a pair of integers, that an optional position names.
pub open spec fn position_model(p: Option<GridPosition>) -> Option<(int, int)> {
    match p {
        Some(q) => Some((q.row as int, q.col as int)),
        None => None,
    }
}

/// Whether `pos` names the cell `(i, j)`.
pub open spec fn lit_at(pos: Option<(int, int)>, i: int, j: int) -> bool {
    pos matches Some(c) && c.0 == i && c.1 == j
}

/// `g` lights exactly the cell that `pos` names, and no cell when `pos` is
/// none.
pub open spec fn shows(g: Grid, pos: Option<(int, int)>) -> bool {
    forall|i: int, j: int|
        0 <= i < 5 && 0 <= j < 5 ==> #[trigger] g[i][j] == (if lit_at(pos, i, j) {
            1u8
        } else {
            0u8
        })
}

/// Every cell of `g` is 0 or 1, and at most one cell is 1.
pub open spec fn single_lit(g: Grid) -> bool {
    &&& forall|i: int, j: int| 0 <= i < 5 && 0 <= j < 5 ==> #[trigger] g[i][j] <= 1
    &&& forall|i: int, j: int, k: int, l: int|
        0 <= i < 5 && 0 <= j < 5 && 0 <= k < 5 && 0 <= l < 5 && #[trigger] g[i][j] == 1
            && #[trigger] g[k][l] == 1 ==> i == k && j == l
}

/// The cell index, in `[0, 4]`, for an in-plane axis value `v` at `divisor`
/// milli-g per cell.
pub fn cell_index(v: i32, divisor: i32) -> (r: usize)
    requires
        divisor > 0,
    ensures
        r as int == cell_of(v as int, divisor as int),
        r < GRID_SIZE,
{
    let n: i64 = 2 * (v as i64) + 5 * (divisor as i64);
    if n < 0 {
        assert((n as int) / (2 * divisor as int) < 0) by (nonlinear_arith)
            requires
                n < 0,
                divisor > 0,
        ;
        return 0;
    }
    let q: u64 = (n as u64) / (2 * (divisor as u64));
    if q > 4 {
        4
    } else {
        q as usize
    }
}

/// The lit cell for display-frame axes in a mode, or none when the board
/// faces down.
pub fn bubble_position(axes: (i32, i32, i32), mode: Mode) -> (r: Option<GridPosition>)
    ensures
        position_model(r) == bubble_at((axes.0 as int, axes.1 as int, axes.2 as int), mode),
        r matches Some(p) ==> p.row < GRID_SIZE && p.col < GRID_SIZE,
{
    let (a, b, o) = axes;
    if o < 0 {
        return None;
    }
    let d = mode.divisor();
    Some(GridPosition { row: cell_index(a, d), col: cell_index(b, d) })
}

/// The grid that lights the cell `pos` names, or no cell.
pub fn grid_for(pos: Option<GridPosition>) -> (r: Grid)
    requires
        pos matches Some(p) ==> p.row < GRID_SIZE && p.col < GRID_SIZE,
    ensures
        shows(r, position_model(pos)),
        single_lit(r),
{
    let mut leds: Grid = [[0u8; 5]; 5];
    if let Some(p) = pos {
        let mut row: [u8; 5] = [0u8; 5];
        row[p.col] = 1;
        leds[p.row] = row;
    }
    leds
}

/// The grid for a sensor reading `(x, y, z)` in milli-g in a mode: the
/// reading is remapped into the display's frame, then the cell it names, if
/// any, is the one lit.
pub fn bubble_grid(x: i32, y: i32, z: i32, mode: Mode) -> (r: Grid)
    requires
        x != i32::MIN,
        z != i32::MIN,
    ensures
        shows(r, bubble_at(converted(x as int, y as int, z as int), mode)),
        single_lit(r),
{
    let axes = convert_axes(x, y, z);
    grid_for(bubble_position(axes, mode))
}

/// The grid for a sensor reading in `Mode::Coarse`, where the five cells
/// span about -500 to 500 milli-g.
pub fn get_bubble_pos_course(x: i32, y: i32, z: i32) -> (r: Grid)
    requires
        x != i32::MIN,
        z != i32::MIN,
    ensures
        shows(r, bubble_at(converted(x as int, y as int, z as int), Mode::Coarse)),
        single_lit(r),
{
    bubble_grid(x, y, z, Mode::Coarse)
}

/// The grid for a sensor reading in `Mode::Fine`, where the five cells span
/// about -50 to 50 milli-g.
pub fn get_bubble_pos_fine(x: i32, y: i32, z: i32) -> (r: Grid)
    requires
        x != i32::MIN,
        z != i32::MIN,
    ensures
        shows(r, bubble_at(converted(x as int, y as int, z as int), Mode::Fine)),
        single_lit(r),
{
    bubble_grid(x, y, z, Mode::Fine)
}

/// Every cell index lies in `[0, 4]`; an in-plane value at or beyond the
/// top of a mode's working range (2.5 cells, so 500 milli-g in `Coarse` and
/// 50 in `Fine`) gives 4, and one at or beyond its bottom gives 0.
pub proof fn cell_clamped_at_range_ends(v: int, mode: Mode)
    ensures
        0 <= cell_of(v, mode.divisor_spec()) <= 4,
        2 * v >= 5 * mode.divisor_spec() ==> cell_of(v, mode.divisor_spec()) == 4,
        2 * v <= -5 * mode.divisor_spec() ==> cell_of(v, mode.divisor_spec()) == 0,
{
    let d = mode.divisor_spec();
    if 2 * v >= 5 * d {
        assert((2 * v + 5 * d) / (2 * d) >= 4) by (nonlinear_arith)
            requires
                2 * v >= 5 * d,
                d > 0,
        ;
    }
    if 2 * v <= -5 * d {
        assert((2 * v + 5 * d) / (2 * d) <= 0) by (nonlinear_arith)
            requires
                2 * v <= -5 * d,
                d > 0,
        ;
    }
}

/// Display-frame axes whose out-of-plane value is negative light no cell,
/// whatever the in-plane values and the mode.
pub proof fn face_down_is_blank(axes: (int, int, int), mode: Mode)
    requires
        axes.2 < 0,
    ensures
        bubble_at(axes, mode) == None::<(int, int)>,
        forall|g: Grid, i: int, j: int|
            shows(g, bubble_at(axes, mode)) && 0 <= i < 5 && 0 <= j < 5 ==> #[trigger] g[i][j]
                == 0,
{
}

/// For fixed display-frame axes and mode the grid is determined: any two
/// grids that show the computed cell are equal.
pub proof fn grid_is_determined(axes: (int, int, int), mode: Mode, g1: Grid, g2: Grid)
    requires
        shows(g1, bubble_at(axes, mode)),
        shows(g2, bubble_at(axes, mode)),
    ensures
        g1 == g2,
{
    assert forall|i: int| 0 <= i < 5 implies g1[i] == g2[i] by {
        assert forall|j: int| 0 <= j < 5 implies g1[i][j] == g2[i][j] by {}
        assert(g1[i] =~= g2[i]);
    }
    assert(g1 =~= g2);
}

} // verus!
