use vstd::prelude::*;

use crate::ray::{view3, Point3};

verus! {

/// Number of buttons in a row and of rows in the on-screen grid.
pub const GRID_SIDE: u32 = 4;

/// The grid cell `(column, row)`, both counted from 1, of the button created
/// `k`-th; rows are filled one after the other.
pub open spec fn cell_of(k: int) -> (u32, u32) {
    ((k % (GRID_SIDE as int) + 1) as u32, (k / (GRID_SIDE as int) + 1) as u32)
}

/// The grid cells of the buttons in the order they are created, which is
/// also the order in which picking numbers them.
pub fn button_cells() -> (r: Vec<(u32, u32)>)
    ensures
        r@.len() == GRID_SIDE * GRID_SIDE,
        forall|k: int| 0 <= k < r@.len() ==> #[trigger] r@[k] == cell_of(k),
{
    let mut cells: Vec<(u32, u32)> = Vec::new();
    let mut row: u32 = 1;
    while row <= GRID_SIDE
        invariant
            1 <= row <= GRID_SIDE + 1,
            cells@.len() == (row - 1) * GRID_SIDE,
            forall|k: int| 0 <= k < cells@.len() ==> #[trigger] cells@[k] == cell_of(k),
        decreases GRID_SIDE + 1 - row,
    {
        let mut column: u32 = 1;
        while column <= GRID_SIDE
            invariant
                1 <= row <= GRID_SIDE,
                1 <= column <= GRID_SIDE + 1,
                cells@.len() == (row - 1) * GRID_SIDE + column - 1,
                forall|k: int| 0 <= k < cells@.len() ==> #[trigger] cells@[k] == cell_of(k),
            decreases GRID_SIDE + 1 - column,
        {
            proof {
                let k = (row - 1) * GRID_SIDE + column - 1;
                assert(k % 4 == column - 1 && k / 4 == row - 1) by (nonlinear_arith)
                    requires k == (row - 1) * 4 + column - 1, 1 <= column <= 4;
            }
            cells.push((column, row));
            column = column + 1;
        }
        row = row + 1;
    }
    cells
}

/// The grid cell of the button that picking reported as candidate `index`.
pub fn button_cell(index: usize) -> (r: Option<(u32, u32)>)
    ensures
        index < GRID_SIDE * GRID_SIDE ==> r == Some(cell_of(index as int)),
        index >= GRID_SIDE * GRID_SIDE ==> r is None,
{
    if index < 16 {
        let i: u32 = index as u32;
        Some((i % GRID_SIDE + 1, i / GRID_SIDE + 1))
    } else {
        None
    }
}

/// Distance between the centres of neighbouring buttons, in micrometres.
pub const BUTTON_PITCH_UM: i64 = 20_000;

/// Offset of the cell before the first from the panel's centre, in
/// micrometres.
pub const GRID_ORIGIN_UM: i64 = -50_000;

/// How far the buttons stand out of the panel, in micrometres.
pub const BUTTON_RAISE_UM: i64 = 100;

/// The centre of the button in a grid cell, relative to the panel's centre,
/// in micrometres.
pub fn button_position(column: u32, row: u32) -> (r: Point3)
    requires
        column <= GRID_SIDE,
        row <= GRID_SIDE,
    ensures
        view3(r) == (column * BUTTON_PITCH_UM + GRID_ORIGIN_UM, row * BUTTON_PITCH_UM + GRID_ORIGIN_UM, BUTTON_RAISE_UM as int),
{
    Point3 {
        x: column as i64 * BUTTON_PITCH_UM + GRID_ORIGIN_UM,
        y: row as i64 * BUTTON_PITCH_UM + GRID_ORIGIN_UM,
        z: BUTTON_RAISE_UM,
    }
}

} // verus!
