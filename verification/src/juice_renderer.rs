use vstd::prelude::*;
use crate::simulation::{SimGrid, SimGridCellType};

verus! {

/// The row-major rank of a cell in a grid with `cols` columns.
pub open spec fn cell_rank(cell: (u16, u16), cols: int) -> int {
    cell.0 * cols + cell.1
}

/// Whether the cell at (row, col) is a solid cell of the grid.
pub open spec fn is_solid_cell(grid: &SimGrid, row: int, col: int) -> bool {
    grid.in_bounds(row, col) && grid.cell_type@[row]@[col] == SimGridCellType::Solid
}

/// The (row, column) coordinates of every solid cell of the grid, row by row and left to right
/// within a row: the cells drawn as solid blocks.
pub fn solid_cells(grid: &SimGrid) -> (cells: Vec<(u16, u16)>)
    requires
        grid.wf(),
    ensures
        forall|k: int| 0 <= k < cells@.len() ==> #[trigger] is_solid_cell(grid, cells@[k].0 as int, cells@[k].1 as int),
        forall|row: u16, col: u16| is_solid_cell(grid, row as int, col as int) ==> #[trigger] cells@.contains((row, col)),
        forall|a: int, b: int| 0 <= a < b < cells@.len() ==>
            cell_rank(#[trigger] cells@[a], grid.dimensions.1 as int) < cell_rank(#[trigger] cells@[b], grid.dimensions.1 as int),
{
    let mut cells: Vec<(u16, u16)> = Vec::new();
    let rows: u16 = grid.dimensions.0;
    let cols: u16 = grid.dimensions.1;
    let mut row: u16 = 0;
    while row < rows
        invariant
            grid.wf(),
            rows == grid.dimensions.0,
            cols == grid.dimensions.1,
            row <= rows,
            forall|k: int| 0 <= k < cells@.len() ==> #[trigger] is_solid_cell(grid, cells@[k].0 as int, cells@[k].1 as int),
            forall|k: int| 0 <= k < cells@.len() ==> #[trigger] cells@[k].0 < row,
            forall|r: u16, c: u16| r < row && is_solid_cell(grid, r as int, c as int) ==> #[trigger] cells@.contains((r, c)),
            forall|a: int, b: int| 0 <= a < b < cells@.len() ==>
                cell_rank(#[trigger] cells@[a], cols as int) < cell_rank(#[trigger] cells@[b], cols as int),
        decreases rows - row,
    {
        let mut col: u16 = 0;
        let ghost row_start = cells@.len();
        while col < cols
            invariant
                grid.wf(),
                rows == grid.dimensions.0,
                cols == grid.dimensions.1,
                row < rows,
                col <= cols,
                row_start <= cells@.len(),
                forall|k: int| 0 <= k < cells@.len() ==> #[trigger] is_solid_cell(grid, cells@[k].0 as int, cells@[k].1 as int),
                forall|k: int| 0 <= k < row_start ==> #[trigger] cells@[k].0 < row,
                forall|k: int| row_start <= k < cells@.len() ==> #[trigger] cells@[k].0 == row && cells@[k].1 < col,
                forall|r: u16, c: u16| r < row && is_solid_cell(grid, r as int, c as int) ==> #[trigger] cells@.contains((r, c)),
                forall|c: u16| c < col && is_solid_cell(grid, row as int, c as int) ==> #[trigger] cells@.contains((row, c)),
                forall|a: int, b: int| 0 <= a < b < cells@.len() ==>
                    cell_rank(#[trigger] cells@[a], cols as int) < cell_rank(#[trigger] cells@[b], cols as int),
            decreases cols - col,
        {
            let ghost before = cells@;
            assert(forall|r: u16, c: u16| r < row && is_solid_cell(grid, r as int, c as int) ==> #[trigger] before.contains((r, c)));
            assert(forall|c: u16| c < col && is_solid_cell(grid, row as int, c as int) ==> #[trigger] before.contains((row, c)));
            let solid: bool = match grid.cell_type[row as usize][col as usize] {
                SimGridCellType::Solid => true,
                _ => false,
            };
            if solid {
                proof {
                    assert forall|k: int| 0 <= k < before.len() implies
                        cell_rank(before[k], cols as int) < cell_rank((row, col), cols as int) by {
                        if k < row_start {
                            assert(before[k].0 < row);
                            assert(before[k].1 < cols) by {
                                assert(is_solid_cell(grid, before[k].0 as int, before[k].1 as int));
                            }
                            assert(before[k].0 * cols + cols <= row * cols) by (nonlinear_arith)
                                requires before[k].0 < row, 0 <= cols;
                        }
                    }
                }
                cells.push((row, col));
                proof {
                    assert forall|r: u16, c: u16| r < row && is_solid_cell(grid, r as int, c as int) implies #[trigger] cells@.contains((r, c)) by {
                        assert(before.contains((r, c)));
                        let k: int = choose|k: int| 0 <= k < before.len() && before[k] == (r, c);
                        assert(cells@[k] == (r, c));
                    }
                    assert forall|c: u16| c < col + 1 && is_solid_cell(grid, row as int, c as int) implies #[trigger] cells@.contains((row, c)) by {
                        if c < col {
                            assert(before.contains((row, c)));
                            let k: int = choose|k: int| 0 <= k < before.len() && before[k] == (row, c);
                            assert(cells@[k] == (row, c));
                        } else {
                            assert(cells@[before.len() as int] == (row, c));
                        }
                    }
                }
            }
            col = col + 1;
        }
        row = row + 1;
    }
    cells
}

/// Whether the cell at (`cell_row`, `cell_col`) takes the even colour of the checkerboard that
/// shows which cell each particle sits in.
pub fn is_even_grid_cell(cell_row: usize, cell_col: usize) -> (even: bool)
    requires
        cell_row + cell_col <= usize::MAX,
    ensures
        even == ((cell_row + cell_col) % 2 == 0),
{
    (cell_row + cell_col) % 2 == 0
}

/// The rules particles can be coloured by.
#[derive(Debug, Clone, Copy, PartialEq, Eq, Structural)]
pub enum FluidColorRenderType {
    Arbitrary,
    Velocity,
    Density,
    GridCell,
    Spume,
}

/// The colouring rule picked in the interface's "Color by" list (Velocity, Density, Pressure,
/// None). There is no pressure colouring among the rules, so the third entry is given the
/// density-based spume colouring; every position past it gives one flat colour.
pub open spec fn spec_color_render_type_from_index(index: usize) -> FluidColorRenderType {
    if index == 0 {
        FluidColorRenderType::Velocity
    } else if index == 1 {
        FluidColorRenderType::Density
    } else if index == 2 {
        FluidColorRenderType::Spume
    } else {
        FluidColorRenderType::Arbitrary
    }
}

impl FluidColorRenderType {
    /// The colouring rule at a position of the interface's "Color by" list.
    pub fn from_ui_index(index: usize) -> (res: FluidColorRenderType)
        ensures
            res == spec_color_render_type_from_index(index),
    {
        match index {
            0 => FluidColorRenderType::Velocity,
            1 => FluidColorRenderType::Density,
            2 => FluidColorRenderType::Spume,
            _ => FluidColorRenderType::Arbitrary,
        }
    }
}

} // verus!
