//! The grid itself: its cells in row-major order, built once and only read
//! afterwards.

use crate::category::ColorCategory;
use crate::label::label_for;
use crate::layout::{lemma_index_of_cell, CellView, Layout};
use vstd::prelude::*;

verus! {

/// One cell of the grid.
#[derive(Debug, PartialEq, Eq)]
pub struct Cell {
    /// Left edge, in pixels from the left edge of the surface.
    pub origin_x: u64,
    /// Top edge, in pixels from the top edge of the surface.
    pub origin_y: u64,
    pub width: u32,
    pub height: u32,
    pub category: ColorCategory,
    /// The text that the tooltip shows for this cell.
    pub label: String,
}

impl View for Cell {
    type V = CellView;

    open spec fn view(&self) -> CellView {
        CellView {
            origin_x: self.origin_x as int,
            origin_y: self.origin_y as int,
            width: self.width as int,
            height: self.height as int,
            category: self.category,
            label: self.label@,
        }
    }
}

impl Clone for Cell {
    fn clone(&self) -> (copy: Self)
        ensures
            copy == *self,
    {
        Cell {
            origin_x: self.origin_x,
            origin_y: self.origin_y,
            width: self.width,
            height: self.height,
            category: self.category,
            label: self.label.clone(),
        }
    }
}

/// Whether `point` lies between `origin` and `origin + extent`, both included.
fn spans(origin: u64, extent: u32, point: i32) -> (within: bool)
    ensures
        within == (origin <= point <= origin + extent),
{
    if point < 0 {
        false
    } else {
        let at: u64 = point as u64;
        origin <= at && at - origin <= extent as u64
    }
}

impl Cell {
    /// Whether the point lies in this cell's rectangle, edges included.
    pub fn is_inside(&self, x: i32, y: i32) -> (inside: bool)
        ensures
            inside == self@.contains(x as int, y as int),
    {
        spans(self.origin_x, self.width, x) && spans(self.origin_y, self.height, y)
    }
}

/// One rectangle to fill: what the painter is asked to do for one cell.
#[derive(Clone, Copy, Debug, PartialEq, Eq)]
pub struct DrawInstruction {
    pub x: u64,
    pub y: u64,
    pub width: u32,
    pub height: u32,
    pub category: ColorCategory,
}

impl DrawInstruction {
    /// This instruction fills exactly the rectangle of `cell`, in its category.
    pub open spec fn paints(self, cell: CellView) -> bool {
        &&& self.x == cell.origin_x
        &&& self.y == cell.origin_y
        &&& self.width == cell.width
        &&& self.height == cell.height
        &&& self.category == cell.category
    }
}

/// The whole table of cells.
///
/// A grid is fixed by its layout. Its cells are always those of the layout, in
/// row-major order, and nothing changes them once the grid is built: `cells`,
/// `cell` and `cell_at_index` say so of what they hand out.
pub struct Grid {
    row_count: u32,
    column_count: u32,
    cell_width: u32,
    cell_height: u32,
    cells: Vec<Cell>,
}

impl View for Grid {
    type V = Layout;

    closed spec fn view(&self) -> Layout {
        Layout {
            rows: self.row_count as nat,
            columns: self.column_count as nat,
            cell_width: self.cell_width as nat,
            cell_height: self.cell_height as nat,
        }
    }
}

/// The pixel offset of slot `slot` in a strip of slots of `size` pixels.
fn slot_origin(slot: u32, size: u32) -> (origin: u64)
    ensures
        origin == slot * size,
{
    assert(slot * size <= u64::MAX) by (nonlinear_arith)
        requires
            0 <= slot <= u32::MAX,
            0 <= size <= u32::MAX,
    ;
    slot as u64 * size as u64
}

impl Grid {
    /// The cells are those of the layout, in row-major order.
    #[verifier::type_invariant]
    spec fn well_formed(&self) -> bool {
        &&& self@.valid()
        &&& self.cells@.len() == self@.cell_count()
        &&& forall|index: int|
            0 <= index < self.cells@.len() ==> (#[trigger] self.cells@[index])@
                == self@.cell_at_index(index)
    }

    /// Lays out a grid of `row_count` by `column_count` cells of `cell_width` by
    /// `cell_height` pixels.
    pub fn build(row_count: u32, column_count: u32, cell_width: u32, cell_height: u32) -> (grid:
        Grid)
        requires
            row_count > 0,
            column_count > 0,
            cell_width > 0,
            cell_height > 0,
        ensures
            grid@ == (Layout {
                rows: row_count as nat,
                columns: column_count as nat,
                cell_width: cell_width as nat,
                cell_height: cell_height as nat,
            }),
    {
        let ghost layout = Layout {
            rows: row_count as nat,
            columns: column_count as nat,
            cell_width: cell_width as nat,
            cell_height: cell_height as nat,
        };
        let mut cells: Vec<Cell> = Vec::new();
        let mut row: u32 = 0;
        while row < row_count
            invariant
                row <= row_count,
                layout.valid(),
                layout.rows == row_count,
                layout.columns == column_count,
                layout.cell_width == cell_width,
                layout.cell_height == cell_height,
                cells@.len() == row * column_count,
                forall|index: int|
                    0 <= index < cells@.len() ==> (#[trigger] cells@[index])@
                        == layout.cell_at_index(index),
            decreases row_count - row,
        {
            let origin_y: u64 = slot_origin(row, cell_height);
            let mut column: u32 = 0;
            while column < column_count
                invariant
                    row < row_count,
                    column <= column_count,
                    layout.valid(),
                    layout.rows == row_count,
                    layout.columns == column_count,
                    layout.cell_width == cell_width,
                    layout.cell_height == cell_height,
                    origin_y == row * cell_height,
                    cells@.len() == row * column_count + column,
                    forall|index: int|
                        0 <= index < cells@.len() ==> (#[trigger] cells@[index])@
                            == layout.cell_at_index(index),
                decreases column_count - column,
            {
                let cell = Cell {
                    origin_x: slot_origin(column, cell_width),
                    origin_y,
                    width: cell_width,
                    height: cell_height,
                    category: ColorCategory::for_cell(row, column),
                    label: label_for(row, column),
                };
                proof {
                    lemma_index_of_cell(layout, row as int, column as int);
                    assert(cell@ == layout.cell_at_index(cells@.len() as int));
                }
                cells.push(cell);
                column += 1;
            }
            assert((row + 1) * column_count == row * column_count + column_count)
                by (nonlinear_arith);
            row += 1;
        }
        Grid { row_count, column_count, cell_width, cell_height, cells }
    }

    /// The number of rows.
    pub fn row_count(&self) -> (rows: u32)
        ensures
            rows == self@.rows,
            self@.valid(),
    {
        proof {
            use_type_invariant(self);
        }
        self.row_count
    }

    /// The number of columns.
    pub fn column_count(&self) -> (columns: u32)
        ensures
            columns == self@.columns,
            self@.valid(),
    {
        proof {
            use_type_invariant(self);
        }
        self.column_count
    }

    /// The width of every cell in pixels.
    pub fn cell_width(&self) -> (width: u32)
        ensures
            width == self@.cell_width,
            self@.valid(),
    {
        proof {
            use_type_invariant(self);
        }
        self.cell_width
    }

    /// The height of every cell in pixels.
    pub fn cell_height(&self) -> (height: u32)
        ensures
            height == self@.cell_height,
            self@.valid(),
    {
        proof {
            use_type_invariant(self);
        }
        self.cell_height
    }

    /// The width in pixels of the surface that holds the whole grid.
    pub fn total_width(&self) -> (width: u64)
        ensures
            width == self@.total_width(),
    {
        slot_origin(self.column_count, self.cell_width)
    }

    /// The height in pixels of the surface that holds the whole grid.
    pub fn total_height(&self) -> (height: u64)
        ensures
            height == self@.total_height(),
    {
        slot_origin(self.row_count, self.cell_height)
    }

    /// The cells in row-major order: the cell at `row`, `column` stands at
    /// `row * columns + column`.
    pub fn cells(&self) -> (cells: &Vec<Cell>)
        ensures
            self@.valid(),
            cells@.len() == self@.cell_count(),
            forall|index: int|
                0 <= index < cells@.len() ==> (#[trigger] cells@[index])@ == self@.cell_at_index(
                    index,
                ),
    {
        proof {
            use_type_invariant(self);
        }
        &self.cells
    }

    /// The cell that stands at `index` in row-major order, if `index` is at least 0
    /// and below the number of cells.
    pub fn cell_at_index(&self, index: i64) -> (found: Option<&Cell>)
        ensures
            self@.valid(),
            found is Some <==> 0 <= index < self@.cell_count(),
            found is Some ==> found->Some_0@ == self@.cell_at_index(index as int),
    {
        proof {
            use_type_invariant(self);
        }
        if index < 0 || index as u64 >= self.cells.len() as u64 {
            None
        } else {
            Some(&self.cells[index as usize])
        }
    }

    /// The cell at `row`, `column`, if the grid has one there.
    pub fn cell(&self, row: u32, column: u32) -> (found: Option<&Cell>)
        ensures
            self@.valid(),
            found is Some <==> self@.has_cell(row as int, column as int),
            found is Some ==> found->Some_0@ == self@.cell(row as int, column as int),
    {
        proof {
            use_type_invariant(self);
        }
        if row < self.row_count && column < self.column_count {
            let count: usize = self.cells.len();
            proof {
                lemma_index_of_cell(self@, row as int, column as int);
                assert(0 <= row * self.column_count) by (nonlinear_arith);
                assert(row * self.column_count + column < count);
            }
            let index: usize = row as usize * self.column_count as usize + column as usize;
            Some(&self.cells[index])
        } else {
            None
        }
    }

    /// The rectangles to fill, one for each cell, in row-major order.
    pub fn draw_instructions(&self) -> (instructions: Vec<DrawInstruction>)
        ensures
            instructions@.len() == self@.cell_count(),
            forall|index: int|
                0 <= index < instructions@.len() ==> (#[trigger] instructions@[index]).paints(
                    self@.cell_at_index(index),
                ),
    {
        proof {
            use_type_invariant(self);
        }
        let mut instructions: Vec<DrawInstruction> = Vec::new();
        let mut next: usize = 0;
        while next < self.cells.len()
            invariant
                next <= self.cells@.len(),
                instructions@.len() == next,
                forall|index: int|
                    0 <= index < self.cells@.len() ==> (#[trigger] self.cells@[index])@
                        == self@.cell_at_index(index),
                forall|index: int|
                    0 <= index < next ==> (#[trigger] instructions@[index]).paints(
                        self@.cell_at_index(index),
                    ),
            decreases self.cells@.len() - next,
        {
            let cell: &Cell = &self.cells[next];
            instructions.push(
                DrawInstruction {
                    x: cell.origin_x,
                    y: cell.origin_y,
                    width: cell.width,
                    height: cell.height,
                    category: cell.category,
                },
            );
            next += 1;
        }
        instructions
    }
}

} // verus!
