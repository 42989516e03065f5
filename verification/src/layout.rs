//! The geometry of a grid as plain mathematics: which cell stands where, and
//! which cell a point of the surface belongs to.

use crate::category::{category_of, ColorCategory};
use crate::label::label_text;
use vstd::arithmetic::div_mod::{lemma_fundamental_div_mod, lemma_fundamental_div_mod_converse};
use vstd::prelude::*;

verus! {

/// What a cell is: its rectangle on the surface, its fill category and its label.
pub struct CellView {
    pub origin_x: int,
    pub origin_y: int,
    pub width: int,
    pub height: int,
    pub category: ColorCategory,
    pub label: Seq<char>,
}

impl CellView {
    /// The point lies in the cell's rectangle, all four edges included.
    pub open spec fn contains(self, x: int, y: int) -> bool {
        &&& self.origin_x <= x <= self.origin_x + self.width
        &&& self.origin_y <= y <= self.origin_y + self.height
    }

    /// The point lies in the cell's rectangle and on none of its edges.
    pub open spec fn strictly_contains(self, x: int, y: int) -> bool {
        &&& self.origin_x < x < self.origin_x + self.width
        &&& self.origin_y < y < self.origin_y + self.height
    }

    /// The point lies in the cell's rectangle, the left and top edges included, the
    /// right and bottom edges left to the neighbours.
    pub open spec fn owns(self, x: int, y: int) -> bool {
        &&& self.origin_x <= x < self.origin_x + self.width
        &&& self.origin_y <= y < self.origin_y + self.height
    }
}

/// The shape of a grid: how many cells it has each way, and the size they share.
pub struct Layout {
    pub rows: nat,
    pub columns: nat,
    pub cell_width: nat,
    pub cell_height: nat,
}

impl Layout {
    /// A grid has at least one cell, and its cells have an area.
    pub open spec fn valid(self) -> bool {
        &&& self.rows > 0
        &&& self.columns > 0
        &&& self.cell_width > 0
        &&& self.cell_height > 0
    }

    /// The width of the whole surface in pixels.
    pub open spec fn total_width(self) -> nat {
        self.columns * self.cell_width
    }

    /// The height of the whole surface in pixels.
    pub open spec fn total_height(self) -> nat {
        self.rows * self.cell_height
    }

    /// The number of cells.
    pub open spec fn cell_count(self) -> nat {
        self.rows * self.columns
    }

    /// There is a cell at `row`, `column`.
    pub open spec fn has_cell(self, row: int, column: int) -> bool {
        0 <= row < self.rows && 0 <= column < self.columns
    }

    /// The place of the cell at `row`, `column` in row-major order.
    pub open spec fn index_of(self, row: int, column: int) -> int {
        row * self.columns + column
    }

    /// The row of the cell that stands at `index` in row-major order.
    pub open spec fn row_of(self, index: int) -> int {
        index / (self.columns as int)
    }

    /// The column of the cell that stands at `index` in row-major order.
    pub open spec fn column_of(self, index: int) -> int {
        index % (self.columns as int)
    }

    /// The cell at `row`, `column`.
    pub open spec fn cell(self, row: int, column: int) -> CellView {
        CellView {
            origin_x: column * self.cell_width,
            origin_y: row * self.cell_height,
            width: self.cell_width as int,
            height: self.cell_height as int,
            category: category_of(row, column),
            label: label_text(row, column),
        }
    }

    /// The cell that stands at `index` in row-major order.
    pub open spec fn cell_at_index(self, index: int) -> CellView {
        self.cell(self.row_of(index), self.column_of(index))
    }

    /// The point lies on the surface.
    pub open spec fn covers(self, x: int, y: int) -> bool {
        0 <= x < self.total_width() && 0 <= y < self.total_height()
    }

    /// The row of the cell that owns a point of the surface at height `y`.
    pub open spec fn row_at(self, y: int) -> int {
        y / (self.cell_height as int)
    }

    /// The column of the cell that owns a point of the surface at offset `x`.
    pub open spec fn column_at(self, x: int) -> int {
        x / (self.cell_width as int)
    }
}

/// A strip of `count` slots of `size` pixels each: slot `slot` starts at or after
/// 0 and ends within the strip.
pub proof fn lemma_slot_within_strip(size: int, count: int, slot: int)
    requires
        size > 0,
        0 <= slot < count,
    ensures
        0 <= slot * size,
        (slot + 1) * size == slot * size + size,
        (slot + 1) * size <= count * size,
{
    assert(0 <= slot * size) by (nonlinear_arith)
        requires
            size > 0,
            0 <= slot,
    ;
    assert((slot + 1) * size == slot * size + size) by (nonlinear_arith);
    assert((slot + 1) * size <= count * size) by (nonlinear_arith)
        requires
            size > 0,
            slot + 1 <= count,
    ;
}

/// A point of a strip of `count` slots lies in the slot that its quotient by the
/// slot size names.
pub proof fn lemma_slot_of_point(size: int, count: int, point: int)
    requires
        size > 0,
        0 <= point < count * size,
    ensures
        0 <= point / size < count,
        (point / size) * size <= point < (point / size) * size + size,
{
    let slot = point / size;
    lemma_fundamental_div_mod(point, size);
    assert(size * slot == slot * size) by (nonlinear_arith);
    assert(0 <= point % size < size);
    assert(0 <= slot) by (nonlinear_arith)
        requires
            size > 0,
            slot * size + size > 0,
    ;
    assert(slot < count) by (nonlinear_arith)
        requires
            size > 0,
            slot * size < count * size,
    ;
}

/// A point between the start of a slot and the start of the next one has that
/// slot as its quotient by the slot size.
pub proof fn lemma_point_in_slot(size: int, slot: int, point: int)
    requires
        size > 0,
        slot * size <= point < slot * size + size,
    ensures
        point / size == slot,
{
    lemma_fundamental_div_mod_converse(point, size, slot, point - slot * size);
}

/// Row-major order numbers the cells without gaps: the cell at `row`, `column`
/// has an index below the cell count, and that index leads back to `row` and
/// `column`.
pub proof fn lemma_index_of_cell(layout: Layout, row: int, column: int)
    requires
        layout.valid(),
        layout.has_cell(row, column),
    ensures
        0 <= layout.index_of(row, column) < layout.cell_count(),
        layout.row_of(layout.index_of(row, column)) == row,
        layout.column_of(layout.index_of(row, column)) == column,
{
    let columns = layout.columns as int;
    lemma_slot_within_strip(columns, layout.rows as int, row);
    lemma_fundamental_div_mod_converse(layout.index_of(row, column), columns, row, column);
}

/// Every index below the cell count is the index of exactly the cell at its
/// quotient and remainder by the column count.
pub proof fn lemma_cell_of_index(layout: Layout, index: int)
    requires
        layout.valid(),
        0 <= index < layout.cell_count(),
    ensures
        layout.has_cell(layout.row_of(index), layout.column_of(index)),
        layout.index_of(layout.row_of(index), layout.column_of(index)) == index,
{
    let columns = layout.columns as int;
    lemma_slot_of_point(columns, layout.rows as int, index);
    lemma_fundamental_div_mod(index, columns);
    assert(columns * (index / columns) == (index / columns) * columns) by (nonlinear_arith);
}

/// Every cell starts at its column times the cell width and its row times the
/// cell height, has the size that all cells share, and is the cell that stands
/// at its row-major index.
pub proof fn lemma_cell_origin(layout: Layout, row: int, column: int)
    requires
        layout.valid(),
        layout.has_cell(row, column),
    ensures
        layout.cell(row, column).origin_x == column * layout.cell_width,
        layout.cell(row, column).origin_y == row * layout.cell_height,
        layout.cell(row, column).width == layout.cell_width,
        layout.cell(row, column).height == layout.cell_height,
        layout.cell_at_index(layout.index_of(row, column)) == layout.cell(row, column),
{
    lemma_index_of_cell(layout, row, column);
}

/// The cells leave no gap: a point of the surface is owned by the cell whose row
/// and column are the quotients of its coordinates by the cell size.
pub proof fn lemma_surface_point_has_owner(layout: Layout, x: int, y: int)
    requires
        layout.valid(),
        layout.covers(x, y),
    ensures
        layout.has_cell(layout.row_at(y), layout.column_at(x)),
        layout.cell(layout.row_at(y), layout.column_at(x)).owns(x, y),
{
    lemma_slot_of_point(layout.cell_width as int, layout.columns as int, x);
    lemma_slot_of_point(layout.cell_height as int, layout.rows as int, y);
}

/// The cells do not overlap and stay on the surface: a point that a cell owns
/// lies on the surface, and no other cell owns it.
pub proof fn lemma_owner_is_unique(layout: Layout, row: int, column: int, x: int, y: int)
    requires
        layout.valid(),
        layout.has_cell(row, column),
        layout.cell(row, column).owns(x, y),
    ensures
        layout.covers(x, y),
        layout.row_at(y) == row,
        layout.column_at(x) == column,
{
    lemma_slot_within_strip(layout.cell_width as int, layout.columns as int, column);
    lemma_slot_within_strip(layout.cell_height as int, layout.rows as int, row);
    lemma_point_in_slot(layout.cell_width as int, column, x);
    lemma_point_in_slot(layout.cell_height as int, row, y);
}

} // verus!
