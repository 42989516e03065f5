//! Following the pointer: which cell it is over, and where the tooltip goes.

use crate::grid::{Cell, Grid};
use crate::label::label_text;
use crate::layout::{
    lemma_cell_of_index, lemma_index_of_cell, lemma_owner_is_unique, lemma_point_in_slot,
    lemma_slot_within_strip, lemma_surface_point_has_owner, CellView, Layout,
};
use vstd::arithmetic::div_mod::lemma_fundamental_div_mod_converse;
use vstd::prelude::*;

verus! {

/// What the tooltip element is asked to show.
#[derive(Debug, PartialEq, Eq)]
pub enum TooltipState {
    /// The pointer is over no cell: the tooltip is not shown.
    Hidden,
    /// The pointer is over a cell: the tooltip shows `text` with its top-left
    /// corner at `left`, `top` in page coordinates.
    Visible { left: i64, top: i64, text: String },
}

/// A tooltip state as plain values.
pub enum TooltipView {
    Hidden,
    Visible { left: int, top: int, text: Seq<char> },
}

impl View for TooltipState {
    type V = TooltipView;

    open spec fn view(&self) -> TooltipView {
        match self {
            TooltipState::Hidden => TooltipView::Hidden,
            TooltipState::Visible { left, top, text } => TooltipView::Visible {
                left: *left as int,
                top: *top as int,
                text: text@,
            },
        }
    }
}

impl Clone for TooltipState {
    fn clone(&self) -> (copy: Self)
        ensures
            copy == *self,
    {
        match self {
            TooltipState::Hidden => TooltipState::Hidden,
            TooltipState::Visible { left, top, text } => TooltipState::Visible {
                left: *left,
                top: *top,
                text: text.clone(),
            },
        }
    }
}

impl Default for TooltipState {
    /// A tooltip starts out hidden.
    fn default() -> (state: Self)
        ensures
            state == TooltipState::Hidden,
    {
        TooltipState::Hidden
    }
}

/// The quotient rounded towards zero, as machine division rounds it.
pub open spec fn truncated_quotient(dividend: int, divisor: int) -> int
    recommends
        divisor > 0,
{
    if dividend >= 0 {
        dividend / divisor
    } else {
        -((-dividend) / divisor)
    }
}

/// The index at which the tracker looks for the cell under the pointer: the
/// quotients of the two coordinates by the cell size, combined in row-major
/// order without checking either against the grid.
pub open spec fn candidate_index(layout: Layout, x: int, y: int) -> int {
    truncated_quotient(x, layout.cell_width as int) + truncated_quotient(
        y,
        layout.cell_height as int,
    ) * layout.columns
}

/// The tracker finds a cell at the candidate index, and the pointer lies in that
/// cell's rectangle, edges included.
pub open spec fn candidate_hit(layout: Layout, x: int, y: int) -> bool {
    let index = candidate_index(layout, x, y);
    0 <= index < layout.cell_count() && layout.cell_at_index(index).contains(x, y)
}

/// The tooltip for `cell`: it shows the cell's label and sits directly above
/// the cell, given where the surface lies in the page and how tall the tooltip
/// element is.
pub open spec fn tooltip_above(
    cell: CellView,
    surface_offset_x: int,
    surface_offset_y: int,
    tooltip_height: int,
) -> TooltipView {
    TooltipView::Visible {
        left: cell.origin_x + surface_offset_x,
        top: cell.origin_y + surface_offset_y - tooltip_height,
        text: cell.label,
    }
}

/// The tooltip for a pointer at `x`, `y`: above the cell that owns the point if
/// the point lies on the surface, hidden if it does not.
pub open spec fn tooltip_for(
    layout: Layout,
    x: int,
    y: int,
    surface_offset_x: int,
    surface_offset_y: int,
    tooltip_height: int,
) -> TooltipView {
    if layout.covers(x, y) {
        tooltip_above(
            layout.cell(layout.row_at(y), layout.column_at(x)),
            surface_offset_x,
            surface_offset_y,
            tooltip_height,
        )
    } else {
        TooltipView::Hidden
    }
}

/// The tooltip as the tracker works it out: it looks up the cell at the
/// candidate index and shows that cell's tooltip if the cell is there and holds
/// the pointer, and hides the tooltip if not.
pub open spec fn tooltip_by_lookup(
    layout: Layout,
    x: int,
    y: int,
    surface_offset_x: int,
    surface_offset_y: int,
    tooltip_height: int,
) -> TooltipView {
    if candidate_hit(layout, x, y) {
        tooltip_above(
            layout.cell_at_index(candidate_index(layout, x, y)),
            surface_offset_x,
            surface_offset_y,
            tooltip_height,
        )
    } else {
        TooltipView::Hidden
    }
}

/// A quotient rounded towards zero lies between zero and the dividend.
pub proof fn lemma_truncated_quotient_bounds(dividend: int, divisor: int)
    requires
        divisor > 0,
    ensures
        dividend >= 0 ==> 0 <= truncated_quotient(dividend, divisor) <= dividend,
        dividend < 0 ==> dividend <= truncated_quotient(dividend, divisor) <= 0,
{
    let size = if dividend >= 0 {
        dividend
    } else {
        -dividend
    };
    assert(0 <= size / divisor <= size) by (nonlinear_arith)
        requires
            divisor > 0,
            size >= 0,
    ;
}

/// A point between the start of a slot and the start of the next one, both
/// included, is not negative, and its quotient by the slot size is that slot or
/// the next; where it is that slot, the point lies before the start of the next.
proof fn lemma_point_on_closed_slot(size: int, slot: int, point: int)
    requires
        size > 0,
        0 <= slot,
        slot * size <= point <= slot * size + size,
    ensures
        0 <= point,
        slot <= point / size <= slot + 1,
        point / size == slot ==> point < slot * size + size,
{
    lemma_slot_within_strip(size, slot + 1, slot);
    if point < slot * size + size {
        lemma_point_in_slot(size, slot, point);
    } else {
        lemma_fundamental_div_mod_converse(point, size, slot + 1, 0);
    }
}

/// The tracker finds a cell whose rectangle holds the pointer if and only if the
/// pointer lies on the surface, and the cell it then finds is the one that owns
/// the point.
pub proof fn lemma_candidate_is_owner(layout: Layout, x: int, y: int)
    requires
        layout.valid(),
    ensures
        candidate_hit(layout, x, y) == layout.covers(x, y),
        layout.covers(x, y) ==> candidate_index(layout, x, y) == layout.index_of(
            layout.row_at(y),
            layout.column_at(x),
        ),
        layout.covers(x, y) ==> layout.cell_at_index(candidate_index(layout, x, y)) == layout.cell(
            layout.row_at(y),
            layout.column_at(x),
        ),
{
    let width = layout.cell_width as int;
    let height = layout.cell_height as int;
    let columns = layout.columns as int;
    let rows = layout.rows as int;
    let index = candidate_index(layout, x, y);
    if layout.covers(x, y) {
        lemma_surface_point_has_owner(layout, x, y);
        lemma_index_of_cell(layout, layout.row_at(y), layout.column_at(x));
        assert(index == layout.index_of(layout.row_at(y), layout.column_at(x)));
    }
    if candidate_hit(layout, x, y) {
        let row = layout.row_of(index);
        let column = layout.column_of(index);
        lemma_cell_of_index(layout, index);
        lemma_point_on_closed_slot(width, column, x);
        lemma_point_on_closed_slot(height, row, y);
        lemma_slot_within_strip(columns, rows, row);
        lemma_slot_within_strip(width, columns, column);
        lemma_slot_within_strip(height, rows, row);
        // The two quotients name the same index as `row` and `column`, and each is
        // its counterpart or one more: they are `row` and `column`, so the pointer
        // lies before the far edges of a cell of the grid.
        assert(index == x / width + (y / height) * columns);
        assert(y / height == row && x / width == column);
        assert(layout.covers(x, y));
    }
}

/// The lookup is exact: what the tracker works out by candidate index is the
/// tooltip of the cell that owns the pointer's position, for every position on
/// or off the surface.
pub proof fn lemma_lookup_is_exact(
    layout: Layout,
    x: int,
    y: int,
    surface_offset_x: int,
    surface_offset_y: int,
    tooltip_height: int,
)
    requires
        layout.valid(),
    ensures
        tooltip_by_lookup(layout, x, y, surface_offset_x, surface_offset_y, tooltip_height)
            == tooltip_for(layout, x, y, surface_offset_x, surface_offset_y, tooltip_height),
{
    lemma_candidate_is_owner(layout, x, y);
}

/// A pointer over a cell shows that cell's tooltip: for a point that the cell at
/// `row`, `column` owns, the tooltip is visible, carries that cell's label and
/// sits above that cell.
pub proof fn lemma_pointer_over_cell(
    layout: Layout,
    row: int,
    column: int,
    x: int,
    y: int,
    surface_offset_x: int,
    surface_offset_y: int,
    tooltip_height: int,
)
    requires
        layout.valid(),
        layout.has_cell(row, column),
        layout.cell(row, column).owns(x, y),
    ensures
        tooltip_for(layout, x, y, surface_offset_x, surface_offset_y, tooltip_height)
            == tooltip_above(
            layout.cell(row, column),
            surface_offset_x,
            surface_offset_y,
            tooltip_height,
        ),
        candidate_hit(layout, x, y),
        candidate_index(layout, x, y) == layout.index_of(row, column),
{
    lemma_owner_is_unique(layout, row, column, x, y);
    lemma_candidate_is_owner(layout, x, y);
}

/// A pointer strictly inside a cell's rectangle shows a visible tooltip with that
/// cell's label, placed above that cell.
pub proof fn lemma_pointer_strictly_inside_cell(
    layout: Layout,
    row: int,
    column: int,
    x: int,
    y: int,
    surface_offset_x: int,
    surface_offset_y: int,
    tooltip_height: int,
)
    requires
        layout.valid(),
        layout.has_cell(row, column),
        layout.cell(row, column).strictly_contains(x, y),
    ensures
        tooltip_for(layout, x, y, surface_offset_x, surface_offset_y, tooltip_height)
            == (TooltipView::Visible {
            left: column * layout.cell_width + surface_offset_x,
            top: row * layout.cell_height + surface_offset_y - tooltip_height,
            text: label_text(row, column),
        }),
{
    lemma_pointer_over_cell(
        layout,
        row,
        column,
        x,
        y,
        surface_offset_x,
        surface_offset_y,
        tooltip_height,
    );
}

/// A pointer off the surface hides the tooltip: left of it or above it, or at or
/// beyond its right or bottom edge, the lookup finds no cell that holds the
/// pointer.
pub proof fn lemma_pointer_off_surface(
    layout: Layout,
    x: int,
    y: int,
    surface_offset_x: int,
    surface_offset_y: int,
    tooltip_height: int,
)
    requires
        layout.valid(),
        x < 0 || x >= layout.total_width() || y < 0 || y >= layout.total_height(),
    ensures
        tooltip_for(layout, x, y, surface_offset_x, surface_offset_y, tooltip_height)
            == TooltipView::Hidden,
        !candidate_hit(layout, x, y),
{
    lemma_candidate_is_owner(layout, x, y);
}

/// Locating is repeatable: two states that both answer the same pointer
/// position on the same grid, with the same offsets and tooltip height, show the
/// same thing.
pub proof fn lemma_locate_is_repeatable(
    layout: Layout,
    x: int,
    y: int,
    surface_offset_x: int,
    surface_offset_y: int,
    tooltip_height: int,
    first: TooltipState,
    second: TooltipState,
)
    requires
        first@ == tooltip_for(layout, x, y, surface_offset_x, surface_offset_y, tooltip_height),
        second@ == tooltip_for(layout, x, y, surface_offset_x, surface_offset_y, tooltip_height),
    ensures
        first@ == second@,
        first is Hidden <==> second is Hidden,
{
}

/// Maps the pointer to the cell under it and places the tooltip directly above
/// that cell.
///
/// `pointer_x` and `pointer_y` are relative to the top-left corner of the
/// surface, `surface_offset_x` and `surface_offset_y` say where that corner
/// lies in the page, and `tooltip_height` is the measured height of the tooltip
/// element. A pointer that is over no cell hides the tooltip.
pub fn locate(
    pointer_x: i32,
    pointer_y: i32,
    grid: &Grid,
    surface_offset_x: i32,
    surface_offset_y: i32,
    tooltip_height: i32,
) -> (state: TooltipState)
    ensures
        state@ == tooltip_for(
            grid@,
            pointer_x as int,
            pointer_y as int,
            surface_offset_x as int,
            surface_offset_y as int,
            tooltip_height as int,
        ),
        state@ == tooltip_by_lookup(
            grid@,
            pointer_x as int,
            pointer_y as int,
            surface_offset_x as int,
            surface_offset_y as int,
            tooltip_height as int,
        ),
{
    let cell_width: i64 = grid.cell_width() as i64;
    let cell_height: i64 = grid.cell_height() as i64;
    let column_count: i64 = grid.column_count() as i64;
    let candidate_column: i64 = pointer_x as i64 / cell_width;
    let candidate_row: i64 = pointer_y as i64 / cell_height;
    proof {
        lemma_truncated_quotient_bounds(pointer_x as int, cell_width as int);
        lemma_truncated_quotient_bounds(pointer_y as int, cell_height as int);
        assert(-0x8000_0000 * 0xffff_ffff <= candidate_row * column_count <= 0x7fff_ffff
            * 0xffff_ffff) by (nonlinear_arith)
            requires
                -0x8000_0000 <= candidate_row <= 0x7fff_ffff,
                0 < column_count <= 0xffff_ffff,
        ;
        lemma_candidate_is_owner(grid@, pointer_x as int, pointer_y as int);
    }
    let index: i64 = candidate_column + candidate_row * column_count;
    match grid.cell_at_index(index) {
        None => TooltipState::Hidden,
        Some(cell) => {
            if cell.is_inside(pointer_x, pointer_y) {
                place_above(cell, surface_offset_x, surface_offset_y, tooltip_height)
            } else {
                TooltipState::Hidden
            }
        },
    }
}

/// The tooltip for a cell that lies within reach of the pointer.
fn place_above(cell: &Cell, surface_offset_x: i32, surface_offset_y: i32, tooltip_height: i32) -> (state:
    TooltipState)
    requires
        cell.origin_x <= i32::MAX,
        cell.origin_y <= i32::MAX,
    ensures
        state@ == tooltip_above(
            cell@,
            surface_offset_x as int,
            surface_offset_y as int,
            tooltip_height as int,
        ),
{
    TooltipState::Visible {
        left: cell.origin_x as i64 + surface_offset_x as i64,
        top: cell.origin_y as i64 + surface_offset_y as i64 - tooltip_height as i64,
        text: cell.label.clone(),
    }
}

/// The state for a pointer that has left the surface.
pub fn clear() -> (state: TooltipState)
    ensures
        state == TooltipState::Hidden,
        state@ == TooltipView::Hidden,
{
    TooltipState::Hidden
}

} // verus!
