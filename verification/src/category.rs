//! The three fill categories and the diagonal stripe that assigns them to cells.

use vstd::prelude::*;

verus! {

/// One of the three fill categories. Which colour each one is drawn in is up to
/// whoever paints the grid.
#[derive(Clone, Copy, Debug, PartialEq, Eq, Structural, Hash)]
pub enum ColorCategory {
    A,
    B,
    C,
}

/// Where a cell falls in the repeating stripe: 0, 1 or 2.
pub open spec fn category_index(row: int, column: int) -> int {
    (column % 3 + row) % 3
}

/// The category of the cell at `row`, `column`.
pub open spec fn category_of(row: int, column: int) -> ColorCategory {
    ColorCategory::with_index(category_index(row, column))
}

impl ColorCategory {
    /// The category that stands at position `index` of the stripe. Anything but 0
    /// and 1 is the third category.
    pub open spec fn with_index(index: int) -> ColorCategory {
        if index == 0 {
            ColorCategory::A
        } else if index == 1 {
            ColorCategory::B
        } else {
            ColorCategory::C
        }
    }

    /// The position of this category in the stripe.
    pub open spec fn position(self) -> int {
        match self {
            ColorCategory::A => 0,
            ColorCategory::B => 1,
            ColorCategory::C => 2,
        }
    }

    /// The position of this category in the stripe: 0, 1 or 2.
    pub fn index(self) -> (index: u8)
        ensures
            index == self.position(),
    {
        match self {
            ColorCategory::A => 0,
            ColorCategory::B => 1,
            ColorCategory::C => 2,
        }
    }

    /// Computes the category of the cell at `row`, `column`.
    pub fn for_cell(row: u32, column: u32) -> (category: ColorCategory)
        ensures
            category == category_of(row as int, column as int),
            category.position() == category_index(row as int, column as int),
    {
        let stripe: u64 = ((column % 3) as u64 + row as u64) % 3;
        if stripe == 0 {
            ColorCategory::A
        } else if stripe == 1 {
            ColorCategory::B
        } else {
            ColorCategory::C
        }
    }
}

/// The stripe position of a cell is that of `column + row` modulo 3.
pub proof fn lemma_category_index_is_diagonal(row: int, column: int)
    ensures
        category_index(row, column) == (column + row) % 3,
        category_of(row, column).position() == (column + row) % 3,
{
}

/// The category has period 3 in `column + row`: two cells whose sums of column
/// and row leave the same remainder modulo 3 have the same category.
pub proof fn lemma_category_periodic(row_a: int, column_a: int, row_b: int, column_b: int)
    requires
        (column_a + row_a) % 3 == (column_b + row_b) % 3,
    ensures
        category_of(row_a, column_a) == category_of(row_b, column_b),
{
    lemma_category_index_is_diagonal(row_a, column_a);
    lemma_category_index_is_diagonal(row_b, column_b);
}

/// Moving three cells along a row or a column, or one cell along each in
/// opposite directions, leaves the category unchanged.
pub proof fn lemma_category_repeats(row: int, column: int)
    ensures
        category_of(row, column + 3) == category_of(row, column),
        category_of(row + 3, column) == category_of(row, column),
        category_of(row + 1, column - 1) == category_of(row, column),
{
    lemma_category_periodic(row, column + 3, row, column);
    lemma_category_periodic(row + 3, column, row, column);
    lemma_category_periodic(row + 1, column - 1, row, column);
}

} // verus!
