//! The one-digit label that each cell shows in its tooltip.

use vstd::prelude::*;

verus! {

/// The number a cell is labelled with.
pub open spec fn label_digit(row: int, column: int) -> int {
    column % 3 + row % 3
}

/// The character that writes a single decimal digit.
pub open spec fn digit_char(digit: int) -> char
    recommends
        0 <= digit <= 9,
{
    if digit == 0 {
        '0'
    } else if digit == 1 {
        '1'
    } else if digit == 2 {
        '2'
    } else if digit == 3 {
        '3'
    } else if digit == 4 {
        '4'
    } else if digit == 5 {
        '5'
    } else if digit == 6 {
        '6'
    } else if digit == 7 {
        '7'
    } else if digit == 8 {
        '8'
    } else {
        '9'
    }
}

/// The label of the cell at `row`, `column`: its number written in decimal, which
/// takes a single character.
pub open spec fn label_text(row: int, column: int) -> Seq<char> {
    seq![digit_char(label_digit(row, column))]
}

/// Writes the label of the cell at `row`, `column`.
pub fn label_for(row: u32, column: u32) -> (text: String)
    ensures
        text@ == label_text(row as int, column as int),
{
    let digit: u32 = column % 3 + row % 3;
    proof {
        reveal_strlit("0");
        reveal_strlit("1");
        reveal_strlit("2");
        reveal_strlit("3");
        reveal_strlit("4");
    }
    let written: &str = if digit == 0 {
        "0"
    } else if digit == 1 {
        "1"
    } else if digit == 2 {
        "2"
    } else if digit == 3 {
        "3"
    } else {
        "4"
    };
    assert(written@ =~= label_text(row as int, column as int));
    written.to_owned()
}

/// The label has period 3 in the column and, independently, period 3 in the row:
/// it depends only on the two remainders modulo 3.
pub proof fn lemma_label_periodic(row_a: int, column_a: int, row_b: int, column_b: int)
    requires
        row_a % 3 == row_b % 3,
        column_a % 3 == column_b % 3,
    ensures
        label_digit(row_a, column_a) == label_digit(row_b, column_b),
        label_text(row_a, column_a) == label_text(row_b, column_b),
{
}

/// Moving three cells along a row, or three cells along a column, leaves the
/// label unchanged.
pub proof fn lemma_label_repeats(row: int, column: int)
    ensures
        label_digit(row, column + 3) == label_digit(row, column),
        label_digit(row + 3, column) == label_digit(row, column),
        label_text(row, column + 3) == label_text(row, column),
        label_text(row + 3, column) == label_text(row, column),
{
    lemma_label_periodic(row, column + 3, row, column);
    lemma_label_periodic(row + 3, column, row, column);
}

} // verus!
