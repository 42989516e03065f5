use grid_tooltip::category::ColorCategory;
use grid_tooltip::grid::{Cell, DrawInstruction, Grid};
use grid_tooltip::label::label_for;

#[test]
fn build_reports_its_dimensions() {
    let grid = Grid::build(2, 3, 20, 40);
    assert_eq!(grid.row_count(), 2);
    assert_eq!(grid.column_count(), 3);
    assert_eq!(grid.cell_width(), 20);
    assert_eq!(grid.cell_height(), 40);
    assert_eq!(grid.total_width(), 60);
    assert_eq!(grid.total_height(), 80);
    assert_eq!(grid.cells().len(), 6);
}

#[test]
fn cell_in_last_row_and_column_of_small_grid() {
    let grid = Grid::build(2, 3, 20, 40);
    let cell = grid.cell(1, 2).unwrap();
    assert_eq!(cell.origin_x, 40);
    assert_eq!(cell.origin_y, 40);
    assert_eq!(cell.width, 20);
    assert_eq!(cell.height, 40);
    assert_eq!(cell.category, ColorCategory::A);
    assert_eq!(cell.category.index(), 0);
    assert_eq!(cell.label, "3");
}

#[test]
fn every_cell_starts_at_its_column_and_row() {
    let grid = Grid::build(7, 5, 13, 9);
    for row in 0..7u32 {
        for column in 0..5u32 {
            let cell = grid.cell(row, column).unwrap();
            assert_eq!(cell.origin_x, u64::from(column) * 13);
            assert_eq!(cell.origin_y, u64::from(row) * 9);
            assert_eq!(cell.width, 13);
            assert_eq!(cell.height, 9);
        }
    }
}

#[test]
fn cells_are_stored_row_major() {
    let grid = Grid::build(4, 6, 10, 10);
    let cells = grid.cells();
    assert_eq!(cells.len(), 24);
    for row in 0..4u32 {
        for column in 0..6u32 {
            let index = (row * 6 + column) as usize;
            assert_eq!(&cells[index], grid.cell(row, column).unwrap());
            assert_eq!(grid.cell_at_index(index as i64), Some(&cells[index]));
        }
    }
    assert_eq!(cells[7].origin_x, 10);
    assert_eq!(cells[7].origin_y, 10);
    assert_eq!(cells[23].origin_x, 50);
    assert_eq!(cells[23].origin_y, 30);
}

#[test]
fn cells_tile_without_gap_or_overlap() {
    let grid = Grid::build(3, 4, 5, 7);
    for y in 0..21i32 {
        for x in 0..20i32 {
            let mut owners = 0;
            for cell in grid.cells() {
                let left = cell.origin_x as i32;
                let top = cell.origin_y as i32;
                if left <= x && x < left + 5 && top <= y && y < top + 7 {
                    owners += 1;
                }
            }
            assert_eq!(owners, 1);
        }
    }
}

#[test]
fn no_cell_outside_the_grid() {
    let grid = Grid::build(2, 3, 20, 40);
    assert!(grid.cell(2, 0).is_none());
    assert!(grid.cell(0, 3).is_none());
    assert!(grid.cell(u32::MAX, u32::MAX).is_none());
    assert!(grid.cell_at_index(-1).is_none());
    assert!(grid.cell_at_index(6).is_none());
    assert!(grid.cell_at_index(i64::MIN).is_none());
    assert!(grid.cell_at_index(i64::MAX).is_none());
    assert!(grid.cell_at_index(0).is_some());
    assert!(grid.cell_at_index(5).is_some());
}

#[test]
fn category_follows_the_diagonal_stripe() {
    assert_eq!(ColorCategory::for_cell(0, 0), ColorCategory::A);
    assert_eq!(ColorCategory::for_cell(0, 1), ColorCategory::B);
    assert_eq!(ColorCategory::for_cell(0, 2), ColorCategory::C);
    assert_eq!(ColorCategory::for_cell(1, 0), ColorCategory::B);
    assert_eq!(ColorCategory::for_cell(1, 1), ColorCategory::C);
    assert_eq!(ColorCategory::for_cell(1, 2), ColorCategory::A);
    assert_eq!(ColorCategory::for_cell(2, 2), ColorCategory::B);
    assert_eq!(ColorCategory::for_cell(49, 143), ColorCategory::A);
}

#[test]
fn category_index_is_its_place_in_the_stripe() {
    assert_eq!(ColorCategory::A.index(), 0);
    assert_eq!(ColorCategory::B.index(), 1);
    assert_eq!(ColorCategory::C.index(), 2);
    for row in 0..20u32 {
        for column in 0..20u32 {
            let expected = ((column % 3 + row) % 3) as u8;
            assert_eq!(ColorCategory::for_cell(row, column).index(), expected);
        }
    }
}

#[test]
fn category_has_period_three_in_column_plus_row() {
    for row in 0..12u32 {
        for column in 0..12u32 {
            let here = ColorCategory::for_cell(row, column);
            assert_eq!(ColorCategory::for_cell(row, column + 3), here);
            assert_eq!(ColorCategory::for_cell(row + 3, column), here);
            assert_eq!(ColorCategory::for_cell(row + 1, column + 2), here);
            assert_eq!(here.index(), ((column + row) % 3) as u8);
            assert_ne!(ColorCategory::for_cell(row, column + 1), here);
        }
    }
}

#[test]
fn category_at_the_largest_indices() {
    // u32::MAX is a multiple of 3.
    assert_eq!(ColorCategory::for_cell(u32::MAX, u32::MAX), ColorCategory::A);
    assert_eq!(ColorCategory::for_cell(u32::MAX, 2), ColorCategory::C);
    assert_eq!(ColorCategory::for_cell(u32::MAX - 1, u32::MAX - 1), ColorCategory::B);
}

#[test]
fn label_is_the_sum_of_the_two_remainders() {
    assert_eq!(label_for(0, 0), "0");
    assert_eq!(label_for(0, 1), "1");
    assert_eq!(label_for(1, 1), "2");
    assert_eq!(label_for(1, 2), "3");
    assert_eq!(label_for(2, 2), "4");
    assert_eq!(label_for(3, 3), "0");
    assert_eq!(label_for(49, 143), "3");
    assert_eq!(label_for(u32::MAX, u32::MAX), "0");
    assert_eq!(label_for(u32::MAX - 1, u32::MAX - 1), "4");
}

#[test]
fn label_has_period_three_in_column_and_in_row() {
    for row in 0..12u32 {
        for column in 0..12u32 {
            let here = label_for(row, column);
            assert_eq!(here, format!("{}", column % 3 + row % 3));
            assert_eq!(label_for(row, column + 3), here);
            assert_eq!(label_for(row + 3, column), here);
            assert_eq!(label_for(row + 3, column + 3), here);
        }
    }
}

#[test]
fn label_and_category_use_different_formulas() {
    // Row 3, column 0: the stripe has come round, the label has too.
    assert_eq!(ColorCategory::for_cell(3, 0), ColorCategory::A);
    assert_eq!(label_for(3, 0), "0");
    // Row 2, column 2: the stripe is at 1, the label reads 4.
    assert_eq!(ColorCategory::for_cell(2, 2).index(), 1);
    assert_eq!(label_for(2, 2), "4");
    // Row 1, column 2 and row 2, column 1 share a label but row 0, column 0
    // shares their category.
    assert_eq!(label_for(1, 2), label_for(2, 1));
    assert_eq!(ColorCategory::for_cell(1, 2), ColorCategory::for_cell(0, 0));
    assert_ne!(label_for(1, 2), label_for(0, 0));
}

#[test]
fn cells_carry_their_category_and_label() {
    let grid = Grid::build(5, 8, 20, 40);
    for row in 0..5u32 {
        for column in 0..8u32 {
            let cell = grid.cell(row, column).unwrap();
            assert_eq!(cell.category, ColorCategory::for_cell(row, column));
            assert_eq!(cell.label, label_for(row, column));
        }
    }
}

#[test]
fn draw_instructions_follow_the_cells_in_order() {
    let grid = Grid::build(2, 3, 20, 40);
    let instructions = grid.draw_instructions();
    let expected = vec![
        DrawInstruction { x: 0, y: 0, width: 20, height: 40, category: ColorCategory::A },
        DrawInstruction { x: 20, y: 0, width: 20, height: 40, category: ColorCategory::B },
        DrawInstruction { x: 40, y: 0, width: 20, height: 40, category: ColorCategory::C },
        DrawInstruction { x: 0, y: 40, width: 20, height: 40, category: ColorCategory::B },
        DrawInstruction { x: 20, y: 40, width: 20, height: 40, category: ColorCategory::C },
        DrawInstruction { x: 40, y: 40, width: 20, height: 40, category: ColorCategory::A },
    ];
    assert_eq!(instructions, expected);
}

#[test]
fn draw_instructions_match_every_cell() {
    let grid = Grid::build(50, 144, 20, 40);
    let instructions = grid.draw_instructions();
    let cells = grid.cells();
    assert_eq!(instructions.len(), 7200);
    assert_eq!(cells.len(), 7200);
    for (instruction, cell) in instructions.iter().zip(cells.iter()) {
        assert_eq!(instruction.x, cell.origin_x);
        assert_eq!(instruction.y, cell.origin_y);
        assert_eq!(instruction.width, cell.width);
        assert_eq!(instruction.height, cell.height);
        assert_eq!(instruction.category, cell.category);
    }
    assert_eq!(grid.total_width(), 2880);
    assert_eq!(grid.total_height(), 2000);
}

#[test]
fn single_cell_grid_with_the_largest_cell() {
    let grid = Grid::build(1, 1, u32::MAX, u32::MAX);
    assert_eq!(grid.total_width(), 4_294_967_295);
    assert_eq!(grid.total_height(), 4_294_967_295);
    let cell = grid.cell(0, 0).unwrap();
    assert_eq!(cell.origin_x, 0);
    assert_eq!(cell.origin_y, 0);
    assert_eq!(cell.width, u32::MAX);
    assert_eq!(cell.label, "0");
}

#[test]
fn wide_cells_do_not_overflow_the_origins() {
    let grid = Grid::build(3, 3, u32::MAX, u32::MAX);
    assert_eq!(grid.total_width(), 3 * 4_294_967_295u64);
    let cell = grid.cell(2, 2).unwrap();
    assert_eq!(cell.origin_x, 8_589_934_590);
    assert_eq!(cell.origin_y, 8_589_934_590);
}

#[test]
fn is_inside_includes_all_four_edges() {
    let grid = Grid::build(2, 3, 20, 40);
    let cell = grid.cell(1, 1).unwrap();
    assert!(cell.is_inside(20, 40));
    assert!(cell.is_inside(40, 80));
    assert!(cell.is_inside(20, 80));
    assert!(cell.is_inside(40, 40));
    assert!(cell.is_inside(30, 60));
    assert!(!cell.is_inside(19, 60));
    assert!(!cell.is_inside(41, 60));
    assert!(!cell.is_inside(30, 39));
    assert!(!cell.is_inside(30, 81));
    assert!(!cell.is_inside(-30, 60));
    assert!(!cell.is_inside(30, -60));
    assert!(!cell.is_inside(i32::MIN, i32::MIN));
    assert!(!cell.is_inside(i32::MAX, i32::MAX));
}

#[test]
fn is_inside_of_a_cell_at_the_origin() {
    let cell = Cell {
        origin_x: 0,
        origin_y: 0,
        width: 20,
        height: 40,
        category: ColorCategory::A,
        label: String::from("0"),
    };
    assert!(cell.is_inside(0, 0));
    assert!(cell.is_inside(20, 40));
    assert!(!cell.is_inside(-1, 0));
    assert!(!cell.is_inside(0, -1));
    assert!(!cell.is_inside(21, 0));
}

#[test]
fn is_inside_of_a_cell_far_from_the_origin() {
    let cell = Cell {
        origin_x: u64::MAX - 5,
        origin_y: 0,
        width: 20,
        height: 40,
        category: ColorCategory::B,
        label: String::from("1"),
    };
    assert!(!cell.is_inside(i32::MAX, 0));
    assert!(!cell.is_inside(0, 0));
}

#[test]
fn cloned_cell_equals_the_original() {
    let grid = Grid::build(2, 3, 20, 40);
    let cell = grid.cell(1, 2).unwrap();
    let copy = cell.clone();
    assert_eq!(&copy, cell);
}
