//! Tests of the board: growth on demand, cell writes, and line clearing.

use tetris_core::GridPos;
use tetris_core::board::{Block, Board};
use tetris_core::rgb::Rgb;

fn gray() -> Block {
    Block { color: Rgb::new(64, 64, 64) }
}

fn at(x: i16, y: i16) -> GridPos {
    GridPos::new(x, y)
}

#[test]
fn a_new_board_is_empty() {
    let b = Board::new(10, 20);
    assert_eq!(b.columns(), 10);
    assert_eq!(b.rows(), 20);
    assert_eq!(b.row_count(), 0);
    assert!(b.cell(at(0, 0)).is_none());
}

#[test]
fn place_grows_the_stack_to_the_tallest_cell() {
    let mut b = Board::new(10, 20);
    b.place(at(0, 5), at(1, 5), at(2, 5), at(3, 2), gray());
    assert_eq!(b.row_count(), 6);
    assert!(b.cell(at(0, 5)).is_some());
    assert!(b.cell(at(3, 2)).is_some());
    assert!(b.cell(at(3, 5)).is_none());
    assert!(b.cell(at(0, 0)).is_none());
}

#[test]
fn validity_reflects_occupancy_after_a_place() {
    let mut b = Board::new(10, 20);
    assert!(b.is_valid(at(4, 0)));
    b.place(at(4, 0), at(5, 0), at(4, 1), at(5, 1), gray());
    assert!(!b.is_valid(at(4, 0)));
    assert!(!b.is_valid(at(5, 1)));
    assert!(b.is_valid(at(3, 0)));
    assert!(b.is_valid(at(4, 2)));
}

#[test]
fn clearing_removes_exactly_the_full_rows_and_shifts_the_rest() {
    let mut b = Board::new(10, 20);
    // Fill row 0 completely and give row 1 two blocks at columns 8 and 9.
    b.place(at(0, 0), at(1, 0), at(2, 0), at(3, 0), gray());
    b.place(at(4, 0), at(5, 0), at(6, 0), at(7, 0), gray());
    b.place(at(8, 0), at(9, 0), at(8, 1), at(9, 1), gray());
    assert_eq!(b.row_count(), 2);
    let cleared = b.clear_full_rows();
    assert_eq!(cleared, 1);
    assert_eq!(b.row_count(), 1);
    // The old row 1 is the new row 0.
    assert!(b.cell(at(8, 0)).is_some());
    assert!(b.cell(at(9, 0)).is_some());
    assert!(b.cell(at(0, 0)).is_none());
}

#[test]
fn clearing_a_board_with_no_full_row_changes_nothing() {
    let mut b = Board::new(10, 20);
    b.place(at(0, 0), at(1, 0), at(2, 0), at(3, 0), gray());
    let cleared = b.clear_full_rows();
    assert_eq!(cleared, 0);
    assert_eq!(b.row_count(), 1);
    assert!(b.cell(at(0, 0)).is_some());
}

#[test]
fn clear_empties_the_stack() {
    let mut b = Board::new(10, 20);
    b.place(at(0, 3), at(1, 3), at(2, 3), at(3, 3), gray());
    assert_eq!(b.row_count(), 4);
    b.clear();
    assert_eq!(b.row_count(), 0);
    assert_eq!(b.columns(), 10);
}

#[test]
fn placed_blocks_keep_their_color() {
    let mut b = Board::new(10, 20);
    let red = Block { color: Rgb::new(231, 76, 60) };
    b.place(at(2, 0), at(3, 0), at(2, 1), at(3, 1), red);
    assert_eq!(b.cell(at(2, 1)).unwrap().color, Rgb::new(231, 76, 60));
}
