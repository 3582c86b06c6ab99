use szachus::coordinates::{Column, CoordinateError, Row};
use szachus::position::Position;

#[test]
fn position_new_keeps_column_then_row() {
    let position = Position::new(2, 5);
    assert_eq!(position.column, 2);
    assert_eq!(position.row, 5);
    assert_eq!(position, Position { column: 2, row: 5 });
}

#[test]
fn position_invert_is_point_symmetric() {
    assert_eq!(Position::new(0, 0).invert(), Position::new(7, 7));
    assert_eq!(Position::new(2, 1).invert(), Position::new(5, 6));
    assert_eq!(Position::new(7, 3).invert(), Position::new(0, 4));
}

#[test]
fn position_invert_twice_is_identity() {
    for column in 0..8 {
        for row in 0..8 {
            let position = Position::new(column, row);
            assert_eq!(position.invert().invert(), position);
            assert!(position.invert().is_on_board());
        }
    }
}

#[test]
fn position_on_board_bounds() {
    assert!(Position::new(0, 0).is_on_board());
    assert!(Position::new(7, 7).is_on_board());
    assert!(!Position::new(8, 0).is_on_board());
    assert!(!Position::new(0, 8).is_on_board());
    assert!(!Position::new(-1, 3).is_on_board());
    assert!(!Position::new(3, -1).is_on_board());
    assert!(!Position::new(i8::MIN, i8::MAX).is_on_board());
}

#[test]
fn position_difference_is_absolute_rows_then_columns() {
    assert_eq!(Position::new(2, 3) - Position::new(2, 1), (2, 0));
    assert_eq!(Position::new(2, 1) - Position::new(2, 3), (2, 0));
    assert_eq!(Position::new(0, 0) - Position::new(7, 5), (5, 7));
    assert_eq!(Position::new(4, 4) - Position::new(4, 4), (0, 0));
}

#[test]
fn position_tile_names() {
    assert_eq!(Position::new(0, 0).tile_name(), Some("A1".to_string()));
    assert_eq!(Position::new(2, 1).tile_name(), Some("C2".to_string()));
    assert_eq!(Position::new(7, 7).tile_name(), Some("H8".to_string()));
    assert_eq!(Position::new(4, 3).tile_name(), Some("E4".to_string()));
}

#[test]
fn position_off_board_has_no_tile_name() {
    assert_eq!(Position::new(8, 0).tile_name(), None);
    assert_eq!(Position::new(0, 8).tile_name(), None);
    assert_eq!(Position::new(-1, -1).tile_name(), None);
}

#[test]
fn position_checked_accepts_the_board_only() {
    assert_eq!(Position::checked(2, 1), Ok(Position::new(2, 1)));
    assert_eq!(Position::checked(7, 0), Ok(Position::new(7, 0)));
    assert_eq!(Position::checked(8, 0), Err(CoordinateError::ColumnOutOfRange));
    assert_eq!(Position::checked(0, 8), Err(CoordinateError::RowOutOfRange));
    assert_eq!(Position::checked(-1, -1), Err(CoordinateError::RowOutOfRange));
}

#[test]
fn between_on_a_column() {
    let from = Position::new(2, 1);
    let to = Position::new(2, 4);
    assert!(Position::new(2, 2).is_between(from, to));
    assert!(Position::new(2, 3).is_between(from, to));
    assert!(!Position::new(2, 1).is_between(from, to));
    assert!(!Position::new(2, 4).is_between(from, to));
    assert!(!Position::new(2, 5).is_between(from, to));
    assert!(!Position::new(3, 2).is_between(from, to));
    assert!(Position::new(2, 2).is_between(to, from));
}

#[test]
fn between_on_a_row() {
    let from = Position::new(6, 3);
    let to = Position::new(1, 3);
    assert!(Position::new(2, 3).is_between(from, to));
    assert!(Position::new(5, 3).is_between(from, to));
    assert!(!Position::new(1, 3).is_between(from, to));
    assert!(!Position::new(6, 3).is_between(from, to));
    assert!(!Position::new(0, 3).is_between(from, to));
    assert!(!Position::new(3, 4).is_between(from, to));
}

#[test]
fn between_on_a_diagonal() {
    let from = Position::new(2, 0);
    let to = Position::new(5, 3);
    assert!(Position::new(3, 1).is_between(from, to));
    assert!(Position::new(4, 2).is_between(from, to));
    assert!(!Position::new(4, 1).is_between(from, to));
    assert!(!Position::new(3, 2).is_between(from, to));
    assert!(!Position::new(6, 4).is_between(from, to));
    let from = Position::new(5, 2);
    let to = Position::new(2, 5);
    assert!(Position::new(4, 3).is_between(from, to));
    assert!(Position::new(3, 4).is_between(from, to));
    assert!(!Position::new(4, 4).is_between(from, to));
    assert!(!Position::new(4, 1).is_between(from, to));
}

#[test]
fn nothing_lies_between_unrelated_squares() {
    let from = Position::new(1, 0);
    let to = Position::new(2, 2);
    for column in 0..8 {
        for row in 0..8 {
            assert!(!Position::new(column, row).is_between(from, to));
        }
    }
    let from = Position::new(4, 4);
    for column in 0..8 {
        for row in 0..8 {
            assert!(!Position::new(column, row).is_between(from, from));
        }
    }
}

#[test]
fn row_new_accepts_zero_to_seven() {
    assert_eq!(Row::new(0), Ok(Row(0)));
    assert_eq!(Row::new(7), Ok(Row(7)));
    assert_eq!(Row::new(8), Err(CoordinateError::RowOutOfRange));
    assert_eq!(Row::new(-1), Err(CoordinateError::RowOutOfRange));
}

#[test]
fn column_new_accepts_zero_to_seven() {
    assert_eq!(Column::new(0), Ok(Column(0)));
    assert_eq!(Column::new(7), Ok(Column(7)));
    assert_eq!(Column::new(8), Err(CoordinateError::ColumnOutOfRange));
    assert_eq!(Column::new(-128), Err(CoordinateError::ColumnOutOfRange));
}

#[test]
fn row_add_stays_on_the_board() {
    assert_eq!(Row(3) + Row(4), Ok(Row(7)));
    assert_eq!(Row(0) + Row(0), Ok(Row(0)));
    assert_eq!(Row(4) + Row(4), Err(CoordinateError::RowOutOfRange));
    assert_eq!(Row(200) + Row(100), Err(CoordinateError::RowOutOfRange));
}

#[test]
fn column_add_stays_on_the_board() {
    assert_eq!(Column(1) + Column(2), Ok(Column(3)));
    assert_eq!(Column(7) + Column(1), Err(CoordinateError::ColumnOutOfRange));
    assert_eq!(Column(255) + Column(255), Err(CoordinateError::ColumnOutOfRange));
}
