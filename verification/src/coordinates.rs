//! Checked coordinates: a row or a column that is known to lie on the board.

use vstd::prelude::*;
use vstd::std_specs::ops::AddSpecImpl;

verus! {

/// Why a number is no coordinate of the board.
#[derive(PartialEq, Eq, Structural, Clone, Copy, Debug)]
pub enum CoordinateError {
    /// The row is not between 0 and 7.
    RowOutOfRange,
    /// The column is not between 0 and 7.
    ColumnOutOfRange,
}

/// A row of the board, counted from White's home rank.
#[derive(PartialEq, Eq, Structural, Clone, Copy, Debug)]
pub struct Row(pub u8);

/// A column of the board.
#[derive(PartialEq, Eq, Structural, Clone, Copy, Debug)]
pub struct Column(pub u8);

impl Row {
    /// Whether the row lies on the board.
    pub open spec fn on_board(self) -> bool {
        self.0 <= 7
    }

    /// The row with the given number, if the board has such a row.
    pub fn new(row: i8) -> (checked: Result<Row, CoordinateError>)
        ensures
            checked is Ok <==> 0 <= row <= 7,
            checked matches Ok(r) ==> r.0 == row,
            checked matches Err(e) ==> e == CoordinateError::RowOutOfRange,
    {
        if row < 0 || row > 7 {
            return Err(CoordinateError::RowOutOfRange);
        }
        Ok(Row(row as u8))
    }
}

impl core::ops::Add for Row {
    type Output = Result<Row, CoordinateError>;

    /// The row that many rows further up, if the board has such a row.
    fn add(self, rhs: Row) -> Result<Row, CoordinateError> {
        if self.0 > 7 || rhs.0 > 7 - self.0 {
            return Err(CoordinateError::RowOutOfRange);
        }
        Ok(Row(self.0 + rhs.0))
    }
}

impl AddSpecImpl for Row {
    open spec fn obeys_add_spec() -> bool {
        true
    }

    open spec fn add_req(self, rhs: Row) -> bool {
        true
    }

    open spec fn add_spec(self, rhs: Row) -> Result<Row, CoordinateError> {
        if self.0 + rhs.0 > 7 {
            Err(CoordinateError::RowOutOfRange)
        } else {
            Ok(Row((self.0 + rhs.0) as u8))
        }
    }
}

impl Column {
    /// Whether the column lies on the board.
    pub open spec fn on_board(self) -> bool {
        self.0 <= 7
    }

    /// The column with the given number, if the board has such a column.
    pub fn new(column: i8) -> (checked: Result<Column, CoordinateError>)
        ensures
            checked is Ok <==> 0 <= column <= 7,
            checked matches Ok(c) ==> c.0 == column,
            checked matches Err(e) ==> e == CoordinateError::ColumnOutOfRange,
    {
        if column < 0 || column > 7 {
            return Err(CoordinateError::ColumnOutOfRange);
        }
        Ok(Column(column as u8))
    }
}

impl core::ops::Add for Column {
    type Output = Result<Column, CoordinateError>;

    /// The column that many columns further on, if the board has such a
    /// column.
    fn add(self, rhs: Column) -> Result<Column, CoordinateError> {
        if self.0 > 7 || rhs.0 > 7 - self.0 {
            return Err(CoordinateError::ColumnOutOfRange);
        }
        Ok(Column(self.0 + rhs.0))
    }
}

impl AddSpecImpl for Column {
    open spec fn obeys_add_spec() -> bool {
        true
    }

    open spec fn add_req(self, rhs: Column) -> bool {
        true
    }

    open spec fn add_spec(self, rhs: Column) -> Result<Column, CoordinateError> {
        if self.0 + rhs.0 > 7 {
            Err(CoordinateError::ColumnOutOfRange)
        } else {
            Ok(Column((self.0 + rhs.0) as u8))
        }
    }
}

} // verus!
