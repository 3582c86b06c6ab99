//! Squares of the board and the arithmetic between them.

use crate::coordinates::{Column, CoordinateError, Row};
use vstd::math::abs;
use vstd::prelude::*;
use vstd::std_specs::ops::SubSpecImpl;
use vstd::string::*;

verus! {

/// A square, by column and row. The squares of the board have both
/// coordinates in `0..=7`; row 0 is White's home rank.
#[derive(PartialEq, Eq, Structural, Clone, Copy, Debug)]
pub struct Position {
    pub column: i8,
    pub row: i8,
}

/// The letter that names a column of the board, `A` for column 0.
pub open spec fn column_letter(column: int) -> Seq<char> {
    if column == 0 {
        "A"@
    } else if column == 1 {
        "B"@
    } else if column == 2 {
        "C"@
    } else if column == 3 {
        "D"@
    } else if column == 4 {
        "E"@
    } else if column == 5 {
        "F"@
    } else if column == 6 {
        "G"@
    } else {
        "H"@
    }
}

/// The digit that names a row of the board, `1` for row 0.
pub open spec fn row_digit(row: int) -> Seq<char> {
    if row == 0 {
        "1"@
    } else if row == 1 {
        "2"@
    } else if row == 2 {
        "3"@
    } else if row == 3 {
        "4"@
    } else if row == 4 {
        "5"@
    } else if row == 5 {
        "6"@
    } else if row == 6 {
        "7"@
    } else {
        "8"@
    }
}

/// Whether `x` lies strictly between 0 and `span`.
pub open spec fn strictly_inside(x: int, span: int) -> bool {
    0 < x < span || span < x < 0
}

/// Whether `at` lies strictly between `from` and `to` on the row, the column
/// or the diagonal that the two share. Squares that share none of these have
/// nothing between them.
pub open spec fn lies_between(from: Position, to: Position, at: Position) -> bool {
    let rows = to.row - from.row;
    let columns = to.column - from.column;
    let row = at.row - from.row;
    let column = at.column - from.column;
    if columns == 0 {
        column == 0 && strictly_inside(row, rows)
    } else if rows == 0 {
        row == 0 && strictly_inside(column, columns)
    } else if abs(rows) == abs(columns) {
        strictly_inside(row, rows) && strictly_inside(column, columns) && abs(row) == abs(column)
    } else {
        false
    }
}

impl Position {
    /// Whether the square lies on the board.
    pub open spec fn on_board(self) -> bool {
        0 <= self.column <= 7 && 0 <= self.row <= 7
    }

    /// The point-symmetric counterpart of the square: the same square seen
    /// from the other side of the board.
    pub open spec fn inverted(self) -> Position
        recommends
            self.invertible(),
    {
        Position { column: (7 - self.column) as i8, row: (7 - self.row) as i8 }
    }

    /// Whether both coordinates of the counterpart fit the coordinate type.
    pub open spec fn invertible(self) -> bool {
        7 - self.column <= i8::MAX && 7 - self.row <= i8::MAX
    }

    /// The distance to `other` along the rows and along the columns.
    pub open spec fn distance(self, other: Position) -> (nat, nat) {
        (abs(self.row - other.row), abs(self.column - other.column))
    }

    /// The name of a square of the board, such as `C2` for column 2, row 1.
    pub open spec fn tile(self) -> Seq<char>
        recommends
            self.on_board(),
    {
        column_letter(self.column as int) + row_digit(self.row as int)
    }

    /// The square with the given coordinates, on the board or off it.
    pub fn new(column: i8, row: i8) -> (position: Position)
        ensures
            position == (Position { column, row }),
    {
        Position { row, column }
    }

    /// The square with the given coordinates, if it lies on the board; the
    /// row is looked at first.
    pub fn checked(column: i8, row: i8) -> (checked: Result<Position, CoordinateError>)
        ensures
            match checked {
                Ok(position) => position == (Position { column, row }) && position.on_board(),
                Err(error) => error == if 0 <= row <= 7 {
                    CoordinateError::ColumnOutOfRange
                } else {
                    CoordinateError::RowOutOfRange
                } && !(Position { column, row }).on_board(),
            },
    {
        let row = match Row::new(row) {
            Ok(row) => row,
            Err(error) => {
                return Err(error);
            },
        };
        let column = match Column::new(column) {
            Ok(column) => column,
            Err(error) => {
                return Err(error);
            },
        };
        Ok(Position { row: row.0 as i8, column: column.0 as i8 })
    }

    /// Tells whether the square lies on the board.
    pub fn is_on_board(&self) -> (on_board: bool)
        ensures
            on_board == self.on_board(),
    {
        0 <= self.column && self.column <= 7 && 0 <= self.row && self.row <= 7
    }

    /// Turns the square round to the other player's view of the board.
    pub fn invert(&self) -> (inverted: Position)
        requires
            self.invertible(),
        ensures
            inverted == self.inverted(),
            self.on_board() ==> inverted.on_board(),
    {
        Position { row: 7 - self.row, column: 7 - self.column }
    }

    /// Tells whether the square lies strictly between `from` and `to` on a
    /// row, a column or a diagonal.
    pub fn is_between(&self, from: Position, to: Position) -> (between: bool)
        ensures
            between == lies_between(from, to, *self),
    {
        let rows = to.row as i16 - from.row as i16;
        let columns = to.column as i16 - from.column as i16;
        let row = self.row as i16 - from.row as i16;
        let column = self.column as i16 - from.column as i16;
        let inside_rows = (0 < row && row < rows) || (rows < row && row < 0);
        let inside_columns = (0 < column && column < columns) || (columns < column && column < 0);
        if columns == 0 {
            column == 0 && inside_rows
        } else if rows == 0 {
            row == 0 && inside_columns
        } else if rows == columns || rows == -columns {
            inside_rows && inside_columns && (row == column || row == -column)
        } else {
            false
        }
    }

    /// The name of the square, for a square of the board; no other square
    /// has a name.
    pub fn tile_name(&self) -> (name: Option<String>)
        ensures
            name is Some <==> self.on_board(),
            name matches Some(text) ==> text@ == self.tile(),
    {
        let letter = match self.column {
            0 => "A",
            1 => "B",
            2 => "C",
            3 => "D",
            4 => "E",
            5 => "F",
            6 => "G",
            7 => "H",
            _ => {
                return None;
            },
        };
        let digit = match self.row {
            0 => "1",
            1 => "2",
            2 => "3",
            3 => "4",
            4 => "5",
            5 => "6",
            6 => "7",
            7 => "8",
            _ => {
                return None;
            },
        };
        Some(String::from_str(letter).concat(digit))
    }
}

impl core::ops::Sub for Position {
    type Output = (i8, i8);

    /// The distance between two squares, rows first.
    fn sub(self, rhs: Position) -> (i8, i8) {
        let rows = self.row - rhs.row;
        let columns = self.column - rhs.column;
        (
            if rows < 0 {
                -rows
            } else {
                rows
            },
            if columns < 0 {
                -columns
            } else {
                columns
            },
        )
    }
}

impl SubSpecImpl for Position {
    open spec fn obeys_sub_spec() -> bool {
        true
    }

    /// Both distances fit the coordinate type.
    open spec fn sub_req(self, rhs: Position) -> bool {
        abs(self.row - rhs.row) <= i8::MAX && abs(self.column - rhs.column) <= i8::MAX
    }

    open spec fn sub_spec(self, rhs: Position) -> (i8, i8) {
        (self.distance(rhs).0 as i8, self.distance(rhs).1 as i8)
    }
}

/// Inverting twice gives the square back.
pub proof fn inverting_twice_gives_the_square_back(position: Position)
    requires
        position.on_board(),
    ensures
        position.inverted().on_board(),
        position.inverted().inverted() == position,
{
}

} // verus!
