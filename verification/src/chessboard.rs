//! The board: the pieces of both sides, at most one on a square.

use crate::piece::{Piece, PieceType};
use crate::piece_color::PieceColor;
use crate::position::{lies_between, Position};
use crate::rule_violation::RuleViolation;
use crate::starting_position::{lemma_starting_pieces, side_pieces, starting_layout};
use vstd::prelude::*;

verus! {

/// The pieces of a game. The order of `pieces` carries no meaning: the view
/// of a board maps each occupied square to the piece that stands on it.
#[derive(Debug)]
pub struct ChessBoard {
    pub pieces: Vec<Piece>,
}

impl Clone for ChessBoard {
    /// A board with the same pieces in the same order.
    fn clone(&self) -> (board: ChessBoard)
        ensures
            board.pieces@ == self.pieces@,
    {
        let mut pieces: Vec<Piece> = Vec::with_capacity(self.pieces.len());
        let mut i: usize = 0;
        while i < self.pieces.len()
            invariant
                i <= self.pieces@.len(),
                pieces@ == self.pieces@.take(i as int),
            decreases self.pieces@.len() - i,
        {
            pieces.push(self.pieces[i]);
            i += 1;
        }
        assert(self.pieces@.take(i as int) == self.pieces@);
        ChessBoard { pieces }
    }
}

/// Whether one of the pieces stands on `at`.
pub open spec fn occupied(pieces: Seq<Piece>, at: Position) -> bool {
    exists|i: int| 0 <= i < pieces.len() && (#[trigger] pieces[i]).position == at
}

/// The place in `pieces` of a piece that stands on `at`.
pub open spec fn index_at(pieces: Seq<Piece>, at: Position) -> int {
    choose|i: int| 0 <= i < pieces.len() && (#[trigger] pieces[i]).position == at
}

/// The occupied squares, each with a piece that stands on it.
pub open spec fn squares(pieces: Seq<Piece>) -> Map<Position, Piece> {
    Map::new(|at: Position| occupied(pieces, at), |at: Position| pieces[index_at(pieces, at)])
}

/// Every piece stands on the board, no two stand on one square, and no side
/// has two kings.
pub open spec fn well_formed(pieces: Seq<Piece>) -> bool {
    &&& forall|i: int| 0 <= i < pieces.len() ==> (#[trigger] pieces[i]).position.on_board()
    &&& forall|i: int, j: int|
        0 <= i < j < pieces.len() ==> (#[trigger] pieces[i]).position != (
        #[trigger] pieces[j]).position
    &&& forall|i: int, j: int|
        0 <= i < j < pieces.len() && (#[trigger] pieces[i]).piece_type == PieceType::King && (
        #[trigger] pieces[j]).piece_type == PieceType::King ==> pieces[i].color
            != pieces[j].color
}

/// Whether a king of the `color` side stands on one of the squares.
pub open spec fn king_stands(squares: Map<Position, Piece>, color: PieceColor) -> bool {
    exists|at: Position| #[trigger]
        squares.contains_key(at) && squares[at].color == color && squares[at].piece_type
            == PieceType::King
}

/// A piece of a well-formed board is the one that the view shows on its
/// square.
pub proof fn lemma_piece_on_its_square(pieces: Seq<Piece>, i: int)
    requires
        well_formed(pieces),
        0 <= i < pieces.len(),
    ensures
        squares(pieces).contains_key(pieces[i].position),
        squares(pieces)[pieces[i].position] == pieces[i],
        index_at(pieces, pieces[i].position) == i,
{
    let at = pieces[i].position;
    let k = index_at(pieces, at);
    assert(0 <= k < pieces.len() && pieces[k].position == at);
    if k < i {
        assert(pieces[k].position != pieces[i].position);
    } else if i < k {
        assert(pieces[i].position != pieces[k].position);
    }
}

/// Every square that the view shows as occupied holds a piece of the board,
/// which stands there.
pub proof fn lemma_square_holds_piece(pieces: Seq<Piece>, at: Position)
    requires
        squares(pieces).contains_key(at),
    ensures
        0 <= index_at(pieces, at) < pieces.len(),
        pieces[index_at(pieces, at)].position == at,
        squares(pieces)[at] == pieces[index_at(pieces, at)],
        squares(pieces)[at].position == at,
{
}

/// Taking a piece off a well-formed board, by putting the last piece in its
/// place, empties its square and nothing else.
pub proof fn lemma_taken_off(pieces: Seq<Piece>, j: int)
    requires
        well_formed(pieces),
        0 <= j < pieces.len(),
    ensures
        well_formed(pieces.update(j, pieces.last()).drop_last()),
        squares(pieces.update(j, pieces.last()).drop_last()) == squares(pieces).remove(
            pieces[j].position,
        ),
{
    let rest = pieces.update(j, pieces.last()).drop_last();
    let last = pieces.len() - 1;
    assert forall|k: int| 0 <= k < rest.len() implies #[trigger] rest[k] == pieces[if k == j {
        last
    } else {
        k
    }] by {}
    assert(well_formed(rest)) by {
        assert forall|a: int, b: int| 0 <= a < b < rest.len() implies (#[trigger] rest[a]).position
            != (#[trigger] rest[b]).position by {
            let a0 = if a == j {
                last
            } else {
                a
            };
            let b0 = if b == j {
                last
            } else {
                b
            };
            if a0 < b0 {
                assert(pieces[a0].position != pieces[b0].position);
            } else {
                assert(pieces[b0].position != pieces[a0].position);
            }
        }
        assert forall|a: int, b: int|
            0 <= a < b < rest.len() && (#[trigger] rest[a]).piece_type == PieceType::King && (
            #[trigger] rest[b]).piece_type == PieceType::King implies rest[a].color
            != rest[b].color by {
            let a0 = if a == j {
                last
            } else {
                a
            };
            let b0 = if b == j {
                last
            } else {
                b
            };
            if a0 < b0 {
                assert(pieces[a0].color != pieces[b0].color);
            } else {
                assert(pieces[b0].color != pieces[a0].color);
            }
        }
    }
    let gone = pieces[j].position;
    assert forall|at: Position| squares(rest).contains_key(at) == squares(pieces).remove(
        gone,
    ).contains_key(at) by {
        if squares(rest).contains_key(at) {
            let k = index_at(rest, at);
            let k0 = if k == j {
                last
            } else {
                k
            };
            assert(pieces[k0].position == at);
            if k0 < j {
                assert(pieces[k0].position != pieces[j].position);
            } else {
                assert(pieces[j].position != pieces[k0].position);
            }
        }
        if squares(pieces).remove(gone).contains_key(at) {
            let m = index_at(pieces, at);
            assert(m != j);
            if m == last {
                assert(rest[j].position == at);
            } else {
                assert(rest[m].position == at);
            }
        }
    }
    assert forall|at: Position| #[trigger] squares(rest).contains_key(at) implies squares(rest)[at]
        == squares(pieces).remove(gone)[at] by {
        let k = index_at(rest, at);
        let k0 = if k == j {
            last
        } else {
            k
        };
        assert(rest[k] == pieces[k0]);
        lemma_piece_on_its_square(pieces, k0);
    }
    assert(squares(rest) =~= squares(pieces).remove(gone));
}

/// Putting `piece` in the place of the `i`-th piece of a well-formed board,
/// on a square where no other piece stands, moves what stood on the one
/// square to the other. The board stays well-formed if `piece` is on the
/// board and is no king that the board did not have.
pub proof fn lemma_replaced(pieces: Seq<Piece>, i: int, piece: Piece)
    requires
        well_formed(pieces),
        0 <= i < pieces.len(),
        piece.position.on_board(),
        forall|k: int|
            0 <= k < pieces.len() && k != i ==> (#[trigger] pieces[k]).position != piece.position,
        piece.piece_type == PieceType::King ==> pieces[i].piece_type == PieceType::King
            && pieces[i].color == piece.color,
    ensures
        well_formed(pieces.update(i, piece)),
        squares(pieces.update(i, piece)) == squares(pieces).remove(pieces[i].position).insert(
            piece.position,
            piece,
        ),
{
    let next = pieces.update(i, piece);
    assert(well_formed(next)) by {
        assert forall|a: int, b: int|
            0 <= a < b < next.len() && (#[trigger] next[a]).piece_type == PieceType::King && (
            #[trigger] next[b]).piece_type == PieceType::King implies next[a].color
            != next[b].color by {
            assert(pieces[a].color != pieces[b].color);
        }
        assert forall|a: int, b: int| 0 <= a < b < next.len() implies (#[trigger] next[a]).position
            != (#[trigger] next[b]).position by {
            assert(pieces[a].position != pieces[b].position);
        }
    }
    let gone = pieces[i].position;
    let after = squares(pieces).remove(gone).insert(piece.position, piece);
    assert forall|at: Position| squares(next).contains_key(at) == after.contains_key(at) by {
        if squares(next).contains_key(at) {
            let k = index_at(next, at);
            if k != i {
                assert(pieces[k].position == at);
                if k < i {
                    assert(pieces[k].position != pieces[i].position);
                } else {
                    assert(pieces[i].position != pieces[k].position);
                }
            }
        }
        if after.contains_key(at) {
            if at == piece.position {
                assert(next[i].position == at);
            } else {
                let m = index_at(pieces, at);
                assert(m != i);
                assert(next[m].position == at);
            }
        }
    }
    assert forall|at: Position| #[trigger] squares(next).contains_key(at) implies squares(next)[at]
        == after[at] by {
        let k = index_at(next, at);
        lemma_piece_on_its_square(next, k);
        if k != i {
            lemma_piece_on_its_square(pieces, k);
        }
    }
    assert(squares(next) =~= after);
}

impl View for ChessBoard {
    type V = Map<Position, Piece>;

    open spec fn view(&self) -> Map<Position, Piece> {
        squares(self.pieces@)
    }
}

impl ChessBoard {
    /// The validity of a board: every piece stands on the board, no two on
    /// one square, and no side has two kings.
    pub open spec fn wf(&self) -> bool {
        well_formed(self.pieces@)
    }

    /// The side of the piece that stands on `at`, if one does.
    pub open spec fn side_at(&self, at: Position) -> Option<PieceColor> {
        if self@.contains_key(at) {
            Some(self@[at].color)
        } else {
            None
        }
    }

    /// Whether a piece of the `color` side stands on `at`.
    pub open spec fn has_piece_of(&self, color: PieceColor, at: Position) -> bool {
        self@.contains_key(at) && self@[at].color == color
    }

    /// Whether the `color` side has a king on the board.
    pub open spec fn has_king(&self, color: PieceColor) -> bool {
        king_stands(self@, color)
    }

    /// Whether no piece stands strictly between `from` and `to`.
    pub open spec fn path_clear(&self, from: Position, to: Position) -> bool {
        forall|at: Position| lies_between(from, to, at) ==> !(#[trigger] self@.contains_key(at))
    }

    /// The piece that stands on `at`, if one does.
    pub open spec fn piece_on(&self, at: Position) -> Option<Piece> {
        if self@.contains_key(at) {
            Some(self@[at])
        } else {
            None
        }
    }

    /// What forbids the `color` side to move from `from` to `to`, if
    /// anything: both squares lie on the board, nothing stands between them,
    /// the side has a piece on `from`, and the rules of that piece allow the
    /// move.
    pub open spec fn move_violation(&self, color: PieceColor, from: Position, to: Position)
        -> Option<RuleViolation> {
        if !from.on_board() || !to.on_board() {
            Some(RuleViolation::OffBoard)
        } else if !self.path_clear(from, to) {
            Some(RuleViolation::PathBlocked)
        } else if !self.has_piece_of(color, from) {
            Some(RuleViolation::NoPieceAtPosition)
        } else {
            self@[from].violation(to, self.side_at(to))
        }
    }

    /// The squares after the piece on `from` has moved to `to`: `from` is
    /// empty, the moved piece stands on `to` in place of what stood there,
    /// and every other square is as before.
    pub open spec fn after_move(&self, from: Position, to: Position) -> Map<Position, Piece> {
        self@.remove(from).insert(to, self@[from].moved_to(to))
    }

    /// Puts the sixteen pieces of a side on their home rows.
    fn push_side(pieces: &mut Vec<Piece>, color: PieceColor)
        ensures
            final(pieces)@ == old(pieces)@ + side_pieces(color),
    {
        let mut column: i8 = 0;
        while column < 8
            invariant
                0 <= column <= 8,
                pieces@ == old(pieces)@ + side_pieces(color).take(column as int),
            decreases 8 - column,
        {
            pieces.push(Piece::new(PieceType::Pawn, color, column));
            column += 1;
        }
        pieces.push(Piece::new(PieceType::Rook, color, 0));
        pieces.push(Piece::new(PieceType::Rook, color, 7));
        pieces.push(Piece::new(PieceType::Knight, color, 1));
        pieces.push(Piece::new(PieceType::Knight, color, 6));
        pieces.push(Piece::new(PieceType::Bishop, color, 2));
        pieces.push(Piece::new(PieceType::Bishop, color, 5));
        pieces.push(Piece::new(PieceType::Queen, color, 3));
        pieces.push(Piece::new(PieceType::King, color, 4));
    }

    /// The board when the game begins: thirty-two pieces on their home rows.
    pub fn new() -> (board: ChessBoard)
        ensures
            board.wf(),
            board@ == starting_layout(),
            board.pieces@.len() == 32,
    {
        let mut pieces: Vec<Piece> = Vec::with_capacity(32);
        Self::push_side(&mut pieces, PieceColor::White);
        Self::push_side(&mut pieces, PieceColor::Black);
        proof {
            lemma_starting_pieces();
        }
        ChessBoard { pieces }
    }

    /// Tells whether the board is valid: every piece on the board, no two on
    /// one square, no side with two kings.
    pub fn is_well_formed(&self) -> (valid: bool)
        ensures
            valid == self.wf(),
    {
        let mut j: usize = 0;
        while j < self.pieces.len()
            invariant
                j <= self.pieces@.len(),
                well_formed(self.pieces@.take(j as int)),
            decreases self.pieces@.len() - j,
        {
            let piece = self.pieces[j];
            if !piece.position.is_on_board() {
                return false;
            }
            let mut i: usize = 0;
            while i < j
                invariant
                    i <= j < self.pieces@.len(),
                    piece == self.pieces@[j as int],
                    forall|k: int|
                        0 <= k < i ==> (#[trigger] self.pieces@[k]).position != piece.position,
                    forall|k: int|
                        0 <= k < i && (#[trigger] self.pieces@[k]).piece_type == PieceType::King
                            && piece.piece_type == PieceType::King ==> self.pieces@[k].color
                            != piece.color,
                decreases j - i,
            {
                let other = self.pieces[i];
                if other.position == piece.position {
                    return false;
                }
                if other.piece_type == PieceType::King && piece.piece_type == PieceType::King
                    && other.color == piece.color {
                    return false;
                }
                i += 1;
            }
            proof {
                let head = self.pieces@.take(j as int);
                let next = self.pieces@.take(j as int + 1);
                assert forall|k: int| 0 <= k < next.len() implies #[trigger] next[k]
                    == self.pieces@[k] by {}
                assert forall|k: int| 0 <= k < head.len() implies #[trigger] head[k]
                    == self.pieces@[k] by {}
                assert(well_formed(next)) by {
                    assert forall|a: int, b: int| 0 <= a < b < next.len() implies (
                    #[trigger] next[a]).position != (#[trigger] next[b]).position by {
                        if b < j {
                            assert(head[a].position != head[b].position);
                        }
                    }
                    assert forall|a: int, b: int|
                        0 <= a < b < next.len() && (#[trigger] next[a]).piece_type
                            == PieceType::King && (#[trigger] next[b]).piece_type
                            == PieceType::King implies next[a].color != next[b].color by {
                        if b < j {
                            assert(head[a].color != head[b].color);
                        }
                    }
                    assert forall|a: int| 0 <= a < next.len() implies (
                    #[trigger] next[a]).position.on_board() by {
                        if a < j {
                            assert(head[a].position.on_board());
                        }
                    }
                }
            }
            j += 1;
        }
        assert(self.pieces@.take(j as int) == self.pieces@);
        true
    }

    /// The place of the first piece that stands on `position`.
    fn index_of(&self, position: Position) -> (found: Option<usize>)
        ensures
            match found {
                Some(i) => i < self.pieces@.len() && self.pieces@[i as int].position == position,
                None => !self@.contains_key(position),
            },
    {
        let mut i: usize = 0;
        while i < self.pieces.len()
            invariant
                i <= self.pieces@.len(),
                forall|k: int| 0 <= k < i ==> (#[trigger] self.pieces@[k]).position != position,
            decreases self.pieces@.len() - i,
        {
            if self.pieces[i].position == position {
                return Some(i);
            }
            i += 1;
        }
        None
    }

    /// The piece that stands on `position`, if one does.
    pub fn find_piece_at(&self, position: Position) -> (found: Option<&Piece>)
        requires
            self.wf(),
        ensures
            match found {
                Some(piece) => self@.contains_key(position) && *piece == self@[position],
                None => !self@.contains_key(position),
            },
    {
        match self.index_of(position) {
            Some(i) => {
                proof {
                    lemma_piece_on_its_square(self.pieces@, i as int);
                }
                Some(&self.pieces[i])
            },
            None => None,
        }
    }

    /// The piece of the other side than `color` that stands on `position`,
    /// if one does.
    pub fn enemy_piece_at(&self, position: Position, color: PieceColor) -> (found: Option<&Piece>)
        requires
            self.wf(),
        ensures
            match found {
                Some(piece) => self.has_piece_of(color.opposite(), position) && *piece
                    == self@[position],
                None => !self.has_piece_of(color.opposite(), position),
            },
    {
        match self.find_piece_at(position) {
            Some(piece) => if piece.color != color {
                Some(piece)
            } else {
                None
            },
            None => None,
        }
    }

    /// The piece of the `color` side that stands on `position`, if there is
    /// one, to be changed in place. What the caller makes of the piece is
    /// what the board then holds in its place.
    pub fn find_own_piece_at_mut(&mut self, position: Position, color: PieceColor) -> (found:
        Option<&mut Piece>)
        requires
            old(self).wf(),
        ensures
            match found {
                Some(piece) => {
                    &&& old(self).has_piece_of(color, position)
                    &&& *piece == old(self)@[position]
                    &&& final(self).pieces@ == old(self).pieces@.update(
                        index_at(old(self).pieces@, position),
                        *final(piece),
                    )
                },
                None => !old(self).has_piece_of(color, position) && *final(self) == *old(self),
            },
    {
        match self.index_of(position) {
            Some(i) => {
                proof {
                    lemma_piece_on_its_square(self.pieces@, i as int);
                }
                if self.pieces[i].color == color {
                    Some(&mut self.pieces[i])
                } else {
                    None
                }
            },
            None => None,
        }
    }

    /// The king of the `color` side, if it is on the board.
    pub fn find_king(&self, color: PieceColor) -> (found: Option<&Piece>)
        requires
            self.wf(),
        ensures
            found is Some <==> self.has_king(color),
            found matches Some(king) ==> self@.contains_key(king.position) && self@[king.position]
                == *king && king.color == color && king.piece_type == PieceType::King,
    {
        let mut i: usize = 0;
        while i < self.pieces.len()
            invariant
                i <= self.pieces@.len(),
                self.wf(),
                forall|k: int|
                    0 <= k < i ==> !((#[trigger] self.pieces@[k]).color == color
                        && self.pieces@[k].piece_type == PieceType::King),
            decreases self.pieces@.len() - i,
        {
            if self.pieces[i].color == color && self.pieces[i].piece_type == PieceType::King {
                proof {
                    lemma_piece_on_its_square(self.pieces@, i as int);
                }
                return Some(&self.pieces[i]);
            }
            i += 1;
        }
        proof {
            assert forall|at: Position| #[trigger] self@.contains_key(at) implies !(self@[at].color
                == color && self@[at].piece_type == PieceType::King) by {
                lemma_square_holds_piece(self.pieces@, at);
            }
        }
        None
    }

    /// Tells whether no piece stands strictly between `from` and `to`, on the
    /// row, the column or the diagonal that the two squares share.
    pub fn is_path_clear(&self, from: Position, to: Position) -> (clear: bool)
        ensures
            clear == self.path_clear(from, to),
    {
        let mut i: usize = 0;
        while i < self.pieces.len()
            invariant
                i <= self.pieces@.len(),
                forall|k: int|
                    0 <= k < i ==> !lies_between(from, to, (#[trigger] self.pieces@[k]).position),
            decreases self.pieces@.len() - i,
        {
            if self.pieces[i].position.is_between(from, to) {
                proof {
                    let at = self.pieces@[i as int].position;
                    assert(self@.contains_key(at));
                }
                return false;
            }
            i += 1;
        }
        proof {
            assert forall|at: Position| lies_between(from, to, at) implies !(
            #[trigger] self@.contains_key(at)) by {
                if self@.contains_key(at) {
                    lemma_square_holds_piece(self.pieces@, at);
                }
            }
        }
        true
    }
    /// Takes the piece of the `color` side that stands on `position` off the
    /// board and returns it, if there is one.
    pub fn remove_piece(&mut self, position: Position, color: PieceColor) -> (removed: Option<
        Piece,
    >)
        requires
            old(self).wf(),
        ensures
            final(self).wf(),
            match removed {
                Some(piece) => old(self).has_piece_of(color, position) && piece == old(
                    self,
                )@[position] && final(self)@ == old(self)@.remove(position),
                None => !old(self).has_piece_of(color, position) && *final(self) == *old(self),
            },
    {
        match self.index_of(position) {
            Some(i) => {
                proof {
                    lemma_piece_on_its_square(self.pieces@, i as int);
                }
                if self.pieces[i].color == color {
                    proof {
                        lemma_taken_off(self.pieces@, i as int);
                    }
                    Some(self.pieces.swap_remove(i))
                } else {
                    None
                }
            },
            None => None,
        }
    }

    /// Moves the piece of the `player_color` side that stands on `from` to
    /// `to`, if the rules allow it. Returns the kind of piece that moved, as
    /// it was before the move, and the piece that it captured, if any. A
    /// refused move leaves the board as it was.
    pub fn move_piece(&mut self, player_color: PieceColor, from: Position, to: Position) -> (moved:
        Result<(PieceType, Option<Piece>), RuleViolation>)
        requires
            old(self).wf(),
        ensures
            final(self).wf(),
            match moved {
                Ok((piece_type, captured)) => {
                    &&& old(self).move_violation(player_color, from, to) is None
                    &&& piece_type == old(self)@[from].piece_type
                    &&& captured == old(self).piece_on(to)
                    &&& final(self)@ == old(self).after_move(from, to)
                },
                Err(violation) => {
                    &&& old(self).move_violation(player_color, from, to) == Some(violation)
                    &&& *final(self) == *old(self)
                },
            },
    {
        if !from.is_on_board() || !to.is_on_board() {
            return Err(RuleViolation::OffBoard);
        }
        if !self.is_path_clear(from, to) {
            return Err(RuleViolation::PathBlocked);
        }
        let i = match self.index_of(from) {
            Some(i) => i,
            None => {
                return Err(RuleViolation::NoPieceAtPosition);
            },
        };
        proof {
            lemma_piece_on_its_square(self.pieces@, i as int);
        }
        if self.pieces[i].color != player_color {
            return Err(RuleViolation::NoPieceAtPosition);
        }
        let target = self.index_of(to);
        let occupant = match target {
            Some(j) => {
                proof {
                    lemma_piece_on_its_square(self.pieces@, j as int);
                }
                Some(self.pieces[j].color)
            },
            None => None,
        };
        let mut piece = self.pieces[i];
        let piece_type = piece.piece_type;
        if let Err(violation) = piece.move_piece_to(to, occupant) {
            return Err(violation);
        }
        let ghost before = self.pieces@;
        match target {
            Some(j) => {
                assert(j != i) by {
                    if j == i {
                        assert(occupant == Some(before[i as int].color));
                    }
                }
                let last = self.pieces.len() - 1;
                let captured = self.pieces.swap_remove(j);
                let place = if i == last {
                    j
                } else {
                    i
                };
                proof {
                    lemma_taken_off(before, j as int);
                    let rest = self.pieces@;
                    assert(rest[place as int] == before[i as int]);
                    assert forall|k: int| 0 <= k < rest.len() implies (#[trigger] rest[k]).position
                        != to by {
                        if rest[k].position == to {
                            assert(squares(rest).contains_key(to));
                        }
                    }
                    lemma_replaced(rest, place as int, piece);
                    assert(squares(rest.update(place as int, piece)) =~= squares(before).remove(
                        from,
                    ).insert(to, piece));
                }
                self.pieces.set(place, piece);
                Ok((piece_type, Some(captured)))
            },
            None => {
                proof {
                    assert forall|k: int| 0 <= k < before.len() implies (
                    #[trigger] before[k]).position != to by {
                        if before[k].position == to {
                            assert(squares(before).contains_key(to));
                        }
                    }
                    lemma_replaced(before, i as int, piece);
                }
                self.pieces.set(i, piece);
                Ok((piece_type, None))
            },
        }
    }
}

} // verus!
