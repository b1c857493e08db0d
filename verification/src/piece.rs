//! Pieces, their owners, and their numeric codes.
//!
//! A cell content is coded in `[0, 42)`: `0` for an empty cell, `41` for
//! the unique Tam2 piece, and for an ordinary piece the sum of a colour
//! offset (10 for Huok2), an ownership offset (20 when the piece belongs
//! to the viewing player), and a profession index in `[0, 10)`. The codes
//! are always taken from the perspective of the player whose turn it is.
use vstd::prelude::*;

verus! {

/// A piece colour.
#[derive(Clone, Copy, Debug, PartialEq, Eq, Structural)]
pub enum Color {
    Kok1,
    Huok2,
}

/// A piece profession, in code order.
#[derive(Clone, Copy, Debug, PartialEq, Eq, Structural)]
pub enum Profession {
    Nuak1,
    Kauk2,
    Gua2,
    Kaun1,
    Dau2,
    Maun1,
    Kua2,
    Tuk2,
    Uai1,
    Io,
}

/// One of the two players.
#[derive(Clone, Copy, Debug, PartialEq, Eq, Structural)]
pub enum Side {
    ASide,
    IASide,
}

/// A piece on the board.
#[derive(Clone, Copy, Debug, PartialEq, Eq, Structural)]
pub enum Piece {
    Tam2,
    NonTam2Piece { color: Color, prof: Profession, side: Side },
}

/// A piece off the board: a colour and a profession, no owner.
#[derive(Clone, Copy, Debug, PartialEq, Eq, Structural)]
pub struct NonTam2Piece {
    pub color: Color,
    pub prof: Profession,
}

/// The index of a profession, in `[0, 10)`.
pub open spec fn prof_index(p: Profession) -> int {
    match p {
        Profession::Nuak1 => 0,
        Profession::Kauk2 => 1,
        Profession::Gua2 => 2,
        Profession::Kaun1 => 3,
        Profession::Dau2 => 4,
        Profession::Maun1 => 5,
        Profession::Kua2 => 6,
        Profession::Tuk2 => 7,
        Profession::Uai1 => 8,
        Profession::Io => 9,
    }
}

/// The colour offset: 10 for Huok2, 0 for Kok1.
pub open spec fn color_offset(c: Color) -> int {
    match c {
        Color::Huok2 => 10,
        Color::Kok1 => 0,
    }
}

/// The cell-content code of a piece, viewed by `viewer`: `41` for Tam2,
/// otherwise colour offset plus 20 when the piece is the viewer's own,
/// plus the profession index.
pub open spec fn piece_code(p: Piece, viewer: Side) -> int {
    match p {
        Piece::Tam2 => 41,
        Piece::NonTam2Piece { color, prof, side } => color_offset(color) + (
        if side == viewer {
            20int
        } else {
            0int
        }) + prof_index(prof),
    }
}

/// The code of an off-board piece: colour offset plus 20 when it is
/// counted as the viewing player's, plus the profession index.
pub open spec fn nontam_code(p: NonTam2Piece, is_viewer_s: bool) -> int {
    color_offset(p.color) + (if is_viewer_s {
        20int
    } else {
        0int
    }) + prof_index(p.prof)
}

/// The reserve-histogram key of an off-board piece, in `[0, 20)`:
/// colour offset plus profession index.
pub open spec fn piece_key(p: NonTam2Piece) -> int {
    color_offset(p.color) + prof_index(p.prof)
}

/// Codes a board piece as seen by the player `player_side`.
pub fn piece_to_num(piece: &Piece, player_side: &Side) -> (n: usize)
    ensures
        n == piece_code(*piece, *player_side),
        n < 42,
{
    match piece {
        Piece::Tam2 => 41,
        Piece::NonTam2Piece { color, prof, side } => (if *color == Color::Huok2 {
            10usize
        } else {
            0usize
        }) + (if side == player_side {
            20usize
        } else {
            0usize
        }) + prof_num(prof),
    }
}

/// Codes an off-board piece, counted as the viewer's own when
/// `is_player_side` holds.
pub fn nontam_piece_to_num(piece: &NonTam2Piece, is_player_side: &bool) -> (n: usize)
    ensures
        n == nontam_code(*piece, *is_player_side),
        n < 40,
{
    (if piece.color == Color::Huok2 {
        10usize
    } else {
        0usize
    }) + (if *is_player_side {
        20usize
    } else {
        0usize
    }) + prof_num(&piece.prof)
}

/// Recovers the off-board piece whose reserve key is `index`.
pub fn num_to_nontam_piece(index: &usize) -> (piece: NonTam2Piece)
    requires
        *index < 20,
    ensures
        piece_key(piece) == *index,
{
    let color = if *index >= 10 {
        Color::Huok2
    } else {
        Color::Kok1
    };
    let prof = match *index % 10 {
        0 => Profession::Nuak1,
        1 => Profession::Kauk2,
        2 => Profession::Gua2,
        3 => Profession::Kaun1,
        4 => Profession::Dau2,
        5 => Profession::Maun1,
        6 => Profession::Kua2,
        7 => Profession::Tuk2,
        8 => Profession::Uai1,
        _ => Profession::Io,
    };
    NonTam2Piece { color, prof }
}

/// The reserve-histogram key of an off-board piece.
pub fn get_piece_key(piece: &NonTam2Piece) -> (k: usize)
    ensures
        k == piece_key(*piece),
        k < 20,
{
    (if piece.color == Color::Huok2 {
        10usize
    } else {
        0usize
    }) + prof_num(&piece.prof)
}

/// The profession index as an executable value.
fn prof_num(prof: &Profession) -> (n: usize)
    ensures
        n == prof_index(*prof),
{
    match prof {
        Profession::Nuak1 => 0,
        Profession::Kauk2 => 1,
        Profession::Gua2 => 2,
        Profession::Kaun1 => 3,
        Profession::Dau2 => 4,
        Profession::Maun1 => 5,
        Profession::Kua2 => 6,
        Profession::Tuk2 => 7,
        Profession::Uai1 => 8,
        Profession::Io => 9,
    }
}

/// Reserve keys identify off-board pieces: equal keys, equal pieces.
pub proof fn lemma_piece_key_injective(a: NonTam2Piece, b: NonTam2Piece)
    ensures
        piece_key(a) == piece_key(b) ==> a == b,
{
}

/// Changing the viewing player moves an ordinary piece's code by exactly
/// 20 (the ownership offset) and leaves the Tam2 code unchanged, so board
/// geometry is the same from both sides while ownership tags flip.
pub proof fn lemma_piece_code_flip(p: Piece, a: Side, b: Side)
    requires
        a != b,
    ensures
        p is Tam2 ==> piece_code(p, a) == piece_code(p, b),
        !(p is Tam2) ==> (piece_code(p, a) - piece_code(p, b) == 20 || piece_code(p, b) - piece_code(
            p,
            a,
        ) == 20),
{
}

} // verus!
