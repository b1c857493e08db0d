//! Board coordinates and their flat numbering.
//!
//! A cell is a (row, column) pair on a 9 by 9 board. The codec flattens a
//! cell to a number in `[0, 81)`: row index times 9 plus column index.
use vstd::prelude::*;

verus! {

/// A row of the board, in board order.
#[derive(Clone, Copy, Debug, PartialEq, Eq, Structural)]
pub enum Row {
    A,
    E,
    I,
    U,
    O,
    Y,
    AI,
    AU,
    IA,
}

/// A column of the board, in board order.
#[derive(Clone, Copy, Debug, PartialEq, Eq, Structural)]
pub enum Column {
    K,
    L,
    N,
    T,
    Z,
    X,
    C,
    M,
    P,
}

/// A cell of the board.
#[derive(Clone, Copy, Debug, PartialEq, Eq, Structural)]
pub struct Coord(pub Row, pub Column);

/// The index of a row, in `[0, 9)`.
pub open spec fn row_index(r: Row) -> int {
    match r {
        Row::A => 0,
        Row::E => 1,
        Row::I => 2,
        Row::U => 3,
        Row::O => 4,
        Row::Y => 5,
        Row::AI => 6,
        Row::AU => 7,
        Row::IA => 8,
    }
}

/// The index of a column, in `[0, 9)`.
pub open spec fn column_index(c: Column) -> int {
    match c {
        Column::K => 0,
        Column::L => 1,
        Column::N => 2,
        Column::T => 3,
        Column::Z => 4,
        Column::X => 5,
        Column::C => 6,
        Column::M => 7,
        Column::P => 8,
    }
}

/// The flat number of a cell, in `[0, 81)`.
pub open spec fn coord_index(coord: Coord) -> int {
    row_index(coord.0) * 9 + column_index(coord.1)
}

/// Flattens a cell to its number in `[0, 81)`.
pub fn coord_to_num(coord: &Coord) -> (n: usize)
    ensures
        n == coord_index(*coord),
        n < 81,
{
    (match coord.0 {
        Row::A => 0usize,
        Row::E => 1,
        Row::I => 2,
        Row::U => 3,
        Row::O => 4,
        Row::Y => 5,
        Row::AI => 6,
        Row::AU => 7,
        Row::IA => 8,
    }) * 9 + (match coord.1 {
        Column::K => 0usize,
        Column::L => 1,
        Column::N => 2,
        Column::T => 3,
        Column::Z => 4,
        Column::X => 5,
        Column::C => 6,
        Column::M => 7,
        Column::P => 8,
    })
}

/// Recovers the cell whose flat number is `index`.
pub fn num_to_coord(index: &usize) -> (coord: Coord)
    requires
        *index < 81,
    ensures
        coord_index(coord) == *index,
{
    let p = index / 9;
    let q = index % 9;
    Coord(
        match p {
            0 => Row::A,
            1 => Row::E,
            2 => Row::I,
            3 => Row::U,
            4 => Row::O,
            5 => Row::Y,
            6 => Row::AI,
            7 => Row::AU,
            _ => Row::IA,
        },
        match q {
            0 => Column::K,
            1 => Column::L,
            2 => Column::N,
            3 => Column::T,
            4 => Column::Z,
            5 => Column::X,
            6 => Column::C,
            7 => Column::M,
            _ => Column::P,
        },
    )
}

/// Cell numbering is injective: cells with one number are one cell.
pub proof fn lemma_coord_index_injective(a: Coord, b: Coord)
    ensures
        coord_index(a) == coord_index(b) ==> a == b,
{
}

/// Every cell's number lies in `[0, 81)`.
pub proof fn lemma_coord_index_range(c: Coord)
    ensures
        0 <= coord_index(c) < 81,
{
}

} // verus!
