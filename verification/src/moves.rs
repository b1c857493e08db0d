//! Structured move candidates and their flat action indices.
//!
//! The flat action space has `ACTION_SIZE = 20*81 + 81*81 + 81 + 3` slots,
//! split into four disjoint bands:
//! - `[0, 6561)`: board moves, source cell times 81 plus destination cell
//!   (for a two-phase pivot move the shared final destination stands in);
//! - `[6561, 8181)`: placements from the reserve, piece key times 81 plus
//!   destination cell, after the board band;
//! - `[8181, 8262)`: acceptance of a stepped move with a destination cell;
//! - `8262`, `8263`, `8264`: acceptance without a destination, and the two
//!   answers of the turn-resolution question.
use vstd::prelude::*;

use crate::board::{Coord, coord_index, coord_to_num, lemma_coord_index_injective,
    lemma_coord_index_range};
use crate::piece::{Color, NonTam2Piece, Profession, lemma_piece_key_injective, nontam_code,
    nontam_piece_to_num};

verus! {

/// Total number of slots in the flat action space.
pub const ACTION_SIZE: usize = 20 * 81 + 81 * 81 + 81 + 3;

/// First slot of the placement-from-reserve band.
pub const HAND_BAND_START: usize = 81 * 81;

/// First slot of the accept-with-destination band.
pub const ACCEPT_BAND_START: usize = 20 * 81 + 81 * 81;

/// Slot of the acceptance that names no destination.
pub const ACCEPT_NONE_SLOT: usize = 20 * 81 + 81 * 81 + 81;

/// Slot of the answer that continues the season.
pub const TYMOK_SLOT: usize = 20 * 81 + 81 * 81 + 81 + 1;

/// Slot of the answer that ends the season.
pub const TAXOT_SLOT: usize = 20 * 81 + 81 * 81 + 81 + 2;

/// An ordinary move: a piece moves on the board, possibly via a step or
/// in the two-phase pivot form, or a reserve piece is placed.
#[derive(Clone, Copy, Debug, PartialEq, Eq, Structural)]
pub enum NormalMove {
    NonTamMoveSrcDst { src: Coord, dest: Coord },
    NonTamMoveSrcStepDstFinite { src: Coord, step: Coord, dest: Coord },
    NonTamMoveFromHopZuo { color: Color, prof: Profession, dest: Coord },
    TamMoveNoStep { src: Coord, first_dest: Coord, second_dest: Coord },
    TamMoveStepsDuringFormer { src: Coord, step: Coord, first_dest: Coord, second_dest: Coord },
    TamMoveStepsDuringLatter { src: Coord, step: Coord, first_dest: Coord, second_dest: Coord },
}

/// A candidate for the opening decision of a turn: either the first half
/// of a stepping move whose reach is still to be cast for, or an ordinary
/// move.
#[derive(Clone, Copy, Debug, PartialEq, Eq, Structural)]
pub enum PureMove {
    InfAfterStep { src: Coord, step: Coord, planned_direction: Coord },
    NormalMove(NormalMove),
}

/// A candidate for the decision after the cast: accept with a final
/// destination, or stay put.
#[derive(Clone, Copy, Debug, PartialEq, Eq, Structural)]
pub struct AfterHalfAcceptance {
    pub dest: Option<Coord>,
}

/// Whether a candidate places a piece from the reserve.
pub open spec fn is_from_hand(m: PureMove) -> bool {
    m matches PureMove::NormalMove(NormalMove::NonTamMoveFromHopZuo { .. })
}

/// The flat index of an opening candidate. A board move is addressed by
/// its source and its (final) destination; a placement by the piece key
/// and the destination, in the placement band.
pub open spec fn action_index(m: PureMove) -> int {
    match m {
        PureMove::InfAfterStep { src, step, planned_direction } => coord_index(src) * 81
            + coord_index(planned_direction),
        PureMove::NormalMove(n) => match n {
            NormalMove::NonTamMoveSrcDst { src, dest } => coord_index(src) * 81 + coord_index(dest),
            NormalMove::NonTamMoveSrcStepDstFinite { src, step, dest } => coord_index(src) * 81
                + coord_index(dest),
            NormalMove::NonTamMoveFromHopZuo { color, prof, dest } => HAND_BAND_START + nontam_code(
                NonTam2Piece { color, prof },
                false,
            ) * 81 + coord_index(dest),
            NormalMove::TamMoveNoStep { src, first_dest, second_dest } => coord_index(src) * 81
                + coord_index(second_dest),
            NormalMove::TamMoveStepsDuringFormer { src, step, first_dest, second_dest } => {
                coord_index(src) * 81 + coord_index(second_dest)
            },
            NormalMove::TamMoveStepsDuringLatter { src, step, first_dest, second_dest } => {
                coord_index(src) * 81 + coord_index(second_dest)
            },
        },
    }
}

/// The flat index of an acceptance candidate.
pub open spec fn acceptance_index(c: AfterHalfAcceptance) -> int {
    match c.dest {
        Some(d) => ACCEPT_BAND_START + coord_index(d),
        None => ACCEPT_NONE_SLOT as int,
    }
}

/// The flat index of a turn-resolution answer.
pub open spec fn tymok_index(tymok: bool) -> int {
    if tymok {
        TYMOK_SLOT as int
    } else {
        TAXOT_SLOT as int
    }
}

/// The cell a board-side candidate is addressed from: its source cell.
/// (For a placement, which the board bands never hold, the destination
/// stands in.)
pub open spec fn move_src(m: PureMove) -> Coord {
    match m {
        PureMove::InfAfterStep { src, .. } => src,
        PureMove::NormalMove(n) => match n {
            NormalMove::NonTamMoveSrcDst { src, .. } => src,
            NormalMove::NonTamMoveSrcStepDstFinite { src, .. } => src,
            NormalMove::NonTamMoveFromHopZuo { dest, .. } => dest,
            NormalMove::TamMoveNoStep { src, .. } => src,
            NormalMove::TamMoveStepsDuringFormer { src, .. } => src,
            NormalMove::TamMoveStepsDuringLatter { src, .. } => src,
        },
    }
}

/// The cell a candidate is addressed to: its final destination — the
/// planned direction of a step's first half, or the second destination
/// of a pivot move.
pub open spec fn move_dest(m: PureMove) -> Coord {
    match m {
        PureMove::InfAfterStep { planned_direction, .. } => planned_direction,
        PureMove::NormalMove(n) => match n {
            NormalMove::NonTamMoveSrcDst { dest, .. } => dest,
            NormalMove::NonTamMoveSrcStepDstFinite { dest, .. } => dest,
            NormalMove::NonTamMoveFromHopZuo { dest, .. } => dest,
            NormalMove::TamMoveNoStep { second_dest, .. } => second_dest,
            NormalMove::TamMoveStepsDuringFormer { second_dest, .. } => second_dest,
            NormalMove::TamMoveStepsDuringLatter { second_dest, .. } => second_dest,
        },
    }
}

/// Every opening candidate's index lies below the acceptance band; a
/// placement lies in the placement band, anything else in the board band
/// at its source-and-destination slot.
pub proof fn lemma_action_index_range(m: PureMove)
    ensures
        0 <= action_index(m) < ACCEPT_BAND_START,
        is_from_hand(m) ==> HAND_BAND_START <= action_index(m),
        !is_from_hand(m) ==> action_index(m) < HAND_BAND_START && action_index(m) == coord_index(
            move_src(m),
        ) * 81 + coord_index(move_dest(m)),
{
}

/// Law (bijection, placement band): placement slots are one-to-one —
/// two placements on one slot are one move, so decoding the slot of a
/// legal placement reconstructs exactly that placement.
pub proof fn lemma_placement_index_injective(c: PureMove, d: PureMove)
    requires
        is_from_hand(c),
        is_from_hand(d),
        action_index(c) == action_index(d),
    ensures
        c == d,
{
    lemma_coord_index_range(move_dest(c));
    lemma_coord_index_range(move_dest(d));
    lemma_coord_index_injective(move_dest(c), move_dest(d));
    match (c, d) {
        (
            PureMove::NormalMove(NormalMove::NonTamMoveFromHopZuo { color: c1, prof: p1, dest: d1 }),
            PureMove::NormalMove(NormalMove::NonTamMoveFromHopZuo { color: c2, prof: p2, dest: d2 }),
        ) => {
            lemma_piece_key_injective(
                NonTam2Piece { color: c1, prof: p1 },
                NonTam2Piece { color: c2, prof: p2 },
            );
        },
        _ => {},
    }
}

/// Law (bijection, board band): two board-side candidates on one slot
/// share the addressable key — one source cell and one final
/// destination. Decoding the slot of a legal candidate therefore finds
/// a candidate of the same source and destination.
pub proof fn lemma_board_index_shares_key(c: PureMove, d: PureMove)
    requires
        !is_from_hand(c),
        !is_from_hand(d),
        action_index(c) == action_index(d),
    ensures
        move_src(c) == move_src(d),
        move_dest(c) == move_dest(d),
{
    lemma_action_index_range(c);
    lemma_action_index_range(d);
    lemma_coord_index_range(move_src(c));
    lemma_coord_index_range(move_src(d));
    lemma_coord_index_range(move_dest(c));
    lemma_coord_index_range(move_dest(d));
    lemma_coord_index_injective(move_src(c), move_src(d));
    lemma_coord_index_injective(move_dest(c), move_dest(d));
}

/// Every acceptance candidate's index lies in the acceptance band or
/// on the lone no-destination slot.
pub proof fn lemma_acceptance_index_range(c: AfterHalfAcceptance)
    ensures
        ACCEPT_BAND_START <= acceptance_index(c) <= ACCEPT_NONE_SLOT,
{
    match c.dest {
        Some(x) => lemma_coord_index_range(x),
        None => {},
    }
}

/// Law (bijection, acceptance band): acceptance slots are one-to-one.
pub proof fn lemma_acceptance_index_injective(c: AfterHalfAcceptance, d: AfterHalfAcceptance)
    requires
        acceptance_index(c) == acceptance_index(d),
    ensures
        c == d,
{
    match (c.dest, d.dest) {
        (Some(x), Some(y)) => {
            lemma_coord_index_range(x);
            lemma_coord_index_range(y);
            lemma_coord_index_injective(x, y);
        },
        (Some(x), None) => {
            lemma_coord_index_range(x);
        },
        (None, Some(y)) => {
            lemma_coord_index_range(y);
        },
        (None, None) => {},
    }
}

/// Law (bijection, resolution slots): the two answers hold two slots.
pub proof fn lemma_tymok_index_injective(a: bool, b: bool)
    requires
        tymok_index(a) == tymok_index(b),
    ensures
        a == b,
{
}

/// Computes the flat index of an opening candidate.
pub fn encode_action(m: &PureMove) -> (i: usize)
    ensures
        i == action_index(*m),
        i < ACCEPT_BAND_START,
{
    match m {
        PureMove::InfAfterStep { src, step: _, planned_direction } => coord_to_num(src) * 81
            + coord_to_num(planned_direction),
        PureMove::NormalMove(n) => match n {
            NormalMove::NonTamMoveSrcDst { src, dest } => coord_to_num(src) * 81 + coord_to_num(
                dest,
            ),
            NormalMove::NonTamMoveSrcStepDstFinite { src, step: _, dest } => coord_to_num(src) * 81
                + coord_to_num(dest),
            NormalMove::NonTamMoveFromHopZuo { color, prof, dest } => {
                let piece = NonTam2Piece { color: *color, prof: *prof };
                HAND_BAND_START + nontam_piece_to_num(&piece, &false) * 81 + coord_to_num(dest)
            },
            NormalMove::TamMoveNoStep { src, first_dest: _, second_dest } => coord_to_num(src) * 81
                + coord_to_num(second_dest),
            NormalMove::TamMoveStepsDuringFormer { src, step: _, first_dest: _, second_dest } => {
                coord_to_num(src) * 81 + coord_to_num(second_dest)
            },
            NormalMove::TamMoveStepsDuringLatter { src, step: _, first_dest: _, second_dest } => {
                coord_to_num(src) * 81 + coord_to_num(second_dest)
            },
        },
    }
}

/// Computes the flat index of an acceptance candidate.
pub fn encode_acceptance(c: &AfterHalfAcceptance) -> (i: usize)
    ensures
        i == acceptance_index(*c),
        ACCEPT_BAND_START <= i <= ACCEPT_NONE_SLOT,
{
    match &c.dest {
        Some(d) => ACCEPT_BAND_START + coord_to_num(d),
        None => ACCEPT_NONE_SLOT,
    }
}

} // verus!
