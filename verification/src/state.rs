//! The game-state data that the codec and the training loop read.
//!
//! The rule engine owns the full game state; this crate models exactly
//! the parts its own logic reads: the board occupancy, the two off-board
//! reserves, whose turn it is, one absolute score, and the season. The
//! adapter around the engine fills a `Situation` from the engine's state.
use vstd::prelude::*;

use crate::board::Coord;
use crate::piece::{NonTam2Piece, Piece, Side};

verus! {

/// The board-and-reserve data common to every point of the turn cycle.
///
/// `board` lists occupied cells; when a cell is listed twice the later
/// entry counts. `score` is the A side's score as the engine reports it,
/// and `season` numbers the season within the game.
#[derive(Clone, Debug)]
pub struct Situation {
    pub board: Vec<(Coord, Piece)>,
    pub a_side_hop1zuo1: Vec<NonTam2Piece>,
    pub ia_side_hop1zuo1: Vec<NonTam2Piece>,
    pub whose_turn: Side,
    pub score: i32,
    pub season: u8,
}

/// Where in the turn cycle the game sits: an ordinary turn opening, the
/// decision after a cast step, or a finished move pending the binary
/// turn-resolution question.
#[derive(Clone, Debug)]
pub enum Phase {
    Start(Situation),
    AfterCiurl(Situation),
    Moved(Situation),
}

impl Phase {
    /// The situation data of whichever point of the cycle this is.
    pub open spec fn spec_situation(self) -> Situation {
        match self {
            Phase::Start(s) => s,
            Phase::AfterCiurl(s) => s,
            Phase::Moved(s) => s,
        }
    }

    /// The situation data of whichever point of the cycle this is.
    pub fn situation(&self) -> (s: &Situation)
        ensures
            *s == self.spec_situation(),
    {
        match self {
            Phase::Start(s) => s,
            Phase::AfterCiurl(s) => s,
            Phase::Moved(s) => s,
        }
    }

    /// The player whose decision the phase awaits.
    pub fn whose_turn(&self) -> (side: Side)
        ensures
            side == self.spec_situation().whose_turn,
    {
        self.situation().whose_turn
    }

    /// The A side's score as the engine last reported it.
    pub fn get_score(&self) -> (score: i32)
        ensures
            score == self.spec_situation().score,
    {
        self.situation().score
    }

    /// The number of the running season.
    pub fn get_season(&self) -> (season: u8)
        ensures
            season == self.spec_situation().season,
    {
        self.situation().season
    }

    /// The A side's off-board reserve.
    pub fn a_side_hop1zuo1(&self) -> (r: &Vec<NonTam2Piece>)
        ensures
            r@ == self.spec_situation().a_side_hop1zuo1@,
    {
        &self.situation().a_side_hop1zuo1
    }

    /// The IA side's off-board reserve.
    pub fn ia_side_hop1zuo1(&self) -> (r: &Vec<NonTam2Piece>)
        ensures
            r@ == self.spec_situation().ia_side_hop1zuo1@,
    {
        &self.situation().ia_side_hop1zuo1
    }
}

} // verus!
