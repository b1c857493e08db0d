//! The decision core of one game episode.
//!
//! The rule engine applies moves and resolves turns; this module holds
//! what the episode driver decides from the engine's reports: which
//! phase comes next, when an episode ends, and what reward is credited.
//! Rewards are kept in integer milli-points, so one point of game score
//! is `1000` and one reserve piece is `1`.
use vstd::prelude::*;

use crate::memory::Experience;
use crate::moves::{AfterHalfAcceptance, PureMove};
use crate::piece::Side;
use crate::state::{Phase, Situation};

verus! {

/// What one applied action came to: the episode ends with a terminal
/// reward, or play continues.
#[derive(Clone, Copy, Debug, PartialEq, Eq, Structural)]
pub enum ActionResult {
    Finish(i64),
    Continue,
}

/// A structured action, one kind per point of the turn cycle.
#[derive(Clone, Copy, Debug, PartialEq, Eq, Structural)]
pub enum Action {
    Pure(PureMove),
    AfterHalf(AfterHalfAcceptance),
    IsTymok(bool),
}

/// What ending the season would come to, as the engine reports it: the
/// next season starts (with the mover's score after scoring), or the
/// mover's win ends the game.
#[derive(Clone, Debug)]
pub enum TaxotOutcome {
    NextSeason { mover_score_after: i32 },
    VictoriousSide,
}

/// The engine's resolution of a finished move, as plain data: no hand
/// was made and play continues at the given turn; a hand was made and
/// the turn-resolution question is now pending; or the game ended
/// outright with the given victor.
#[derive(Clone, Debug)]
pub enum MoveResolution {
    NeitherTymokNorTaxot(Situation),
    HandExists,
    GameEndsWithoutTymokTaxot { victor: Option<Side> },
}

/// The engine's resolution behind a pending turn-resolution question:
/// the made hand with its two continuations, or an outright end that
/// overrides the question.
#[derive(Clone, Debug)]
pub enum HandResolution {
    HandExists { if_tymok: Situation, if_taxot: TaxotOutcome },
    GameEndsWithoutTymokTaxot { victor: Option<Side> },
}

/// The terminal reward, in milli-points, when the game ends outright:
/// the victor is worth twenty points with the mover's sign, less the
/// mover's own score before the end.
pub open spec fn spec_game_end_reward(victor: Option<Side>, mover: Side, mover_score: i32) -> int {
    let pts: int = match victor {
        Some(Side::ASide) => 20,
        Some(Side::IASide) => -20,
        None => 0,
    };
    let sign: int = if mover == Side::ASide {
        1
    } else {
        -1
    };
    (pts * sign - mover_score) * 1000
}

/// The terminal reward, in milli-points, of declining to continue the
/// season: the mover's score movement, or twenty points less the old
/// score when the win ends the game.
pub open spec fn spec_taxot_reward(outcome: TaxotOutcome, mover_score: i32) -> int {
    match outcome {
        TaxotOutcome::NextSeason { mover_score_after } => (mover_score_after - mover_score) * 1000,
        TaxotOutcome::VictoriousSide => (20 - mover_score) * 1000,
    }
}

/// Computes the outright-end reward executably.
pub fn game_end_reward(victor: Option<Side>, mover: Side, mover_score: i32) -> (r: i64)
    ensures
        r == spec_game_end_reward(victor, mover, mover_score),
{
    let pts: i64 = match victor {
        Some(Side::ASide) => 20,
        Some(Side::IASide) => -20,
        None => 0,
    };
    let sign: i64 = match mover {
        Side::ASide => 1,
        Side::IASide => -1,
    };
    (pts * sign - mover_score as i64) * 1000
}

/// Settles an ordinary or accepted move once the engine has resolved
/// it: play continues at a fresh turn, waits on the turn-resolution
/// question with the moved state, or the episode ends with the
/// outright-end reward for the mover.
pub fn settle_move(moved: Situation, resolution: MoveResolution, mover: Side, mover_score: i32)
    -> (r: (Option<Phase>, ActionResult))
    ensures
        resolution matches MoveResolution::NeitherTymokNorTaxot(s) ==> r.0 == Some(Phase::Start(s))
            && r.1 == ActionResult::Continue,
        resolution matches MoveResolution::HandExists ==> r.0 == Some(Phase::Moved(moved)) && r.1
            == ActionResult::Continue,
        resolution matches MoveResolution::GameEndsWithoutTymokTaxot { victor } ==> r.0 is None && (
        r.1 matches ActionResult::Finish(v) && v == spec_game_end_reward(
            victor,
            mover,
            mover_score,
        )),
{
    match resolution {
        MoveResolution::NeitherTymokNorTaxot(s) => (Some(Phase::Start(s)), ActionResult::Continue),
        MoveResolution::HandExists => (Some(Phase::Moved(moved)), ActionResult::Continue),
        MoveResolution::GameEndsWithoutTymokTaxot { victor } => (
            None,
            ActionResult::Finish(game_end_reward(victor, mover, mover_score)),
        ),
    }
}

/// Settles the turn-resolution answer on a made hand: continuing the
/// season resumes play at the engine's continuation turn; declining
/// ends the episode with the mover's score movement; an outright end
/// overrides the answer.
pub fn settle_tymok(tymok: bool, resolution: HandResolution, mover: Side, mover_score: i32) -> (r:
    (Option<Phase>, ActionResult))
    ensures
        resolution matches HandResolution::HandExists { if_tymok, if_taxot } ==> {
            &&& tymok ==> r.0 == Some(Phase::Start(if_tymok)) && r.1 == ActionResult::Continue
            &&& !tymok ==> r.0 is None && (r.1 matches ActionResult::Finish(v) && v
                == spec_taxot_reward(if_taxot, mover_score))
        },
        resolution matches HandResolution::GameEndsWithoutTymokTaxot { victor } ==> r.0 is None && (
        r.1 matches ActionResult::Finish(v) && v == spec_game_end_reward(
            victor,
            mover,
            mover_score,
        )),
{
    match resolution {
        HandResolution::HandExists { if_tymok, if_taxot } => {
            if tymok {
                (Some(Phase::Start(if_tymok)), ActionResult::Continue)
            } else {
                let v: i64 = match if_taxot {
                    TaxotOutcome::NextSeason { mover_score_after } => (mover_score_after as i64
                        - mover_score as i64) * 1000,
                    TaxotOutcome::VictoriousSide => (20 - mover_score as i64) * 1000,
                };
                (None, ActionResult::Finish(v))
            }
        },
        HandResolution::GameEndsWithoutTymokTaxot { victor } => (
            None,
            ActionResult::Finish(game_end_reward(victor, mover, mover_score)),
        ),
    }
}

/// The shaped step reward, in milli-points, from decision point `y` to
/// the later decision point `x` of one episode: the score movement, and
/// within one season also the net flow of pieces into the reserves.
pub open spec fn spec_score_delta(x: Phase, y: Phase) -> int {
    let sd = (x.spec_situation().score - y.spec_situation().score) * 1000;
    if x.spec_situation().season != y.spec_situation().season {
        sd
    } else {
        sd + (y.spec_situation().ia_side_hop1zuo1@.len() - x.spec_situation().ia_side_hop1zuo1@.len()
            + x.spec_situation().a_side_hop1zuo1@.len() - y.spec_situation().a_side_hop1zuo1@.len())
    }
}

/// Computes the shaped step reward executably. The reserve lengths are
/// bounded so that the original's 32-bit counts stay exact.
pub fn score_delta(x: &Phase, y: &Phase) -> (r: i64)
    requires
        x.spec_situation().a_side_hop1zuo1@.len() <= i32::MAX,
        x.spec_situation().ia_side_hop1zuo1@.len() <= i32::MAX,
        y.spec_situation().a_side_hop1zuo1@.len() <= i32::MAX,
        y.spec_situation().ia_side_hop1zuo1@.len() <= i32::MAX,
    ensures
        r == spec_score_delta(*x, *y),
{
    let sd = (x.get_score() as i64 - y.get_score() as i64) * 1000;
    if x.get_season() != y.get_season() {
        sd
    } else {
        let xs = x.situation();
        let ys = y.situation();
        sd + (ys.ia_side_hop1zuo1.len() as i64 - xs.ia_side_hop1zuo1.len() as i64
            + xs.a_side_hop1zuo1.len() as i64 - ys.a_side_hop1zuo1.len() as i64)
    }
}

/// Builds the experience recorded between two successive decision
/// points of one side: the reward is the shaped delta from the older
/// point to the newer, flipped to the acting side's perspective.
pub fn make_experience(last_state: Phase, prev_env: Phase, action: usize) -> (e: Experience<
    Phase,
    usize,
    i64,
>)
    requires
        last_state.spec_situation().a_side_hop1zuo1@.len() <= i32::MAX,
        last_state.spec_situation().ia_side_hop1zuo1@.len() <= i32::MAX,
        prev_env.spec_situation().a_side_hop1zuo1@.len() <= i32::MAX,
        prev_env.spec_situation().ia_side_hop1zuo1@.len() <= i32::MAX,
    ensures
        e.current_state == last_state,
        e.next_state == prev_env,
        e.action == action,
        e.value == (if last_state.spec_situation().whose_turn == Side::ASide {
            spec_score_delta(prev_env, last_state)
        } else {
            -spec_score_delta(prev_env, last_state)
        }),
{
    let v = score_delta(&prev_env, &last_state);
    let v: i64 = match last_state.whose_turn() {
        Side::ASide => v,
        Side::IASide => -v,
    };
    Experience { current_state: last_state, action, next_state: prev_env, value: v }
}

} // verus!
