//! Action selection over masked scores.
//!
//! The estimator hands back one score per flat action slot; selection
//! picks a legal slot. The policy here is the epsilon-greedy one: most
//! of the time (98 of 100 draws) the first highest-scored legal slot,
//! otherwise a uniformly random legal slot. The softmax-sampling
//! alternative weighs slots by an exponential of their real-valued
//! scores, so it lives with the estimator adapter, outside the
//! verified core; both choose among exactly the legal slots.
//!
//! Scores arrive as order-preserving integers so that "highest" means
//! the same thing here as it does on the estimator's side.
use vstd::pervasive::unreached;
use vstd::prelude::*;

use crate::environment::Action;
use crate::mask::{afterhalf_candidates_to_mask, candidates_to_mask, first_acceptance_match,
    first_match, get_after_half_candidate_by_index, get_candidate_by_index,
    get_tymok_candidate_by_index, in_acceptance_mask, in_start_mask, tymok_mask};
use crate::moves::{ACCEPT_NONE_SLOT, ACTION_SIZE, AfterHalfAcceptance, HAND_BAND_START, PureMove,
    TAXOT_SLOT, TYMOK_SLOT, acceptance_index, action_index, is_from_hand, lemma_action_index_range,
    tymok_index};
use crate::rng::random_below;

verus! {

/// The legal slots of a mask, in increasing order.
pub fn legal_indices(mask: &Vec<i8>) -> (v: Vec<usize>)
    ensures
        forall|k: int|
            0 <= k < v@.len() ==> (#[trigger] v@[k]) < mask@.len() && mask@[v@[k] as int] == 1,
        forall|i: int|
            0 <= i < mask@.len() && mask@[i] == 1 ==> exists|k: int|
                0 <= k < v@.len() && #[trigger] v@[k] == i,
{
    let mut v: Vec<usize> = Vec::new();
    let mut i: usize = 0;
    while i < mask.len()
        invariant
            i <= mask@.len(),
            forall|k: int|
                0 <= k < v@.len() ==> (#[trigger] v@[k]) < mask@.len() && mask@[v@[k] as int] == 1,
            forall|j: int|
                0 <= j < i && mask@[j] == 1 ==> exists|k: int|
                    0 <= k < v@.len() && #[trigger] v@[k] == j,
        decreases mask@.len() - i,
    {
        if mask[i] == 1 {
            let ghost old_v = v@;
            v.push(i);
            proof {
                assert forall|j: int| 0 <= j < i + 1 && mask@[j] == 1 implies exists|k: int|
                    0 <= k < v@.len() && #[trigger] v@[k] == j by {
                    if j < i {
                        let k = choose|k: int| 0 <= k < old_v.len() && #[trigger] old_v[k] == j;
                        assert(v@[k] == j);
                    } else {
                        assert(v@[v@.len() - 1] == j);
                    }
                }
            }
        }
        i += 1;
    }
    v
}

/// The first highest-scored legal slot, or nothing when no slot is
/// legal.
pub fn masked_argmax(scores: &Vec<i64>, mask: &Vec<i8>) -> (r: Option<usize>)
    requires
        scores@.len() == mask@.len(),
    ensures
        match r {
            Some(i) => i < mask@.len() && mask@[i as int] == 1 && (forall|j: int|
                0 <= j < mask@.len() && mask@[j] == 1 ==> scores@[j] <= scores@[i as int]) && (
            forall|j: int| 0 <= j < i && mask@[j] == 1 ==> scores@[j] < scores@[i as int]),
            None => forall|j: int| 0 <= j < mask@.len() ==> mask@[j] != 1,
        },
{
    let mut found = false;
    let mut best: usize = 0;
    let mut i: usize = 0;
    while i < scores.len()
        invariant
            scores@.len() == mask@.len(),
            i <= scores@.len(),
            !found ==> forall|j: int| 0 <= j < i ==> mask@[j] != 1,
            found ==> best < i && mask@[best as int] == 1,
            found ==> forall|j: int|
                0 <= j < i && mask@[j] == 1 ==> scores@[j] <= scores@[best as int],
            found ==> forall|j: int|
                0 <= j < best && mask@[j] == 1 ==> scores@[j] < scores@[best as int],
        decreases scores@.len() - i,
    {
        if mask[i] == 1 && (!found || scores[best] < scores[i]) {
            best = i;
            found = true;
        }
        i += 1;
    }
    if found {
        Some(best)
    } else {
        None
    }
}

/// Selects a legal slot by the epsilon-greedy policy: on 98 of 100
/// draws the first highest-scored legal slot, otherwise a uniformly
/// random legal one. Nothing is selected exactly when nothing is
/// legal.
pub fn epsilon_greedy_choose(scores: &Vec<i64>, mask: &Vec<i8>) -> (r: Option<usize>)
    requires
        scores@.len() == mask@.len(),
    ensures
        match r {
            Some(i) => i < mask@.len() && mask@[i as int] == 1,
            None => forall|j: int| 0 <= j < mask@.len() ==> mask@[j] != 1,
        },
{
    let t = random_below(100);
    if t < 98 {
        masked_argmax(scores, mask)
    } else {
        let legal = legal_indices(mask);
        if legal.len() == 0 {
            proof {
                assert forall|j: int| 0 <= j < mask@.len() implies mask@[j] != 1 by {
                }
            }
            None
        } else {
            let k = random_below(legal.len());
            Some(legal[k])
        }
    }
}

/// The legal candidates of one phase, as the engine hands them out: the
/// two opening lists, the acceptance list, or nothing for the constant
/// turn-resolution decision.
#[derive(Clone, Debug)]
pub enum Candidates {
    Start { hop1zuo1: Vec<PureMove>, board: Vec<PureMove> },
    AfterCiurl(Vec<AfterHalfAcceptance>),
    Moved,
}

/// Engine-shaped candidate lists: the opening lists are split correctly
/// (placements on one side, board moves on the other) and at least one
/// decision is open.
pub open spec fn candidates_wf(c: Candidates) -> bool {
    match c {
        Candidates::Start { hop1zuo1, board } => hop1zuo1@.len() + board@.len() > 0 && (forall|
            j: int,
        |
            0 <= j < hop1zuo1@.len() ==> is_from_hand(hop1zuo1@[j])) && (forall|j: int|
            0 <= j < board@.len() ==> !is_from_hand(board@[j])),
        Candidates::AfterCiurl(list) => list@.len() > 0,
        Candidates::Moved => true,
    }
}

/// What a selection must come to: a slot that the phase's own mask
/// lights, decoded to the matching structured action — the first
/// listed candidate of that slot where a list is searched.
pub open spec fn selection_ok(cands: Candidates, act: Action, idx: int) -> bool {
    match cands {
        Candidates::Start { hop1zuo1, board } => {
            &&& in_start_mask(hop1zuo1@, board@, idx)
            &&& act matches Action::Pure(c) && action_index(c) == idx && (idx < HAND_BAND_START
                ==> c == board@[first_match(board@, idx)]) && (idx >= HAND_BAND_START
                ==> is_from_hand(c))
        },
        Candidates::AfterCiurl(list) => {
            &&& in_acceptance_mask(list@, idx)
            &&& act matches Action::AfterHalf(c) && acceptance_index(c) == idx && (idx
                < ACCEPT_NONE_SLOT ==> c == list@[first_acceptance_match(list@, idx)])
        },
        Candidates::Moved => {
            &&& idx == TYMOK_SLOT || idx == TAXOT_SLOT
            &&& act matches Action::IsTymok(b) && tymok_index(b) == idx
        },
    }
}

/// Selects one action for one phase: builds the phase's legality mask,
/// picks a legal slot by the epsilon-greedy policy over the given
/// scores, and decodes the slot back to a structured action.
pub fn select_action(candidates: &Candidates, scores: &Vec<i64>) -> (r: (Action, usize))
    requires
        scores@.len() == ACTION_SIZE,
        candidates_wf(*candidates),
    ensures
        selection_ok(*candidates, r.0, r.1 as int),
{
    match candidates {
        Candidates::Start { hop1zuo1, board } => {
            let mask = candidates_to_mask(hop1zuo1, board);
            let picked = epsilon_greedy_choose(scores, &mask);
            let idx = match picked {
                Some(i) => i,
                None => {
                    proof {
                        if board@.len() > 0 {
                            lemma_action_index_range(board@[0]);
                            assert(mask@[action_index(board@[0])] == 1);
                        } else {
                            lemma_action_index_range(hop1zuo1@[0]);
                            assert(mask@[action_index(hop1zuo1@[0])] == 1);
                        }
                    }
                    unreached()
                },
            };
            proof {
                if idx < HAND_BAND_START {
                    assert forall|j: int|
                        0 <= j < hop1zuo1@.len() implies action_index(hop1zuo1@[j]) != idx by {
                        lemma_action_index_range(hop1zuo1@[j]);
                    }
                }
                assert forall|j: int| 0 <= j < board@.len() implies action_index(board@[j])
                    < HAND_BAND_START by {
                    lemma_action_index_range(board@[j]);
                }
            }
            let c = get_candidate_by_index(idx, hop1zuo1, board);
            (Action::Pure(c), idx)
        },
        Candidates::AfterCiurl(list) => {
            let mask = afterhalf_candidates_to_mask(list);
            let picked = epsilon_greedy_choose(scores, &mask);
            let idx = match picked {
                Some(i) => i,
                None => {
                    proof {
                        let c0 = list@[0];
                        assert(0 <= acceptance_index(c0) <= ACCEPT_NONE_SLOT);
                        assert(mask@[acceptance_index(c0)] == 1);
                    }
                    unreached()
                },
            };
            let c = get_after_half_candidate_by_index(idx, list);
            (Action::AfterHalf(c), idx)
        },
        Candidates::Moved => {
            let mask = tymok_mask();
            let picked = epsilon_greedy_choose(scores, &mask);
            let idx = match picked {
                Some(i) => i,
                None => {
                    proof {
                        assert(mask@[TYMOK_SLOT as int] == 1);
                    }
                    unreached()
                },
            };
            let b = get_tymok_candidate_by_index(idx);
            (Action::IsTymok(b), idx)
        },
    }
}

/// Selects one action per phase of a batch: the scores of the whole
/// batch come from a single estimator call, and each phase's slot is
/// then chosen and decoded independently.
pub fn parallel_select_action(candidates: &Vec<Candidates>, scores: &Vec<Vec<i64>>) -> (r: Vec<
    (Action, usize),
>)
    requires
        candidates@.len() == scores@.len(),
        forall|i: int| 0 <= i < scores@.len() ==> (#[trigger] scores@[i])@.len() == ACTION_SIZE,
        forall|i: int| 0 <= i < candidates@.len() ==> candidates_wf(#[trigger] candidates@[i]),
    ensures
        r@.len() == candidates@.len(),
        forall|i: int|
            0 <= i < r@.len() ==> selection_ok(candidates@[i], (#[trigger] r@[i]).0, r@[i].1 as int),
{
    let mut r: Vec<(Action, usize)> = Vec::new();
    let mut i: usize = 0;
    while i < candidates.len()
        invariant
            candidates@.len() == scores@.len(),
            forall|k: int| 0 <= k < scores@.len() ==> (#[trigger] scores@[k])@.len() == ACTION_SIZE,
            forall|k: int| 0 <= k < candidates@.len() ==> candidates_wf(#[trigger] candidates@[k]),
            i <= candidates@.len(),
            r@.len() == i,
            forall|k: int|
                0 <= k < i ==> selection_ok(candidates@[k], (#[trigger] r@[k]).0, r@[k].1 as int),
        decreases candidates@.len() - i,
    {
        let picked = select_action(&candidates[i], &scores[i]);
        r.push(picked);
        i += 1;
    }
    r
}

} // verus!
