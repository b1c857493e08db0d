//! Legality masks over the flat action space, and the decoding of a flat
//! index back into a structured candidate.
//!
//! A mask is a vector of `ACTION_SIZE` entries in `{0, 1}` with a `1`
//! exactly at the indices reachable from some legal candidate. Decoding
//! an index that no candidate reaches is a caller error, ruled out by
//! precondition; among several candidates sharing one index (the pivot
//! move family collapses onto one slot) the first in the engine-given
//! order is returned.
use vstd::pervasive::unreached;
use vstd::prelude::*;

use crate::moves::{ACCEPT_BAND_START, ACCEPT_NONE_SLOT, ACTION_SIZE, AfterHalfAcceptance,
    HAND_BAND_START, NormalMove, PureMove, TAXOT_SLOT, TYMOK_SLOT, acceptance_index, action_index,
    encode_acceptance, encode_action, is_from_hand, lemma_acceptance_index_injective,
    lemma_acceptance_index_range, lemma_action_index_range, tymok_index};
use crate::board::num_to_coord;
use crate::piece::num_to_nontam_piece;

verus! {

/// Whether some opening candidate (ordinary or placement) reaches slot `i`.
pub open spec fn in_start_mask(hop: Seq<PureMove>, cands: Seq<PureMove>, i: int) -> bool {
    (exists|j: int| 0 <= j < cands.len() && action_index(cands[j]) == i) || (exists|j: int|
        0 <= j < hop.len() && action_index(hop[j]) == i)
}

/// Whether some acceptance candidate reaches slot `i`.
pub open spec fn in_acceptance_mask(cands: Seq<AfterHalfAcceptance>, i: int) -> bool {
    exists|j: int| 0 <= j < cands.len() && acceptance_index(cands[j]) == i
}

/// The position of the first opening candidate whose index is `i`, or -1.
pub open spec fn first_match(cands: Seq<PureMove>, i: int) -> int
    decreases cands.len(),
{
    if cands.len() == 0 {
        -1
    } else if action_index(cands[0]) == i {
        0
    } else {
        let r = first_match(cands.subrange(1, cands.len() as int), i);
        if r < 0 {
            -1
        } else {
            r + 1
        }
    }
}

/// The position of the first acceptance candidate whose index is `i`, or -1.
pub open spec fn first_acceptance_match(cands: Seq<AfterHalfAcceptance>, i: int) -> int
    decreases cands.len(),
{
    if cands.len() == 0 {
        -1
    } else if acceptance_index(cands[0]) == i {
        0
    } else {
        let r = first_acceptance_match(cands.subrange(1, cands.len() as int), i);
        if r < 0 {
            -1
        } else {
            r + 1
        }
    }
}

/// `first_match` finds a position exactly when some candidate reaches
/// `i`, and that position is the first one.
pub proof fn lemma_first_match(cands: Seq<PureMove>, i: int)
    ensures
        first_match(cands, i) >= 0 <==> exists|j: int|
            0 <= j < cands.len() && action_index(cands[j]) == i,
        first_match(cands, i) >= 0 ==> {
            let f = first_match(cands, i);
            &&& f < cands.len()
            &&& action_index(cands[f]) == i
            &&& forall|k: int| 0 <= k < f ==> action_index(cands[k]) != i
        },
    decreases cands.len(),
{
    if cands.len() > 0 && action_index(cands[0]) != i {
        let tail = cands.subrange(1, cands.len() as int);
        lemma_first_match(tail, i);
        assert forall|j: int| 0 <= j < cands.len() && action_index(cands[j]) == i implies
            first_match(cands, i) >= 0 by {
            assert(action_index(tail[j - 1]) == i);
        }
        let r = first_match(tail, i);
        if r >= 0 {
            assert(cands[r + 1] == tail[r]);
            assert forall|k: int| 0 <= k < r + 1 implies action_index(cands[k]) != i by {
                if k > 0 {
                    assert(cands[k] == tail[k - 1]);
                }
            }
        }
    }
}

/// `first_acceptance_match` finds a position exactly when some candidate
/// reaches `i`, and that position is the first one.
pub proof fn lemma_first_acceptance_match(cands: Seq<AfterHalfAcceptance>, i: int)
    ensures
        first_acceptance_match(cands, i) >= 0 <==> exists|j: int|
            0 <= j < cands.len() && acceptance_index(cands[j]) == i,
        first_acceptance_match(cands, i) >= 0 ==> {
            let f = first_acceptance_match(cands, i);
            &&& f < cands.len()
            &&& acceptance_index(cands[f]) == i
            &&& forall|k: int| 0 <= k < f ==> acceptance_index(cands[k]) != i
        },
    decreases cands.len(),
{
    if cands.len() > 0 && acceptance_index(cands[0]) != i {
        let tail = cands.subrange(1, cands.len() as int);
        lemma_first_acceptance_match(tail, i);
        assert forall|j: int| 0 <= j < cands.len() && acceptance_index(cands[j]) == i implies
            first_acceptance_match(cands, i) >= 0 by {
            assert(acceptance_index(tail[j - 1]) == i);
        }
        let r = first_acceptance_match(tail, i);
        if r >= 0 {
            assert(cands[r + 1] == tail[r]);
            assert forall|k: int| 0 <= k < r + 1 implies acceptance_index(cands[k]) != i by {
                if k > 0 {
                    assert(cands[k] == tail[k - 1]);
                }
            }
        }
    }
}

/// Law (bijection, opening decision): decoding the slot of a listed
/// candidate finds the first candidate of that same slot — a candidate
/// no later in the engine's order, and the candidate itself whenever it
/// holds its slot alone.
pub proof fn lemma_start_round_trip(cands: Seq<PureMove>, j: int)
    requires
        0 <= j < cands.len(),
    ensures
        ({
            let f = first_match(cands, action_index(cands[j]));
            &&& 0 <= f <= j
            &&& action_index(cands[f]) == action_index(cands[j])
        }),
        (forall|k: int|
            0 <= k < cands.len() && k != j ==> action_index(cands[k]) != action_index(cands[j]))
            ==> first_match(cands, action_index(cands[j])) == j,
{
    lemma_first_match(cands, action_index(cands[j]));
}

/// Law (bijection, acceptance decision): decoding the slot of a listed
/// acceptance candidate returns that candidate's value — acceptance
/// slots are one-to-one, so the first match carries the same value.
pub proof fn lemma_acceptance_round_trip(cands: Seq<AfterHalfAcceptance>, j: int)
    requires
        0 <= j < cands.len(),
    ensures
        ({
            let f = first_acceptance_match(cands, acceptance_index(cands[j]));
            &&& 0 <= f <= j
            &&& cands[f] == cands[j]
        }),
{
    lemma_first_acceptance_match(cands, acceptance_index(cands[j]));
    let f = first_acceptance_match(cands, acceptance_index(cands[j]));
    lemma_acceptance_index_injective(cands[f], cands[j]);
}

/// Law (mask coverage, opening decision): a mask with the opening
/// characterization lights the slot of every listed candidate, from
/// either list.
pub proof fn lemma_mask_covers_start(
    hop: Seq<PureMove>,
    cands: Seq<PureMove>,
    mask: Seq<i8>,
    m: PureMove,
)
    requires
        mask.len() == ACTION_SIZE,
        forall|i: int| 0 <= i < ACTION_SIZE ==> (mask[i] == 1 <==> in_start_mask(hop, cands, i)),
        cands.contains(m) || hop.contains(m),
    ensures
        mask[action_index(m)] == 1,
{
    lemma_action_index_range(m);
    if cands.contains(m) {
        let j = choose|j: int| 0 <= j < cands.len() && cands[j] == m;
        assert(action_index(cands[j]) == action_index(m));
    } else {
        let j = choose|j: int| 0 <= j < hop.len() && hop[j] == m;
        assert(action_index(hop[j]) == action_index(m));
    }
}

/// Law (mask coverage, acceptance decision): a mask with the
/// acceptance characterization lights the slot of every listed
/// candidate.
pub proof fn lemma_mask_covers_acceptance(
    cands: Seq<AfterHalfAcceptance>,
    mask: Seq<i8>,
    c: AfterHalfAcceptance,
)
    requires
        mask.len() == ACTION_SIZE,
        forall|i: int| 0 <= i < ACTION_SIZE ==> (mask[i] == 1 <==> in_acceptance_mask(cands, i)),
        cands.contains(c),
    ensures
        mask[acceptance_index(c)] == 1,
{
    lemma_acceptance_index_range(c);
    let j = choose|j: int| 0 <= j < cands.len() && cands[j] == c;
    assert(acceptance_index(cands[j]) == acceptance_index(c));
}

/// A vector of `n` zero entries.
pub(crate) fn zero_vec(n: usize) -> (v: Vec<i8>)
    ensures
        v@.len() == n,
        forall|i: int| 0 <= i < n ==> v@[i] == 0,
{
    let mut v: Vec<i8> = Vec::new();
    while v.len() < n
        invariant
            v@.len() <= n,
            forall|i: int| 0 <= i < v@.len() ==> v@[i] == 0,
        decreases n - v@.len(),
    {
        v.push(0);
    }
    v
}

/// The legality mask of an opening decision: a `1` exactly at every slot
/// some candidate from either list reaches.
pub fn candidates_to_mask(hop1zuo1_candidates: &Vec<PureMove>, candidates: &Vec<PureMove>) -> (mask:
    Vec<i8>)
    ensures
        mask@.len() == ACTION_SIZE,
        forall|i: int|
            0 <= i < ACTION_SIZE ==> (mask@[i] == 1 <==> in_start_mask(
                hop1zuo1_candidates@,
                candidates@,
                i,
            )),
        forall|i: int| 0 <= i < ACTION_SIZE ==> (mask@[i] == 0 || mask@[i] == 1),
{
    let mut mask = zero_vec(ACTION_SIZE);
    let mut j: usize = 0;
    while j < candidates.len()
        invariant
            mask@.len() == ACTION_SIZE,
            j <= candidates@.len(),
            forall|i: int|
                0 <= i < ACTION_SIZE ==> (mask@[i] == 1 <==> exists|k: int|
                    0 <= k < j && action_index(candidates@[k]) == i),
            forall|i: int| 0 <= i < ACTION_SIZE ==> (mask@[i] == 0 || mask@[i] == 1),
        decreases candidates@.len() - j,
    {
        let idx = encode_action(&candidates[j]);
        mask.set(idx, 1);
        j += 1;
    }
    let mut h: usize = 0;
    while h < hop1zuo1_candidates.len()
        invariant
            mask@.len() == ACTION_SIZE,
            h <= hop1zuo1_candidates@.len(),
            forall|i: int|
                0 <= i < ACTION_SIZE ==> (mask@[i] == 1 <==> (exists|k: int|
                    0 <= k < candidates@.len() && action_index(candidates@[k]) == i) || (exists|
                    k: int,
                |
                    0 <= k < h && action_index(hop1zuo1_candidates@[k]) == i)),
            forall|i: int| 0 <= i < ACTION_SIZE ==> (mask@[i] == 0 || mask@[i] == 1),
        decreases hop1zuo1_candidates@.len() - h,
    {
        let idx = encode_action(&hop1zuo1_candidates[h]);
        mask.set(idx, 1);
        h += 1;
    }
    mask
}

/// Decodes a flat index of the opening decision. An index in the board
/// band returns the first candidate that reaches it; an index in the
/// placement band reconstructs the placement it codes.
pub fn get_candidate_by_index(
    index: usize,
    _hop1zuo1_candidates: &Vec<PureMove>,
    candidates: &Vec<PureMove>,
) -> (c: PureMove)
    requires
        index < ACCEPT_BAND_START,
        index < HAND_BAND_START ==> exists|j: int|
            0 <= j < candidates@.len() && action_index(candidates@[j]) == index,
    ensures
        action_index(c) == index,
        index < HAND_BAND_START ==> c == candidates@[first_match(candidates@, index as int)],
        index >= HAND_BAND_START ==> is_from_hand(c),
{
    proof {
        lemma_first_match(candidates@, index as int);
    }
    if index < HAND_BAND_START {
        let ghost f = first_match(candidates@, index as int);
        let mut j: usize = 0;
        while j < candidates.len()
            invariant
                j <= candidates@.len(),
                0 <= f < candidates@.len(),
                action_index(candidates@[f]) == index,
                forall|k: int| 0 <= k < f ==> action_index(candidates@[k]) != index,
                f == first_match(candidates@, index as int),
                forall|k: int| 0 <= k < j ==> action_index(candidates@[k]) != index,
            decreases candidates@.len() - j,
        {
            if encode_action(&candidates[j]) == index {
                return candidates[j];
            }
            j += 1;
        }
        unreached()
    } else {
        let rem = index - HAND_BAND_START;
        let piece = num_to_nontam_piece(&(rem / 81));
        let dest = num_to_coord(&(rem % 81));
        PureMove::NormalMove(
            NormalMove::NonTamMoveFromHopZuo { color: piece.color, prof: piece.prof, dest },
        )
    }
}

/// The legality mask of the acceptance decision: a `1` exactly at every
/// slot some acceptance candidate reaches.
pub fn afterhalf_candidates_to_mask(candidates: &Vec<AfterHalfAcceptance>) -> (mask: Vec<i8>)
    ensures
        mask@.len() == ACTION_SIZE,
        forall|i: int|
            0 <= i < ACTION_SIZE ==> (mask@[i] == 1 <==> in_acceptance_mask(candidates@, i)),
        forall|i: int| 0 <= i < ACTION_SIZE ==> (mask@[i] == 0 || mask@[i] == 1),
{
    let mut mask = zero_vec(ACTION_SIZE);
    let mut j: usize = 0;
    while j < candidates.len()
        invariant
            mask@.len() == ACTION_SIZE,
            j <= candidates@.len(),
            forall|i: int|
                0 <= i < ACTION_SIZE ==> (mask@[i] == 1 <==> exists|k: int|
                    0 <= k < j && acceptance_index(candidates@[k]) == i),
            forall|i: int| 0 <= i < ACTION_SIZE ==> (mask@[i] == 0 || mask@[i] == 1),
        decreases candidates@.len() - j,
    {
        let idx = encode_acceptance(&candidates[j]);
        mask.set(idx, 1);
        j += 1;
    }
    mask
}

/// Decodes a flat index of the acceptance decision. An index in the
/// accept-with-destination band returns the first candidate that reaches
/// it; the lone slot above it codes the acceptance without a destination.
pub fn get_after_half_candidate_by_index(
    index: usize,
    candidates: &Vec<AfterHalfAcceptance>,
) -> (c: AfterHalfAcceptance)
    requires
        ACCEPT_BAND_START <= index <= ACCEPT_NONE_SLOT,
        index < ACCEPT_NONE_SLOT ==> exists|j: int|
            0 <= j < candidates@.len() && acceptance_index(candidates@[j]) == index,
    ensures
        acceptance_index(c) == index,
        index < ACCEPT_NONE_SLOT ==> c == candidates@[first_acceptance_match(
            candidates@,
            index as int,
        )],
{
    proof {
        lemma_first_acceptance_match(candidates@, index as int);
    }
    if index < ACCEPT_NONE_SLOT {
        let ghost f = first_acceptance_match(candidates@, index as int);
        let mut j: usize = 0;
        while j < candidates.len()
            invariant
                j <= candidates@.len(),
                0 <= f < candidates@.len(),
                acceptance_index(candidates@[f]) == index,
                f == first_acceptance_match(candidates@, index as int),
                forall|k: int| 0 <= k < j ==> acceptance_index(candidates@[k]) != index,
            decreases candidates@.len() - j,
        {
            if encode_acceptance(&candidates[j]) == index {
                return candidates[j];
            }
            j += 1;
        }
        unreached()
    } else {
        AfterHalfAcceptance { dest: None }
    }
}

/// The constant mask of the turn-resolution decision: exactly the two
/// canonical answer slots are legal.
pub fn tymok_mask() -> (mask: Vec<i8>)
    ensures
        mask@.len() == ACTION_SIZE,
        forall|i: int|
            0 <= i < ACTION_SIZE ==> (mask@[i] == 1 <==> (i == TYMOK_SLOT || i == TAXOT_SLOT)),
        forall|i: int| 0 <= i < ACTION_SIZE ==> (mask@[i] == 0 || mask@[i] == 1),
{
    let mut mask = zero_vec(ACTION_SIZE);
    mask.set(TYMOK_SLOT, 1);
    mask.set(TAXOT_SLOT, 1);
    mask
}

/// Decodes a flat index of the turn-resolution decision: the lower slot
/// answers yes (continue the season), the higher answers no.
pub fn get_tymok_candidate_by_index(index: usize) -> (b: bool)
    requires
        index == TYMOK_SLOT || index == TAXOT_SLOT,
    ensures
        tymok_index(b) == index,
        b <==> index == TYMOK_SLOT,
{
    index == TYMOK_SLOT
}

} // verus!
