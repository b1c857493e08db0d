//! Verified pieces of the learning step.
//!
//! The estimator's training call takes, per sampled transition, the
//! feature vector, a full-width target vector and a parallel mask
//! vector. Only the slot of the action actually taken may carry the
//! temporal-difference target and a set mask bit, so the regression
//! loss ignores every untaken action. The numeric target itself is the
//! estimator adapter's affair; its placement is proved here.
use vstd::prelude::*;

use crate::moves::ACTION_SIZE;

verus! {

/// A vector of `n` copies of `x`.
fn fill_vec<V: Copy>(n: usize, x: V) -> (v: Vec<V>)
    ensures
        v@.len() == n,
        forall|i: int| 0 <= i < n ==> v@[i] == x,
{
    let mut v: Vec<V> = Vec::new();
    while v.len() < n
        invariant
            v@.len() <= n,
            forall|i: int| 0 <= i < v@.len() ==> v@[i] == x,
        decreases n - v@.len(),
    {
        v.push(x);
    }
    v
}

/// Builds the target and mask pair of one training triple: the target
/// carries `y` only at the taken action's slot and `zero` elsewhere;
/// the mask carries `one` only there and `zero` elsewhere.
pub fn td_one_hot<V: Copy>(action: usize, y: V, zero: V, one: V) -> (r: (Vec<V>, Vec<V>))
    requires
        action < ACTION_SIZE,
    ensures
        r.0@.len() == ACTION_SIZE,
        r.1@.len() == ACTION_SIZE,
        r.0@[action as int] == y,
        r.1@[action as int] == one,
        forall|j: int|
            0 <= j < ACTION_SIZE && j != action ==> r.0@[j] == zero && r.1@[j] == zero,
{
    let mut target = fill_vec(ACTION_SIZE, zero);
    let mut mask = fill_vec(ACTION_SIZE, zero);
    target.set(action, y);
    mask.set(action, one);
    (target, mask)
}

/// Whether the live parameters are due to be copied into the target
/// estimator: every tenth learning step, counting from the first.
pub fn target_refresh_due(it: i64) -> (b: bool)
    requires
        it >= 0,
    ensures
        b <==> it % 10 == 9,
{
    it % 10 == 9
}

} // verus!
