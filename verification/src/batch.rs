//! The batch executor's decisions: how a list of sources is scheduled, and
//! how per-item failures are reported without affecting sibling items.

use vstd::prelude::*;

use crate::Args;
use crate::relocate::Outcome;

verus! {

/// How a batch of sources is to be processed.
pub enum ExecMode {
    /// one item at a time, in input order
    Sequential,
    /// items fanned out to worker threads, completing in any order
    Parallel,
}

/// Interactive confirmation needs serialized terminal access, so a batch is
/// processed sequentially exactly when the interactive flag is set.
pub fn execution_mode(args: &Args) -> (m: ExecMode)
    ensures
        m == (if args.interactive {
            ExecMode::Sequential
        } else {
            ExecMode::Parallel
        }),
{
    if args.interactive {
        ExecMode::Sequential
    } else {
        ExecMode::Parallel
    }
}

/// The positions of the failed items of a batch, in input order: exactly
/// the items whose own outcome is a failure are reported, so one item's
/// failure never implicates a sibling.
pub fn failed_indices(outcomes: &Vec<Outcome>) -> (v: Vec<usize>)
    ensures
        forall|j: int|
            0 <= j < v@.len() ==> v@[j] < outcomes@.len() && (outcomes@[v@[j] as int] is Failed),
        forall|i: int| 0 <= i < outcomes@.len() && (outcomes@[i] is Failed) ==> v@.contains(
            i as usize,
        ),
        forall|j1: int, j2: int| 0 <= j1 < j2 < v@.len() ==> v@[j1] < v@[j2],
{
    let mut v: Vec<usize> = Vec::new();
    let mut i: usize = 0;
    while i < outcomes.len()
        invariant
            i <= outcomes@.len(),
            forall|j: int| 0 <= j < v@.len() ==> v@[j] < i && (outcomes@[v@[j] as int] is Failed),
            forall|k: int| 0 <= k < i && (outcomes@[k] is Failed) ==> v@.contains(k as usize),
            forall|j1: int, j2: int| 0 <= j1 < j2 < v@.len() ==> v@[j1] < v@[j2],
        decreases outcomes@.len() - i,
    {
        if let Outcome::Failed { .. } = outcomes[i] {
            let ghost prev = v@;
            v.push(i);
            proof {
                assert(v@ == prev.push(i));
                assert(v@[v@.len() - 1] == i);
                assert(forall|k: int|
                    0 <= k < i && (outcomes@[k] is Failed) ==> prev.contains(k as usize));
                assert forall|k: int|
                    0 <= k < i + 1 && (outcomes@[k] is Failed) implies v@.contains(k as usize) by {
                    if k < i {
                        let w = choose|w: int| 0 <= w < prev.len() && prev[w] == k as usize;
                        assert(v@[w] == k as usize);
                    } else {
                        assert(v@[v@.len() - 1] == k as usize);
                    }
                }
            }
        }
        i = i + 1;
    }
    v
}

} // verus!
