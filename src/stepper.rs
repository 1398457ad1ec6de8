//! Sub-stepping: a state advanced by a given number of applications of a
//! single-step integrator, each one consuming the output of the previous one.

use vstd::prelude::*;

verus! {

/// `r` is a state that `step` can reach from `s` in exactly `n` applications,
/// each one fed with the output of the one before.
pub open spec fn reaches<S, F: Fn(S) -> S>(step: F, s: S, n: nat, r: S) -> bool
    decreases n,
{
    if n == 0 {
        r == s
    } else {
        exists|mid: S| reaches(step, s, (n - 1) as nat, mid) && #[trigger] step.ensures((mid,), r)
    }
}

/// A single step gives at most one result for each state.
pub open spec fn is_deterministic<S, F: Fn(S) -> S>(step: F) -> bool {
    forall|s: S, r1: S, r2: S|
        #![trigger step.ensures((s,), r1), step.ensures((s,), r2)]
        step.ensures((s,), r1) && step.ensures((s,), r2) ==> r1 == r2
}

/// Advances `state` by applying `step` exactly `num_steps` times in sequence.
///
/// The caller hands in a step that already carries the sub-interval
/// (the whole interval divided by `num_steps`). With `num_steps == 0` the
/// state is returned unchanged; with `num_steps == 1` the result is one
/// application of `step`.
pub fn multi_step<S, F: Fn(S) -> S>(state: S, num_steps: u64, step: F) -> (r: S)
    requires
        forall|s: S| #[trigger] step.requires((s,)),
    ensures
        reaches(step, state, num_steps as nat, r),
        num_steps == 0 ==> r == state,
        num_steps == 1 ==> step.ensures((state,), r),
{
    let ghost start = state;
    let mut cur = state;
    let mut i: u64 = 0;
    while i < num_steps
        invariant
            i <= num_steps,
            forall|s: S| #[trigger] step.requires((s,)),
            reaches(step, start, i as nat, cur),
        decreases num_steps - i,
    {
        let ghost prev = cur;
        cur = step(cur);
        proof {
            lemma_reaches_extend(step, start, i as nat, prev, cur);
        }
        i = i + 1;
    }
    proof {
        if num_steps == 1 {
            lemma_reaches_one(step, start, cur);
        }
    }
    cur
}

/// One sub-step reaches exactly what a single application of the step gives.
pub proof fn lemma_reaches_one<S, F: Fn(S) -> S>(step: F, s: S, r: S)
    ensures
        reaches(step, s, 1, r) <==> step.ensures((s,), r),
{
    reveal_with_fuel(reaches, 2);
    if step.ensures((s,), r) {
        lemma_reaches_extend(step, s, 0, s, r);
    }
}

/// With a deterministic step, every run of `n` sub-steps from one state ends
/// in the same state: advancing a state is reproducible.
pub proof fn lemma_reaches_deterministic<S, F: Fn(S) -> S>(step: F, s: S, n: nat, r1: S, r2: S)
    requires
        is_deterministic(step),
        reaches(step, s, n, r1),
        reaches(step, s, n, r2),
    ensures
        r1 == r2,
    decreases n,
{
    if n > 0 {
        let m1 = choose|m: S| reaches(step, s, (n - 1) as nat, m) && #[trigger] step.ensures((m,), r1);
        let m2 = choose|m: S| reaches(step, s, (n - 1) as nat, m) && #[trigger] step.ensures((m,), r2);
        lemma_reaches_deterministic(step, s, (n - 1) as nat, m1, m2);
    }
}

/// A run of `n` steps followed by one more step is a run of `n + 1` steps.
proof fn lemma_reaches_extend<S, F: Fn(S) -> S>(step: F, s: S, n: nat, mid: S, r: S)
    requires
        reaches(step, s, n, mid),
        step.ensures((mid,), r),
    ensures
        reaches(step, s, n + 1, r),
{
}

} // verus!
