//! Runs of a state machine over a sequence of events, and counts taken
//! along a run.

use vstd::prelude::*;

verus! {

/// The state reached from `start` after `events`, one transition each.
pub open spec fn run<S, E>(next: spec_fn(S, E) -> S, start: S, events: Seq<E>) -> S
    decreases events.len(),
{
    if events.len() == 0 {
        start
    } else {
        next(run(next, start, events.drop_last()), events.last())
    }
}

/// How many transitions of the run from `start` over `events` end in a state
/// that `hit` picks out.
pub open spec fn tally<S, E>(
    next: spec_fn(S, E) -> S,
    hit: spec_fn(S) -> bool,
    start: S,
    events: Seq<E>,
) -> nat
    decreases events.len(),
{
    if events.len() == 0 {
        0
    } else {
        let before = tally(next, hit, start, events.drop_last());
        if hit(run(next, start, events)) {
            before + 1
        } else {
            before
        }
    }
}

/// A run over `a` followed by `b` is the run over `b` from where `a` ends.
pub proof fn lemma_run_concat<S, E>(next: spec_fn(S, E) -> S, start: S, a: Seq<E>, b: Seq<E>)
    ensures
        run(next, start, a + b) == run(next, run(next, start, a), b),
    decreases b.len(),
{
    if b.len() == 0 {
        assert(a + b =~= a);
    } else {
        assert((a + b).drop_last() =~= a + b.drop_last());
        lemma_run_concat(next, start, a, b.drop_last());
    }
}

/// A count over `a` followed by `b` is the sum of the counts over each part.
pub proof fn lemma_tally_concat<S, E>(
    next: spec_fn(S, E) -> S,
    hit: spec_fn(S) -> bool,
    start: S,
    a: Seq<E>,
    b: Seq<E>,
)
    ensures
        tally(next, hit, start, a + b) == tally(next, hit, start, a) + tally(
            next,
            hit,
            run(next, start, a),
            b,
        ),
    decreases b.len(),
{
    if b.len() == 0 {
        assert(a + b =~= a);
    } else {
        assert((a + b).drop_last() =~= a + b.drop_last());
        lemma_tally_concat(next, hit, start, a, b.drop_last());
        lemma_run_concat(next, start, a, b);
    }
}

} // verus!
