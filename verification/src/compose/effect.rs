//! Effects gated by their dependencies: an effect is due in the first pass,
//! and in every pass whose dependencies differ from those of the pass in
//! which it last ran.

use vstd::prelude::*;
use vstd::std_specs::cmp::PartialEqSpec;

verus! {

/// An effect `f` that depends on `deps`.
pub fn effect<D, F>(deps: D, f: F) -> (e: Effect<D, F>)
    ensures
        e.deps == deps,
        e.f == f,
{
    Effect { deps, f }
}

/// A side effect together with the value it depends on.
pub struct Effect<D, F> {
    pub deps: D,
    pub f: F,
}

impl<D: PartialEq, F> Effect<D, F> {
    /// Whether the effect is due against the stored dependencies `last`.
    pub open spec fn is_due(&self, last: Option<D>) -> bool {
        match last {
            None => true,
            Some(d) => !self.deps.eq_spec(&d),
        }
    }

    /// The stored dependencies after a pass made against `last`.
    pub open spec fn settled(&self, last: Option<D>) -> Option<D> {
        if self.is_due(last) {
            Some(self.deps)
        } else {
            last
        }
    }

    /// The state of a position where no effect ran yet.
    pub fn setup() -> (state: Option<D>)
        ensures
            state is None,
    {
        None
    }

    /// Decides, given whether the dependencies differ from the stored ones,
    /// what this pass does: where the effect is due, its function is handed
    /// out to be run now and the dependencies are stored; where it is not,
    /// nothing is handed out and the stored dependencies stay.
    pub fn settle(self, state: &mut Option<D>, differs: bool) -> (due: Option<F>)
        ensures
            due == if *old(state) is None || differs {
                Some(self.f)
            } else {
                None::<F>
            },
            *final(state) == if *old(state) is None || differs {
                Some(self.deps)
            } else {
                *old(state)
            },
    {
        if state.is_none() || differs {
            *state = Some(self.deps);
            Some(self.f)
        } else {
            None
        }
    }

    /// Compares the dependencies with the stored ones by `==` and settles the
    /// pass accordingly. The function that comes back is to be run within
    /// this pass; `None` means that the effect must not run.
    pub fn run(self, state: &mut Option<D>) -> (due: Option<F>)
        ensures
            due is Some ==> due == Some(self.f) && *final(state) == Some(self.deps),
            due is None ==> *final(state) == *old(state),
            *old(state) is None ==> due is Some,
            D::obeys_eq_spec() ==> (due is Some <==> self.is_due(*old(state))),
            D::obeys_eq_spec() ==> *final(state) == self.settled(*old(state)),
    {
        let differs = match state {
            Some(last) => self.deps != *last,
            None => true,
        };
        self.settle(state, differs)
    }
}

/// Of two consecutive passes whose dependencies are equal, at most one runs
/// the effect, whatever was stored before the first of them.
pub proof fn lemma_equal_deps_run_at_most_once<D: PartialEq, F>(
    first: Effect<D, F>,
    second: Effect<D, F>,
    last: Option<D>,
)
    requires
        second.deps.eq_spec(&first.deps),
    ensures
        !(first.is_due(last) && second.is_due(first.settled(last))),
{
}

/// The first pass ever runs the effect, and so does a pass whose dependencies
/// differ from the stored ones.
pub proof fn lemma_first_pass_and_change_run<D: PartialEq, F>(e: Effect<D, F>, last: D)
    ensures
        e.is_due(None),
        !e.deps.eq_spec(&last) ==> e.is_due(Some(last)),
{
}

} // verus!
