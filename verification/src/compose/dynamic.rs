//! A position whose concrete shape may differ from pass to pass: the
//! description carries a tag that says which of two shapes it has, the state
//! carries the tag of the shape it was built for, and a pass goes through only
//! where the two agree.

use crate::compose::{Compose, ComposeError};
use crate::host::{Host, HostView};
use vstd::prelude::*;

verus! {

/// A value of one of two shapes. Used both for a description and for the
/// state that a description of that shape left behind.
#[derive(Debug)]
pub enum Dynamic<A, B> {
    First(A),
    Second(B),
}

impl<A, B> Dynamic<A, B> {
    /// Whether two values have the same shape.
    pub open spec fn same_shape<X, Y>(self, other: Dynamic<X, Y>) -> bool {
        (self is First) == (other is First)
    }

    /// Whether this value is of the first shape.
    pub fn is_first(&self) -> (first: bool)
        ensures
            first == (*self is First),
    {
        match self {
            Dynamic::First(_) => true,
            Dynamic::Second(_) => false,
        }
    }
}

impl<H, A: Compose<H>, B: Compose<H>> Compose<H> for Dynamic<A, B> {
    type State = Dynamic<A::State, B::State>;

    open spec fn built_state(&self, parent: Option<usize>, pre: HostView<H>) -> Self::State {
        match *self {
            Dynamic::First(a) => Dynamic::First(a.built_state(parent, pre)),
            Dynamic::Second(b) => Dynamic::Second(b.built_state(parent, pre)),
        }
    }

    open spec fn built_host(&self, parent: Option<usize>, pre: HostView<H>) -> HostView<H> {
        match *self {
            Dynamic::First(a) => a.built_host(parent, pre),
            Dynamic::Second(b) => b.built_host(parent, pre),
        }
    }

    open spec fn unchanged(&self, prev: Self::State) -> bool {
        match (*self, prev) {
            (Dynamic::First(a), Dynamic::First(s)) => a.unchanged(s),
            (Dynamic::Second(b), Dynamic::Second(s)) => b.unchanged(s),
            _ => false,
        }
    }

    open spec fn rebuilt_state(&self, prev: Self::State, pre: HostView<H>) -> Self::State {
        match (*self, prev) {
            (Dynamic::First(a), Dynamic::First(s)) => Dynamic::First(a.rebuilt_state(s, pre)),
            (Dynamic::Second(b), Dynamic::Second(s)) => Dynamic::Second(b.rebuilt_state(s, pre)),
            _ => prev,
        }
    }

    open spec fn rebuilt_host(&self, prev: Self::State, pre: HostView<H>) -> HostView<H> {
        match (*self, prev) {
            (Dynamic::First(a), Dynamic::First(s)) => a.rebuilt_host(s, pre),
            (Dynamic::Second(b), Dynamic::Second(s)) => b.rebuilt_host(s, pre),
            _ => pre,
        }
    }

    open spec fn rebuilt_result(&self, prev: Self::State) -> Result<(), ComposeError> {
        match (*self, prev) {
            (Dynamic::First(a), Dynamic::First(s)) => a.rebuilt_result(s),
            (Dynamic::Second(b), Dynamic::Second(s)) => b.rebuilt_result(s),
            _ => Err(ComposeError::TypeMismatch),
        }
    }

    open spec fn removed_host(state: Self::State, pre: HostView<H>) -> HostView<H> {
        match state {
            Dynamic::First(s) => A::removed_host(s, pre),
            Dynamic::Second(s) => B::removed_host(s, pre),
        }
    }

    /// Builds the description as the shape it has.
    fn build(self, host: &mut Host<H>, parent: Option<usize>) -> (state: Self::State) {
        match self {
            Dynamic::First(a) => Dynamic::First(a.build(host, parent)),
            Dynamic::Second(b) => Dynamic::Second(b.build(host, parent)),
        }
    }

    /// Where the description has the shape that the state was built for, the
    /// rebuild of that shape is made. Where it has the other shape, nothing
    /// is touched and the pass fails with
    /// [`TypeMismatch`](ComposeError::TypeMismatch): the state of one shape is
    /// never handed to the other.
    fn rebuild(self, state: &mut Self::State, host: &mut Host<H>) -> (res: Result<
        (),
        ComposeError,
    >) {
        match self {
            Dynamic::First(a) => match state {
                Dynamic::First(s) => a.rebuild(s, host),
                Dynamic::Second(_) => Err(ComposeError::TypeMismatch),
            },
            Dynamic::Second(b) => match state {
                Dynamic::First(_) => Err(ComposeError::TypeMismatch),
                Dynamic::Second(s) => b.rebuild(s, host),
            },
        }
    }

    fn remove(state: Self::State, host: &mut Host<H>) {
        match state {
            Dynamic::First(s) => A::remove(s, host),
            Dynamic::Second(s) => B::remove(s, host),
        }
    }

    proof fn lemma_unchanged_rebuild_is_silent(&self, prev: Self::State, pre: HostView<H>) {
        match (*self, prev) {
            (Dynamic::First(a), Dynamic::First(s)) => {
                a.lemma_unchanged_rebuild_is_silent(s, pre);
            },
            (Dynamic::Second(b), Dynamic::Second(s)) => {
                b.lemma_unchanged_rebuild_is_silent(s, pre);
            },
            _ => {},
        }
    }
}

/// A description of one shape, offered to a position that retains the state
/// of the other, is refused: the pass fails, and neither the state nor the
/// host changes.
pub proof fn lemma_shape_change_is_refused<H, A: Compose<H>, B: Compose<H>>(
    next: Dynamic<A, B>,
    prev: Dynamic<A::State, B::State>,
    pre: HostView<H>,
)
    requires
        !next.same_shape(prev),
    ensures
        next.rebuilt_result(prev) == Err::<(), ComposeError>(ComposeError::TypeMismatch),
        next.rebuilt_state(prev, pre) == prev,
        next.rebuilt_host(prev, pre) == pre,
{
}

} // verus!
