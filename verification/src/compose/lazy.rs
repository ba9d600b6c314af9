//! Lazily derived subtrees: a position that keeps a derivation function and,
//! in every pass, asks it for the description to show.
//!
//! The description that comes back is built in the first pass and rebuilt
//! against the retained state in every later one. Where its shape may vary,
//! it is a [`Dynamic`](crate::compose::dynamic::Dynamic), whose rebuild
//! refuses a shape that the retained state was not built for.

use crate::compose::{Compose, ComposeError};
use crate::host::{Host, HostView};
use std::marker::PhantomData;
use vstd::prelude::*;

verus! {

/// A subtree that `f` derives anew in every pass.
pub fn lazy<F, C>(f: F) -> (l: Lazy<F, C>) where F: Fn() -> C
    ensures
        l.f == Some(f),
{
    Lazy { f: Some(f), _marker: PhantomData }
}

/// A derivation function on its way to the position that will keep it.
pub struct Lazy<F, C> {
    pub f: Option<F>,
    pub _marker: PhantomData<C>,
}

/// The slot in which a position keeps its derivation function.
pub struct LazyFunction<F> {
    pub f: Option<F>,
}

/// What a lazy position retains: its derivation function, the parent to
/// build below, and the state of the derived subtree once it was built.
pub struct LazyState<F, S> {
    pub function: LazyFunction<F>,
    pub parent: Option<usize>,
    pub content: Option<S>,
}

impl<F, C> Lazy<F, C> {
    /// The state of a lazy position below `parent` before its first pass: no
    /// function, nothing built.
    pub fn setup<H>(parent: Option<usize>) -> (state: LazyState<F, C::State>) where C: Compose<H>
        ensures
            state.function.f is None,
            state.parent == parent,
            state.content is None,
    {
        LazyState { function: LazyFunction { f: None }, parent, content: None }
    }

    /// Hands the derivation function over to the position, in place of the
    /// one it kept. Where this value carries no function, the position keeps
    /// its own. Nothing is derived or built here.
    pub fn run<S>(self, state: &mut LazyState<F, S>)
        ensures
            final(state).function.f == if self.f is Some {
                self.f
            } else {
                old(state).function.f
            },
            final(state).parent == old(state).parent,
            final(state).content == old(state).content,
    {
        match self.f {
            Some(f) => {
                state.function.f = Some(f);
            },
            None => {},
        }
    }
}

impl<F, S> LazyState<F, S> {
    /// The retained state after `content` was shown at this position.
    pub open spec fn shown_content<H, C: Compose<H, State = S>>(self, content: C, pre: HostView<H>) -> S {
        match self.content {
            None => content.built_state(self.parent, pre),
            Some(s) => content.rebuilt_state(s, pre),
        }
    }

    /// The host after `content` was shown at this position.
    pub open spec fn shown_host<H, C: Compose<H, State = S>>(self, content: C, pre: HostView<H>) -> HostView<H> {
        match self.content {
            None => content.built_host(self.parent, pre),
            Some(s) => content.rebuilt_host(s, pre),
        }
    }

    /// The outcome of showing `content` at this position.
    pub open spec fn shown_result<H, C: Compose<H, State = S>>(self, content: C) -> Result<
        (),
        ComposeError,
    > {
        match self.content {
            None => Ok(()),
            Some(s) => content.rebuilt_result(s),
        }
    }

    /// Shows a derived description: builds it where nothing was built yet,
    /// and rebuilds against the retained state otherwise.
    pub fn show<H, C: Compose<H, State = S>>(&mut self, content: C, host: &mut Host<H>) -> (res: Result<
        (),
        ComposeError,
    >)
        ensures
            final(self).content == Some(old(self).shown_content(content, old(host)@)),
            final(self).function == old(self).function,
            final(self).parent == old(self).parent,
            final(host)@ == old(self).shown_host(content, old(host)@),
            res == old(self).shown_result::<H, C>(content),
    {
        match self.content.take() {
            None => {
                let built = content.build(host, self.parent);
                self.content = Some(built);
                Ok(())
            },
            Some(s) => {
                let mut s = s;
                let res = content.rebuild(&mut s, host);
                self.content = Some(s);
                res
            },
        }
    }

    /// The host after the derived subtree was torn down.
    pub open spec fn removed_host<H, C: Compose<H, State = S>>(self, pre: HostView<H>) -> HostView<
        H,
    > {
        match self.content {
            None => pre,
            Some(s) => C::removed_host(s, pre),
        }
    }

    /// Tears the derived subtree down, if one was built, and drops its
    /// state. The derivation function stays: the next pass builds anew.
    pub fn remove<H, C: Compose<H, State = S>>(&mut self, host: &mut Host<H>)
        ensures
            final(self).content is None,
            final(self).function == old(self).function,
            final(self).parent == old(self).parent,
            final(host)@ == old(self).removed_host::<H, C>(old(host)@),
    {
        match self.content.take() {
            Some(s) => {
                C::remove(s, host);
            },
            None => {},
        }
    }

    /// One pass over the position. Without a derivation function nothing
    /// happens. With one, the function is called once and what it returns is
    /// shown; the function stays in its slot.
    pub fn pass<H, C: Compose<H, State = S>>(&mut self, host: &mut Host<H>) -> (res: Result<
        (),
        ComposeError,
    >) where F: Fn() -> C
        requires
            old(self).function.f is Some ==> call_requires(old(self).function.f->0, ()),
        ensures
            final(self).function == old(self).function,
            final(self).parent == old(self).parent,
            old(self).function.f is None ==> {
                &&& res is Ok
                &&& final(self).content == old(self).content
                &&& final(host)@ == old(host)@
            },
            old(self).function.f is Some ==> exists|content: C|
                {
                    &&& #[trigger] call_ensures(old(self).function.f->0, (), content)
                    &&& final(self).content == Some(old(self).shown_content(content, old(host)@))
                    &&& final(host)@ == old(self).shown_host(content, old(host)@)
                    &&& res == old(self).shown_result::<H, C>(content)
                },
    {
        let derived = match &self.function.f {
            Some(f) => Some(f()),
            None => None,
        };
        match derived {
            Some(content) => self.show(content, host),
            None => Ok(()),
        }
    }
}

} // verus!
