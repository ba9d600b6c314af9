//! The per-tick entry point: it keeps the state of the root position and
//! makes one pass per tick, a build in the first tick and a rebuild in every
//! later one.

use crate::compose::{Compose, ComposeError};
use crate::host::{Host, HostView};
use vstd::prelude::*;

verus! {

/// The retained root of a composition.
pub struct Driver<S> {
    pub root: Option<S>,
}

impl<S> Driver<S> {
    /// A driver that has not made a pass yet.
    pub fn new() -> (driver: Driver<S>)
        ensures
            driver.root is None,
    {
        Driver { root: None }
    }

    /// Whether the first pass was made.
    pub fn is_built(&self) -> (built: bool)
        ensures
            built == (self.root is Some),
    {
        self.root.is_some()
    }

    /// The root state after a tick that shows `composable`.
    pub open spec fn ticked_root<H, C: Compose<H, State = S>>(self, composable: C, pre: HostView<H>) -> S {
        match self.root {
            None => composable.built_state(None, pre),
            Some(s) => composable.rebuilt_state(s, pre),
        }
    }

    /// The host after a tick that shows `composable`.
    pub open spec fn ticked_host<H, C: Compose<H, State = S>>(
        self,
        composable: C,
        pre: HostView<H>,
    ) -> HostView<H> {
        match self.root {
            None => composable.built_host(None, pre),
            Some(s) => composable.rebuilt_host(s, pre),
        }
    }

    /// The outcome of a tick that shows `composable`.
    pub open spec fn ticked_result<H, C: Compose<H, State = S>>(self, composable: C) -> Result<
        (),
        ComposeError,
    > {
        match self.root {
            None => Ok(()),
            Some(s) => composable.rebuilt_result(s),
        }
    }

    /// One tick: builds `composable` as the root if this is the first tick,
    /// and rebuilds the retained root against it otherwise. A failed pass is
    /// reported and not rolled back: what it recorded for the host stays
    /// recorded.
    pub fn tick<H, C: Compose<H, State = S>>(&mut self, composable: C, host: &mut Host<H>) -> (res: Result<
        (),
        ComposeError,
    >)
        ensures
            final(self).root == Some(old(self).ticked_root(composable, old(host)@)),
            final(host)@ == old(self).ticked_host(composable, old(host)@),
            res == old(self).ticked_result::<H, C>(composable),
    {
        match self.root.take() {
            None => {
                let built = composable.build(host, None);
                self.root = Some(built);
                Ok(())
            },
            Some(s) => {
                let mut s = s;
                let res = composable.rebuild(&mut s, host);
                self.root = Some(s);
                res
            },
        }
    }
}

} // verus!
