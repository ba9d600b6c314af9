//! `remember` is the older name of memoisation; it behaves as
//! [`Memo`](crate::compose::memo::Memo) does.

use crate::compose::memo::{content_hash, hash_key, Memo};
use crate::compose::{Compose, ComposeError};
use crate::host::{Host, HostView};
use vstd::prelude::*;

verus! {

/// Guards `content` by the hash of `input`.
pub fn remember<C>(input: &[u8], content: C) -> (r: Remember<C>)
    ensures
        r.hash == content_hash(input@),
        r.content == content,
{
    Remember { hash: hash_key(input), content }
}

/// A composable that is rebuilt only in a pass whose key hash differs from
/// the one stored at its position.
pub struct Remember<C> {
    pub hash: u64,
    pub content: C,
}

impl<C> Remember<C> {
    /// The same guard under its newer name.
    pub open spec fn as_memo(self) -> Memo<C> {
        Memo { hash: self.hash, content: self.content }
    }

    /// Turns the guard into a [`Memo`] with the same hash and content.
    pub fn into_memo(self) -> (m: Memo<C>)
        ensures
            m == self.as_memo(),
    {
        Memo { hash: self.hash, content: self.content }
    }
}

impl<H, C: Compose<H>> Compose<H> for Remember<C> {
    type State = (u64, C::State);

    open spec fn built_state(&self, parent: Option<usize>, pre: HostView<H>) -> Self::State {
        self.as_memo().built_state(parent, pre)
    }

    open spec fn built_host(&self, parent: Option<usize>, pre: HostView<H>) -> HostView<H> {
        self.as_memo().built_host(parent, pre)
    }

    open spec fn unchanged(&self, prev: Self::State) -> bool {
        self.as_memo().unchanged(prev)
    }

    open spec fn rebuilt_state(&self, prev: Self::State, pre: HostView<H>) -> Self::State {
        self.as_memo().rebuilt_state(prev, pre)
    }

    open spec fn rebuilt_host(&self, prev: Self::State, pre: HostView<H>) -> HostView<H> {
        self.as_memo().rebuilt_host(prev, pre)
    }

    open spec fn rebuilt_result(&self, prev: Self::State) -> Result<(), ComposeError> {
        self.as_memo().rebuilt_result(prev)
    }

    open spec fn removed_host(state: Self::State, pre: HostView<H>) -> HostView<H> {
        <Memo<C> as Compose<H>>::removed_host(state, pre)
    }

    fn build(self, host: &mut Host<H>, parent: Option<usize>) -> (state: Self::State) {
        self.into_memo().build(host, parent)
    }

    fn rebuild(self, state: &mut Self::State, host: &mut Host<H>) -> (res: Result<
        (),
        ComposeError,
    >) {
        self.into_memo().rebuild(state, host)
    }

    fn remove(state: Self::State, host: &mut Host<H>) {
        <Memo<C> as Compose<H>>::remove(state, host);
    }

    proof fn lemma_unchanged_rebuild_is_silent(&self, prev: Self::State, pre: HostView<H>) {
    }
}

} // verus!
