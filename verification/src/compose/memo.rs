//! Memoisation: a subtree guarded by the hash of a key, which is skipped as
//! long as the hash stays the same.

use crate::compose::{Compose, ComposeError};
use crate::host::{Host, HostView};
use std::collections::hash_map::DefaultHasher;
use std::hash::Hasher;
use vstd::prelude::*;
use vstd::std_specs::hash::DefaultHasherAdditionalSpecFns;

verus! {

/// The 64-bit content hash of a key: what the standard hasher returns after
/// the key's bytes were written to it in one piece.
pub open spec fn content_hash(key: Seq<u8>) -> u64 {
    DefaultHasher::spec_finish(seq![key])
}

/// Computes [`content_hash`] of `key`.
pub fn hash_key(key: &[u8]) -> (hash: u64)
    ensures
        hash == content_hash(key@),
{
    let mut hasher = DefaultHasher::new();
    hasher.write(key);
    assert(hasher@ =~= seq![key@]);
    hasher.finish()
}

/// Guards `content` by the hash of `input`.
pub fn memo<C>(input: &[u8], content: C) -> (m: Memo<C>)
    ensures
        m.hash == content_hash(input@),
        m.content == content,
{
    Memo { hash: hash_key(input), content }
}

/// A composable that is rebuilt only in a pass whose key hash differs from
/// the one stored at its position. Two keys with one hash are taken for the
/// same key: the subtree is then skipped although the key changed.
pub struct Memo<C> {
    pub hash: u64,
    pub content: C,
}

impl<H, C: Compose<H>> Compose<H> for Memo<C> {
    /// The hash of the key that the subtree was last built or rebuilt for,
    /// and the state of the subtree.
    type State = (u64, C::State);

    open spec fn built_state(&self, parent: Option<usize>, pre: HostView<H>) -> Self::State {
        (self.hash, self.content.built_state(parent, pre))
    }

    open spec fn built_host(&self, parent: Option<usize>, pre: HostView<H>) -> HostView<H> {
        self.content.built_host(parent, pre)
    }

    open spec fn unchanged(&self, prev: Self::State) -> bool {
        self.hash == prev.0
    }

    open spec fn rebuilt_state(&self, prev: Self::State, pre: HostView<H>) -> Self::State {
        if self.hash == prev.0 {
            prev
        } else {
            (self.hash, self.content.rebuilt_state(prev.1, pre))
        }
    }

    open spec fn rebuilt_host(&self, prev: Self::State, pre: HostView<H>) -> HostView<H> {
        if self.hash == prev.0 {
            pre
        } else {
            self.content.rebuilt_host(prev.1, pre)
        }
    }

    open spec fn rebuilt_result(&self, prev: Self::State) -> Result<(), ComposeError> {
        if self.hash == prev.0 {
            Ok(())
        } else {
            self.content.rebuilt_result(prev.1)
        }
    }

    open spec fn removed_host(state: Self::State, pre: HostView<H>) -> HostView<H> {
        C::removed_host(state.1, pre)
    }

    /// Builds the subtree, whatever the hash, and stores the hash beside its state.
    fn build(self, host: &mut Host<H>, parent: Option<usize>) -> (state: Self::State) {
        let content_state = self.content.build(host, parent);
        (self.hash, content_state)
    }

    /// Skips the subtree where the hash equals the stored one; otherwise
    /// rebuilds the subtree and replaces the stored hash.
    fn rebuild(self, state: &mut Self::State, host: &mut Host<H>) -> (res: Result<
        (),
        ComposeError,
    >) {
        if self.hash != state.0 {
            let res = self.content.rebuild(&mut state.1, host);
            state.0 = self.hash;
            res
        } else {
            Ok(())
        }
    }

    fn remove(state: Self::State, host: &mut Host<H>) {
        C::remove(state.1, host);
    }

    proof fn lemma_unchanged_rebuild_is_silent(&self, prev: Self::State, pre: HostView<H>) {
    }
}

/// The state of a memoised position after `passes` further passes, each made
/// with a key of hash `hash`: the composable of pass `i` is `content(i)`.
pub open spec fn state_after_passes<H, C: Compose<H>>(
    hash: u64,
    content: spec_fn(nat) -> C,
    prev: (u64, C::State),
    pre: HostView<H>,
    passes: nat,
) -> (u64, C::State)
    decreases passes,
{
    if passes == 0 {
        prev
    } else {
        let before = state_after_passes(hash, content, prev, pre, (passes - 1) as nat);
        let before_host = host_after_passes(hash, content, prev, pre, (passes - 1) as nat);
        (Memo { hash, content: content((passes - 1) as nat) }).rebuilt_state(before, before_host)
    }
}

/// The host after the same passes as in [`state_after_passes`].
pub open spec fn host_after_passes<H, C: Compose<H>>(
    hash: u64,
    content: spec_fn(nat) -> C,
    prev: (u64, C::State),
    pre: HostView<H>,
    passes: nat,
) -> HostView<H>
    decreases passes,
{
    if passes == 0 {
        pre
    } else {
        let before = state_after_passes(hash, content, prev, pre, (passes - 1) as nat);
        let before_host = host_after_passes(hash, content, prev, pre, (passes - 1) as nat);
        (Memo { hash, content: content((passes - 1) as nat) }).rebuilt_host(before, before_host)
    }
}

/// However many passes are made with a key whose hash is the stored one, and
/// whatever the guarded composables are, the subtree is never rebuilt: its
/// state and the host stay as they were.
pub proof fn lemma_unchanged_key_never_rebuilds<H, C: Compose<H>>(
    hash: u64,
    content: spec_fn(nat) -> C,
    prev: (u64, C::State),
    pre: HostView<H>,
    passes: nat,
)
    requires
        prev.0 == hash,
    ensures
        state_after_passes(hash, content, prev, pre, passes) == prev,
        host_after_passes(hash, content, prev, pre, passes) == pre,
    decreases passes,
{
    if passes > 0 {
        lemma_unchanged_key_never_rebuilds(hash, content, prev, pre, (passes - 1) as nat);
    }
}

/// A pass whose key hash differs from the stored one rebuilds the subtree
/// exactly once, against the state it had, and stores the new hash; the pass
/// after it, with the same hash, is skipped again.
pub proof fn lemma_changed_key_rebuilds_once<H, C: Compose<H>>(
    changed: Memo<C>,
    again: Memo<C>,
    prev: (u64, C::State),
    pre: HostView<H>,
)
    requires
        changed.hash != prev.0,
        again.hash == changed.hash,
    ensures
        changed.rebuilt_host(prev, pre) == changed.content.rebuilt_host(prev.1, pre),
        changed.rebuilt_state(prev, pre) == (
            changed.hash,
            changed.content.rebuilt_state(prev.1, pre),
        ),
        again.rebuilt_host(changed.rebuilt_state(prev, pre), changed.rebuilt_host(prev, pre))
            == changed.rebuilt_host(prev, pre),
        again.rebuilt_state(changed.rebuilt_state(prev, pre), changed.rebuilt_host(prev, pre))
            == changed.rebuilt_state(prev, pre),
{
}

} // verus!
