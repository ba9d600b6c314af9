//! Container nodes, and the click handlers bound to them.
//!
//! A pass only stores handlers; it never calls one. Calling is the business
//! of the dispatch sweep, which takes a handler out of its slot, lets the
//! caller invoke it, and puts it back.

use crate::compose::{Compose, ComposeError};
use crate::host::{Host, HostView};
use vstd::prelude::*;

verus! {

/// Wraps `content` in a container node.
pub fn flex<C>(content: C) -> (f: Flex<C>)
    ensures
        f.content == content,
{
    Flex { content }
}

/// A container node with one subtree below it.
pub struct Flex<C> {
    pub content: C,
}

impl<C> Flex<C> {
    /// Binds `f` to the container as its click handler.
    pub fn on_click<F>(self, f: F) -> (bound: OnClick<C, F>)
        ensures
            bound.flex == self,
            bound.f == f,
    {
        OnClick { flex: self, f }
    }
}

/// What a container retains: its node and the state of the subtree below it.
pub struct FlexState<S> {
    pub node: usize,
    pub content: S,
}

impl<H, C: Compose<H>> Compose<H> for Flex<C> {
    type State = FlexState<C::State>;

    open spec fn built_state(&self, parent: Option<usize>, pre: HostView<H>) -> Self::State {
        FlexState {
            node: pre.next_node(),
            content: self.content.built_state(Some(pre.next_node()), pre.spawned(parent, None)),
        }
    }

    open spec fn built_host(&self, parent: Option<usize>, pre: HostView<H>) -> HostView<H> {
        self.content.built_host(Some(pre.next_node()), pre.spawned(parent, None))
    }

    open spec fn unchanged(&self, prev: Self::State) -> bool {
        self.content.unchanged(prev.content)
    }

    open spec fn rebuilt_state(&self, prev: Self::State, pre: HostView<H>) -> Self::State {
        FlexState { node: prev.node, content: self.content.rebuilt_state(prev.content, pre) }
    }

    open spec fn rebuilt_host(&self, prev: Self::State, pre: HostView<H>) -> HostView<H> {
        self.content.rebuilt_host(prev.content, pre)
    }

    open spec fn rebuilt_result(&self, prev: Self::State) -> Result<(), ComposeError> {
        self.content.rebuilt_result(prev.content)
    }

    open spec fn removed_host(state: Self::State, pre: HostView<H>) -> HostView<H> {
        C::removed_host(state.content, pre).despawned(state.node)
    }

    /// Spawns the container below `parent`, then builds the subtree below
    /// the container.
    fn build(self, host: &mut Host<H>, parent: Option<usize>) -> (state: Self::State) {
        let node: usize = host.spawn(parent, None);
        let content = self.content.build(host, Some(node));
        FlexState { node, content }
    }

    /// Rebuilds the subtree; the container itself is never respawned.
    fn rebuild(self, state: &mut Self::State, host: &mut Host<H>) -> (res: Result<
        (),
        ComposeError,
    >) {
        self.content.rebuild(&mut state.content, host)
    }

    /// Removes the subtree, then the container.
    fn remove(state: Self::State, host: &mut Host<H>) {
        C::remove(state.content, host);
        host.despawn(state.node);
    }

    proof fn lemma_unchanged_rebuild_is_silent(&self, prev: Self::State, pre: HostView<H>) {
        self.content.lemma_unchanged_rebuild_is_silent(prev.content, pre);
    }
}

/// What the host reports of a node's pointer interaction.
#[derive(Debug, Clone, Copy, PartialEq, Eq, Structural)]
pub enum Interaction {
    Pressed,
    Hovered,
    Idle,
}

/// The handler slot of one node. It holds the latest handler, or nothing
/// while that handler is out for invocation.
pub struct ClickHandler<F>(pub Option<F>);

impl<F> ClickHandler<F> {
    /// An empty slot.
    pub fn new() -> (slot: ClickHandler<F>)
        ensures
            slot.0 is None,
    {
        ClickHandler(None)
    }

    /// Puts `f` into the slot in place of whatever it held.
    pub fn store(&mut self, f: F)
        ensures
            final(self).0 == Some(f),
    {
        self.0 = Some(f);
    }

    /// Whether the slot holds a handler.
    pub fn is_armed(&self) -> (armed: bool)
        ensures
            armed == (self.0 is Some),
    {
        self.0.is_some()
    }

    /// Takes the handler out for invocation and leaves the slot empty, so
    /// that nobody else can take the same handler until it is back.
    pub fn take(&mut self) -> (taken: Option<F>)
        ensures
            taken == old(self).0,
            final(self).0 is None,
    {
        self.0.take()
    }

    /// The handler that a dispatch with `interaction` takes out.
    pub open spec fn taken_by(self, interaction: Option<Interaction>) -> Option<F> {
        if interaction == Some(Interaction::Pressed) {
            self.0
        } else {
            None
        }
    }

    /// The slot after a dispatch with `interaction`.
    pub open spec fn after_dispatch(self, interaction: Option<Interaction>) -> ClickHandler<F> {
        if interaction == Some(Interaction::Pressed) {
            ClickHandler(None)
        } else {
            self
        }
    }

    /// The slot after `f` came back from invocation.
    pub open spec fn after_restore(self, f: F) -> ClickHandler<F> {
        if self.0 is Some {
            self
        } else {
            ClickHandler(Some(f))
        }
    }

    /// Returns a handler after invocation. Where a pass has stored a newer
    /// handler in the meantime, the newer one stays and `f` is dropped.
    pub fn restore(&mut self, f: F)
        ensures
            *final(self) == old(self).after_restore(f),
    {
        if self.0.is_none() {
            self.0 = Some(f);
        }
    }

    /// The dispatch decision for one node: the handler is taken out exactly
    /// when the node reports that it was pressed; any other report, and no
    /// report at all, leaves the slot alone. The caller invokes what comes
    /// back and then returns it with [`restore`](ClickHandler::restore).
    pub fn dispatch(&mut self, interaction: Option<Interaction>) -> (taken: Option<F>)
        ensures
            taken == old(self).taken_by(interaction),
            *final(self) == old(self).after_dispatch(interaction),
    {
        match interaction {
            Some(Interaction::Pressed) => self.take(),
            _ => None,
        }
    }

    /// The whole protocol for one node and one report: where the node was
    /// pressed and the slot holds a handler, the handler is taken out,
    /// called once and put back; otherwise nothing is called.
    pub fn fire(&mut self, interaction: Option<Interaction>) -> (fired: bool) where F: Fn()
        requires
            old(self).0 is Some ==> call_requires(old(self).0->0, ()),
        ensures
            fired == (old(self).taken_by(interaction) is Some),
            *final(self) == *old(self),
    {
        match self.dispatch(interaction) {
            Some(f) => {
                f();
                self.restore(f);
                true
            },
            None => false,
        }
    }
}

/// While a handler is out for invocation, no dispatch on the same slot hands
/// out anything: whatever the node reports in that window, the handler is
/// not taken a second time.
pub proof fn lemma_taken_handler_is_exclusive<F>(
    slot: ClickHandler<F>,
    again: Option<Interaction>,
)
    ensures
        slot.after_dispatch(Some(Interaction::Pressed)).taken_by(again) is None,
{
}

/// A handler that was taken out and returned, with no pass in between, is
/// back in its slot and can be taken by the next press.
pub proof fn lemma_returned_handler_is_armed<F>(slot: ClickHandler<F>, f: F)
    requires
        slot.0 == Some(f),
    ensures
        slot.after_dispatch(Some(Interaction::Pressed)).after_restore(f) == slot,
{
}

/// A container with a click handler.
pub struct OnClick<C, F> {
    pub flex: Flex<C>,
    pub f: F,
}

impl<C: Compose<F>, F> Compose<F> for OnClick<C, F> {
    /// The state of the container: the handler lives in the slot of the
    /// container's node, not here.
    type State = FlexState<C::State>;

    open spec fn built_state(&self, parent: Option<usize>, pre: HostView<F>) -> Self::State {
        self.flex.built_state(parent, pre)
    }

    open spec fn built_host(&self, parent: Option<usize>, pre: HostView<F>) -> HostView<F> {
        self.flex.built_host(parent, pre).bound(pre.next_node(), self.f)
    }

    open spec fn unchanged(&self, prev: Self::State) -> bool {
        self.flex.unchanged(prev)
    }

    open spec fn rebuilt_state(&self, prev: Self::State, pre: HostView<F>) -> Self::State {
        self.flex.rebuilt_state(prev, pre.bound(prev.node, self.f))
    }

    open spec fn rebuilt_host(&self, prev: Self::State, pre: HostView<F>) -> HostView<F> {
        self.flex.rebuilt_host(prev, pre.bound(prev.node, self.f))
    }

    open spec fn rebuilt_result(&self, prev: Self::State) -> Result<(), ComposeError> {
        self.flex.rebuilt_result(prev)
    }

    open spec fn removed_host(state: Self::State, pre: HostView<F>) -> HostView<F> {
        <Flex<C> as Compose<F>>::removed_host(state, pre)
    }

    /// Builds the container, then binds the handler to the container's node.
    fn build(self, host: &mut Host<F>, parent: Option<usize>) -> (state: Self::State) {
        let state = self.flex.build(host, parent);
        host.bind(state.node, self.f);
        state
    }

    /// Overwrites the slot of the container's node with this pass's handler,
    /// then rebuilds the container. The handler is stored, not called, and
    /// no patch is recorded on its account.
    fn rebuild(self, state: &mut Self::State, host: &mut Host<F>) -> (res: Result<
        (),
        ComposeError,
    >) {
        host.bind(state.node, self.f);
        self.flex.rebuild(state, host)
    }

    /// Removes the container; its handler is dropped with its node.
    fn remove(state: Self::State, host: &mut Host<F>) {
        <Flex<C> as Compose<F>>::remove(state, host);
    }

    proof fn lemma_unchanged_rebuild_is_silent(&self, prev: Self::State, pre: HostView<F>) {
        self.flex.lemma_unchanged_rebuild_is_silent(prev, pre.bound(prev.node, self.f));
    }
}

} // verus!
