//! The build / rebuild / remove contract and the primitive composables: the
//! empty composable, text leaves, pairs and optional subtrees.

use crate::host::{Host, HostView};
use vstd::prelude::*;

pub mod dynamic;
pub mod effect;
pub mod flex;
pub mod lazy;
pub mod memo;
pub mod remember;

pub use self::dynamic::Dynamic;
pub use self::effect::{effect, Effect};
pub use self::flex::{flex, ClickHandler, Flex, FlexState, Interaction, OnClick};
pub use self::lazy::{lazy, Lazy, LazyFunction, LazyState};
pub use self::memo::{memo, Memo};
pub use self::remember::{remember, Remember};

verus! {

/// Why a pass over a subtree failed.
#[derive(Debug, Clone, Copy, PartialEq, Eq, Structural)]
pub enum ComposeError {
    /// The composable offered at a position has another concrete shape than
    /// the one whose state the position retains.
    TypeMismatch,
}

/// The outcome of two passes made one after the other: the first failure, if any.
pub open spec fn first_failure(
    first: Result<(), ComposeError>,
    second: Result<(), ComposeError>,
) -> Result<(), ComposeError> {
    match first {
        Err(e) => Err(e),
        Ok(_) => second,
    }
}

/// A description of desired content. A description is made anew for every
/// pass; what persists is the `State` that its position owns.
///
/// `build` materialises a description for the first time, `rebuild` patches
/// what an earlier pass at the same position left behind, and `remove` tears
/// the position down. What each of them does to the state and to the host is
/// given, exactly, by the spec functions of the same trait. `H` is the type of
/// the click handlers that the host keeps for the nodes of the tree.
pub trait Compose<H>: Sized {
    /// What a position retains between passes.
    type State;

    /// The state that `build` returns.
    spec fn built_state(&self, parent: Option<usize>, pre: HostView<H>) -> Self::State;

    /// The host as `build` leaves it.
    spec fn built_host(&self, parent: Option<usize>, pre: HostView<H>) -> HostView<H>;

    /// Whether this description equals, by content, what `prev` was last
    /// built or rebuilt from.
    spec fn unchanged(&self, prev: Self::State) -> bool;

    /// The state as `rebuild` leaves it.
    spec fn rebuilt_state(&self, prev: Self::State, pre: HostView<H>) -> Self::State;

    /// The host as `rebuild` leaves it.
    spec fn rebuilt_host(&self, prev: Self::State, pre: HostView<H>) -> HostView<H>;

    /// What `rebuild` returns.
    spec fn rebuilt_result(&self, prev: Self::State) -> Result<(), ComposeError>;

    /// The host as `remove` leaves it.
    spec fn removed_host(state: Self::State, pre: HostView<H>) -> HostView<H>;

    /// First materialisation: allocates the host nodes of this description
    /// below `parent` and returns the state of the position.
    fn build(self, host: &mut Host<H>, parent: Option<usize>) -> (state: Self::State)
        ensures
            state == self.built_state(parent, old(host)@),
            final(host)@ == self.built_host(parent, old(host)@),
    ;

    /// Patches the position in place so that it shows this description.
    fn rebuild(self, state: &mut Self::State, host: &mut Host<H>) -> (res: Result<(), ComposeError>)
        ensures
            *final(state) == self.rebuilt_state(*old(state), old(host)@),
            final(host)@ == self.rebuilt_host(*old(state), old(host)@),
            res == self.rebuilt_result(*old(state)),
    ;

    /// Tears the position down.
    fn remove(state: Self::State, host: &mut Host<H>)
        ensures
            final(host)@ == Self::removed_host(state, old(host)@),
    ;

    /// Rebuilding from a description that equals the stored one by content
    /// succeeds and leaves the scene as it was: no node is spawned, changed
    /// or removed, and no patch is recorded.
    proof fn lemma_unchanged_rebuild_is_silent(&self, prev: Self::State, pre: HostView<H>)
        requires
            self.unchanged(prev),
        ensures
            self.rebuilt_host(prev, pre).same_scene(pre),
            self.rebuilt_result(prev) is Ok,
    ;
}

impl<H> Compose<H> for () {
    type State = ();

    open spec fn built_state(&self, parent: Option<usize>, pre: HostView<H>) -> () {
        ()
    }

    open spec fn built_host(&self, parent: Option<usize>, pre: HostView<H>) -> HostView<H> {
        pre
    }

    open spec fn unchanged(&self, prev: ()) -> bool {
        true
    }

    open spec fn rebuilt_state(&self, prev: (), pre: HostView<H>) -> () {
        ()
    }

    open spec fn rebuilt_host(&self, prev: (), pre: HostView<H>) -> HostView<H> {
        pre
    }

    open spec fn rebuilt_result(&self, prev: ()) -> Result<(), ComposeError> {
        Ok(())
    }

    open spec fn removed_host(state: (), pre: HostView<H>) -> HostView<H> {
        pre
    }

    fn build(self, host: &mut Host<H>, parent: Option<usize>) -> (state: ()) {
        ()
    }

    fn rebuild(self, state: &mut (), host: &mut Host<H>) -> (res: Result<(), ComposeError>) {
        Ok(())
    }

    fn remove(state: (), host: &mut Host<H>) {
    }

    proof fn lemma_unchanged_rebuild_is_silent(&self, prev: (), pre: HostView<H>) {
    }
}

/// What a text leaf retains: the text that its node shows, and the node.
#[derive(Debug)]
pub struct TextState {
    pub content: String,
    pub node: usize,
}

impl<H> Compose<H> for String {
    type State = TextState;

    open spec fn built_state(&self, parent: Option<usize>, pre: HostView<H>) -> TextState {
        TextState { content: *self, node: pre.next_node() }
    }

    open spec fn built_host(&self, parent: Option<usize>, pre: HostView<H>) -> HostView<H> {
        pre.spawned(parent, Some(self@))
    }

    open spec fn unchanged(&self, prev: TextState) -> bool {
        self@ == prev.content@
    }

    open spec fn rebuilt_state(&self, prev: TextState, pre: HostView<H>) -> TextState {
        if self@ == prev.content@ {
            prev
        } else {
            TextState { content: *self, node: prev.node }
        }
    }

    open spec fn rebuilt_host(&self, prev: TextState, pre: HostView<H>) -> HostView<H> {
        if self@ == prev.content@ {
            pre
        } else {
            pre.text_set(prev.node, self@)
        }
    }

    open spec fn rebuilt_result(&self, prev: TextState) -> Result<(), ComposeError> {
        Ok(())
    }

    open spec fn removed_host(state: TextState, pre: HostView<H>) -> HostView<H> {
        pre.despawned(state.node)
    }

    /// Spawns one text node that shows this text.
    fn build(self, host: &mut Host<H>, parent: Option<usize>) -> (state: TextState) {
        let node: usize = host.spawn(parent, Some(self.clone()));
        TextState { content: self, node }
    }

    /// Compares this text with the stored one; where they differ, records one
    /// in-place update and stores the new text, and otherwise does nothing.
    fn rebuild(self, state: &mut TextState, host: &mut Host<H>) -> (res: Result<(), ComposeError>) {
        if self != state.content {
            host.set_text(state.node, self.clone());
            state.content = self;
        }
        Ok(())
    }

    fn remove(state: TextState, host: &mut Host<H>) {
        host.despawn(state.node);
    }

    proof fn lemma_unchanged_rebuild_is_silent(&self, prev: TextState, pre: HostView<H>) {
    }
}

/// `==` on string slices. Claims that it holds exactly when the two hold
/// the same characters.
#[verifier::external_body]
fn str_eq(a: &str, b: &str) -> (equal: bool)
    ensures
        equal == (a@ == b@),
{
    a == b
}

/// What a static text leaf retains: the text that its node shows, and the node.
#[derive(Debug)]
pub struct StrState {
    pub content: &'static str,
    pub node: usize,
}

impl<H> Compose<H> for &'static str {
    type State = StrState;

    open spec fn built_state(&self, parent: Option<usize>, pre: HostView<H>) -> StrState {
        StrState { content: *self, node: pre.next_node() }
    }

    open spec fn built_host(&self, parent: Option<usize>, pre: HostView<H>) -> HostView<H> {
        pre.spawned(parent, Some(self@))
    }

    open spec fn unchanged(&self, prev: StrState) -> bool {
        self@ == prev.content@
    }

    open spec fn rebuilt_state(&self, prev: StrState, pre: HostView<H>) -> StrState {
        if self@ == prev.content@ {
            prev
        } else {
            StrState { content: *self, node: prev.node }
        }
    }

    open spec fn rebuilt_host(&self, prev: StrState, pre: HostView<H>) -> HostView<H> {
        if self@ == prev.content@ {
            pre
        } else {
            pre.text_set(prev.node, self@)
        }
    }

    open spec fn rebuilt_result(&self, prev: StrState) -> Result<(), ComposeError> {
        Ok(())
    }

    open spec fn removed_host(state: StrState, pre: HostView<H>) -> HostView<H> {
        pre.despawned(state.node)
    }

    /// Spawns one text node that shows this text.
    fn build(self, host: &mut Host<H>, parent: Option<usize>) -> (state: StrState) {
        let node: usize = host.spawn(parent, Some(self.to_owned()));
        StrState { content: self, node }
    }

    /// Compares this text with the stored one; where they differ, records one
    /// in-place update and stores the new text, and otherwise does nothing.
    fn rebuild(self, state: &mut StrState, host: &mut Host<H>) -> (res: Result<(), ComposeError>) {
        if !str_eq(self, state.content) {
            host.set_text(state.node, self.to_owned());
            state.content = self;
        }
        Ok(())
    }

    fn remove(state: StrState, host: &mut Host<H>) {
        host.despawn(state.node);
    }

    proof fn lemma_unchanged_rebuild_is_silent(&self, prev: StrState, pre: HostView<H>) {
    }
}

/// The slot in which a composite leaves the description of one element until
/// that element's own pass picks it up.
pub struct TupleCompose<C>(pub Option<C>);

impl<C> TupleCompose<C> {
    /// An empty slot.
    pub fn new() -> (slot: TupleCompose<C>)
        ensures
            slot.0 is None,
    {
        TupleCompose(None)
    }

    /// Leaves `content` in the slot, in place of a description that was not
    /// picked up.
    pub fn put(&mut self, content: C)
        ensures
            final(self).0 == Some(content),
    {
        self.0 = Some(content);
    }

    /// The element's own pass: picks up the description, if one waits, and
    /// rebuilds the element's state against it. A description is picked up
    /// once; with an empty slot nothing happens.
    pub fn run<H>(&mut self, state: &mut C::State, host: &mut Host<H>) -> (res: Result<
        (),
        ComposeError,
    >) where C: Compose<H>
        ensures
            final(self).0 is None,
            match old(self).0 {
                Some(content) => {
                    &&& *final(state) == content.rebuilt_state(*old(state), old(host)@)
                    &&& final(host)@ == content.rebuilt_host(*old(state), old(host)@)
                    &&& res == content.rebuilt_result(*old(state))
                },
                None => {
                    &&& *final(state) == *old(state)
                    &&& final(host)@ == old(host)@
                    &&& res is Ok
                },
            },
    {
        match self.0.take() {
            Some(content) => content.rebuild(state, host),
            None => Ok(()),
        }
    }
}

impl<H, C1: Compose<H>, C2: Compose<H>> Compose<H> for (C1, C2) {
    type State = (C1::State, C2::State);

    open spec fn built_state(&self, parent: Option<usize>, pre: HostView<H>) -> Self::State {
        (
            self.0.built_state(parent, pre),
            self.1.built_state(parent, self.0.built_host(parent, pre)),
        )
    }

    open spec fn built_host(&self, parent: Option<usize>, pre: HostView<H>) -> HostView<H> {
        self.1.built_host(parent, self.0.built_host(parent, pre))
    }

    open spec fn unchanged(&self, prev: Self::State) -> bool {
        self.0.unchanged(prev.0) && self.1.unchanged(prev.1)
    }

    open spec fn rebuilt_state(&self, prev: Self::State, pre: HostView<H>) -> Self::State {
        (
            self.0.rebuilt_state(prev.0, pre),
            self.1.rebuilt_state(prev.1, self.0.rebuilt_host(prev.0, pre)),
        )
    }

    open spec fn rebuilt_host(&self, prev: Self::State, pre: HostView<H>) -> HostView<H> {
        self.1.rebuilt_host(prev.1, self.0.rebuilt_host(prev.0, pre))
    }

    open spec fn rebuilt_result(&self, prev: Self::State) -> Result<(), ComposeError> {
        first_failure(self.0.rebuilt_result(prev.0), self.1.rebuilt_result(prev.1))
    }

    open spec fn removed_host(state: Self::State, pre: HostView<H>) -> HostView<H> {
        C2::removed_host(state.1, C1::removed_host(state.0, pre))
    }

    /// Builds the two elements in declared order.
    fn build(self, host: &mut Host<H>, parent: Option<usize>) -> (state: Self::State) {
        let first = self.0.build(host, parent);
        let second = self.1.build(host, parent);
        (first, second)
    }

    /// Rebuilds each element against its own state, in declared order. Both
    /// are visited whatever the first returns.
    fn rebuild(self, state: &mut Self::State, host: &mut Host<H>) -> (res: Result<
        (),
        ComposeError,
    >) {
        let first = self.0.rebuild(&mut state.0, host);
        let second = self.1.rebuild(&mut state.1, host);
        match first {
            Err(e) => Err(e),
            Ok(_) => second,
        }
    }

    fn remove(state: Self::State, host: &mut Host<H>) {
        C1::remove(state.0, host);
        C2::remove(state.1, host);
    }

    proof fn lemma_unchanged_rebuild_is_silent(&self, prev: Self::State, pre: HostView<H>) {
        let mid = self.0.rebuilt_host(prev.0, pre);
        let post = self.1.rebuilt_host(prev.1, mid);
        self.0.lemma_unchanged_rebuild_is_silent(prev.0, pre);
        self.1.lemma_unchanged_rebuild_is_silent(prev.1, mid);
        assert forall|i: int| 0 <= i < post.nodes.len() implies (#[trigger] post.nodes[i]).parent
            == pre.nodes[i].parent by {
            assert(post.nodes[i].parent == mid.nodes[i].parent);
        }
    }
}

/// What an optional position retains: the parent to build below when the
/// subtree appears, and the state of the subtree while it is present.
pub struct OptionalState<S> {
    pub parent: Option<usize>,
    pub child: Option<S>,
}

impl<H, C: Compose<H>> Compose<H> for Option<C> {
    type State = OptionalState<C::State>;

    open spec fn built_state(&self, parent: Option<usize>, pre: HostView<H>) -> Self::State {
        OptionalState {
            parent,
            child: match *self {
                Some(c) => Some(c.built_state(parent, pre)),
                None => None,
            },
        }
    }

    open spec fn built_host(&self, parent: Option<usize>, pre: HostView<H>) -> HostView<H> {
        match *self {
            Some(c) => c.built_host(parent, pre),
            None => pre,
        }
    }

    open spec fn unchanged(&self, prev: Self::State) -> bool {
        match (*self, prev.child) {
            (None, None) => true,
            (Some(c), Some(s)) => c.unchanged(s),
            _ => false,
        }
    }

    open spec fn rebuilt_state(&self, prev: Self::State, pre: HostView<H>) -> Self::State {
        OptionalState {
            parent: prev.parent,
            child: match (*self, prev.child) {
                (None, _) => None,
                (Some(c), None) => Some(c.built_state(prev.parent, pre)),
                (Some(c), Some(s)) => Some(c.rebuilt_state(s, pre)),
            },
        }
    }

    open spec fn rebuilt_host(&self, prev: Self::State, pre: HostView<H>) -> HostView<H> {
        match (*self, prev.child) {
            (None, None) => pre,
            (None, Some(s)) => C::removed_host(s, pre),
            (Some(c), None) => c.built_host(prev.parent, pre),
            (Some(c), Some(s)) => c.rebuilt_host(s, pre),
        }
    }

    open spec fn rebuilt_result(&self, prev: Self::State) -> Result<(), ComposeError> {
        match (*self, prev.child) {
            (Some(c), Some(s)) => c.rebuilt_result(s),
            _ => Ok(()),
        }
    }

    open spec fn removed_host(state: Self::State, pre: HostView<H>) -> HostView<H> {
        match state.child {
            Some(s) => C::removed_host(s, pre),
            None => pre,
        }
    }

    /// Builds the subtree if it is present.
    fn build(self, host: &mut Host<H>, parent: Option<usize>) -> (state: Self::State) {
        match self {
            Some(c) => {
                let child = c.build(host, parent);
                OptionalState { parent, child: Some(child) }
            },
            None => OptionalState { parent, child: None },
        }
    }

    /// Absent to absent does nothing; absent to present builds; present to
    /// present rebuilds in place; present to absent removes the subtree and
    /// drops its state.
    fn rebuild(self, state: &mut Self::State, host: &mut Host<H>) -> (res: Result<
        (),
        ComposeError,
    >) {
        let prev = state.child.take();
        match self {
            None => {
                match prev {
                    Some(s) => {
                        C::remove(s, host);
                    },
                    None => {},
                }
                Ok(())
            },
            Some(c) => {
                match prev {
                    Some(s) => {
                        let mut s = s;
                        let res = c.rebuild(&mut s, host);
                        state.child = Some(s);
                        res
                    },
                    None => {
                        let child = c.build(host, state.parent);
                        state.child = Some(child);
                        Ok(())
                    },
                }
            },
        }
    }

    fn remove(state: Self::State, host: &mut Host<H>) {
        match state.child {
            Some(s) => {
                C::remove(s, host);
            },
            None => {},
        }
    }

    proof fn lemma_unchanged_rebuild_is_silent(&self, prev: Self::State, pre: HostView<H>) {
        match (*self, prev.child) {
            (Some(c), Some(s)) => {
                c.lemma_unchanged_rebuild_is_silent(s, pre);
            },
            _ => {},
        }
    }
}

/// An optional subtree that is present, then absent, then present again is
/// built once, removed once and built once more, in this order and with
/// nothing else recorded for the host; the second build starts from nothing
/// that the first one left.
pub proof fn lemma_optional_toggle<H, C: Compose<H>>(
    first: C,
    second: C,
    parent: Option<usize>,
    pre: HostView<H>,
)
    ensures
        ({
            let present = Some(first);
            let absent = None::<C>;
            let again = Some(second);
            let s0 = present.built_state(parent, pre);
            let h0 = present.built_host(parent, pre);
            let s1 = absent.rebuilt_state(s0, h0);
            let h1 = absent.rebuilt_host(s0, h0);
            let s2 = again.rebuilt_state(s1, h1);
            let h2 = again.rebuilt_host(s1, h1);
            &&& h0 == first.built_host(parent, pre)
            &&& s0.child == Some(first.built_state(parent, pre))
            &&& h1 == C::removed_host(first.built_state(parent, pre), h0)
            &&& s1.child is None
            &&& h2 == second.built_host(parent, h1)
            &&& s2.child == Some(second.built_state(parent, h1))
            &&& absent.rebuilt_result(s0) is Ok
            &&& again.rebuilt_result(s1) is Ok
        }),
{
}

} // verus!
