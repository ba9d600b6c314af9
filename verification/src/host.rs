//! The backing scene graph as the engine sees it: a table of the nodes that
//! were ever allocated, each with its parent and its handler slot, and the
//! ordered patches that have not been applied yet.

use crate::compose::flex::{ClickHandler, Interaction};
use vstd::prelude::*;

verus! {

/// One patch against the backing scene graph.
#[derive(Debug, PartialEq, Eq)]
pub enum HostCommand {
    /// Create `node` below `parent`; a text node where `text` is present,
    /// a plain container otherwise.
    Spawn { node: usize, parent: Option<usize>, text: Option<String> },
    /// Replace the text of `node` in place.
    SetText { node: usize, content: String },
    /// Remove `node` from the scene.
    Despawn { node: usize },
}

/// The mathematical value of a [`HostCommand`].
pub enum CommandView {
    Spawn { node: usize, parent: Option<usize>, text: Option<Seq<char>> },
    SetText { node: usize, content: Seq<char> },
    Despawn { node: usize },
}

impl View for HostCommand {
    type V = CommandView;

    open spec fn view(&self) -> CommandView {
        match *self {
            HostCommand::Spawn { node, parent, text } => CommandView::Spawn {
                node,
                parent,
                text: content_view(text),
            },
            HostCommand::SetText { node, content } => CommandView::SetText {
                node,
                content: content@,
            },
            HostCommand::Despawn { node } => CommandView::Despawn { node },
        }
    }
}

/// What the host keeps of one node.
pub struct NodeRecord<H> {
    /// The node that this one was spawned below.
    pub parent: Option<usize>,
    /// The handler slot of the node.
    pub handler: ClickHandler<H>,
}

/// The mathematical value of a [`Host`].
pub struct HostView<H> {
    /// Every node allocated so far, by node handle.
    pub nodes: Seq<NodeRecord<H>>,
    /// The patches recorded since the buffer was last drained, oldest first.
    pub commands: Seq<CommandView>,
}

impl<H> HostView<H> {
    /// A host with no nodes and no pending patches.
    pub open spec fn empty() -> HostView<H> {
        HostView { nodes: Seq::empty(), commands: Seq::empty() }
    }

    /// The handle that the next spawned node receives.
    pub open spec fn next_node(self) -> usize {
        self.nodes.len() as usize
    }

    /// The host after one more patch was recorded.
    pub open spec fn recorded(self, command: CommandView) -> HostView<H> {
        HostView { nodes: self.nodes, commands: self.commands.push(command) }
    }

    /// The host with `slot` as the handler slot of `node`. A handle that was
    /// never handed out has no slot, and nothing changes.
    pub open spec fn with_slot(self, node: usize, slot: ClickHandler<H>) -> HostView<H> {
        if node < self.nodes.len() {
            HostView {
                nodes: self.nodes.update(
                    node as int,
                    NodeRecord { parent: self.nodes[node as int].parent, handler: slot },
                ),
                commands: self.commands,
            }
        } else {
            self
        }
    }

    /// The handler slot of `node`; an empty one for a handle that was never
    /// handed out.
    pub open spec fn slot(self, node: usize) -> ClickHandler<H> {
        if node < self.nodes.len() {
            self.nodes[node as int].handler
        } else {
            ClickHandler(None)
        }
    }

    /// The host after a node was spawned below `parent`, with an empty
    /// handler slot.
    pub open spec fn spawned(self, parent: Option<usize>, content: Option<Seq<char>>) -> HostView<
        H,
    > {
        HostView {
            nodes: self.nodes.push(NodeRecord { parent, handler: ClickHandler(None) }),
            commands: self.commands.push(
                CommandView::Spawn { node: self.next_node(), parent, text: content },
            ),
        }
    }

    /// The host after the text of `node` was replaced.
    pub open spec fn text_set(self, node: usize, content: Seq<char>) -> HostView<H> {
        self.recorded(CommandView::SetText { node, content })
    }

    /// The host after `node` was removed: its handler is dropped with it.
    pub open spec fn despawned(self, node: usize) -> HostView<H> {
        self.with_slot(node, ClickHandler(None)).recorded(CommandView::Despawn { node })
    }

    /// The host after `handler` was bound to `node`.
    pub open spec fn bound(self, node: usize, handler: H) -> HostView<H> {
        self.with_slot(node, ClickHandler(Some(handler)))
    }

    /// The host after a dispatch on `node` with `interaction`.
    pub open spec fn dispatched(self, node: usize, interaction: Option<Interaction>) -> HostView<
        H,
    > {
        self.with_slot(node, self.slot(node).after_dispatch(interaction))
    }

    /// The host after `handler` came back to `node` from invocation.
    pub open spec fn restored(self, node: usize, handler: H) -> HostView<H> {
        self.with_slot(node, self.slot(node).after_restore(handler))
    }

    /// The host after its pending patches were handed out.
    pub open spec fn drained(self) -> HostView<H> {
        HostView { nodes: self.nodes, commands: Seq::empty() }
    }

    /// How many of `reports`, each a node and what it reports, find a
    /// handler to call: those that report a press of a node whose slot holds
    /// a handler.
    pub open spec fn fired_by(self, reports: Seq<(usize, Interaction)>) -> nat
        decreases reports.len(),
    {
        if reports.len() == 0 {
            0
        } else {
            let (node, interaction) = reports.last();
            let rest = self.fired_by(reports.drop_last());
            if self.slot(node).taken_by(Some(interaction)) is Some {
                rest + 1
            } else {
                rest
            }
        }
    }

    /// Whether `other` shows the same scene: the same nodes under the same
    /// parents and the same pending patches. Handler slots may differ.
    pub open spec fn same_scene(self, other: HostView<H>) -> bool {
        &&& self.commands == other.commands
        &&& self.nodes.len() == other.nodes.len()
        &&& forall|i: int|
            0 <= i < self.nodes.len() ==> (#[trigger] self.nodes[i]).parent
                == other.nodes[i].parent
    }
}

/// The values of a list of patches, in order.
pub open spec fn command_views(commands: Seq<HostCommand>) -> Seq<CommandView> {
    commands.map_values(|c: HostCommand| c@)
}

/// The view of an optional text.
pub open spec fn content_view(content: Option<String>) -> Option<Seq<char>> {
    match content {
        Some(text) => Some(text@),
        None => None,
    }
}

/// The engine's handle on the backing scene graph. Node handles are handed out
/// in order and never reused; every change to the scene is recorded as a
/// patch, to be applied to the real scene once the pass is over. The handler
/// of a node lives in the node's slot here and is never part of a patch.
pub struct Host<H> {
    nodes: Vec<NodeRecord<H>>,
    commands: Vec<HostCommand>,
}

impl<H> View for Host<H> {
    type V = HostView<H>;

    closed spec fn view(&self) -> HostView<H> {
        HostView { nodes: self.nodes@, commands: command_views(self.commands@) }
    }
}

impl<H> Host<H> {
    /// A host with no nodes and no pending patches.
    pub fn new() -> (host: Host<H>)
        ensures
            host@ == HostView::<H>::empty(),
    {
        let host = Host { nodes: Vec::new(), commands: Vec::new() };
        assert(host@.commands =~= Seq::empty());
        host
    }

    fn record(&mut self, command: HostCommand)
        ensures
            final(self)@ == old(self)@.recorded(command@),
    {
        self.commands.push(command);
        assert(command_views(self.commands@) =~= command_views(old(self).commands@).push(
            command@,
        ));
    }

    fn set_slot(&mut self, node: usize, slot: ClickHandler<H>)
        ensures
            final(self)@ == old(self)@.with_slot(node, slot),
    {
        if node < self.nodes.len() {
            let parent = self.nodes[node].parent;
            self.nodes[node] = NodeRecord { parent, handler: slot };
        }
    }

    fn take_slot(&mut self, node: usize) -> (slot: ClickHandler<H>)
        ensures
            slot == old(self)@.slot(node),
            final(self)@ == old(self)@.with_slot(node, ClickHandler(None)),
    {
        if node < self.nodes.len() {
            let parent = self.nodes[node].parent;
            let mut record = NodeRecord { parent, handler: ClickHandler(None) };
            std::mem::swap(&mut self.nodes[node], &mut record);
            assert(self@.nodes =~= old(self)@.with_slot(node, ClickHandler(None)).nodes);
            record.handler
        } else {
            ClickHandler(None)
        }
    }

    /// Allocates the next node handle and records the patch that creates the
    /// node below `parent`, with `content` as its text if there is one.
    pub fn spawn(&mut self, parent: Option<usize>, content: Option<String>) -> (node: usize)
        ensures
            node == old(self)@.next_node(),
            final(self)@ == old(self)@.spawned(parent, content_view(content)),
    {
        let node: usize = self.nodes.len();
        self.nodes.push(NodeRecord { parent, handler: ClickHandler(None) });
        self.record(HostCommand::Spawn { node, parent, text: content });
        node
    }

    /// Records the patch that replaces the text of `node`.
    pub fn set_text(&mut self, node: usize, content: String)
        ensures
            final(self)@ == old(self)@.text_set(node, content@),
    {
        self.record(HostCommand::SetText { node, content });
    }

    /// Records the patch that removes `node`, and drops the node's handler.
    pub fn despawn(&mut self, node: usize)
        ensures
            final(self)@ == old(self)@.despawned(node),
    {
        self.set_slot(node, ClickHandler(None));
        self.record(HostCommand::Despawn { node });
    }

    /// Puts `handler` into the slot of `node`, in place of whatever the slot
    /// held. Nothing is recorded for the scene, and nothing is called.
    pub fn bind(&mut self, node: usize, handler: H)
        ensures
            final(self)@ == old(self)@.bound(node, handler),
    {
        self.set_slot(node, ClickHandler(Some(handler)));
    }

    /// Whether the slot of `node` holds a handler.
    pub fn is_armed(&self, node: usize) -> (armed: bool)
        ensures
            armed == (self@.slot(node).0 is Some),
    {
        if node < self.nodes.len() {
            self.nodes[node].handler.is_armed()
        } else {
            false
        }
    }

    /// The dispatch decision for `node`: its handler is taken out of the slot
    /// exactly when the node reports that it was pressed. The caller invokes
    /// what comes back and then returns it with [`restore`](Host::restore).
    pub fn dispatch(&mut self, node: usize, interaction: Option<Interaction>) -> (taken: Option<H>)
        ensures
            taken == old(self)@.slot(node).taken_by(interaction),
            final(self)@ == old(self)@.dispatched(node, interaction),
    {
        let mut slot = self.take_slot(node);
        let taken = slot.dispatch(interaction);
        self.set_slot(node, slot);
        assert(self@.nodes =~= old(self)@.dispatched(node, interaction).nodes);
        taken
    }

    /// Returns a handler to the slot of `node` after invocation. Where a pass
    /// has bound a newer handler in the meantime, the newer one stays.
    pub fn restore(&mut self, node: usize, handler: H)
        ensures
            final(self)@ == old(self)@.restored(node, handler),
    {
        let mut slot = self.take_slot(node);
        slot.restore(handler);
        self.set_slot(node, slot);
        assert(self@.nodes =~= old(self)@.restored(node, handler).nodes);
    }

    /// The whole protocol for one node and one report: where the node was
    /// pressed and its slot holds a handler, the handler is taken out, called
    /// once and put back; otherwise nothing is called.
    pub fn fire(&mut self, node: usize, interaction: Option<Interaction>) -> (fired: bool) where
        H: Fn(),
        requires
            old(self)@.slot(node).0 is Some ==> call_requires(old(self)@.slot(node).0->0, ()),
        ensures
            fired == (old(self)@.slot(node).taken_by(interaction) is Some),
            final(self)@ == old(self)@,
    {
        let mut slot = self.take_slot(node);
        let fired = slot.fire(interaction);
        self.set_slot(node, slot);
        assert(self@.nodes =~= old(self)@.nodes);
        fired
    }

    /// The dispatch sweep: every report is dispatched in order, each handler
    /// that a report takes out is called once and put back before the next
    /// report is looked at. Returns how many handlers were called.
    pub fn sweep(&mut self, reports: &Vec<(usize, Interaction)>) -> (fired: usize) where H: Fn()
        requires
            forall|node: usize|
                (#[trigger] old(self)@.slot(node)).0 is Some ==> call_requires(
                    old(self)@.slot(node).0->0,
                    (),
                ),
        ensures
            fired == old(self)@.fired_by(reports@),
            final(self)@ == old(self)@,
    {
        let mut fired: usize = 0;
        let mut i: usize = 0;
        while i < reports.len()
            invariant
                i <= reports@.len(),
                self@ == old(self)@,
                forall|node: usize|
                    (#[trigger] self@.slot(node)).0 is Some ==> call_requires(
                        self@.slot(node).0->0,
                        (),
                    ),
                fired == self@.fired_by(reports@.take(i as int)),
                fired <= i,
            decreases reports@.len() - i,
        {
            let (node, interaction) = reports[i];
            assert(reports@.take(i + 1).drop_last() =~= reports@.take(i as int));
            if self.fire(node, Some(interaction)) {
                fired = fired + 1;
            }
            i = i + 1;
        }
        assert(reports@.take(reports@.len() as int) =~= reports@);
        fired
    }

    /// The number of node handles handed out so far.
    pub fn node_count(&self) -> (count: usize)
        ensures
            count == self@.nodes.len(),
    {
        self.nodes.len()
    }

    /// The parent that `node` was spawned below, or `None` for a root and for
    /// a handle that was never handed out.
    pub fn parent_of(&self, node: usize) -> (parent: Option<usize>)
        ensures
            parent == if node < self@.nodes.len() {
                self@.nodes[node as int].parent
            } else {
                None
            },
    {
        if node < self.nodes.len() {
            self.nodes[node].parent
        } else {
            None
        }
    }

    /// The number of patches that wait to be applied.
    pub fn pending(&self) -> (count: usize)
        ensures
            count == self@.commands.len(),
    {
        self.commands.len()
    }

    /// Hands out the pending patches, oldest first, and leaves the buffer
    /// empty. The node table is kept.
    pub fn take_commands(&mut self) -> (commands: Vec<HostCommand>)
        ensures
            command_views(commands@) == old(self)@.commands,
            final(self)@ == old(self)@.drained(),
    {
        let mut commands: Vec<HostCommand> = Vec::new();
        std::mem::swap(&mut commands, &mut self.commands);
        assert(command_views(self.commands@) =~= Seq::empty());
        commands
    }
}

/// While the handler of a node is out for invocation, no dispatch on that
/// node hands out anything: whatever the node reports in that window, its
/// handler is not taken a second time.
pub proof fn lemma_dispatch_is_exclusive<H>(
    host: HostView<H>,
    node: usize,
    again: Option<Interaction>,
)
    ensures
        host.dispatched(node, Some(Interaction::Pressed)).slot(node).taken_by(again) is None,
{
}

/// A handler that was taken out and returned, with no pass in between, is
/// back in its slot, and the host is as it was before the dispatch.
pub proof fn lemma_restore_undoes_dispatch<H>(host: HostView<H>, node: usize, handler: H)
    requires
        host.slot(node).0 == Some(handler),
    ensures
        host.dispatched(node, Some(Interaction::Pressed)).restored(node, handler).nodes
            =~= host.nodes,
        host.dispatched(node, Some(Interaction::Pressed)).restored(node, handler).commands
            == host.commands,
{
}

/// A pass that binds a new handler while the old one is out for invocation
/// wins: returning the old handler afterwards leaves the new one in the slot.
pub proof fn lemma_newer_handler_survives_restore<H>(
    host: HostView<H>,
    node: usize,
    newer: H,
    older: H,
)
    ensures
        host.bound(node, newer).restored(node, older).slot(node) == host.bound(node, newer).slot(
            node,
        ),
{
}

} // verus!
