//! Purging a subtree: every node below a node is deleted before the node itself,
//! children in the order the database lists them. The walk is a state machine: it
//! asks for a node's children, is told them, and asks for deletions, one at a time.
use vstd::prelude::*;
use crate::model::{EncryptedMetadata, NodeEntity, NodeId};

verus! {

/// A node of the walk: the children not yet visited, once they are known.
pub struct PurgeFrame {
    pub node: NodeId,
    /// The children still to purge, once they were fetched.
    pub pending: Option<Vec<NodeId>>,
}

/// What the walk asks for next.
#[derive(Clone, Copy, Debug, PartialEq, Eq, Structural)]
pub enum PurgeAction {
    /// Fetch the children of the node.
    FetchChildren(NodeId),
    /// Delete the node: everything below it is deleted already.
    Delete(NodeId),
    /// The subtree is gone.
    Done,
}

/// A frame as plain values.
pub open spec fn frame_view(frame: PurgeFrame) -> (NodeId, Option<Seq<NodeId>>) {
    (frame.node, match frame.pending {
        Some(p) => Some(p@),
        None => None,
    })
}

/// The walk through a subtree that is purged: the path of frames from the subtree's
/// root down to the node being worked on.
pub struct PurgeWalk {
    stack: Vec<PurgeFrame>,
}

/// The action a stack of frames asks for: the children of a node not yet expanded;
/// its next child when it has pending children; its deletion when none are left.
pub open spec fn next_action(stack: Seq<(NodeId, Option<Seq<NodeId>>)>) -> PurgeAction {
    if stack.len() == 0 {
        PurgeAction::Done
    } else {
        let (node, pending) = stack.last();
        match pending {
            None => PurgeAction::FetchChildren(node),
            Some(p) => if p.len() == 0 {
                PurgeAction::Delete(node)
            } else {
                PurgeAction::FetchChildren(p[0])
            },
        }
    }
}

impl View for PurgeWalk {
    type V = Seq<(NodeId, Option<Seq<NodeId>>)>;

    closed spec fn view(&self) -> Seq<(NodeId, Option<Seq<NodeId>>)> {
        self.stack@.map_values(|f: PurgeFrame| frame_view(f))
    }
}

/// Every frame below the top one knows its children.
pub open spec fn frames_expanded(stack: Seq<(NodeId, Option<Seq<NodeId>>)>) -> bool {
    forall|i: int| 0 <= i < stack.len() - 1 ==> (#[trigger] stack[i]).1 is Some
}

/// A stack whose top frame moves on to its next pending child, which becomes a new
/// frame whose children are not known yet.
pub open spec fn descend(stack: Seq<(NodeId, Option<Seq<NodeId>>)>) -> Seq<(NodeId, Option<Seq<NodeId>>)> {
    let (node, pending) = stack.last();
    let p = pending->0;
    stack.drop_last().push((node, Some(p.drop_first()))).push((p[0], None))
}

/// A stack moved on after its top frame changed: when the top frame still has
/// pending children, the walk descends into the first of them.
pub open spec fn settle(stack: Seq<(NodeId, Option<Seq<NodeId>>)>) -> Seq<(NodeId, Option<Seq<NodeId>>)> {
    if stack.len() > 0 && (stack.last().1 matches Some(p) && p.len() > 0) {
        descend(stack)
    } else {
        stack
    }
}

/// The stack once the children `children` of its top node are known.
pub open spec fn expand(stack: Seq<(NodeId, Option<Seq<NodeId>>)>, children: Seq<NodeId>) -> Seq<(NodeId, Option<Seq<NodeId>>)> {
    settle(stack.drop_last().push((stack.last().0, Some(children))))
}

/// The stack once its top node is deleted.
pub open spec fn retire(stack: Seq<(NodeId, Option<Seq<NodeId>>)>) -> Seq<(NodeId, Option<Seq<NodeId>>)> {
    settle(stack.drop_last())
}

impl PurgeWalk {
    /// Starts purging the subtree below and including `root`: its children are
    /// fetched first.
    pub fn start(root: NodeId) -> (started: (PurgeWalk, PurgeAction))
        ensures
            started.0@ == seq![(root, Option::<Seq<NodeId>>::None)],
            started.1 == PurgeAction::FetchChildren(root),
            frames_expanded(started.0@),
    {
        let mut stack: Vec<PurgeFrame> = Vec::new();
        stack.push(PurgeFrame { node: root, pending: None });
        let walk = PurgeWalk { stack };
        assert(walk@ =~= seq![(root, Option::<Seq<NodeId>>::None)]);
        (walk, PurgeAction::FetchChildren(root))
    }

    /// Takes the children of the node whose children were asked for, and moves on to
    /// the first of them, or to deleting the node when it has none.
    pub fn children_fetched(&mut self, children: Vec<NodeId>) -> (action: PurgeAction)
        requires
            old(self)@.len() > 0,
            old(self)@.last().1 is None,
            frames_expanded(old(self)@),
        ensures
            frames_expanded(final(self)@),
            ({
                let expanded = old(self)@.drop_last().push((old(self)@.last().0, Some(children@)));
                &&& children@.len() == 0 ==> final(self)@ == expanded
                &&& children@.len() > 0 ==> final(self)@ == descend(expanded)
            }),
            final(self)@ == expand(old(self)@, children@),
            action == next_action(final(self)@),
    {
        let top = self.stack.pop().unwrap();
        let node = top.node;
        let ghost rest = self@;
        proof {
            assert(rest =~= old(self)@.drop_last());
        }
        if children.len() == 0 {
            assert(children@ =~= Seq::<NodeId>::empty());
            self.stack.push(PurgeFrame { node, pending: Some(children) });
            assert(self@ =~= rest.push((node, Some(Seq::<NodeId>::empty()))));
            PurgeAction::Delete(node)
        } else {
            let mut remaining = children;
            let first = remaining.remove(0);
            let ghost all = remaining@.insert(0, first);
            self.stack.push(PurgeFrame { node, pending: Some(remaining) });
            self.stack.push(PurgeFrame { node: first, pending: None });
            proof {
                assert(all.drop_first() =~= remaining@);
                assert(self@ =~= rest.push((node, Some(remaining@))).push((first, Option::<Seq<NodeId>>::None)));
            }
            PurgeAction::FetchChildren(first)
        }
    }

    /// Notes that the node whose deletion was asked for is deleted, and moves on to the
    /// next child of its parent, to deleting the parent, or to the end.
    pub fn node_deleted(&mut self) -> (action: PurgeAction)
        requires
            old(self)@.len() > 0,
            old(self)@.last().1 matches Some(p) && p.len() == 0,
            frames_expanded(old(self)@),
        ensures
            frames_expanded(final(self)@),
            ({
                let rest = old(self)@.drop_last();
                &&& (rest.len() == 0 || rest.last().1->0.len() == 0) ==> final(self)@ == rest
                &&& (rest.len() > 0 && rest.last().1->0.len() > 0) ==> final(self)@ == descend(rest)
            }),
            final(self)@ == retire(old(self)@),
            action == next_action(final(self)@),
    {
        let _ = self.stack.pop();
        let ghost rest = self@;
        proof {
            assert(rest =~= old(self)@.drop_last());
        }
        if self.stack.len() == 0 {
            return PurgeAction::Done;
        }
        let parent = self.stack.pop().unwrap();
        let node = parent.node;
        match parent.pending {
            Some(pending) => {
                if pending.len() == 0 {
                    self.stack.push(PurgeFrame { node, pending: Some(pending) });
                    assert(self@ =~= rest);
                    PurgeAction::Delete(node)
                } else {
                    let mut remaining = pending;
                    let first = remaining.remove(0);
                    self.stack.push(PurgeFrame { node, pending: Some(remaining) });
                    self.stack.push(PurgeFrame { node: first, pending: None });
                    assert(self@ =~= descend(rest));
                    PurgeAction::FetchChildren(first)
                }
            },
            None => {
                self.stack.push(PurgeFrame { node, pending: None });
                assert(self@ =~= rest);
                PurgeAction::FetchChildren(node)
            },
        }
    }
}

/// Whether the subtree below `node`, where `children(n)` lists the children of `n`,
/// is at most `height` levels deep.
pub open spec fn within_height(children: spec_fn(NodeId) -> Seq<NodeId>, node: NodeId, height: nat) -> bool
    decreases height,
{
    height > 0 && forall|i: int|
        0 <= i < children(node).len() ==> within_height(children, #[trigger] children(node)[i], (height - 1) as nat)
}

/// The nodes of the subtree below and including `node` in post-order: the subtrees of
/// its children one after the other, in the order they are listed, then the node.
pub open spec fn post_order(children: spec_fn(NodeId) -> Seq<NodeId>, node: NodeId, height: nat) -> Seq<NodeId>
    decreases height, 0nat,
{
    if height == 0 {
        seq![node]
    } else {
        forest_post_order(children, children(node), (height - 1) as nat).push(node)
    }
}

/// The subtrees of `nodes`, one after the other, each in post-order.
pub open spec fn forest_post_order(children: spec_fn(NodeId) -> Seq<NodeId>, nodes: Seq<NodeId>, height: nat) -> Seq<NodeId>
    decreases height, nodes.len(),
{
    if nodes.len() == 0 {
        Seq::empty()
    } else {
        post_order(children, nodes[0], height) + forest_post_order(children, nodes.drop_first(), height)
    }
}

/// One step of the walk when the database answers with `children`: the stack after
/// the action the stack asks for, and the node that action deleted, if any.
pub open spec fn walk_step(stack: Seq<(NodeId, Option<Seq<NodeId>>)>, children: spec_fn(NodeId) -> Seq<NodeId>) -> (
    Seq<(NodeId, Option<Seq<NodeId>>)>,
    Seq<NodeId>,
) {
    match next_action(stack) {
        PurgeAction::FetchChildren(_) => (expand(stack, children(stack.last().0)), Seq::empty()),
        PurgeAction::Delete(node) => (retire(stack), seq![node]),
        PurgeAction::Done => (stack, Seq::empty()),
    }
}

/// `steps` steps of the walk: the stack they lead to and the nodes they deleted, in
/// order.
pub open spec fn run_walk(stack: Seq<(NodeId, Option<Seq<NodeId>>)>, children: spec_fn(NodeId) -> Seq<NodeId>, steps: nat) -> (
    Seq<(NodeId, Option<Seq<NodeId>>)>,
    Seq<NodeId>,
)
    decreases steps,
{
    if steps == 0 {
        (stack, Seq::empty())
    } else {
        let (next, deleted) = walk_step(stack, children);
        let (last, later) = run_walk(next, children, (steps - 1) as nat);
        (last, deleted + later)
    }
}

/// The number of steps the walk takes through the subtree below `node`: one to fetch
/// the children of each node and one to delete it.
pub open spec fn node_steps(children: spec_fn(NodeId) -> Seq<NodeId>, node: NodeId, height: nat) -> nat
    decreases height, 0nat,
{
    if height == 0 {
        0
    } else {
        1 + forest_steps(children, children(node), (height - 1) as nat) + 1
    }
}

/// The number of steps the walk takes through the subtrees of `nodes`.
pub open spec fn forest_steps(children: spec_fn(NodeId) -> Seq<NodeId>, nodes: Seq<NodeId>, height: nat) -> nat
    decreases height, nodes.len(),
{
    if nodes.len() == 0 {
        0
    } else {
        node_steps(children, nodes[0], height) + forest_steps(children, nodes.drop_first(), height)
    }
}

/// Every frame of the stack knows its children.
pub open spec fn all_expanded(stack: Seq<(NodeId, Option<Seq<NodeId>>)>) -> bool {
    forall|i: int| 0 <= i < stack.len() ==> (#[trigger] stack[i]).1 is Some
}

proof fn lemma_run_split(
    stack: Seq<(NodeId, Option<Seq<NodeId>>)>,
    children: spec_fn(NodeId) -> Seq<NodeId>,
    first: nat,
    second: nat,
)
    ensures
        run_walk(stack, children, first + second) == ({
            let (middle, deleted) = run_walk(stack, children, first);
            let (last, later) = run_walk(middle, children, second);
            (last, deleted + later)
        }),
    decreases first,
{
    if first == 0 {
        assert(Seq::<NodeId>::empty() + run_walk(stack, children, second).1 =~= run_walk(stack, children, second).1);
    } else {
        let (next, deleted) = walk_step(stack, children);
        lemma_run_split(next, children, (first - 1) as nat, second);
        assert((first + second - 1) as nat == ((first - 1) + second) as nat);
        let (middle, d1) = run_walk(next, children, (first - 1) as nat);
        let (last, d2) = run_walk(middle, children, second);
        assert(deleted + (d1 + d2) =~= (deleted + d1) + d2);
    }
}

proof fn lemma_node_walk(
    path: Seq<(NodeId, Option<Seq<NodeId>>)>,
    children: spec_fn(NodeId) -> Seq<NodeId>,
    node: NodeId,
    height: nat,
)
    requires
        all_expanded(path),
        within_height(children, node, height),
    ensures
        run_walk(path.push((node, None)), children, node_steps(children, node, height)) == (
            settle(path),
            post_order(children, node, height),
        ),
    decreases height, 0nat,
{
    let stack = path.push((node, Option::<Seq<NodeId>>::None));
    let ch = children(node);
    let below = (height - 1) as nat;
    assert(stack.drop_last() =~= path);
    assert(next_action(stack) == PurgeAction::FetchChildren(node));
    let expanded = expand(stack, ch);
    assert(walk_step(stack, children) == (expanded, Seq::<NodeId>::empty()));
    assert(within_height(children, node, height));
    assert forall|i: int| 0 <= i < ch.len() implies within_height(children, #[trigger] ch[i], below) by {}
    lemma_forest_walk(path, children, node, ch, below);
    lemma_run_split(expanded, children, forest_steps(children, ch, below), 1);
    assert(node_steps(children, node, height) == 1 + (forest_steps(children, ch, below) + 1));
    lemma_run_split(stack, children, 1, forest_steps(children, ch, below) + 1);
    let (after_one, d0) = run_walk(stack, children, 1);
    assert(run_walk(expanded, children, 0) == (expanded, Seq::<NodeId>::empty()));
    assert(after_one == expanded);
    assert(d0 =~= Seq::<NodeId>::empty());
    let (last, rest) = run_walk(expanded, children, forest_steps(children, ch, below) + 1);
    assert(d0 + rest =~= rest);
    assert(post_order(children, node, height) == forest_post_order(children, ch, below).push(node));
}

proof fn lemma_forest_walk(
    path: Seq<(NodeId, Option<Seq<NodeId>>)>,
    children: spec_fn(NodeId) -> Seq<NodeId>,
    node: NodeId,
    nodes: Seq<NodeId>,
    height: nat,
)
    requires
        all_expanded(path),
        forall|i: int| 0 <= i < nodes.len() ==> within_height(children, #[trigger] nodes[i], height),
    ensures
        run_walk(settle(path.push((node, Some(nodes)))), children, forest_steps(children, nodes, height) + 1) == (
            settle(path),
            forest_post_order(children, nodes, height).push(node),
        ),
    decreases height, nodes.len(),
{
    let frame = path.push((node, Some(nodes)));
    assert(frame.drop_last() =~= path);
    if nodes.len() == 0 {
        assert(settle(frame) == frame);
        assert(next_action(frame) == PurgeAction::Delete(node));
        assert(walk_step(frame, children) == (settle(path), seq![node]));
        assert(run_walk(settle(path), children, 0) == (settle(path), Seq::<NodeId>::empty()));
        assert(forest_steps(children, nodes, height) == 0);
        assert(run_walk(frame, children, 1) == (settle(path), seq![node] + Seq::<NodeId>::empty()));
        assert(seq![node] + Seq::<NodeId>::empty() =~= Seq::<NodeId>::empty().push(node));
    } else {
        let first = nodes[0];
        let tail = nodes.drop_first();
        let parent = path.push((node, Some(tail)));
        assert(settle(frame) == descend(frame));
        assert(descend(frame) =~= parent.push((first, Option::<Seq<NodeId>>::None)));
        assert forall|i: int| 0 <= i < parent.len() implies (#[trigger] parent[i]).1 is Some by {
            if i < path.len() {
                assert(parent[i] == path[i]);
            }
        }
        assert(within_height(children, nodes[0], height));
        lemma_node_walk(parent, children, first, height);
        assert forall|i: int| 0 <= i < tail.len() implies within_height(children, #[trigger] tail[i], height) by {
            assert(tail[i] == nodes[i + 1]);
        }
        lemma_forest_walk(path, children, node, tail, height);
        let a = node_steps(children, first, height);
        let b = forest_steps(children, tail, height) + 1;
        lemma_run_split(settle(frame), children, a, b);
        assert(forest_steps(children, nodes, height) + 1 == a + b);
        assert(forest_post_order(children, nodes, height) == post_order(children, first, height)
            + forest_post_order(children, tail, height));
        assert(post_order(children, first, height) + forest_post_order(children, tail, height).push(node)
            =~= (post_order(children, first, height) + forest_post_order(children, tail, height)).push(node));
    }
}

/// Purging the subtree below and including `root`, where the database lists
/// `children(n)` as the children of each node `n` and the subtree is at most `height`
/// levels deep: the walk that `PurgeWalk::start` begins, answered step by step as
/// `PurgeWalk::children_fetched` and `PurgeWalk::node_deleted` do, deletes exactly the
/// nodes of the subtree, every node after all nodes below it (post-order, children in
/// the order they are listed), and then asks for nothing more.
pub proof fn lemma_walk_deletes_subtree(children: spec_fn(NodeId) -> Seq<NodeId>, root: NodeId, height: nat)
    requires
        within_height(children, root, height),
    ensures
        run_walk(seq![(root, Option::<Seq<NodeId>>::None)], children, node_steps(children, root, height)) == (
            Seq::<(NodeId, Option<Seq<NodeId>>)>::empty(),
            post_order(children, root, height),
        ),
        next_action(Seq::<(NodeId, Option<Seq<NodeId>>)>::empty()) == PurgeAction::Done,
{
    let empty = Seq::<(NodeId, Option<Seq<NodeId>>)>::empty();
    assert(empty.push((root, Option::<Seq<NodeId>>::None)) =~= seq![(root, Option::<Seq<NodeId>>::None)]);
    lemma_node_walk(empty, children, root, height);
    assert(settle(empty) == empty);
}

/// The metadata the parent of a node that is created or deleted is stored with (its
/// change count goes up): the parent's own, when the node has a parent; a node
/// without a parent passes its own metadata.
pub fn parent_metadata_to_store(node: &NodeEntity, parent: Option<&NodeEntity>) -> (metadata: EncryptedMetadata)
    requires
        node.parent_id is Some ==> parent is Some,
    ensures
        node.parent_id is Some ==> metadata.data@ == parent->0.metadata.data@ && metadata.iv@
            == parent->0.metadata.iv@,
        node.parent_id is None ==> metadata.data@ == node.metadata.data@ && metadata.iv@
            == node.metadata.iv@,
{
    match (node.parent_id, parent) {
        (Some(_), Some(p)) => p.metadata.duplicate(),
        _ => node.metadata.duplicate(),
    }
}

} // verus!
