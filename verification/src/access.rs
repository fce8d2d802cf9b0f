//! Who may see a node, and the paths through the file tree that this is decided on.
use vstd::prelude::*;
use crate::model::{NodeEntity, NodeId, ShareEntity, UserId};
use crate::reply::Refusal;

verus! {

/// Whether one of the shares is for the node.
pub open spec fn shared_with(shares: Seq<ShareEntity>, node: NodeId) -> bool {
    exists|i: int| 0 <= i < shares.len() && #[trigger] shares[i].node_id == node
}

/// Access through shares along a path that runs from a root node down to a node:
/// walking up from the node, the first node that is in the trash denies access and
/// the first node shared with the user grants it.
pub open spec fn access_through_path(path: Seq<NodeEntity>, shares: Seq<ShareEntity>) -> bool
    decreases path.len(),
{
    if path.len() == 0 {
        false
    } else {
        let node = path.last();
        if node.deleted_on is Some {
            false
        } else if shared_with(shares, node.id) {
            true
        } else {
            access_through_path(path.drop_last(), shares)
        }
    }
}

/// Whether a user may access a node: its owner may; anyone else only through a share
/// of the node or of a folder above it, and not once the node or a folder between
/// it and that share is in the trash.
pub open spec fn may_access(
    node: Option<NodeEntity>,
    user: UserId,
    path_to_root: Seq<NodeEntity>,
    shares_of_user: Seq<ShareEntity>,
) -> bool {
    match node {
        None => false,
        Some(n) => n.owner_id == user || access_through_path(path_to_root, shares_of_user),
    }
}

/// Whether one of the shares is for the node.
pub fn is_shared_with(shares: &Vec<ShareEntity>, node: NodeId) -> (shared: bool)
    ensures
        shared == shared_with(shares@, node),
{
    let mut i: usize = 0;
    while i < shares.len()
        invariant
            i <= shares@.len(),
            forall|k: int| 0 <= k < i ==> #[trigger] shares@[k].node_id != node,
        decreases shares.len() - i,
    {
        if shares[i].node_id == node {
            return true;
        }
        i = i + 1;
    }
    false
}

/// Decides whether `user` may access `node`. `path_to_root` runs from a root node
/// down to the node, and `shares_of_user` are the shares the user accepted; both are
/// looked at only when the user does not own the node.
pub fn has_access(
    node: &Option<NodeEntity>,
    user: UserId,
    path_to_root: &Vec<NodeEntity>,
    shares_of_user: &Vec<ShareEntity>,
) -> (access: bool)
    ensures
        access == may_access(*node, user, path_to_root@, shares_of_user@),
{
    match node {
        None => false,
        Some(n) => {
            if n.owner_id == user {
                return true;
            }
            let mut i: usize = path_to_root.len();
            assert(path_to_root@.subrange(0, i as int) =~= path_to_root@);
            while i > 0
                invariant
                    i <= path_to_root@.len(),
                    *node matches Some(m) && m.owner_id != user,
                    access_through_path(path_to_root@, shares_of_user@) == access_through_path(
                        path_to_root@.subrange(0, i as int),
                        shares_of_user@,
                    ),
                decreases i,
            {
                let ghost prefix = path_to_root@.subrange(0, i as int);
                assert(prefix.drop_last() =~= path_to_root@.subrange(0, i - 1));
                let current = &path_to_root[i - 1];
                assert(prefix.last() == *current);
                if current.deleted_on.is_some() {
                    return false;
                }
                if is_shared_with(shares_of_user, current.id) {
                    return true;
                }
                i = i - 1;
            }
            false
        },
    }
}

/// The users that accepted one of the shares, in the order of the shares.
pub open spec fn accepted_users(shares: Seq<ShareEntity>) -> Seq<UserId>
    decreases shares.len(),
{
    if shares.len() == 0 {
        Seq::empty()
    } else {
        let rest = accepted_users(shares.drop_last());
        match shares.last().accepted_by {
            Some(user) => rest.push(user),
            None => rest,
        }
    }
}

/// The users with access to a node through its own shares: the owner first, then
/// every user that accepted a share of the node, in the order of the shares.
pub fn access_list_users(owner: UserId, shares_of_node: &Vec<ShareEntity>) -> (users: Vec<UserId>)
    ensures
        users@ == seq![owner] + accepted_users(shares_of_node@),
{
    let mut users: Vec<UserId> = Vec::new();
    users.push(owner);
    let mut i: usize = 0;
    while i < shares_of_node.len()
        invariant
            i <= shares_of_node@.len(),
            users@ == seq![owner] + accepted_users(shares_of_node@.subrange(0, i as int)),
        decreases shares_of_node.len() - i,
    {
        let ghost before = shares_of_node@.subrange(0, i as int);
        assert(shares_of_node@.subrange(0, i + 1).drop_last() =~= before);
        match shares_of_node[i].accepted_by {
            Some(user) => {
                users.push(user);
            },
            None => {},
        }
        i = i + 1;
        assert(users@ =~= seq![owner] + accepted_users(shares_of_node@.subrange(0, i as int)));
    }
    assert(shares_of_node@.subrange(0, i as int) =~= shares_of_node@);
    users
}

/// The path found between two nodes, when it really starts at `from`. The path
/// query returns the way from `to` up to `from`, or up to a root node when `from` is
/// not above `to`; in that case there is no path.
pub fn path_if_connected(path: Vec<NodeEntity>, from: NodeId) -> (connected: Option<Vec<NodeEntity>>)
    requires
        path@.len() > 0,
    ensures
        path@[0].id == from ==> connected == Some(path),
        path@[0].id != from ==> connected is None,
{
    if path[0].id != from {
        None
    } else {
        Some(path)
    }
}

/// The next step of walking up from `to` to `from`.
pub enum PathStep {
    /// The walk arrived at `from`.
    Reached,
    /// The walk continues with the parent.
    Parent(NodeId),
    /// A node without a parent was reached before `from`: no path exists.
    NoPath,
}

/// Decides how the walk from `to` up to `from` continues after reaching `last`.
pub fn path_step(last: &NodeEntity, from: NodeId) -> (step: PathStep)
    ensures
        last.id == from ==> step is Reached,
        last.id != from ==> match last.parent_id {
            Some(parent) => step == PathStep::Parent(parent),
            None => step is NoPath,
        },
{
    if last.id == from {
        PathStep::Reached
    } else {
        match last.parent_id {
            Some(parent) => PathStep::Parent(parent),
            None => PathStep::NoPath,
        }
    }
}

/// The elements of a sequence in reverse order.
pub open spec fn reversed<T>(s: Seq<T>) -> Seq<T> {
    Seq::new(s.len(), |i: int| s[s.len() - 1 - i])
}

/// A path walked up from `to` to `from`, turned around so that it runs from `from`
/// down to `to`, when the user owns both ends; refused as not found otherwise.
pub fn path_for_owner(walked_up: Vec<NodeEntity>, user: UserId) -> (path: Result<Vec<NodeEntity>, Refusal>)
    requires
        walked_up@.len() > 0,
    ensures
        match path {
            Ok(p) => p@ == reversed(walked_up@) && walked_up@[0].owner_id == user
                && walked_up@.last().owner_id == user,
            Err(r) => r is NotFound && (walked_up@[0].owner_id != user || walked_up@.last().owner_id
                != user),
        },
{
    let n = walked_up.len();
    if walked_up[0].owner_id != user || walked_up[n - 1].owner_id != user {
        return Err(Refusal::NotFound);
    }
    let ghost original = walked_up@;
    let mut rest = walked_up;
    let mut path: Vec<NodeEntity> = Vec::new();
    while rest.len() > 0
        invariant
            rest@.len() + path@.len() == original.len(),
            rest@ == original.subrange(0, rest@.len() as int),
            forall|k: int| 0 <= k < path@.len() ==> #[trigger] path@[k] == original[original.len() - 1 - k],
        decreases rest@.len(),
    {
        let node = rest.pop().unwrap();
        path.push(node);
    }
    assert(path@ =~= reversed(original));
    Ok(path)
}


/// Whether a path runs down the tree from `from` to `to`: it starts at `from`, ends at
/// `to`, and every node after the first is a child of the one before it.
pub open spec fn runs_down(path: Seq<NodeEntity>, from: NodeId, to: NodeId) -> bool {
    &&& path.len() > 0
    &&& path[0].id == from
    &&& path.last().id == to
    &&& forall|i: int, j: int|
        0 <= i && j == i + 1 && j < path.len() ==> (#[trigger] path[j]).parent_id == Some((#[trigger] path[i]).id)
}

/// Whether nodes walked up the tree from `to` are linked: each one after the first is
/// the parent of the one before it.
pub open spec fn walked_up_from(walked: Seq<NodeEntity>, to: NodeId) -> bool {
    &&& walked.len() > 0
    &&& walked[0].id == to
    &&& forall|i: int, j: int|
        0 <= i && j == i + 1 && j < walked.len() ==> (#[trigger] walked[i]).parent_id == Some((#[trigger] walked[j]).id)
}

/// What the walk between two nodes does next.
#[derive(Clone, Copy, Debug, PartialEq, Eq, Structural)]
pub enum PathAction {
    /// Look up the parent with this id.
    LookupParent(NodeId),
    /// The walk reached `from`: the path is complete (see `PathWalk::finish`).
    Finish,
    /// There is no path, for this reason.
    Refuse(PathRefusal),
}

/// Why there is no path between two nodes.
#[derive(Clone, Copy, Debug, PartialEq, Eq, Structural)]
pub enum PathRefusal {
    /// The target does not exist: not found.
    NotFound,
    /// `from` is not above the target: no content.
    NoContent,
}

/// What follows the nodes `walked` up from the target towards `from`: the end of the
/// walk when the last node is `from`; else the lookup of its parent; a node without a
/// parent ends the walk with no content.
pub open spec fn walk_answer(walked: Seq<NodeEntity>, from: NodeId) -> PathAction {
    let last = walked.last();
    if last.id == from {
        PathAction::Finish
    } else {
        match last.parent_id {
            Some(parent) => PathAction::LookupParent(parent),
            None => PathAction::Refuse(PathRefusal::NoContent),
        }
    }
}

/// The walk up the tree from a node `to` to a node `from` above it, collecting the
/// nodes on the way.
pub struct PathWalk {
    walked: Vec<NodeEntity>,
    from: NodeId,
}

impl PathWalk {
    /// The nodes walked so far, starting at `to`.
    pub closed spec fn walked(&self) -> Seq<NodeEntity> {
        self.walked@
    }

    /// The node the walk is to reach.
    pub closed spec fn from(&self) -> NodeId {
        self.from
    }

    /// Whether the walk waits for the parent with id `id`.
    pub open spec fn awaits(&self, id: NodeId) -> bool {
        &&& self.walked().len() > 0
        &&& walk_answer(self.walked(), self.from()) == PathAction::LookupParent(id)
    }

    /// Whether the walk has reached `from`.
    pub open spec fn reached(&self) -> bool {
        &&& self.walked().len() > 0
        &&& walk_answer(self.walked(), self.from()) == PathAction::Finish
    }

    fn next_action(&self) -> (action: PathAction)
        requires
            self.walked@.len() > 0,
        ensures
            action == walk_answer(self.walked@, self.from),
    {
        let n = self.walked.len();
        match path_step(&self.walked[n - 1], self.from) {
            PathStep::Reached => PathAction::Finish,
            PathStep::Parent(parent) => PathAction::LookupParent(parent),
            PathStep::NoPath => PathAction::Refuse(PathRefusal::NoContent),
        }
    }

    /// Starts the walk at the target node `to`, as the lookup of `to_id` found it: a
    /// target that does not exist is not found.
    pub fn start(to: Option<NodeEntity>, to_id: NodeId, from: NodeId) -> (started: (PathWalk, PathAction))
        requires
            to matches Some(n) ==> n.id == to_id,
        ensures
            started.0.from() == from,
            match to {
                None => started.1 == PathAction::Refuse(PathRefusal::NotFound),
                Some(n) => started.0.walked() == seq![n] && started.1 == walk_answer(started.0.walked(), from),
            },
            to is Some ==> walked_up_from(started.0.walked(), to_id),
    {
        match to {
            None => (PathWalk { walked: Vec::new(), from }, PathAction::Refuse(PathRefusal::NotFound)),
            Some(n) => {
                let walk = PathWalk { walked: vec![n], from };
                let action = walk.next_action();
                (walk, action)
            },
        }
    }

    /// Takes the parent the walk waited for, and goes on from it.
    pub fn parent_found(&mut self, parent: NodeEntity) -> (action: PathAction)
        requires
            old(self).awaits(parent.id),
        ensures
            final(self).walked() == old(self).walked().push(parent),
            final(self).from() == old(self).from(),
            action == walk_answer(final(self).walked(), final(self).from()),
            forall|to: NodeId| walked_up_from(old(self).walked(), to) ==> walked_up_from(final(self).walked(), to),
    {
        let ghost before = self.walked@;
        self.walked.push(parent);
        proof {
            assert(before.last().parent_id == Some(parent.id));
            assert forall|to: NodeId| walked_up_from(before, to) implies walked_up_from(self.walked@, to) by {
                lemma_walk_extends(before, parent, to);
            }
        }
        self.next_action()
    }

    /// The path of a walk that reached `from`, turned around so that it runs from
    /// `from` down to the target, when the user owns both ends; refused as not found
    /// otherwise.
    pub fn finish(self, user: UserId) -> (path: Result<Vec<NodeEntity>, Refusal>)
        requires
            self.reached(),
        ensures
            match path {
                Ok(p) => p@ == reversed(self.walked()) && self.walked()[0].owner_id == user
                    && self.walked().last().owner_id == user,
                Err(r) => r is NotFound && (self.walked()[0].owner_id != user || self.walked().last().owner_id
                    != user),
            },
            forall|to: NodeId|
                walked_up_from(self.walked(), to) ==> (path matches Ok(p) ==> runs_down(p@, self.from(), to)),
    {
        let ghost walked = self.walked@;
        let ghost from = self.from;
        let path = path_for_owner(self.walked, user);
        proof {
            assert forall|to: NodeId| walked_up_from(walked, to) implies (path matches Ok(p) ==> runs_down(
                p@,
                from,
                to,
            )) by {
                lemma_reversed_runs_down(walked, from, to);
            }
        }
        path
    }
}

proof fn lemma_walk_extends(before: Seq<NodeEntity>, parent: NodeEntity, to: NodeId)
    requires
        walked_up_from(before, to),
        before.last().parent_id == Some(parent.id),
    ensures
        walked_up_from(before.push(parent), to),
{
    let after = before.push(parent);
    assert forall|i: int, j: int| 0 <= i && j == i + 1 && j < after.len() implies (#[trigger] after[i]).parent_id
        == Some((#[trigger] after[j]).id) by {
        assert(after[i] == before[i]);
        if j < before.len() {
            assert(after[j] == before[j]);
        }
    }
}

proof fn lemma_reversed_runs_down(walked: Seq<NodeEntity>, from: NodeId, to: NodeId)
    requires
        walked_up_from(walked, to),
        walked.last().id == from,
    ensures
        runs_down(reversed(walked), from, to),
{
    let q = reversed(walked);
    let n = walked.len();
    assert forall|i: int, j: int| 0 <= i && j == i + 1 && j < q.len() implies (#[trigger] q[j]).parent_id == Some(
        (#[trigger] q[i]).id,
    ) by {
        assert(q[j] == walked[n - 1 - j]);
        assert(q[i] == walked[n - 1 - i]);
        assert(walked[n - 1 - j].parent_id == Some(walked[n - 1 - i].id));
    }
}

/// The owner of a node may always access it; nobody may access a node that does not
/// exist.
pub proof fn lemma_owner_access(node: NodeEntity, user: UserId, path_to_root: Seq<NodeEntity>, shares: Seq<ShareEntity>)
    ensures
        may_access(Some(node), node.owner_id, path_to_root, shares),
        !may_access(None, user, path_to_root, shares),
{
}

/// A node that is in the trash is accessible to its owner only.
pub proof fn lemma_trashed_node_is_private(
    node: NodeEntity,
    user: UserId,
    path_to_root: Seq<NodeEntity>,
    shares: Seq<ShareEntity>,
)
    requires
        path_to_root.len() > 0,
        path_to_root.last().deleted_on is Some,
        node.owner_id != user,
    ensures
        !may_access(Some(node), user, path_to_root, shares),
{
}

/// A share of a folder gives access to everything below it, as long as nothing from
/// the shared folder down to the node is in the trash.
pub proof fn lemma_share_covers_subtree(path: Seq<NodeEntity>, shares: Seq<ShareEntity>, shared: int)
    requires
        0 <= shared < path.len(),
        shared_with(shares, path[shared].id),
        forall|j: int| shared <= j < path.len() ==> (#[trigger] path[j]).deleted_on is None,
    ensures
        access_through_path(path, shares),
    decreases path.len(),
{
    if shared < path.len() - 1 && !shared_with(shares, path.last().id) {
        let rest = path.drop_last();
        assert forall|j: int| shared <= j < rest.len() implies (#[trigger] rest[j]).deleted_on is None by {
            assert(rest[j] == path[j]);
        }
        assert(rest[shared] == path[shared]);
        lemma_share_covers_subtree(rest, shares, shared);
    }
}

} // verus!
