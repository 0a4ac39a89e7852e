//! Content nodes: created by an account, which owns them and may transfer them.
use vstd::prelude::*;
use crate::types::{AccountId, ContentHash};
use crate::storage::StorageMap;

verus! {

/// A content node.
#[derive(Clone, Copy, Debug, PartialEq, Eq, Structural)]
pub struct Node {
    pub id: ContentHash,
}

/// What a successful call reports.
#[derive(Clone, Copy, Debug, PartialEq, Eq, Structural)]
pub enum NodeEvent {
    /// (creator, node)
    Created(AccountId, ContentHash),
    /// (sender, receiver, node)
    Transferred(AccountId, AccountId, ContentHash),
}

/// Why a call was refused.
#[derive(Clone, Copy, Debug, PartialEq, Eq, Structural)]
pub enum NodeError {
    NodeAlreadyExists,
    ExceedMaxNodeCountPerAccount,
    ExceedTotalMaxNodeCount,
    NoNodeOwner,
    SenderDoesNotOwnNode,
    ReceiverOverflow,
    SenderUnderflow,
}

impl NodeError {
    /// The text of the message under which the runtime reports this error.
    pub open spec fn text(&self) -> Seq<char> {
        match self {
            NodeError::NodeAlreadyExists => "Content Node already exists"@,
            NodeError::ExceedMaxNodeCountPerAccount => "Exceed max node count per account"@,
            NodeError::ExceedTotalMaxNodeCount => "Exceed total max node count"@,
            NodeError::NoNodeOwner => "No node owner"@,
            NodeError::SenderDoesNotOwnNode => "Sender does not own the node"@,
            NodeError::ReceiverOverflow => "Transfer causes overflow for node receiver"@,
            NodeError::SenderUnderflow => "Transfer causes underflow for node sender"@,
        }
    }

    /// The message under which the runtime reports this error.
    pub fn message(&self) -> (r: &'static str)
        ensures
            r@ == self.text(),
    {
        match self {
            NodeError::NodeAlreadyExists => "Content Node already exists",
            NodeError::ExceedMaxNodeCountPerAccount => "Exceed max node count per account",
            NodeError::ExceedTotalMaxNodeCount => "Exceed total max node count",
            NodeError::NoNodeOwner => "No node owner",
            NodeError::SenderDoesNotOwnNode => "Sender does not own the node",
            NodeError::ReceiverOverflow => "Transfer causes overflow for node receiver",
            NodeError::SenderUnderflow => "Transfer causes underflow for node sender",
        }
    }
}

/// What the node module holds.
#[verifier::ext_equal]
pub struct NodeState {
    pub nodes: Map<ContentHash, Node>,
    pub node_owner: Map<ContentHash, AccountId>,
    /// The nodes by their 1-based rank of creation.
    pub all_nodes: Map<u64, ContentHash>,
    pub all_nodes_count: u64,
    pub all_nodes_index: Map<ContentHash, u64>,
    /// The nodes of each account, by rank.
    pub owned_nodes: Map<(AccountId, u64), ContentHash>,
    pub owned_nodes_count: Map<AccountId, u64>,
    pub owned_nodes_index: Map<ContentHash, u64>,
}

impl NodeState {
    pub open spec fn owned_count(self, who: AccountId) -> u64 {
        if self.owned_nodes_count.contains_key(who) { self.owned_nodes_count[who] } else { 0 }
    }

    pub open spec fn owned_index(self, node: ContentHash) -> u64 {
        if self.owned_nodes_index.contains_key(node) { self.owned_nodes_index[node] } else { 0 }
    }

    pub open spec fn owned_node_at(self, who: AccountId, index: u64) -> ContentHash {
        if self.owned_nodes.contains_key((who, index)) { self.owned_nodes[(who, index)] } else { 0 }
    }

    /// The nodes that `who` owns.
    pub open spec fn owned_by(self, who: AccountId) -> Set<ContentHash> {
        self.node_owner.dom().filter(|n: ContentHash| self.node_owner[n] == who)
    }

    /// The count of each account's nodes is the number of nodes it owns,
    /// and the count of all nodes is the number of nodes.
    pub open spec fn inv(self) -> bool {
        &&& self.node_owner.dom().finite()
        &&& self.all_nodes_count == self.node_owner.dom().len()
        &&& forall|a: AccountId| #[trigger] self.owned_count(a) == self.owned_by(a).len()
    }

    /// The outcome of `create`.
    pub open spec fn create_outcome(
        before: NodeState,
        after: NodeState,
        who: AccountId,
        content_hash: ContentHash,
        r: Result<NodeEvent, NodeError>,
    ) -> bool {
        let new_owned = (before.owned_count(who) + 1) as u64;
        let new_all = (before.all_nodes_count + 1) as u64;
        if before.node_owner.contains_key(content_hash) {
            r == Err::<NodeEvent, NodeError>(NodeError::NodeAlreadyExists) && after == before
        } else if before.owned_count(who) == u64::MAX {
            r == Err::<NodeEvent, NodeError>(NodeError::ExceedMaxNodeCountPerAccount) && after
                == before
        } else if before.all_nodes_count == u64::MAX {
            r == Err::<NodeEvent, NodeError>(NodeError::ExceedTotalMaxNodeCount) && after == before
        } else {
            &&& r == Ok::<NodeEvent, NodeError>(NodeEvent::Created(who, content_hash))
            &&& after == NodeState {
                nodes: before.nodes.insert(content_hash, Node { id: content_hash }),
                node_owner: before.node_owner.insert(content_hash, who),
                all_nodes: before.all_nodes.insert(new_all, content_hash),
                all_nodes_count: new_all,
                all_nodes_index: before.all_nodes_index.insert(content_hash, new_all),
                owned_nodes: before.owned_nodes.insert((who, new_owned), content_hash),
                owned_nodes_count: before.owned_nodes_count.insert(who, new_owned),
                owned_nodes_index: before.owned_nodes_index.insert(content_hash, new_owned),
            }
        }
    }

    /// The outcome of `transfer`. The node's rank among the sender's nodes is
    /// filled with the sender's node of rank one below its count, that rank
    /// is cleared, and the node takes the receiver's old count as its rank.
    pub open spec fn transfer_outcome(
        before: NodeState,
        after: NodeState,
        who: AccountId,
        to: AccountId,
        content_hash: ContentHash,
        r: Result<NodeEvent, NodeError>,
    ) -> bool {
        let count_from = before.owned_count(who);
        let count_to = before.owned_count(to);
        let new_from = (count_from - 1) as u64;
        let new_to = (count_to + 1) as u64;
        let index = before.owned_index(content_hash);
        let last = before.owned_node_at(who, new_from);
        let moved_nodes = if index != new_from {
            before.owned_nodes.insert((who, index), last)
        } else {
            before.owned_nodes
        };
        let moved_index = if index != new_from {
            before.owned_nodes_index.insert(last, index)
        } else {
            before.owned_nodes_index
        };
        if !before.node_owner.contains_key(content_hash) {
            r == Err::<NodeEvent, NodeError>(NodeError::NoNodeOwner) && after == before
        } else if before.node_owner[content_hash] != who {
            r == Err::<NodeEvent, NodeError>(NodeError::SenderDoesNotOwnNode) && after == before
        } else if count_to == u64::MAX {
            r == Err::<NodeEvent, NodeError>(NodeError::ReceiverOverflow) && after == before
        } else if count_from == 0 {
            r == Err::<NodeEvent, NodeError>(NodeError::SenderUnderflow) && after == before
        } else {
            &&& r == Ok::<NodeEvent, NodeError>(NodeEvent::Transferred(who, to, content_hash))
            &&& after == NodeState {
                node_owner: before.node_owner.insert(content_hash, to),
                owned_nodes_index: moved_index.insert(content_hash, count_to),
                owned_nodes: moved_nodes.remove((who, new_from)).insert(
                    (to, count_to),
                    content_hash,
                ),
                owned_nodes_count: before.owned_nodes_count.insert(who, new_from).insert(
                    to,
                    new_to,
                ),
                ..before
            }
        }
    }
}

/// The storage of the node module.
pub struct Module {
    nodes: StorageMap<ContentHash, Node>,
    node_owner: StorageMap<ContentHash, AccountId>,
    all_nodes: StorageMap<u64, ContentHash>,
    all_nodes_count: u64,
    all_nodes_index: StorageMap<ContentHash, u64>,
    owned_nodes: StorageMap<(AccountId, u64), ContentHash>,
    owned_nodes_count: StorageMap<AccountId, u64>,
    owned_nodes_index: StorageMap<ContentHash, u64>,
}

impl View for Module {
    type V = NodeState;

    closed spec fn view(&self) -> NodeState {
        NodeState {
            nodes: self.nodes@,
            node_owner: self.node_owner@,
            all_nodes: self.all_nodes@,
            all_nodes_count: self.all_nodes_count,
            all_nodes_index: self.all_nodes_index@,
            owned_nodes: self.owned_nodes@,
            owned_nodes_count: self.owned_nodes_count@,
            owned_nodes_index: self.owned_nodes_index@,
        }
    }
}

impl Module {
    /// A module with no node.
    pub fn new() -> (m: Self)
        ensures
            m@ == (NodeState {
                nodes: Map::empty(),
                node_owner: Map::empty(),
                all_nodes: Map::empty(),
                all_nodes_count: 0,
                all_nodes_index: Map::empty(),
                owned_nodes: Map::empty(),
                owned_nodes_count: Map::empty(),
                owned_nodes_index: Map::empty(),
            }),
            m@.inv(),
    {
        let m = Module {
            nodes: StorageMap::new(),
            node_owner: StorageMap::new(),
            all_nodes: StorageMap::new(),
            all_nodes_count: 0,
            all_nodes_index: StorageMap::new(),
            owned_nodes: StorageMap::new(),
            owned_nodes_count: StorageMap::new(),
            owned_nodes_index: StorageMap::new(),
        };
        assert forall|a: AccountId| #[trigger] m@.owned_count(a) == m@.owned_by(a).len() by {
            assert(m@.owned_by(a) =~= Set::<ContentHash>::empty());
        }
        m
    }

    pub fn node(&self, content_hash: ContentHash) -> (r: Option<Node>)
        ensures
            r == (if self@.nodes.contains_key(content_hash) {
                Some(self@.nodes[content_hash])
            } else {
                None::<Node>
            }),
    {
        self.nodes.get(content_hash)
    }

    /// The owner of node `content_hash`, where it exists.
    pub fn owner_of(&self, content_hash: ContentHash) -> (r: Option<AccountId>)
        ensures
            r == (if self@.node_owner.contains_key(content_hash) {
                Some(self@.node_owner[content_hash])
            } else {
                None::<AccountId>
            }),
    {
        self.node_owner.get(content_hash)
    }

    pub fn node_by_index(&self, index: u64) -> (r: ContentHash)
        ensures
            r == (if self@.all_nodes.contains_key(index) { self@.all_nodes[index] } else { 0 }),
    {
        self.all_nodes.get_or_default(index, 0)
    }

    pub fn all_nodes_count(&self) -> (r: u64)
        ensures
            r == self@.all_nodes_count,
    {
        self.all_nodes_count
    }

    pub fn node_of_owner_by_index(&self, who: AccountId, index: u64) -> (r: ContentHash)
        ensures
            r == self@.owned_node_at(who, index),
    {
        self.owned_nodes.get_or_default((who, index), 0)
    }

    pub fn owned_nodes_count(&self, who: AccountId) -> (r: u64)
        ensures
            r == self@.owned_count(who),
    {
        self.owned_nodes_count.get_or_default(who, 0)
    }

    /// Creates node `content_hash`, owned by `who`.
    pub fn create(&mut self, who: AccountId, content_hash: ContentHash) -> (r: Result<
        NodeEvent,
        NodeError,
    >)
        ensures
            NodeState::create_outcome(old(self)@, final(self)@, who, content_hash, r),
    {
        if self.node_owner.contains_key(content_hash) {
            return Err(NodeError::NodeAlreadyExists);
        }
        let owned_nodes_count = self.owned_nodes_count(who);
        let new_owned_nodes_count = match owned_nodes_count.checked_add(1) {
            Some(c) => c,
            None => return Err(NodeError::ExceedMaxNodeCountPerAccount),
        };
        let all_nodes_count = self.all_nodes_count;
        let new_all_nodes_count = match all_nodes_count.checked_add(1) {
            Some(c) => c,
            None => return Err(NodeError::ExceedTotalMaxNodeCount),
        };
        self.nodes.insert(content_hash, Node { id: content_hash });
        self.node_owner.insert(content_hash, who);
        self.all_nodes.insert(new_all_nodes_count, content_hash);
        self.all_nodes_count = new_all_nodes_count;
        self.all_nodes_index.insert(content_hash, new_all_nodes_count);
        self.owned_nodes.insert((who, new_owned_nodes_count), content_hash);
        self.owned_nodes_count.insert(who, new_owned_nodes_count);
        self.owned_nodes_index.insert(content_hash, new_owned_nodes_count);
        Ok(NodeEvent::Created(who, content_hash))
    }

    /// Transfers node `content_hash` from its owner `who` to `to`.
    pub fn transfer(&mut self, who: AccountId, to: AccountId, content_hash: ContentHash) -> (r:
        Result<NodeEvent, NodeError>)
        ensures
            NodeState::transfer_outcome(old(self)@, final(self)@, who, to, content_hash, r),
    {
        let owner = match self.owner_of(content_hash) {
            Some(o) => o,
            None => return Err(NodeError::NoNodeOwner),
        };
        if owner != who {
            return Err(NodeError::SenderDoesNotOwnNode);
        }
        let owned_nodes_count_from = self.owned_nodes_count(who);
        let owned_nodes_count_to = self.owned_nodes_count(to);
        let new_owned_nodes_count_to = match owned_nodes_count_to.checked_add(1) {
            Some(c) => c,
            None => return Err(NodeError::ReceiverOverflow),
        };
        let new_owned_nodes_count_from = match owned_nodes_count_from.checked_sub(1) {
            Some(c) => c,
            None => return Err(NodeError::SenderUnderflow),
        };
        let owned_node_index = self.owned_nodes_index.get_or_default(content_hash, 0);
        if owned_node_index != new_owned_nodes_count_from {
            let last_owned_node_id = self.node_of_owner_by_index(who, new_owned_nodes_count_from);
            self.owned_nodes.insert((who, owned_node_index), last_owned_node_id);
            self.owned_nodes_index.insert(last_owned_node_id, owned_node_index);
        }
        self.node_owner.insert(content_hash, to);
        self.owned_nodes_index.insert(content_hash, owned_nodes_count_to);
        self.owned_nodes.remove((who, new_owned_nodes_count_from));
        self.owned_nodes.insert((to, owned_nodes_count_to), content_hash);
        self.owned_nodes_count.insert(who, new_owned_nodes_count_from);
        self.owned_nodes_count.insert(to, new_owned_nodes_count_to);
        Ok(NodeEvent::Transferred(who, to, content_hash))
    }
}

/// Creating a node keeps the counts: the creator's count and the count of
/// all nodes go up by one, with the new node among the creator's nodes.
pub proof fn law_create_keeps_inv(
    s0: NodeState,
    s1: NodeState,
    who: AccountId,
    content_hash: ContentHash,
    r: Result<NodeEvent, NodeError>,
)
    requires
        s0.inv(),
        NodeState::create_outcome(s0, s1, who, content_hash, r),
    ensures
        s1.inv(),
{
    if r is Ok {
        assert(s1.node_owner.dom() =~= s0.node_owner.dom().insert(content_hash));
        assert forall|a: AccountId| #[trigger] s1.owned_count(a) == s1.owned_by(a).len() by {
            if a == who {
                assert(s1.owned_by(a) =~= s0.owned_by(a).insert(content_hash));
            } else {
                assert(s1.owned_by(a) =~= s0.owned_by(a));
            }
            assert(s0.owned_count(a) == s0.owned_by(a).len());
        }
    }
}

/// Transferring a node to another account keeps the counts: the node leaves
/// the sender's nodes and joins the receiver's, whose counts follow. (A
/// transfer to the sender itself raises its count without changing what it
/// owns, so the law is stated for distinct accounts.)
pub proof fn law_transfer_keeps_inv(
    s0: NodeState,
    s1: NodeState,
    who: AccountId,
    to: AccountId,
    content_hash: ContentHash,
    r: Result<NodeEvent, NodeError>,
)
    requires
        s0.inv(),
        who != to,
        NodeState::transfer_outcome(s0, s1, who, to, content_hash, r),
    ensures
        s1.inv(),
{
    if r is Ok {
        assert(s1.node_owner.dom() =~= s0.node_owner.dom());
        assert forall|a: AccountId| #[trigger] s1.owned_count(a) == s1.owned_by(a).len() by {
            if a == who {
                assert(s1.owned_by(a) =~= s0.owned_by(a).remove(content_hash));
            } else if a == to {
                assert(s1.owned_by(a) =~= s0.owned_by(a).insert(content_hash));
            } else {
                assert(s1.owned_by(a) =~= s0.owned_by(a));
            }
            assert(s0.owned_count(a) == s0.owned_by(a).len());
        }
    }
}

/// Under the counts invariant, the owner of a node owns at least one node,
/// so a transfer by the owner is never refused for an underflow of its count.
pub proof fn law_owner_transfer_never_underflows(
    s0: NodeState,
    s1: NodeState,
    who: AccountId,
    to: AccountId,
    content_hash: ContentHash,
    r: Result<NodeEvent, NodeError>,
)
    requires
        s0.inv(),
        NodeState::transfer_outcome(s0, s1, who, to, content_hash, r),
    ensures
        r != Err::<NodeEvent, NodeError>(NodeError::SenderUnderflow),
{
    if s0.node_owner.contains_key(content_hash) && s0.node_owner[content_hash] == who {
        assert(s0.owned_by(who).contains(content_hash));
        assert(s0.owned_count(who) == s0.owned_by(who).len());
    }
}

/// A transfer hands the node to the receiver, and the former owner can no
/// longer transfer it.
pub proof fn law_transfer_moves_ownership(
    s0: NodeState,
    s1: NodeState,
    s2: NodeState,
    who: AccountId,
    to: AccountId,
    other: AccountId,
    content_hash: ContentHash,
    r1: Result<NodeEvent, NodeError>,
    r2: Result<NodeEvent, NodeError>,
)
    requires
        NodeState::transfer_outcome(s0, s1, who, to, content_hash, r1),
        r1 is Ok,
        who != to,
        NodeState::transfer_outcome(s1, s2, who, other, content_hash, r2),
    ensures
        s1.node_owner[content_hash] == to,
        r2 == Err::<NodeEvent, NodeError>(NodeError::SenderDoesNotOwnNode),
{
}

/// A node that exists cannot be created again.
pub proof fn law_create_once(
    s0: NodeState,
    s1: NodeState,
    s2: NodeState,
    who1: AccountId,
    who2: AccountId,
    content_hash: ContentHash,
    r1: Result<NodeEvent, NodeError>,
    r2: Result<NodeEvent, NodeError>,
)
    requires
        NodeState::create_outcome(s0, s1, who1, content_hash, r1),
        r1 is Ok,
        NodeState::create_outcome(s1, s2, who2, content_hash, r2),
    ensures
        s1.node_owner[content_hash] == who1,
        r2 == Err::<NodeEvent, NodeError>(NodeError::NodeAlreadyExists),
        s2 == s1,
{
}

/// Creating a node files it last in the list of all nodes, at the new count
/// of all nodes, and last among its creator's nodes; every earlier entry of
/// the list of all nodes stays as it was.
pub proof fn law_create_lists_node_last(
    s0: NodeState,
    s1: NodeState,
    who: AccountId,
    content_hash: ContentHash,
    r: Result<NodeEvent, NodeError>,
)
    requires
        NodeState::create_outcome(s0, s1, who, content_hash, r),
        r is Ok,
    ensures
        s1.all_nodes_count == s0.all_nodes_count + 1,
        s1.all_nodes.contains_key(s1.all_nodes_count),
        s1.all_nodes[s1.all_nodes_count] == content_hash,
        s1.all_nodes_index[content_hash] == s1.all_nodes_count,
        forall|k: u64|
            k != s1.all_nodes_count ==> (#[trigger] s1.all_nodes.contains_key(k)
                == s0.all_nodes.contains_key(k)) && (s0.all_nodes.contains_key(k)
                ==> s1.all_nodes[k] == s0.all_nodes[k]),
        s1.owned_count(who) == s0.owned_count(who) + 1,
        s1.owned_node_at(who, s1.owned_count(who)) == content_hash,
        s1.owned_index(content_hash) == s1.owned_count(who),
{
}

/// Whether the ranks of `who` list exactly the nodes it owns: each node it
/// owns sits at its recorded rank among its nodes, and each rank that lists
/// a node lists one that it owns and whose recorded rank it is.
pub open spec fn ranks_match_owner(s: NodeState, who: AccountId) -> bool {
    &&& forall|n: ContentHash|
        #[trigger] s.node_owner.contains_key(n) && s.node_owner[n] == who ==> {
            &&& s.owned_nodes.contains_key((who, s.owned_index(n)))
            &&& s.owned_nodes[(who, s.owned_index(n))] == n
        }
    &&& forall|k: u64|
        #[trigger] s.owned_nodes.contains_key((who, k)) ==> {
            let n = s.owned_nodes[(who, k)];
            &&& s.node_owner.contains_key(n)
            &&& s.node_owner[n] == who
            &&& s.owned_index(n) == k
        }
}

/// A transfer to another account keeps the sender's ranks listing exactly
/// the nodes it still owns: the freed rank is filled with the node of the
/// rank one below the sender's count, where the transferred node did not sit
/// there itself. (Where that rank lists no node, the freed rank is filled
/// with the empty content hash, which the sender does not own; the law is
/// stated without those inputs.)
pub proof fn law_transfer_keeps_sender_ranks(
    s0: NodeState,
    s1: NodeState,
    who: AccountId,
    to: AccountId,
    content_hash: ContentHash,
    r: Result<NodeEvent, NodeError>,
)
    requires
        ranks_match_owner(s0, who),
        who != to,
        NodeState::transfer_outcome(s0, s1, who, to, content_hash, r),
        r is Ok,
        s0.owned_index(content_hash) == s0.owned_count(who) - 1 || s0.owned_nodes.contains_key(
            (who, (s0.owned_count(who) - 1) as u64),
        ),
    ensures
        ranks_match_owner(s1, who),
        s1.node_owner[content_hash] == to,
{
    let new_from = (s0.owned_count(who) - 1) as u64;
    let index = s0.owned_index(content_hash);
    let last = s0.owned_node_at(who, new_from);
    assert(s0.node_owner.contains_key(content_hash) && s0.node_owner[content_hash] == who);
    assert(s0.owned_nodes[(who, index)] == content_hash);
    if index != new_from {
        assert(s0.owned_nodes.contains_key((who, new_from)));
        assert(s0.owned_index(last) == new_from);
        assert(last != content_hash);
    }
    assert forall|n: ContentHash|
        #[trigger] s1.node_owner.contains_key(n) && s1.node_owner[n] == who implies {
            &&& s1.owned_nodes.contains_key((who, s1.owned_index(n)))
            &&& s1.owned_nodes[(who, s1.owned_index(n))] == n
        } by {
        assert(n != content_hash);
        assert(s0.node_owner.contains_key(n) && s0.node_owner[n] == who);
        if index != new_from && n == last {
        } else {
            assert(s0.owned_nodes[(who, s0.owned_index(n))] == n);
            assert(s0.owned_index(n) != index);
            assert(s0.owned_index(n) != new_from);
        }
    }
    assert forall|k: u64| #[trigger] s1.owned_nodes.contains_key((who, k)) implies {
        let n = s1.owned_nodes[(who, k)];
        &&& s1.node_owner.contains_key(n)
        &&& s1.node_owner[n] == who
        &&& s1.owned_index(n) == k
    } by {
        assert(k != new_from);
        if index != new_from && k == index {
        } else {
            assert(s0.owned_nodes.contains_key((who, k)));
            let n = s0.owned_nodes[(who, k)];
            assert(s0.owned_index(n) == k);
            assert(n != content_hash);
            if index != new_from {
                assert(n != last);
            }
        }
    }
}

/// A transfer to another account lists the node among the receiver's nodes
/// at the node's recorded rank, which is the receiver's count before the
/// transfer, and moves one from the sender's count to the receiver's.
pub proof fn law_transfer_lists_node_with_receiver(
    s0: NodeState,
    s1: NodeState,
    who: AccountId,
    to: AccountId,
    content_hash: ContentHash,
    r: Result<NodeEvent, NodeError>,
)
    requires
        who != to,
        NodeState::transfer_outcome(s0, s1, who, to, content_hash, r),
        r is Ok,
    ensures
        s1.owned_index(content_hash) == s0.owned_count(to),
        s1.owned_nodes.contains_key((to, s1.owned_index(content_hash))),
        s1.owned_nodes[(to, s1.owned_index(content_hash))] == content_hash,
        s1.owned_count(to) == s0.owned_count(to) + 1,
        s1.owned_count(who) == s0.owned_count(who) - 1,
        s1.node_owner[content_hash] == to,
        s1.all_nodes == s0.all_nodes,
        s1.all_nodes_count == s0.all_nodes_count,
{
}

} // verus!
