use vstd::prelude::*;

verus! {

/// Identifier of a process inside one consensus system.
pub type NodeId = u16;

/// Immutable descriptor for one peer process.
///
/// `id` identifies the process within a system; `rank` totally orders
/// candidates for leadership (higher wins). Two nodes stand for the same
/// process exactly when their `id` fields match.
pub struct Node {
    pub owner: String,
    pub name: String,
    pub host: String,
    pub port: u16,
    pub id: NodeId,
    pub rank: u16,
}

impl Node {
    pub fn new(owner: String, name: String, host: String, port: u16, id: u16, rank: u16) -> (node: Node)
        ensures
            node == (Node { owner, name, host, port, id, rank }),
    {
        Node { owner, name, host, port, id, rank }
    }
}

impl Clone for Node {
    fn clone(&self) -> (other: Node)
        ensures
            other == *self,
    {
        Node {
            owner: self.owner.clone(),
            name: self.name.clone(),
            host: self.host.clone(),
            port: self.port,
            id: self.id,
            rank: self.rank,
        }
    }
}

impl PartialEq for Node {
    fn eq(&self, other: &Node) -> bool {
        self.id == other.id
    }
}

impl vstd::std_specs::cmp::PartialEqSpecImpl for Node {
    open spec fn obeys_eq_spec() -> bool {
        true
    }

    open spec fn eq_spec(&self, other: &Node) -> bool {
        self.id == other.id
    }
}

/// Whether some node of `s` carries the id `id`.
pub open spec fn seq_contains_id(s: Seq<Node>, id: NodeId) -> bool {
    exists|i: int| 0 <= i < s.len() && s[i].id == id
}

/// Index of the first node of `s` carrying `id`.
pub open spec fn first_index_of_id(s: Seq<Node>, id: NodeId) -> int
    decreases s.len(),
{
    if s.len() == 0 {
        0
    } else if s[0].id == id {
        0
    } else {
        1 + first_index_of_id(s.drop_first(), id)
    }
}

pub proof fn lemma_first_index_of_id(s: Seq<Node>, id: NodeId)
    requires
        seq_contains_id(s, id),
    ensures
        0 <= first_index_of_id(s, id) < s.len(),
        s[first_index_of_id(s, id)].id == id,
        forall|j: int| 0 <= j < first_index_of_id(s, id) ==> s[j].id != id,
    decreases s.len(),
{
    if s.len() > 0 && s[0].id != id {
        assert(seq_contains_id(s.drop_first(), id)) by {
            let i = choose|i: int| 0 <= i < s.len() && s[i].id == id;
            assert(s.drop_first()[i - 1].id == id);
        }
        lemma_first_index_of_id(s.drop_first(), id);
        assert(forall|j: int| 1 <= j < s.len() ==> s[j] == s.drop_first()[j - 1]);
    }
}

/// Whether the nodes of `s` carry pairwise distinct ids.
pub open spec fn unique_ids(s: Seq<Node>) -> bool {
    forall|i: int, j: int| 0 <= i < j < s.len() ==> s[i].id != s[j].id
}

pub proof fn lemma_contains_id_push(s: Seq<Node>, n: Node, id: NodeId)
    ensures
        seq_contains_id(s.push(n), id) == (seq_contains_id(s, id) || n.id == id),
{
    if seq_contains_id(s, id) {
        let i = choose|i: int| 0 <= i < s.len() && s[i].id == id;
        assert(s.push(n)[i].id == id);
    }
    if n.id == id {
        assert(s.push(n)[s.len() as int].id == id);
    }
    if seq_contains_id(s.push(n), id) {
        let i = choose|i: int| 0 <= i < s.push(n).len() && s.push(n)[i].id == id;
        if i < s.len() {
            assert(s[i].id == id);
        }
    }
}

pub proof fn lemma_contains_id_drop_last(s: Seq<Node>, id: NodeId)
    requires
        s.len() > 0,
    ensures
        seq_contains_id(s, id) == (seq_contains_id(s.drop_last(), id) || s.last().id == id),
{
    if seq_contains_id(s.drop_last(), id) {
        let i = choose|i: int| 0 <= i < s.drop_last().len() && s.drop_last()[i].id == id;
        assert(s[i].id == id);
    }
    if s.last().id == id {
        assert(s[s.len() - 1].id == id);
    }
    if seq_contains_id(s, id) {
        let i = choose|i: int| 0 <= i < s.len() && s[i].id == id;
        if i < s.len() - 1 {
            assert(s.drop_last()[i].id == id);
        }
    }
}

/// Removing the one node that carries `idr` from a duplicate-free list takes
/// exactly that id out and keeps the list duplicate-free.
pub proof fn lemma_remove_id_unique(s: Seq<Node>, idr: NodeId)
    requires
        unique_ids(s),
        seq_contains_id(s, idr),
    ensures
        unique_ids(s.remove(first_index_of_id(s, idr))),
        forall|id: NodeId|
            seq_contains_id(s.remove(first_index_of_id(s, idr)), id) == (#[trigger] seq_contains_id(
                s,
                id,
            ) && id != idr),
{
    lemma_first_index_of_id(s, idr);
    let k = first_index_of_id(s, idr);
    let s2 = s.remove(k);
    assert(forall|i: int| 0 <= i < k ==> s2[i] == s[i]);
    assert(forall|i: int| k <= i < s2.len() ==> s2[i] == s[i + 1]);
    assert(unique_ids(s2));
    assert forall|id: NodeId|
        seq_contains_id(s2, id) == (#[trigger] seq_contains_id(s, id) && id != idr) by {
        if seq_contains_id(s2, id) {
            let i = choose|i: int| 0 <= i < s2.len() && s2[i].id == id;
            if i < k {
                assert(s[i].id == id);
                assert(id != idr);
            } else {
                assert(s[i + 1].id == id);
                assert(id != idr);
            }
        }
        if seq_contains_id(s, id) && id != idr {
            let i = choose|i: int| 0 <= i < s.len() && s[i].id == id;
            if i < k {
                assert(s2[i].id == id);
            } else {
                assert(i != k);
                assert(s2[i - 1].id == id);
            }
        }
    }
}

/// Whether `v` holds a node with id `id`.
pub fn contains_id(v: &Vec<Node>, id: NodeId) -> (r: bool)
    ensures
        r == seq_contains_id(v@, id),
{
    let mut i: usize = 0;
    while i < v.len()
        invariant
            i <= v.len(),
            forall|j: int| 0 <= j < i ==> v@[j].id != id,
        decreases v.len() - i,
    {
        if v[i].id == id {
            return true;
        }
        i = i + 1;
    }
    false
}

/// Removes the first node with id `id`, if one is present.
pub fn remove_id(v: &mut Vec<Node>, id: NodeId)
    ensures
        seq_contains_id(old(v)@, id) ==> final(v)@ == old(v)@.remove(first_index_of_id(old(v)@, id)),
        !seq_contains_id(old(v)@, id) ==> final(v)@ == old(v)@,
{
    let mut i: usize = 0;
    while i < v.len()
        invariant
            i <= v.len(),
            v@ == old(v)@,
            forall|j: int| 0 <= j < i ==> v@[j].id != id,
        decreases v.len() - i,
    {
        if v[i].id == id {
            proof {
                assert(seq_contains_id(v@, id));
                lemma_first_index_of_id(v@, id);
                assert(first_index_of_id(v@, id) == i as int);
            }
            v.remove(i);
            return ;
        }
        i = i + 1;
    }
    assert(!seq_contains_id(v@, id));
}

/// Deep copy of a peer list.
pub fn clone_nodes(v: &Vec<Node>) -> (r: Vec<Node>)
    ensures
        r@ == v@,
{
    let mut r: Vec<Node> = Vec::new();
    let mut i: usize = 0;
    while i < v.len()
        invariant
            i <= v.len(),
            r@ == v@.take(i as int),
        decreases v.len() - i,
    {
        r.push(v[i].clone());
        assert(r@ =~= v@.take(i as int + 1));
        i = i + 1;
    }
    assert(r@ =~= v@);
    r
}

/// `a + b`, stopping at the largest representable value.
pub open spec fn spec_sat_add(a: u64, b: u64) -> u64 {
    if a + b <= u64::MAX {
        (a + b) as u64
    } else {
        u64::MAX
    }
}

/// `a + b`, stopping at the largest representable value.
pub fn sat_add(a: u64, b: u64) -> (r: u64)
    ensures
        r == spec_sat_add(a, b),
{
    if a <= u64::MAX - b {
        a + b
    } else {
        u64::MAX
    }
}

/// Size of a strict majority among `n` participants.
pub open spec fn spec_quorum(n: int) -> int {
    n / 2 + 1
}

/// Size of a strict majority among `n` participants.
pub fn quorum(n: usize) -> (r: usize)
    ensures
        r == spec_quorum(n as int),
{
    n / 2 + 1
}

/// Per-instance configuration snapshot: this process, the external hub, and
/// the ordered participant set (which contains this process).
pub struct NodeInfo {
    pub current_node: Node,
    pub hub: Node,
    pub nodes: Vec<Node>,
}

impl NodeInfo {
    /// A usable configuration names at least one participant.
    pub open spec fn wf(&self) -> bool {
        self.nodes@.len() >= 1
    }
}

impl Clone for NodeInfo {
    fn clone(&self) -> (other: NodeInfo)
        ensures
            other.current_node == self.current_node,
            other.hub == self.hub,
            other.nodes@ == self.nodes@,
    {
        NodeInfo {
            current_node: self.current_node.clone(),
            hub: self.hub.clone(),
            nodes: clone_nodes(&self.nodes),
        }
    }
}

} // verus!
