use vstd::prelude::*;

use crate::event::InternalMessage;
use crate::node::Node;
use crate::node::NodeInfo;
use crate::node::contains_id;
use crate::node::seq_contains_id;

verus! {

/// Whether `current` already names the node `n` (nodes are the same process
/// exactly when their ids match).
pub open spec fn same_leader(current: Option<Node>, n: Node) -> bool {
    match current {
        Some(l) => l.id == n.id,
        None => false,
    }
}

/// The highest-ranked node of `nodes` that is not suspected, if any node
/// qualifies. Among equally ranked candidates the last one wins.
pub open spec fn leader_candidate(nodes: Seq<Node>, suspected: Seq<Node>) -> Option<Node>
    decreases nodes.len(),
{
    if nodes.len() == 0 {
        None
    } else {
        let rest = leader_candidate(nodes.drop_last(), suspected);
        let n = nodes.last();
        if seq_contains_id(suspected, n.id) {
            rest
        } else {
            match rest {
                None => Some(n),
                Some(m) => if n.rank >= m.rank {
                    Some(n)
                } else {
                    Some(m)
                },
            }
        }
    }
}

/// The candidate is itself a non-suspected participant, and no non-suspected
/// participant outranks it.
pub proof fn lemma_leader_candidate_is_max(nodes: Seq<Node>, suspected: Seq<Node>)
    ensures
        match leader_candidate(nodes, suspected) {
            Some(n) => {
                &&& nodes.contains(n)
                &&& !seq_contains_id(suspected, n.id)
                &&& forall|i: int|
                    0 <= i < nodes.len() && !seq_contains_id(suspected, nodes[i].id)
                        ==> nodes[i].rank <= n.rank
            },
            None => forall|i: int| 0 <= i < nodes.len() ==> seq_contains_id(suspected, nodes[i].id),
        },
    decreases nodes.len(),
{
    if nodes.len() > 0 {
        lemma_leader_candidate_is_max(nodes.drop_last(), suspected);
        assert(forall|i: int| 0 <= i < nodes.len() - 1 ==> nodes[i] == nodes.drop_last()[i]);
        match leader_candidate(nodes.drop_last(), suspected) {
            Some(m) => {
                assert(nodes.contains(m)) by {
                    let j = choose|j: int|
                        0 <= j < nodes.drop_last().len() && nodes.drop_last()[j] == m;
                    assert(nodes[j] == m);
                }
            },
            None => {},
        }
    }
}

/// What recomputing the leader does: if any participant is not suspected,
/// the highest-ranked one is the leader, and exactly each change of that
/// choice is announced by one trust event.
pub open spec fn elect_post(
    pre_leader: Option<Node>,
    post_leader: Option<Node>,
    nodes: Seq<Node>,
    suspected: Seq<Node>,
    ems: Seq<InternalMessage>,
) -> bool {
    match leader_candidate(nodes, suspected) {
        None => post_leader == pre_leader && ems == Seq::<InternalMessage>::empty(),
        Some(n) => if same_leader(pre_leader, n) {
            post_leader == pre_leader && ems == Seq::<InternalMessage>::empty()
        } else {
            post_leader == Some(n) && ems == seq![InternalMessage::EldTrust(n)]
        },
    }
}

/// Everything handling a suspicion does: the suspect is remembered and the
/// leader choice is revisited.
pub open spec fn suspect_post(
    pre: EventualLeaderDetector,
    post: EventualLeaderDetector,
    nodes: Seq<Node>,
    suspect: Node,
    ems: Seq<InternalMessage>,
) -> bool {
    &&& post.suspected@ == pre.suspected@.push(suspect)
    &&& elect_post(pre.leader, post.leader, nodes, post.suspected@, ems)
}

/// Everything handling a restoration does: the first matching suspicion, if
/// any, is forgotten and the leader choice is revisited.
pub open spec fn restore_post(
    pre: EventualLeaderDetector,
    post: EventualLeaderDetector,
    nodes: Seq<Node>,
    node: Node,
    ems: Seq<InternalMessage>,
) -> bool {
    &&& post.suspected@ == if seq_contains_id(pre.suspected@, node.id) {
        pre.suspected@.remove(crate::node::first_index_of_id(pre.suspected@, node.id))
    } else {
        pre.suspected@
    }
    &&& elect_post(pre.leader, post.leader, nodes, post.suspected@, ems)
}

/// Elects the highest-ranked participant that the failure detector does not
/// suspect, and announces every change of that choice.
pub struct EventualLeaderDetector {
    pub suspected: Vec<Node>,
    pub leader: Option<Node>,
}

impl EventualLeaderDetector {
    pub fn new() -> (r: EventualLeaderDetector)
        ensures
            r.suspected@ == Seq::<Node>::empty(),
            r.leader is None,
    {
        EventualLeaderDetector { suspected: Vec::new(), leader: None }
    }

    /// Recomputes the leader among the non-suspected participants; if the
    /// choice changed, records it and emits one trust event naming it.
    pub fn check_leader(&mut self, info: &NodeInfo) -> (r: Vec<InternalMessage>)
        ensures
            final(self).suspected@ == old(self).suspected@,
            elect_post(old(self).leader, final(self).leader, info.nodes@, old(self).suspected@, r@),
    {
        let mut best: Option<Node> = None;
        let mut i: usize = 0;
        while i < info.nodes.len()
            invariant
                i <= info.nodes.len(),
                best == leader_candidate(info.nodes@.take(i as int), self.suspected@),
            decreases info.nodes.len() - i,
        {
            proof {
                assert(info.nodes@.take(i as int + 1).drop_last() =~= info.nodes@.take(i as int));
                assert(info.nodes@.take(i as int + 1).last() == info.nodes@[i as int]);
            }
            if !contains_id(&self.suspected, info.nodes[i].id) {
                best = match best {
                    None => Some(info.nodes[i].clone()),
                    Some(b) => if info.nodes[i].rank >= b.rank {
                        Some(info.nodes[i].clone())
                    } else {
                        Some(b)
                    },
                };
            }
            i = i + 1;
        }
        proof {
            assert(info.nodes@.take(info.nodes@.len() as int) =~= info.nodes@);
        }
        let mut r: Vec<InternalMessage> = Vec::new();
        match best {
            None => {},
            Some(n) => {
                let changed = match &self.leader {
                    Some(l) => l.id != n.id,
                    None => true,
                };
                if changed {
                    r.push(InternalMessage::EldTrust(n.clone()));
                    self.leader = Some(n);
                    assert(r@ =~= seq![
                        InternalMessage::EldTrust(
                            leader_candidate(info.nodes@, self.suspected@)->Some_0,
                        ),
                    ]);
                }
            },
        }
        r
    }

    /// A peer became suspected: remember it and revisit the leader choice.
    pub fn on_received_suspect(&mut self, info: &NodeInfo, suspect: &Node) -> (r: Vec<
        InternalMessage,
    >)
        ensures
            suspect_post(*old(self), *final(self), info.nodes@, *suspect, r@),
    {
        self.suspected.push(suspect.clone());
        self.check_leader(info)
    }

    /// A suspected peer answered again: forget the suspicion and revisit the
    /// leader choice.
    pub fn on_removed_suspect(&mut self, info: &NodeInfo, node: &Node) -> (r: Vec<InternalMessage>)
        ensures
            restore_post(*old(self), *final(self), info.nodes@, *node, r@),
    {
        crate::node::remove_id(&mut self.suspected, node.id);
        self.check_leader(info)
    }
}

} // verus!
