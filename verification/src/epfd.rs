use vstd::prelude::*;

use crate::event::InternalMessage;
use crate::event::Output;
use crate::message::AbstractionId;
use crate::message::Message;
use crate::message::Payload;
use crate::node::Node;
use crate::node::NodeInfo;
use crate::node::contains_id;
use crate::node::first_index_of_id;
use crate::node::remove_id;
use crate::node::sat_add;
use crate::node::seq_contains_id;
use crate::node::spec_sat_add;

verus! {

/// The base failure-detection period, in milliseconds.
pub const DELTA: u64 = 100;

/// Whether some node of `a` carries an id that also occurs in `b`.
pub open spec fn seqs_share_id(a: Seq<Node>, b: Seq<Node>) -> bool {
    exists|i: int| 0 <= i < a.len() && seq_contains_id(b, a[i].id)
}

/// The heartbeat probe a process sends to each peer every period.
pub open spec fn heartbeat_request_message(system_id: String) -> Message {
    Message { system_id, abstraction_id: AbstractionId::Epfd, payload: Payload::EpfdHeartbeatRequest }
}

/// The answer to a heartbeat probe.
pub open spec fn heartbeat_reply_message(system_id: String) -> Message {
    Message { system_id, abstraction_id: AbstractionId::Epfd, payload: Payload::EpfdHeartbeatReply }
}

/// One pass over the peers at a timer fire: any peer that neither answered
/// nor is suspected becomes suspected; any suspected peer that answered is
/// restored; every peer other than this process is probed again. Yields the
/// emitted events in peer order and the new suspected set.
pub open spec fn epfd_scan(
    nodes: Seq<Node>,
    current: Node,
    alive: Seq<Node>,
    suspected: Seq<Node>,
    system_id: String,
) -> (Seq<InternalMessage>, Seq<Node>)
    decreases nodes.len(),
{
    if nodes.len() == 0 {
        (Seq::<InternalMessage>::empty(), suspected)
    } else {
        let r = epfd_scan(nodes.drop_last(), current, alive, suspected, system_id);
        let ems = r.0;
        let sus = r.1;
        let n = nodes.last();
        if n.id == current.id {
            (ems, sus)
        } else {
            let send = InternalMessage::PlSend(current, n, heartbeat_request_message(system_id));
            let a = seq_contains_id(alive, n.id);
            let s = seq_contains_id(sus, n.id);
            if !a && !s {
                (ems + seq![InternalMessage::EpfdSuspect(n), send], sus.push(n))
            } else if a && s {
                (
                    ems + seq![InternalMessage::EpfdRestore(n), send],
                    sus.remove(first_index_of_id(sus, n.id)),
                )
            } else {
                (ems + seq![send], sus)
            }
        }
    }
}

/// Everything a timer fire does: the period grows on a proven-false
/// suspicion, the peers are scanned as [`epfd_scan`] says, the answered set
/// is cleared, and the timer is re-armed with the current period.
pub open spec fn timeout_post(
    pre: EvenutallyPerfectFailureDetector,
    post: EvenutallyPerfectFailureDetector,
    info: NodeInfo,
    ems: Seq<InternalMessage>,
    timer: Output,
) -> bool {
    let scan = epfd_scan(info.nodes@, info.current_node, pre.alive@, pre.suspected@, pre.system_id);
    &&& post.delay == if seqs_share_id(pre.alive@, pre.suspected@) {
        spec_sat_add(pre.delay, DELTA)
    } else {
        pre.delay
    }
    &&& ems == scan.0
    &&& post.suspected@ == scan.1
    &&& post.alive@ == Seq::<Node>::empty()
    &&& post.system_id == pre.system_id
    &&& timer == (Output::ArmTimer { system_id: pre.system_id, delay_ms: post.delay })
}

/// Everything answering a probe does: one heartbeat reply to the prober.
pub open spec fn reply_post(
    detector: EvenutallyPerfectFailureDetector,
    info: NodeInfo,
    to: Node,
    ems: Seq<InternalMessage>,
) -> bool {
    ems == seq![
        InternalMessage::PlSend(info.current_node, to, heartbeat_reply_message(detector.system_id)),
    ]
}

/// Everything a heartbeat answer does: the peer is counted alive for this
/// period and nothing else moves.
pub open spec fn got_reply_post(
    pre: EvenutallyPerfectFailureDetector,
    post: EvenutallyPerfectFailureDetector,
    from: Node,
) -> bool {
    &&& post.alive@ == pre.alive@.push(from)
    &&& post.suspected@ == pre.suspected@
    &&& post.delay == pre.delay
    &&& post.system_id == pre.system_id
}

/// A scan emits only suspicion changes and link sends: never a decision and
/// never an epoch start.
pub proof fn lemma_epfd_scan_kinds(
    nodes: Seq<Node>,
    current: Node,
    alive: Seq<Node>,
    suspected: Seq<Node>,
    system_id: String,
)
    ensures
        forall|i: int|
            0 <= i < epfd_scan(nodes, current, alive, suspected, system_id).0.len() ==> match #[trigger] epfd_scan(
                nodes,
                current,
                alive,
                suspected,
                system_id,
            ).0[i] {
                InternalMessage::EpfdSuspect(_) => true,
                InternalMessage::EpfdRestore(_) => true,
                InternalMessage::PlSend(_, _, _) => true,
                _ => false,
            },
    decreases nodes.len(),
{
    if nodes.len() > 0 {
        lemma_epfd_scan_kinds(nodes.drop_last(), current, alive, suspected, system_id);
    }
}

/// What one scan's suspicion set amounts to, when participant ids are
/// pairwise distinct: afterwards a participant other than this process is
/// suspected exactly when it did not answer this period, and every id outside
/// the participant set keeps its old standing. The set also stays free of
/// duplicate ids.
pub proof fn lemma_epfd_scan_suspected(
    nodes: Seq<Node>,
    current: Node,
    alive: Seq<Node>,
    suspected: Seq<Node>,
    system_id: String,
)
    requires
        crate::node::unique_ids(nodes),
        crate::node::unique_ids(suspected),
    ensures
        crate::node::unique_ids(epfd_scan(nodes, current, alive, suspected, system_id).1),
        forall|id: crate::node::NodeId|
            #[trigger] seq_contains_id(epfd_scan(nodes, current, alive, suspected, system_id).1, id)
                == if seq_contains_id(nodes, id) && id != current.id {
                !seq_contains_id(alive, id)
            } else {
                seq_contains_id(suspected, id)
            },
    decreases nodes.len(),
{
    if nodes.len() > 0 {
        lemma_epfd_scan_suspected(nodes.drop_last(), current, alive, suspected, system_id);
        let sus = epfd_scan(nodes.drop_last(), current, alive, suspected, system_id).1;
        let n = nodes.last();
        let sus2 = epfd_scan(nodes, current, alive, suspected, system_id).1;
        // the last participant's id occurs nowhere earlier in the list
        assert(!seq_contains_id(nodes.drop_last(), n.id)) by {
            if seq_contains_id(nodes.drop_last(), n.id) {
                let i = choose|i: int|
                    0 <= i < nodes.drop_last().len() && nodes.drop_last()[i].id == n.id;
                assert(nodes[i].id == nodes[nodes.len() - 1].id);
            }
        }
        assert forall|id: crate::node::NodeId| #[trigger]
            seq_contains_id(nodes, id) implies (seq_contains_id(nodes.drop_last(), id)
            || n.id == id) by {
            crate::node::lemma_contains_id_drop_last(nodes, id);
        }
        assert forall|id: crate::node::NodeId| #[trigger]
            seq_contains_id(nodes.drop_last(), id) || n.id == id implies seq_contains_id(
            nodes,
            id,
        ) by {
            crate::node::lemma_contains_id_drop_last(nodes, id);
        }
        if n.id == current.id {
            assert(sus2 == sus);
        } else {
            let a = seq_contains_id(alive, n.id);
            let sk = seq_contains_id(sus, n.id);
            if !a && !sk {
                assert(sus2 == sus.push(n));
                assert forall|id: crate::node::NodeId| #[trigger]
                    seq_contains_id(sus2, id) == (seq_contains_id(sus, id) || n.id == id) by {
                    crate::node::lemma_contains_id_push(sus, n, id);
                }
                assert(crate::node::unique_ids(sus2)) by {
                    assert(forall|i: int| 0 <= i < sus.len() ==> sus2[i] == sus[i]);
                    assert(sus2[sus.len() as int] == n);
                    assert(forall|i: int|
                        0 <= i < sus.len() ==> #[trigger] sus2[i].id != n.id) by {
                        assert forall|i: int| 0 <= i < sus.len() implies #[trigger] sus2[i].id
                            != n.id by {
                            if sus[i].id == n.id {
                                assert(seq_contains_id(sus, n.id));
                            }
                        }
                    }
                }
            } else if a && sk {
                crate::node::lemma_remove_id_unique(sus, n.id);
                assert(sus2 == sus.remove(crate::node::first_index_of_id(sus, n.id)));
            } else {
                assert(sus2 == sus);
            }
        }
    } else {
        assert forall|id: crate::node::NodeId| !#[trigger] seq_contains_id(nodes, id) by {
            if seq_contains_id(nodes, id) {
                let i = choose|i: int| 0 <= i < nodes.len() && nodes[i].id == id;
            }
        }
    }
}

/// Tick-driven heartbeat failure detector with an adaptive period.
///
/// `alive` collects the peers whose heartbeat reply arrived during the
/// current period; `suspected` the peers presumed crashed. Whenever a
/// suspected peer answers after all, the period grows by [`DELTA`], so that
/// after some unknown stabilization time no correct peer is suspected again.
pub struct EvenutallyPerfectFailureDetector {
    pub alive: Vec<Node>,
    pub suspected: Vec<Node>,
    pub delay: u64,
    pub system_id: String,
}

impl EvenutallyPerfectFailureDetector {
    pub fn new(info: &NodeInfo, system_id: String) -> (r: EvenutallyPerfectFailureDetector)
        ensures
            r.alive@ == info.nodes@,
            r.suspected@ == Seq::<Node>::empty(),
            r.delay == DELTA,
            r.system_id == system_id,
    {
        EvenutallyPerfectFailureDetector {
            alive: crate::node::clone_nodes(&info.nodes),
            suspected: Vec::new(),
            delay: DELTA,
            system_id,
        }
    }

    /// Arms the first timer.
    pub fn init(&self) -> (r: Output)
        ensures
            r == (Output::ArmTimer { system_id: self.system_id, delay_ms: self.delay }),
    {
        Output::ArmTimer { system_id: self.system_id.clone(), delay_ms: self.delay }
    }

    /// Whether some falsely suspected peer has answered this period.
    fn contains_suspected(&self) -> (r: bool)
        ensures
            r == seqs_share_id(self.alive@, self.suspected@),
    {
        let mut i: usize = 0;
        while i < self.alive.len()
            invariant
                i <= self.alive.len(),
                forall|j: int| 0 <= j < i ==> !seq_contains_id(self.suspected@, self.alive@[j].id),
            decreases self.alive.len() - i,
        {
            if contains_id(&self.suspected, self.alive[i].id) {
                return true;
            }
            i = i + 1;
        }
        false
    }

    /// The period elapsed: grow the period if a suspicion proved false, then
    /// scan the peers as [`epfd_scan`] says, forget this period's answers,
    /// and re-arm the timer.
    pub fn on_timeout(&mut self, info: &NodeInfo) -> (r: (Vec<InternalMessage>, Output))
        ensures
            timeout_post(*old(self), *final(self), *info, r.0@, r.1),
    {
        if self.contains_suspected() {
            self.delay = sat_add(self.delay, DELTA);
        }
        let ghost alive0 = self.alive@;
        let ghost sus0 = self.suspected@;
        let ghost delay0 = self.delay;
        let mut ems: Vec<InternalMessage> = Vec::new();
        let mut i: usize = 0;
        while i < info.nodes.len()
            invariant
                i <= info.nodes.len(),
                self.alive@ == alive0,
                self.system_id == old(self).system_id,
                self.delay == delay0,
                ({
                    let scan = epfd_scan(
                        info.nodes@.take(i as int),
                        info.current_node,
                        alive0,
                        sus0,
                        old(self).system_id,
                    );
                    ems@ == scan.0 && self.suspected@ == scan.1
                }),
            decreases info.nodes.len() - i,
        {
            proof {
                assert(info.nodes@.take(i as int + 1).drop_last() =~= info.nodes@.take(i as int));
                assert(info.nodes@.take(i as int + 1).last() == info.nodes@[i as int]);
            }
            let ghost ems_pre = ems@;
            let ghost sus_pre = self.suspected@;
            let n = &info.nodes[i];
            if n.id != info.current_node.id {
                let a = contains_id(&self.alive, n.id);
                let s = contains_id(&self.suspected, n.id);
                if !a && !s {
                    ems.push(InternalMessage::EpfdSuspect(n.clone()));
                    self.suspected.push(n.clone());
                } else if a && s {
                    ems.push(InternalMessage::EpfdRestore(n.clone()));
                    remove_id(&mut self.suspected, n.id);
                }
                let probe = Message {
                    system_id: self.system_id.clone(),
                    abstraction_id: AbstractionId::Epfd,
                    payload: Payload::EpfdHeartbeatRequest,
                };
                ems.push(InternalMessage::PlSend(info.current_node.clone(), n.clone(), probe));
                proof {
                    let send = InternalMessage::PlSend(
                        info.current_node,
                        info.nodes@[i as int],
                        heartbeat_request_message(old(self).system_id),
                    );
                    let a_s = seq_contains_id(alive0, info.nodes@[i as int].id);
                    let s_s = seq_contains_id(sus_pre, info.nodes@[i as int].id);
                    if !a_s && !s_s {
                        assert(ems@ =~= ems_pre + seq![
                            InternalMessage::EpfdSuspect(info.nodes@[i as int]),
                            send,
                        ]);
                    } else if a_s && s_s {
                        assert(ems@ =~= ems_pre + seq![
                            InternalMessage::EpfdRestore(info.nodes@[i as int]),
                            send,
                        ]);
                    } else {
                        assert(ems@ =~= ems_pre + seq![send]);
                    }
                }
            }
            i = i + 1;
        }
        proof {
            assert(info.nodes@.take(info.nodes@.len() as int) =~= info.nodes@);
        }
        self.alive = Vec::new();
        let timer = Output::ArmTimer { system_id: self.system_id.clone(), delay_ms: self.delay };
        (ems, timer)
    }

    /// A peer probed this process: answer it.
    pub fn send_reply(&self, info: &NodeInfo, to: &Node) -> (r: Vec<InternalMessage>)
        ensures
            reply_post(*self, *info, *to, r@),
    {
        let reply = Message {
            system_id: self.system_id.clone(),
            abstraction_id: AbstractionId::Epfd,
            payload: Payload::EpfdHeartbeatReply,
        };
        let mut r: Vec<InternalMessage> = Vec::new();
        r.push(InternalMessage::PlSend(info.current_node.clone(), to.clone(), reply));
        r
    }

    /// A peer answered this period's probe.
    pub fn on_got_reply(&mut self, from: &Node)
        ensures
            got_reply_post(*old(self), *final(self), *from),
    {
        self.alive.push(from.clone());
    }
}

} // verus!
