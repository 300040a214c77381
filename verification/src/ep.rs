use vstd::prelude::*;
use vstd::pervasive::VecAdditionalExecFns;

use crate::event::InternalMessage;
use crate::message::AbstractionId;
use crate::message::Message;
use crate::message::Payload;
use crate::message::Value;
use crate::message::ValueType;
use crate::node::Node;
use crate::node::NodeId;
use crate::node::NodeInfo;
use crate::node::quorum;
use crate::node::sat_add;
use crate::node::spec_quorum;
use crate::node::spec_sat_add;

verus! {

/// The state one participant reports during the read phase of an epoch: the
/// timestamp of the epoch that last wrote to it, and the written value. A
/// participant that was never written to reports an undefined value.
#[derive(Clone, Copy, PartialEq, Eq, Structural, Debug)]
pub struct EpochConsensusState {
    pub value_timestamp: u64,
    pub value: Value,
}

impl EpochConsensusState {
    pub fn new(value_timestamp: u64, value: Value) -> (r: EpochConsensusState)
        ensures
            r == (EpochConsensusState { value_timestamp, value }),
    {
        EpochConsensusState { value_timestamp, value }
    }
}

/// Whether the collected states hold an entry for the participant `id`.
pub open spec fn seq_contains_key(s: Seq<(NodeId, EpochConsensusState)>, id: NodeId) -> bool {
    exists|i: int| 0 <= i < s.len() && s[i].0 == id
}

/// Index of the first entry for the participant `id`.
pub open spec fn first_index_of_key(s: Seq<(NodeId, EpochConsensusState)>, id: NodeId) -> int
    decreases s.len(),
{
    if s.len() == 0 {
        0
    } else if s[0].0 == id {
        0
    } else {
        1 + first_index_of_key(s.drop_first(), id)
    }
}

pub proof fn lemma_first_index_of_key(s: Seq<(NodeId, EpochConsensusState)>, id: NodeId)
    requires
        seq_contains_key(s, id),
    ensures
        0 <= first_index_of_key(s, id) < s.len(),
        s[first_index_of_key(s, id)].0 == id,
        forall|j: int| 0 <= j < first_index_of_key(s, id) ==> s[j].0 != id,
    decreases s.len(),
{
    if s.len() > 0 && s[0].0 != id {
        assert(seq_contains_key(s.drop_first(), id)) by {
            let i = choose|i: int| 0 <= i < s.len() && s[i].0 == id;
            assert(s.drop_first()[i - 1].0 == id);
        }
        lemma_first_index_of_key(s.drop_first(), id);
        assert(forall|j: int| 1 <= j < s.len() ==> s[j] == s.drop_first()[j - 1]);
    }
}

/// The collected states after recording `st` for participant `id`: a later
/// report from the same participant replaces the earlier one.
pub open spec fn states_insert(
    s: Seq<(NodeId, EpochConsensusState)>,
    id: NodeId,
    st: EpochConsensusState,
) -> Seq<(NodeId, EpochConsensusState)> {
    if seq_contains_key(s, id) {
        s.update(first_index_of_key(s, id), (id, st))
    } else {
        s.push((id, st))
    }
}

/// The reported state carrying a defined value with the highest write
/// timestamp, if any report carries a defined value at all. Among equally
/// timestamped defined reports the last one wins.
pub open spec fn highest_defined(s: Seq<(NodeId, EpochConsensusState)>) -> Option<
    EpochConsensusState,
>
    decreases s.len(),
{
    if s.len() == 0 {
        None
    } else {
        let rest = highest_defined(s.drop_last());
        let st = s.last().1;
        if st.value.defined {
            match rest {
                None => Some(st),
                Some(m) => if st.value_timestamp >= m.value_timestamp {
                    Some(st)
                } else {
                    Some(m)
                },
            }
        } else {
            rest
        }
    }
}

/// Records `st` as the report of participant `id`, replacing an earlier
/// report from the same participant.
pub fn insert_state(
    states: &mut Vec<(NodeId, EpochConsensusState)>,
    id: NodeId,
    st: EpochConsensusState,
)
    ensures
        final(states)@ == states_insert(old(states)@, id, st),
{
    let mut i: usize = 0;
    while i < states.len()
        invariant
            i <= states.len(),
            states@ == old(states)@,
            forall|j: int| 0 <= j < i ==> states@[j].0 != id,
        decreases states.len() - i,
    {
        if states[i].0 == id {
            proof {
                assert(seq_contains_key(states@, id));
                lemma_first_index_of_key(states@, id);
                assert(first_index_of_key(states@, id) == i as int);
            }
            states.set(i, (id, st));
            return ;
        }
        i = i + 1;
    }
    assert(!seq_contains_key(states@, id));
    states.push((id, st));
}

/// The read-phase probe the leader broadcasts.
pub open spec fn read_message(system_id: String, index: u64) -> Message {
    Message { system_id, abstraction_id: AbstractionId::Ep(index), payload: Payload::EpRead }
}

/// A participant's answer to the read phase.
pub open spec fn state_message(system_id: String, index: u64, st: EpochConsensusState) -> Message {
    Message {
        system_id,
        abstraction_id: AbstractionId::Ep(index),
        payload: Payload::EpState { value_timestamp: st.value_timestamp, value: st.value },
    }
}

/// The write-phase broadcast carrying the leader's chosen value.
pub open spec fn write_message(system_id: String, index: u64, value: Value) -> Message {
    Message {
        system_id,
        abstraction_id: AbstractionId::Ep(index),
        payload: Payload::EpWrite { value },
    }
}

/// A participant's acknowledgement of a write.
pub open spec fn accept_message(system_id: String, index: u64) -> Message {
    Message { system_id, abstraction_id: AbstractionId::Ep(index), payload: Payload::EpAccept }
}

/// The broadcast announcing the epoch's decision.
pub open spec fn decided_message(system_id: String, index: u64, value: Value) -> Message {
    Message {
        system_id,
        abstraction_id: AbstractionId::Ep(index),
        payload: Payload::EpDecided { value },
    }
}

/// How many entries of `s[0..n]` hold.
pub open spec fn count_true(s: Seq<bool>, n: int) -> int
    decreases n,
{
    if n <= 0 {
        0
    } else if s[n - 1] {
        count_true(s, n - 1) + 1
    } else {
        count_true(s, n - 1)
    }
}

/// The sum of `s[0..n]`.
pub open spec fn sum_upto(s: Seq<int>, n: int) -> int
    decreases n,
{
    if n <= 0 {
        0
    } else {
        sum_upto(s, n - 1) + s[n - 1]
    }
}

proof fn lemma_count_true_nonneg(s: Seq<bool>, n: int)
    ensures
        count_true(s, n) >= 0,
    decreases n,
{
    if n > 0 {
        lemma_count_true_nonneg(s, n - 1);
    }
}

proof fn lemma_positive_sum_has_positive(s: Seq<int>, n: int)
    requires
        forall|j: int| 0 <= j < n ==> #[trigger] s[j] >= 0,
        sum_upto(s, n) > 0,
    ensures
        exists|j: int| 0 <= j < n && #[trigger] s[j] > 0,
    decreases n,
{
    if n > 0 && s[n - 1] <= 0 {
        lemma_positive_sum_has_positive(s, n - 1);
    }
}

/// Removing a subset from a finite set takes away exactly its size.
proof fn lemma_len_difference_of_subset(s: Set<NodeId>, t: Set<NodeId>)
    requires
        s.finite(),
        t.finite(),
        t.subset_of(s),
    ensures
        s.difference(t).len() == s.len() - t.len(),
    decreases t.len(),
{
    if t.is_empty() {
        assert(s.difference(t) =~= s);
    } else {
        let x = t.choose();
        assert(t.contains(x));
        assert(s.difference(t) =~= s.remove(x).difference(t.remove(x)));
        lemma_len_difference_of_subset(s.remove(x), t.remove(x));
    }
}

/// Two strict majorities of one participant set always share a member. This
/// is why the read and the write phase use a strict majority: the states any
/// leader reads intersect the acknowledgements every earlier leader gathered,
/// so a value that was decidable once is read back and locked in.
pub proof fn lemma_quorums_intersect(all: Set<NodeId>, a: Set<NodeId>, b: Set<NodeId>)
    requires
        all.finite(),
        a.subset_of(all),
        b.subset_of(all),
        a.len() >= spec_quorum(all.len() as int),
        b.len() >= spec_quorum(all.len() as int),
    ensures
        exists|id: NodeId| a.contains(id) && b.contains(id),
{
    vstd::set_lib::lemma_len_subset(a, all);
    vstd::set_lib::lemma_len_subset(b, all);
    if !(exists|id: NodeId| a.contains(id) && b.contains(id)) {
        assert(a.subset_of(all.difference(b))) by {
            assert(forall|x: NodeId| a.contains(x) ==> !b.contains(x));
        }
        lemma_len_difference_of_subset(all, b);
        vstd::set_lib::lemma_len_subset(a, all.difference(b));
        assert(a.len() + b.len() <= all.len());
        assert(false);
    }
}

/// A decision is broadcast only after a strict majority acknowledged the
/// write. Along any run of one epoch instance in which
///
/// - a step broadcasts a decision only when it consumes a write-completion
///   signal (`consumed[k]`, `decided[k]`),
/// - the bus hands back only signals the instance emitted on earlier steps
///   (strictly more signals emitted before step `k` than consumed before it),
///   and
/// - a step emits a completion signal only while its acknowledgement count
///   stands at a strict majority (`quorum_at[k]`),
///
/// every step that broadcasts a decision is preceded by a step at which a
/// strict majority of acknowledgements stood counted.
pub proof fn lemma_decision_needs_accept_quorum(
    consumed: Seq<bool>,
    emitted: Seq<int>,
    quorum_at: Seq<bool>,
    decided: Seq<bool>,
    k: int,
)
    requires
        consumed.len() == emitted.len(),
        consumed.len() == quorum_at.len(),
        consumed.len() == decided.len(),
        forall|j: int| 0 <= j < emitted.len() ==> #[trigger] emitted[j] >= 0,
        forall|j: int| 0 <= j < decided.len() && #[trigger] decided[j] ==> consumed[j],
        forall|j: int|
            0 <= j < consumed.len() && #[trigger] consumed[j] ==> count_true(consumed, j)
                < sum_upto(emitted, j),
        forall|j: int| 0 <= j < emitted.len() && #[trigger] emitted[j] > 0 ==> quorum_at[j],
        0 <= k < decided.len(),
        decided[k],
    ensures
        exists|j: int| 0 <= j < k && #[trigger] quorum_at[j],
{
    assert(consumed[k]);
    lemma_count_true_nonneg(consumed, k);
    lemma_positive_sum_has_positive(emitted, k);
    let j = choose|j: int| 0 <= j < k && #[trigger] emitted[j] > 0;
    assert(quorum_at[j]);
}

/// Everything a proposal does: only the epoch's leader acts, and only for
/// its own epoch timestamp: it keeps the value as its tentative one and opens
/// the read phase. An aborted instance stays silent.
pub open spec fn propose_post(
    pre: EpochConsensus,
    post: EpochConsensus,
    info: NodeInfo,
    ts: u64,
    v: ValueType,
    ems: Seq<InternalMessage>,
) -> bool {
    let acts = !pre.aborted && pre.epoch_ts == ts && info.current_node.id == pre.leader.id;
    &&& EpochConsensus::fixed_eq(pre, post)
    &&& post.states@ == pre.states@
    &&& post.accepted == pre.accepted
    &&& post.state == pre.state
    &&& post.aborted == pre.aborted
    &&& (acts ==> post.temporary_value == (Value { defined: true, v }) && ems == seq![
        InternalMessage::BebBroadcast(read_message(pre.system_id, pre.index)),
    ])
    &&& (!acts ==> post.temporary_value == pre.temporary_value && ems == Seq::<
        InternalMessage,
    >::empty())
}

/// Everything answering a read probe does: a live instance reports its last
/// written state as it stands, defined or not; an aborted one stays silent.
pub open spec fn read_reply_post(
    ep: EpochConsensus,
    info: NodeInfo,
    from: Node,
    ems: Seq<InternalMessage>,
) -> bool {
    &&& (!ep.aborted ==> ems == seq![
        InternalMessage::PlSend(
            info.current_node,
            from,
            state_message(ep.system_id, ep.index, ep.state),
        ),
    ])
    &&& (ep.aborted ==> ems == Seq::<InternalMessage>::empty())
}

/// Everything a state report does: the live leader records it, replacing an
/// earlier report from the same participant, and says so once a strict
/// majority of participants have reported.
pub open spec fn state_post(
    pre: EpochConsensus,
    post: EpochConsensus,
    info: NodeInfo,
    from: Node,
    value_timestamp: u64,
    value: Value,
    ems: Seq<InternalMessage>,
) -> bool {
    let acts = !pre.aborted && info.current_node.id == pre.leader.id;
    let states = states_insert(
        pre.states@,
        from.id,
        EpochConsensusState { value_timestamp, value },
    );
    &&& EpochConsensus::fixed_eq(pre, post)
    &&& post.temporary_value == pre.temporary_value
    &&& post.accepted == pre.accepted
    &&& post.state == pre.state
    &&& post.aborted == pre.aborted
    &&& (acts ==> {
        &&& post.states@ == states
        &&& (states.len() >= spec_quorum(info.nodes@.len() as int) ==> ems == seq![
            InternalMessage::EpStateCountReached,
        ])
        &&& (states.len() < spec_quorum(info.nodes@.len() as int) ==> ems == Seq::<
            InternalMessage,
        >::empty())
    })
    &&& (!acts ==> post.states@ == pre.states@ && ems == Seq::<InternalMessage>::empty())
}

/// Everything completing the read phase does: the live leader adopts the
/// reported defined value with the highest write timestamp if one was
/// reported, forgets the reports, and writes its tentative value.
pub open spec fn read_complete_post(
    pre: EpochConsensus,
    post: EpochConsensus,
    info: NodeInfo,
    ems: Seq<InternalMessage>,
) -> bool {
    let acts = !pre.aborted && info.current_node.id == pre.leader.id;
    let adopted = match highest_defined(pre.states@) {
        Some(st) => st.value,
        None => pre.temporary_value,
    };
    &&& EpochConsensus::fixed_eq(pre, post)
    &&& post.accepted == pre.accepted
    &&& post.state == pre.state
    &&& post.aborted == pre.aborted
    &&& (acts ==> {
        &&& post.temporary_value == adopted
        &&& post.states@ == Seq::<(NodeId, EpochConsensusState)>::empty()
        &&& ems == seq![
            InternalMessage::BebBroadcast(write_message(pre.system_id, pre.index, adopted)),
        ]
    })
    &&& (!acts ==> post.temporary_value == pre.temporary_value && post.states@ == pre.states@
        && ems == Seq::<InternalMessage>::empty())
}

/// Everything a write does: a live instance makes a defined value its state,
/// stamped with this epoch, and acknowledges it; an undefined value changes
/// nothing.
pub open spec fn write_post(
    pre: EpochConsensus,
    post: EpochConsensus,
    info: NodeInfo,
    from: Node,
    value: Value,
    ems: Seq<InternalMessage>,
) -> bool {
    let acts = !pre.aborted && value.defined;
    &&& EpochConsensus::fixed_eq(pre, post)
    &&& post.temporary_value == pre.temporary_value
    &&& post.states@ == pre.states@
    &&& post.accepted == pre.accepted
    &&& post.aborted == pre.aborted
    &&& (acts ==> post.state == (EpochConsensusState { value_timestamp: pre.epoch_ts, value })
        && ems == seq![
        InternalMessage::PlSend(
            info.current_node,
            from,
            accept_message(pre.system_id, pre.index),
        ),
    ])
    &&& (!acts ==> post.state == pre.state && ems == Seq::<InternalMessage>::empty())
}

/// Everything an acknowledgement does: the live leader counts it and says so
/// once a strict majority acknowledged.
pub open spec fn accept_post(
    pre: EpochConsensus,
    post: EpochConsensus,
    info: NodeInfo,
    ems: Seq<InternalMessage>,
) -> bool {
    let acts = !pre.aborted && info.current_node.id == pre.leader.id;
    let accepted = spec_sat_add(pre.accepted, 1);
    &&& EpochConsensus::fixed_eq(pre, post)
    &&& post.temporary_value == pre.temporary_value
    &&& post.states@ == pre.states@
    &&& post.state == pre.state
    &&& post.aborted == pre.aborted
    &&& (acts ==> {
        &&& post.accepted == accepted
        &&& (accepted >= spec_quorum(info.nodes@.len() as int) ==> ems == seq![
            InternalMessage::EpAcceptedCountReached,
        ])
        &&& (accepted < spec_quorum(info.nodes@.len() as int) ==> ems == Seq::<
            InternalMessage,
        >::empty())
    })
    &&& (!acts ==> post.accepted == pre.accepted && ems == Seq::<InternalMessage>::empty())
}

/// Everything completing the write phase does: the live leader announces its
/// tentative value as decided and resets the acknowledgement count.
pub open spec fn write_complete_post(
    pre: EpochConsensus,
    post: EpochConsensus,
    info: NodeInfo,
    ems: Seq<InternalMessage>,
) -> bool {
    let acts = !pre.aborted && info.current_node.id == pre.leader.id;
    &&& EpochConsensus::fixed_eq(pre, post)
    &&& post.temporary_value == pre.temporary_value
    &&& post.states@ == pre.states@
    &&& post.state == pre.state
    &&& post.aborted == pre.aborted
    &&& (acts ==> post.accepted == 0 && ems == seq![
        InternalMessage::BebBroadcast(
            decided_message(pre.system_id, pre.index, pre.temporary_value),
        ),
    ])
    &&& (!acts ==> post.accepted == pre.accepted && ems == Seq::<InternalMessage>::empty())
}

/// Everything a decision announcement does: a live instance passes a defined
/// value on to the controller under this epoch's timestamp.
pub open spec fn decided_post(ep: EpochConsensus, value: Value, ems: Seq<InternalMessage>) -> bool {
    &&& (!ep.aborted && value.defined ==> ems == seq![
        InternalMessage::EpDecide(ep.epoch_ts, value.v),
    ])
    &&& (!(!ep.aborted && value.defined) ==> ems == Seq::<InternalMessage>::empty())
}

/// Everything an abort does: the instance for this timestamp latches
/// `aborted` and answers exactly once with its last stable state.
pub open spec fn abort_post(
    pre: EpochConsensus,
    post: EpochConsensus,
    ts: u64,
    ems: Seq<InternalMessage>,
) -> bool {
    let acts = !pre.aborted && pre.epoch_ts == ts;
    &&& EpochConsensus::fixed_eq(pre, post)
    &&& post.temporary_value == pre.temporary_value
    &&& post.states@ == pre.states@
    &&& post.accepted == pre.accepted
    &&& post.state == pre.state
    &&& (acts ==> post.aborted && ems == seq![
        InternalMessage::EpAborted(pre.epoch_ts, pre.state.value_timestamp, pre.state.value),
    ])
    &&& (!acts ==> post.aborted == pre.aborted && ems == Seq::<InternalMessage>::empty())
}

/// One epoch of read/write consensus under a fixed leader.
///
/// The leader reads the last written state from a strict majority, adopts
/// the defined value with the highest write timestamp if there is one, writes
/// its choice to everyone, and announces the decision once a strict majority
/// acknowledged the write. The controller aborts the instance when the epoch
/// changes; an aborted instance answers exactly once with its last stable
/// state and ignores everything afterwards.
pub struct EpochConsensus {
    pub temporary_value: Value,
    pub states: Vec<(NodeId, EpochConsensusState)>,
    pub accepted: u64,
    pub state: EpochConsensusState,
    pub aborted: bool,
    pub leader: Node,
    pub epoch_ts: u64,
    pub system_id: String,
    pub index: u64,
}

impl EpochConsensus {
    /// The configuration fields fixed at construction never change.
    pub open spec fn fixed_eq(a: EpochConsensus, b: EpochConsensus) -> bool {
        &&& a.leader == b.leader
        &&& a.epoch_ts == b.epoch_ts
        &&& a.system_id == b.system_id
        &&& a.index == b.index
    }

    /// Nothing about the instance changed.
    pub open spec fn unchanged(a: EpochConsensus, b: EpochConsensus) -> bool {
        &&& EpochConsensus::fixed_eq(a, b)
        &&& a.temporary_value == b.temporary_value
        &&& a.states@ == b.states@
        &&& a.accepted == b.accepted
        &&& a.state == b.state
        &&& a.aborted == b.aborted
    }

    pub fn new(
        initial_state: EpochConsensusState,
        leader: Node,
        epoch_ts: u64,
        system_id: String,
        index: u64,
    ) -> (r: EpochConsensus)
        ensures
            r.temporary_value == (Value { defined: false, v: 0 }),
            r.states@ == Seq::<(NodeId, EpochConsensusState)>::empty(),
            r.accepted == 0,
            r.state == initial_state,
            !r.aborted,
            r.leader == leader,
            r.epoch_ts == epoch_ts,
            r.system_id == system_id,
            r.index == index,
    {
        EpochConsensus {
            temporary_value: Value::undefined(),
            states: Vec::new(),
            accepted: 0,
            state: initial_state,
            aborted: false,
            leader,
            epoch_ts,
            system_id,
            index,
        }
    }

    /// The controller proposes `v` for this epoch. Only the epoch's leader
    /// acts, and only for its own epoch timestamp: it keeps `v` as its
    /// tentative value and opens the read phase.
    pub fn ep_propose(&mut self, info: &NodeInfo, ts: u64, v: ValueType) -> (r: Vec<
        InternalMessage,
    >)
        ensures
            propose_post(*old(self), *final(self), *info, ts, v, r@),
    {
        let mut r: Vec<InternalMessage> = Vec::new();
        if !self.aborted && self.epoch_ts == ts && info.current_node.id == self.leader.id {
            self.temporary_value = Value::defined(v);
            let msg = Message {
                system_id: self.system_id.clone(),
                abstraction_id: AbstractionId::Ep(self.index),
                payload: Payload::EpRead,
            };
            r.push(InternalMessage::BebBroadcast(msg));
        }
        r
    }

    /// The leader asked for states: answer with the last written state, as it
    /// stands, defined or not.
    pub fn beb_deliver_read(&self, info: &NodeInfo, from: &Node) -> (r: Vec<InternalMessage>)
        ensures
            read_reply_post(*self, *info, *from, r@),
    {
        let mut r: Vec<InternalMessage> = Vec::new();
        if !self.aborted {
            let msg = Message {
                system_id: self.system_id.clone(),
                abstraction_id: AbstractionId::Ep(self.index),
                payload: Payload::EpState {
                    value_timestamp: self.state.value_timestamp,
                    value: self.state.value,
                },
            };
            r.push(InternalMessage::PlSend(info.current_node.clone(), from.clone(), msg));
        }
        r
    }

    /// A participant reported its state. Only the leader records it; once a
    /// strict majority of participants have reported, the read phase is
    /// complete and says so.
    pub fn pl_deliver_state(
        &mut self,
        info: &NodeInfo,
        from: &Node,
        value_timestamp: u64,
        value: Value,
    ) -> (r: Vec<InternalMessage>)
        ensures
            state_post(*old(self), *final(self), *info, *from, value_timestamp, value, r@),
    {
        let mut r: Vec<InternalMessage> = Vec::new();
        if !self.aborted && info.current_node.id == self.leader.id {
            let st = EpochConsensusState { value_timestamp, value };
            insert_state(&mut self.states, from.id, st);
            if self.states.len() >= quorum(info.nodes.len()) {
                r.push(InternalMessage::EpStateCountReached);
            }
        }
        r
    }

    /// The read phase completed. The leader adopts the reported defined value
    /// with the highest write timestamp, if one was reported at all, forgets
    /// the reports, and writes its tentative value to everyone.
    pub fn ep_state_count_reached(&mut self, info: &NodeInfo) -> (r: Vec<InternalMessage>)
        ensures
            read_complete_post(*old(self), *final(self), *info, r@),
    {
        let mut r: Vec<InternalMessage> = Vec::new();
        if !self.aborted && info.current_node.id == self.leader.id {
            let mut best: Option<EpochConsensusState> = None;
            let mut i: usize = 0;
            while i < self.states.len()
                invariant
                    i <= self.states.len(),
                    self.states@ == old(self).states@,
                    best == highest_defined(self.states@.take(i as int)),
                decreases self.states.len() - i,
            {
                proof {
                    assert(self.states@.take(i as int + 1).drop_last() =~= self.states@.take(
                        i as int,
                    ));
                    assert(self.states@.take(i as int + 1).last() == self.states@[i as int]);
                }
                let st = self.states[i].1;
                if st.value.defined {
                    best = match best {
                        None => Some(st),
                        Some(m) => if st.value_timestamp >= m.value_timestamp {
                            Some(st)
                        } else {
                            Some(m)
                        },
                    };
                }
                i = i + 1;
            }
            proof {
                assert(self.states@.take(self.states@.len() as int) =~= self.states@);
            }
            match best {
                Some(st) => {
                    self.temporary_value = st.value;
                },
                None => {},
            }
            self.states = Vec::new();
            let msg = Message {
                system_id: self.system_id.clone(),
                abstraction_id: AbstractionId::Ep(self.index),
                payload: Payload::EpWrite { value: self.temporary_value },
            };
            r.push(InternalMessage::BebBroadcast(msg));
        }
        r
    }

    /// The leader wrote a value. A defined value becomes this participant's
    /// state, stamped with this epoch, and is acknowledged to the writer; an
    /// undefined one changes nothing.
    pub fn beb_deliver_write(&mut self, info: &NodeInfo, from: &Node, value: Value) -> (r: Vec<
        InternalMessage,
    >)
        ensures
            write_post(*old(self), *final(self), *info, *from, value, r@),
    {
        let mut r: Vec<InternalMessage> = Vec::new();
        if !self.aborted && value.defined {
            self.state = EpochConsensusState { value_timestamp: self.epoch_ts, value };
            let msg = Message {
                system_id: self.system_id.clone(),
                abstraction_id: AbstractionId::Ep(self.index),
                payload: Payload::EpAccept,
            };
            r.push(InternalMessage::PlSend(info.current_node.clone(), from.clone(), msg));
        }
        r
    }

    /// A participant acknowledged the write. Only the leader counts; once a
    /// strict majority acknowledged, the write phase is complete and says so.
    pub fn pl_deliver_accept(&mut self, info: &NodeInfo) -> (r: Vec<InternalMessage>)
        ensures
            accept_post(*old(self), *final(self), *info, r@),
    {
        let mut r: Vec<InternalMessage> = Vec::new();
        if !self.aborted && info.current_node.id == self.leader.id {
            self.accepted = sat_add(self.accepted, 1);
            if self.accepted >= quorum(info.nodes.len()) as u64 {
                r.push(InternalMessage::EpAcceptedCountReached);
            }
        }
        r
    }

    /// The write phase completed: the leader announces its tentative value as
    /// decided and resets the acknowledgement count.
    pub fn ep_accepted_count_reached(&mut self, info: &NodeInfo) -> (r: Vec<InternalMessage>)
        ensures
            write_complete_post(*old(self), *final(self), *info, r@),
    {
        let mut r: Vec<InternalMessage> = Vec::new();
        if !self.aborted && info.current_node.id == self.leader.id {
            self.accepted = 0;
            let msg = Message {
                system_id: self.system_id.clone(),
                abstraction_id: AbstractionId::Ep(self.index),
                payload: Payload::EpDecided { value: self.temporary_value },
            };
            r.push(InternalMessage::BebBroadcast(msg));
        }
        r
    }

    /// The leader announced a decision: pass a defined value on to the
    /// controller, stamped with this epoch's timestamp.
    pub fn beb_deliver_decided(&self, value: Value) -> (r: Vec<InternalMessage>)
        ensures
            decided_post(*self, value, r@),
    {
        let mut r: Vec<InternalMessage> = Vec::new();
        if !self.aborted && value.defined {
            r.push(InternalMessage::EpDecide(self.epoch_ts, value.v));
        }
        r
    }

    /// The controller aborts this epoch. The instance latches `aborted`,
    /// answers exactly once with its last stable state, and from then on
    /// every handler of this instance leaves it unchanged and emits nothing.
    pub fn abort(&mut self, ts: u64) -> (r: Vec<InternalMessage>)
        ensures
            abort_post(*old(self), *final(self), ts, r@),
    {
        let mut r: Vec<InternalMessage> = Vec::new();
        if !self.aborted && self.epoch_ts == ts {
            self.aborted = true;
            r.push(InternalMessage::EpAborted(
                self.epoch_ts,
                self.state.value_timestamp,
                self.state.value,
            ));
        }
        r
    }
}

} // verus!
