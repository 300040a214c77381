use vstd::prelude::*;

use crate::ep::EpochConsensus;
use crate::ep::EpochConsensusState;
use crate::event::InternalMessage;
use crate::message::Value;
use crate::message::ValueType;
use crate::node::Node;
use crate::node::NodeId;
use crate::node::NodeInfo;
use crate::node::sat_add;
use crate::node::spec_sat_add;

verus! {

/// An epoch as the controller tracks it: its timestamp and its leader.
pub struct UniformConsensusState {
    pub epoch_timestamp: u64,
    pub leader: Option<Node>,
}

impl UniformConsensusState {
    pub fn new(epoch_timestamp: u64, leader: Option<Node>) -> (r: UniformConsensusState)
        ensures
            r == (UniformConsensusState { epoch_timestamp, leader }),
    {
        UniformConsensusState { epoch_timestamp, leader }
    }
}

/// Whether `leader` names the process with id `me`.
pub open spec fn is_self(leader: Option<Node>, me: NodeId) -> bool {
    match leader {
        Some(l) => l.id == me,
        None => false,
    }
}

/// Everything an application proposal does: the value is stored, and handed
/// to the current epoch's instance if this process leads it and nothing was
/// proposed for this epoch yet.
pub open spec fn uc_propose_post(
    pre: UniformConsensus,
    post: UniformConsensus,
    info: NodeInfo,
    v: ValueType,
    ems: Seq<InternalMessage>,
) -> bool {
    let fires = is_self(pre.state.leader, info.current_node.id) && !pre.proposed;
    &&& UniformConsensus::fixed_eq(pre, post)
    &&& post.value == Some(v)
    &&& post.decided == pre.decided
    &&& post.state == pre.state
    &&& post.new_state == pre.new_state
    &&& post.ep_index == pre.ep_index
    &&& (fires ==> post.proposed && ems == seq![
        InternalMessage::EpPropose(pre.state.epoch_timestamp, v),
    ])
    &&& (!fires ==> post.proposed == pre.proposed && ems == Seq::<InternalMessage>::empty())
}

/// Everything an epoch start does: the started epoch becomes pending, the
/// current epoch's instance is told to abort, and the stored value is
/// proposed if this process leads the (still current) epoch and had not
/// proposed yet.
pub open spec fn start_epoch_post(
    pre: UniformConsensus,
    post: UniformConsensus,
    info: NodeInfo,
    leader: Node,
    timestamp: u64,
    ems: Seq<InternalMessage>,
) -> bool {
    let fires = is_self(pre.state.leader, info.current_node.id) && pre.value is Some
        && !pre.proposed;
    &&& UniformConsensus::fixed_eq(pre, post)
    &&& post.value == pre.value
    &&& post.decided == pre.decided
    &&& post.state == pre.state
    &&& post.new_state == (UniformConsensusState {
        epoch_timestamp: timestamp,
        leader: Some(leader),
    })
    &&& post.ep_index == pre.ep_index
    &&& (fires ==> post.proposed && ems == seq![
        InternalMessage::EpAbort(pre.state.epoch_timestamp),
        InternalMessage::EpPropose(pre.state.epoch_timestamp, pre.value->Some_0),
    ])
    &&& (!fires ==> post.proposed == pre.proposed && ems == seq![
        InternalMessage::EpAbort(pre.state.epoch_timestamp),
    ])
}

/// Everything an abort answer does: for the current epoch's instance, the
/// pending epoch becomes current, a fresh instance is built around the
/// aborted one's state under the pending leader, and the stored value is
/// re-proposed if this process leads; any other answer is ignored, apart
/// from revisiting the proposal.
pub open spec fn aborted_post(
    pre: UniformConsensus,
    post: UniformConsensus,
    info: NodeInfo,
    epoch_ts: u64,
    value_ts: u64,
    value: Value,
    ems: Seq<InternalMessage>,
    new_ep: Option<EpochConsensus>,
) -> bool {
    let acts = pre.state.epoch_timestamp == epoch_ts && pre.new_state.leader is Some;
    let fires_acts = acts && is_self(pre.new_state.leader, info.current_node.id)
        && pre.value is Some;
    let fires_idle = !acts && is_self(pre.state.leader, info.current_node.id)
        && pre.value is Some && !pre.proposed;
    &&& UniformConsensus::fixed_eq(pre, post)
    &&& post.value == pre.value
    &&& post.decided == pre.decided
    &&& post.new_state == pre.new_state
    &&& (acts ==> {
        &&& post.state == pre.new_state
        &&& post.ep_index == spec_sat_add(pre.ep_index, 1)
        &&& match new_ep {
            Some(ep) => {
                &&& ep.state == (EpochConsensusState { value_timestamp: value_ts, value })
                &&& ep.leader == pre.new_state.leader->Some_0
                &&& ep.epoch_ts == pre.new_state.epoch_timestamp
                &&& ep.system_id == pre.system_id
                &&& ep.index == post.ep_index
                &&& !ep.aborted
                &&& ep.accepted == 0
                &&& ep.states@ == Seq::<(NodeId, EpochConsensusState)>::empty()
                &&& ep.temporary_value == (Value { defined: false, v: 0 })
            },
            None => false,
        }
        &&& (fires_acts ==> post.proposed && ems == seq![
            InternalMessage::EpPropose(pre.new_state.epoch_timestamp, pre.value->Some_0),
        ])
        &&& (!fires_acts ==> !post.proposed && ems == Seq::<InternalMessage>::empty())
    })
    &&& (!acts ==> {
        &&& post.state == pre.state
        &&& post.ep_index == pre.ep_index
        &&& new_ep is None
        &&& (fires_idle ==> post.proposed && ems == seq![
            InternalMessage::EpPropose(pre.state.epoch_timestamp, pre.value->Some_0),
        ])
        &&& (!fires_idle ==> post.proposed == pre.proposed && ems == Seq::<
            InternalMessage,
        >::empty())
    })
}

/// Everything a delivered decision does: the first decision of the current
/// epoch latches the flag and is announced, once; everything else is ignored.
pub open spec fn decide_post(
    pre: UniformConsensus,
    post: UniformConsensus,
    ts: u64,
    v: ValueType,
    ems: Seq<InternalMessage>,
) -> bool {
    let acts = !pre.decided && pre.state.epoch_timestamp == ts;
    &&& UniformConsensus::fixed_eq(pre, post)
    &&& post.value == pre.value
    &&& post.proposed == pre.proposed
    &&& post.state == pre.state
    &&& post.new_state == pre.new_state
    &&& post.ep_index == pre.ep_index
    &&& (pre.decided ==> post.decided)
    &&& (acts ==> post.decided && ems == seq![InternalMessage::UcDecide(v)])
    &&& (!acts ==> post.decided == pre.decided && ems == Seq::<InternalMessage>::empty())
}

/// The uniform-consensus controller of one instance.
///
/// It stores the value the application proposed, drives one epoch-consensus
/// instance per epoch the epoch-change oracle starts, aborts the old instance
/// on every change, carries the aborted instance's state into the next one,
/// and announces the first decision an epoch delivers. `decided` latches, so
/// an instance decides at most once.
pub struct UniformConsensus {
    pub value: Option<ValueType>,
    pub proposed: bool,
    pub decided: bool,
    pub state: UniformConsensusState,
    pub new_state: UniformConsensusState,
    pub system_id: String,
    pub ep_index: u64,
}

impl UniformConsensus {
    /// The identity and bookkeeping fields no handler changes.
    pub open spec fn fixed_eq(a: UniformConsensus, b: UniformConsensus) -> bool {
        a.system_id == b.system_id
    }

    pub fn new(initial_leader: Node, system_id: String) -> (r: UniformConsensus)
        ensures
            r.value is None,
            !r.proposed,
            !r.decided,
            r.state == (UniformConsensusState { epoch_timestamp: 0, leader: Some(initial_leader) }),
            r.new_state == (UniformConsensusState { epoch_timestamp: 0, leader: None::<Node> }),
            r.system_id == system_id,
            r.ep_index == 0,
    {
        UniformConsensus {
            value: None,
            proposed: false,
            decided: false,
            state: UniformConsensusState::new(0, Some(initial_leader)),
            new_state: UniformConsensusState::new(0, None),
            system_id,
            ep_index: 0,
        }
    }

    /// Hands the current epoch's instance the stored value, once: only while
    /// this process leads the current epoch, a value is stored, and nothing
    /// was proposed for this epoch yet.
    fn change_proposed(&mut self, info: &NodeInfo) -> (r: Vec<InternalMessage>)
        ensures
            UniformConsensus::fixed_eq(*old(self), *final(self)),
            final(self).value == old(self).value,
            final(self).decided == old(self).decided,
            final(self).state == old(self).state,
            final(self).new_state == old(self).new_state,
            final(self).ep_index == old(self).ep_index,
            ({
                let fires = is_self(old(self).state.leader, info.current_node.id)
                    && old(self).value is Some && !old(self).proposed;
                if fires {
                    &&& final(self).proposed
                    &&& r@ == seq![
                        InternalMessage::EpPropose(
                            old(self).state.epoch_timestamp,
                            old(self).value->Some_0,
                        ),
                    ]
                } else {
                    &&& final(self).proposed == old(self).proposed
                    &&& r@ == Seq::<InternalMessage>::empty()
                }
            }),
    {
        let mut r: Vec<InternalMessage> = Vec::new();
        let leads = match &self.state.leader {
            Some(l) => l.id == info.current_node.id,
            None => false,
        };
        if leads && !self.proposed {
            match self.value {
                Some(v) => {
                    self.proposed = true;
                    r.push(InternalMessage::EpPropose(self.state.epoch_timestamp, v));
                },
                None => {},
            }
        }
        r
    }

    /// The application proposes `v`: store it and propose it to the current
    /// epoch if this process leads it.
    pub fn uc_propose(&mut self, info: &NodeInfo, v: ValueType) -> (r: Vec<InternalMessage>)
        ensures
            uc_propose_post(*old(self), *final(self), *info, v, r@),
    {
        self.value = Some(v);
        self.change_proposed(info)
    }

    /// The oracle started the epoch `(timestamp, leader)`: remember it as
    /// pending and tell the current epoch's instance to abort.
    pub fn ec_start_epoch(&mut self, info: &NodeInfo, leader: &Node, timestamp: u64) -> (r: Vec<
        InternalMessage,
    >)
        ensures
            start_epoch_post(*old(self), *final(self), *info, *leader, timestamp, r@),
    {
        self.new_state = UniformConsensusState::new(timestamp, Some(leader.clone()));
        let abort_ts = self.state.epoch_timestamp;
        let mut r = self.change_proposed(info);
        r.insert(0, InternalMessage::EpAbort(abort_ts));
        proof {
            if is_self(old(self).state.leader, info.current_node.id) && old(self).value is Some
                && !old(self).proposed {
                assert(r@ =~= seq![
                    InternalMessage::EpAbort(old(self).state.epoch_timestamp),
                    InternalMessage::EpPropose(
                        old(self).state.epoch_timestamp,
                        old(self).value->Some_0,
                    ),
                ]);
            } else {
                assert(r@ =~= seq![InternalMessage::EpAbort(old(self).state.epoch_timestamp)]);
            }
        }
        r
    }

    /// The old epoch's instance finished aborting with its last stable state.
    /// If its timestamp is the current epoch's, the pending epoch becomes
    /// current and a fresh instance is built around the aborted one's state,
    /// led by the pending leader; the stored value is re-proposed to it if
    /// this process leads. A report for any other epoch is ignored.
    pub fn ep_aborted(&mut self, info: &NodeInfo, epoch_ts: u64, value_ts: u64, value: Value) -> (r:
        (Vec<InternalMessage>, Option<EpochConsensus>))
        ensures
            aborted_post(*old(self), *final(self), *info, epoch_ts, value_ts, value, r.0@, r.1),
    {
        if self.state.epoch_timestamp == epoch_ts {
            let new_leader = match &self.new_state.leader {
                Some(l) => Some(l.clone()),
                None => None,
            };
            match new_leader {
                Some(leader) => {
                    self.state = UniformConsensusState::new(
                        self.new_state.epoch_timestamp,
                        Some(leader.clone()),
                    );
                    self.proposed = false;
                    self.ep_index = sat_add(self.ep_index, 1);
                    let ep = EpochConsensus::new(
                        EpochConsensusState::new(value_ts, value),
                        leader,
                        self.state.epoch_timestamp,
                        self.system_id.clone(),
                        self.ep_index,
                    );
                    let r = self.change_proposed(info);
                    (r, Some(ep))
                },
                None => {
                    let r = self.change_proposed(info);
                    (r, None)
                },
            }
        } else {
            let r = self.change_proposed(info);
            (r, None)
        }
    }

    /// The current epoch's instance decided `v`: if this instance has not
    /// decided yet, latch the decision and announce it, once.
    pub fn ep_decide(&mut self, ts: u64, v: ValueType) -> (r: Vec<InternalMessage>)
        ensures
            decide_post(*old(self), *final(self), ts, v, r@),
    {
        let mut r: Vec<InternalMessage> = Vec::new();
        if !self.decided && self.state.epoch_timestamp == ts {
            self.decided = true;
            r.push(InternalMessage::UcDecide(v));
        }
        r
    }
}

/// Step `k` of a run respects the decision latch: the flag only ever goes
/// from false to true, and a decision is announced exactly on a step that
/// latches it.
pub open spec fn decide_step_ok(decided: Seq<bool>, decides: Seq<int>, k: int) -> bool {
    &&& decides[k] >= 0
    &&& (decided[k] ==> decided[k + 1])
    &&& (decides[k] > 0 ==> !decided[k] && decided[k + 1])
}

/// An instance decides at most once: along any run in which `decided` only
/// ever latches from false to true and a decision is announced only on the
/// step that latches it, no later step announces a second decision.
///
/// `decided` holds the controller's flag before and after each step of the
/// run; `decides[k]` how many decisions step `k` announced.
pub proof fn lemma_at_most_once_decide(decided: Seq<bool>, decides: Seq<int>, i: int, j: int)
    requires
        decided.len() == decides.len() + 1,
        forall|k: int| 0 <= k < decides.len() ==> #[trigger] decide_step_ok(decided, decides, k),
        0 <= i < j < decides.len(),
        decides[i] > 0,
    ensures
        decides[j] == 0,
{
    assert(decide_step_ok(decided, decides, i));
    lemma_decided_stays(decided, decides, i + 1, j);
    assert(decide_step_ok(decided, decides, j));
    if decides[j] > 0 {
        assert(!decided[j]);
        assert(false);
    }
}

/// Once `decided` holds it keeps holding along the run.
proof fn lemma_decided_stays(decided: Seq<bool>, decides: Seq<int>, a: int, b: int)
    requires
        decided.len() == decides.len() + 1,
        forall|k: int| 0 <= k < decides.len() ==> #[trigger] decide_step_ok(decided, decides, k),
        0 <= a <= b < decided.len(),
        decided[a],
    ensures
        decided[b],
    decreases b - a,
{
    if a < b {
        assert(decide_step_ok(decided, decides, a));
        lemma_decided_stays(decided, decides, a + 1, b);
    }
}

} // verus!
