use vstd::prelude::*;

use crate::event::InternalMessage;
use crate::message::AbstractionId;
use crate::message::Message;
use crate::message::Payload;
use crate::node::Node;
use crate::node::NodeInfo;
use crate::node::sat_add;
use crate::node::spec_sat_add;

verus! {

/// The epoch-change oracle. It turns the stream of leader-detector trust
/// events into a stream of `(timestamp, leader)` epochs that is strictly
/// increasing in the timestamp at every process.
///
/// `last_ts` is the timestamp of the last epoch this process started; `ts`
/// is the timestamp of the last epoch this process attempted to start with
/// itself as leader. `ts` begins at the process's rank and every attempt
/// adds the number of participants, so any timestamp names its aspiring
/// leader and the timestamps of distinct leaders never collide.
pub struct EpochChange {
    pub last_ts: u64,
    pub ts: u64,
    pub trusted: Node,
    pub system_id: String,
}

/// The broadcast by which an aspiring leader announces the epoch `ts`.
pub open spec fn new_epoch_message(system_id: String, ts: u64) -> Message {
    Message {
        system_id,
        abstraction_id: AbstractionId::Ec,
        payload: Payload::EcNewEpoch { timestamp: ts },
    }
}

/// The answer by which a process refuses an epoch it cannot start.
pub open spec fn nack_message(system_id: String) -> Message {
    Message { system_id, abstraction_id: AbstractionId::Ec, payload: Payload::EcNack }
}

/// Everything handling a trust event does: the announcer becomes trusted,
/// and a process that now trusts itself attempts a fresh epoch, bumping its
/// attempt timestamp by the participant count and announcing it.
pub open spec fn eld_trust_post(
    pre: EpochChange,
    post: EpochChange,
    info: NodeInfo,
    node: Node,
    ems: Seq<InternalMessage>,
) -> bool {
    &&& post.trusted == node
    &&& post.last_ts == pre.last_ts
    &&& post.system_id == pre.system_id
    &&& (node.id == info.current_node.id ==> post.ts == spec_sat_add(
        pre.ts,
        info.nodes@.len() as u64,
    ) && ems == seq![
        InternalMessage::BebBroadcast(new_epoch_message(pre.system_id, post.ts)),
    ])
    &&& (node.id != info.current_node.id ==> post.ts == pre.ts && ems == Seq::<
        InternalMessage,
    >::empty())
}

/// Everything handling an epoch announcement does: the epoch starts exactly
/// when the announcer is trusted and the timestamp is fresh; otherwise the
/// announcer is refused with a nack.
pub open spec fn new_epoch_post(
    pre: EpochChange,
    post: EpochChange,
    info: NodeInfo,
    from: Node,
    new_ts: u64,
    ems: Seq<InternalMessage>,
) -> bool {
    &&& post.ts == pre.ts
    &&& post.trusted == pre.trusted
    &&& post.system_id == pre.system_id
    &&& (from.id == pre.trusted.id && new_ts > pre.last_ts ==> post.last_ts == new_ts && ems
        == seq![InternalMessage::EcStartEpoch(from, new_ts)])
    &&& (!(from.id == pre.trusted.id && new_ts > pre.last_ts) ==> post.last_ts == pre.last_ts
        && ems == seq![
        InternalMessage::PlSend(info.current_node, from, nack_message(pre.system_id)),
    ])
}

/// Everything handling a refusal does: a process that still trusts itself
/// tries again with a later timestamp; anyone else ignores it.
pub open spec fn nack_post(
    pre: EpochChange,
    post: EpochChange,
    info: NodeInfo,
    ems: Seq<InternalMessage>,
) -> bool {
    &&& post.trusted == pre.trusted
    &&& post.last_ts == pre.last_ts
    &&& post.system_id == pre.system_id
    &&& (pre.trusted.id == info.current_node.id ==> post.ts == spec_sat_add(
        pre.ts,
        info.nodes@.len() as u64,
    ) && ems == seq![
        InternalMessage::BebBroadcast(new_epoch_message(pre.system_id, post.ts)),
    ])
    &&& (pre.trusted.id != info.current_node.id ==> post.ts == pre.ts && ems == Seq::<
        InternalMessage,
    >::empty())
}

impl EpochChange {
    pub fn new(info: &NodeInfo, system_id: String) -> (r: EpochChange)
        requires
            info.wf(),
        ensures
            r.last_ts == 0,
            r.ts == info.current_node.rank as u64,
            r.trusted == info.nodes@[0],
            r.system_id == system_id,
    {
        EpochChange {
            last_ts: 0,
            ts: info.current_node.rank as u64,
            trusted: info.nodes[0].clone(),
            system_id,
        }
    }

    /// Starts a new epoch attempt: bumps `ts` by the participant count and
    /// broadcasts the announcement.
    fn attempt_epoch(&mut self, info: &NodeInfo) -> (r: Vec<InternalMessage>)
        ensures
            final(self).ts == spec_sat_add(old(self).ts, info.nodes@.len() as u64),
            final(self).last_ts == old(self).last_ts,
            final(self).trusted == old(self).trusted,
            final(self).system_id == old(self).system_id,
            r@ == seq![
                InternalMessage::BebBroadcast(
                    new_epoch_message(old(self).system_id, final(self).ts),
                ),
            ],
    {
        self.ts = sat_add(self.ts, info.nodes.len() as u64);
        let msg = Message {
            system_id: self.system_id.clone(),
            abstraction_id: AbstractionId::Ec,
            payload: Payload::EcNewEpoch { timestamp: self.ts },
        };
        let mut r: Vec<InternalMessage> = Vec::new();
        r.push(InternalMessage::BebBroadcast(msg));
        r
    }

    /// The leader detector now trusts `node`. If that is this process, it
    /// attempts to start a new epoch of its own.
    pub fn eld_trust(&mut self, info: &NodeInfo, node: &Node) -> (r: Vec<InternalMessage>)
        ensures
            eld_trust_post(*old(self), *final(self), *info, *node, r@),
    {
        self.trusted = node.clone();
        if node.id == info.current_node.id {
            self.attempt_epoch(info)
        } else {
            Vec::new()
        }
    }

    /// A peer announced the epoch `new_ts`. The epoch starts exactly when the
    /// announcer is the currently trusted node and the timestamp exceeds that
    /// of every epoch started before; otherwise the announcer is refused.
    pub fn beb_deliver_new_epoch(&mut self, info: &NodeInfo, from: &Node, new_ts: u64) -> (r: Vec<
        InternalMessage,
    >)
        ensures
            final(self).last_ts >= old(self).last_ts,
            new_epoch_post(*old(self), *final(self), *info, *from, new_ts, r@),
    {
        let mut r: Vec<InternalMessage> = Vec::new();
        if from.id == self.trusted.id && new_ts > self.last_ts {
            self.last_ts = new_ts;
            r.push(InternalMessage::EcStartEpoch(from.clone(), new_ts));
        } else {
            let msg = Message {
                system_id: self.system_id.clone(),
                abstraction_id: AbstractionId::Ec,
                payload: Payload::EcNack,
            };
            r.push(InternalMessage::PlSend(info.current_node.clone(), from.clone(), msg));
        }
        r
    }

    /// A peer refused this process's announcement. If this process still
    /// trusts itself, it tries again with a later timestamp.
    pub fn on_nack(&mut self, info: &NodeInfo) -> (r: Vec<InternalMessage>)
        ensures
            nack_post(*old(self), *final(self), *info, r@),
    {
        if self.trusted.id == info.current_node.id {
            self.attempt_epoch(info)
        } else {
            Vec::new()
        }
    }
}

/// Step `k` of a run respects epoch monotonicity: `last_ts` never shrinks,
/// and every epoch started on that step carries the new `last_ts`, strictly
/// above the old one.
pub open spec fn ec_step_ok(last_ts: Seq<u64>, starts: Seq<Seq<u64>>, k: int) -> bool {
    &&& last_ts[k] <= last_ts[k + 1]
    &&& forall|t: int|
        0 <= t < starts[k].len() ==> starts[k][t] == last_ts[k + 1] && last_ts[k] < #[trigger] starts[k][t]
}

/// The sequence of epochs started at one process is strictly increasing in
/// the timestamp: along any run in which every step respects epoch
/// monotonicity, an epoch started on an earlier step has a strictly smaller
/// timestamp than one started on a later step.
///
/// `last_ts` holds the oracle's `last_ts` before and after each step of the
/// run; `starts[k]` the timestamps of the epochs step `k` started.
pub proof fn lemma_start_epoch_monotone(
    last_ts: Seq<u64>,
    starts: Seq<Seq<u64>>,
    i: int,
    j: int,
    a: int,
    b: int,
)
    requires
        last_ts.len() == starts.len() + 1,
        forall|k: int| 0 <= k < starts.len() ==> #[trigger] ec_step_ok(last_ts, starts, k),
        0 <= i < j < starts.len(),
        0 <= a < starts[i].len(),
        0 <= b < starts[j].len(),
    ensures
        starts[i][a] < starts[j][b],
{
    assert(ec_step_ok(last_ts, starts, i));
    assert(ec_step_ok(last_ts, starts, j));
    assert(starts[i][a] == last_ts[i + 1]);
    assert(last_ts[j] < starts[j][b]);
    lemma_last_ts_monotone(last_ts, starts, i + 1, j);
}

/// `last_ts` never shrinks along the run.
proof fn lemma_last_ts_monotone(last_ts: Seq<u64>, starts: Seq<Seq<u64>>, a: int, b: int)
    requires
        last_ts.len() == starts.len() + 1,
        forall|k: int| 0 <= k < starts.len() ==> #[trigger] ec_step_ok(last_ts, starts, k),
        0 <= a <= b < last_ts.len(),
    ensures
        last_ts[a] <= last_ts[b],
    decreases b - a,
{
    if a < b {
        assert(ec_step_ok(last_ts, starts, a));
        lemma_last_ts_monotone(last_ts, starts, a + 1, b);
    }
}

} // verus!
