use vstd::prelude::*;

use crate::message::Envelope;
use crate::message::Message;
use crate::message::Payload;
use crate::message::Value;
use crate::message::ValueType;
use crate::node::Node;

verus! {

/// The intra-process signals the modules exchange over the event bus.
pub enum InternalMessage {
    /// The leader detector trusts this node.
    EldTrust(Node),
    /// Send the message to every participant.
    BebBroadcast(Message),
    /// A broadcast message arrived from this sender.
    BebDeliver(Node, Message),
    /// The epoch-change oracle starts the epoch `(leader, timestamp)`.
    EcStartEpoch(Node, u64),
    /// The controller proposes a value for the epoch with this timestamp.
    EpPropose(u64, ValueType),
    /// The epoch instance with this timestamp decided a value.
    EpDecide(u64, ValueType),
    /// A strict majority of participants answered the read phase.
    EpStateCountReached,
    /// A strict majority of participants accepted the written value.
    EpAcceptedCountReached,
    /// Abort the epoch instance with this timestamp.
    EpAbort(u64),
    /// The epoch instance `(epoch, value_timestamp, value)` finished aborting
    /// and hands its last stable state back.
    EpAborted(u64, u64, Value),
    /// The application proposes a value for this instance.
    UcPropose(ValueType),
    /// The instance decided this value.
    UcDecide(ValueType),
    /// Send the message `(from, to, message)` over the point-to-point link.
    PlSend(Node, Node, Message),
    /// The link delivered a message from this peer.
    PlDeliver(Node, Message),
    /// The failure-detector period elapsed.
    EpfdTimeout,
    /// The failure detector starts suspecting this peer.
    EpfdSuspect(Node),
    /// The failure detector stops suspecting this peer.
    EpfdRestore(Node),
    /// The hub announced a new instance with this proposal.
    AppPropose(Node, Message),
    /// The process came up; register with the hub.
    AppInit,
}

/// One event on the bus, keyed by the system it belongs to.
pub enum EventData {
    Internal(String, InternalMessage),
    External(String, Envelope),
}

impl EventData {
    /// The system the event is addressed to.
    pub open spec fn spec_system_id(&self) -> Seq<char> {
        match self {
            EventData::Internal(id, _) => id@,
            EventData::External(id, _) => id@,
        }
    }
}

/// What a process asks its surroundings to do: put an envelope on the wire
/// towards a peer, or fire a timer for a system after a delay.
pub enum Output {
    Send { destination: Node, envelope: Envelope },
    ArmTimer { system_id: String, delay_ms: u64 },
}

/// Whether the event announces a decision.
pub open spec fn is_uc_decide_event(e: EventData) -> bool {
    match e {
        EventData::Internal(_, InternalMessage::UcDecide(_)) => true,
        _ => false,
    }
}

/// Whether the event starts an epoch.
pub open spec fn is_start_epoch_event(e: EventData) -> bool {
    match e {
        EventData::Internal(_, InternalMessage::EcStartEpoch(_, _)) => true,
        _ => false,
    }
}

/// The timestamp of the epoch the event starts.
pub open spec fn start_epoch_event_ts(e: EventData) -> u64
    recommends
        is_start_epoch_event(e),
{
    match e {
        EventData::Internal(_, InternalMessage::EcStartEpoch(_, ts)) => ts,
        _ => 0,
    }
}

/// Whether the event is a bare link delivery.
pub open spec fn is_pl_deliver_event(e: EventData) -> bool {
    match e {
        EventData::Internal(_, InternalMessage::PlDeliver(_, _)) => true,
        _ => false,
    }
}

/// Whether the event signals that a strict majority answered the read phase.
pub open spec fn is_state_quorum_event(e: EventData) -> bool {
    match e {
        EventData::Internal(_, InternalMessage::EpStateCountReached) => true,
        _ => false,
    }
}

/// Whether the event signals that a strict majority acknowledged the write
/// phase.
pub open spec fn is_accept_quorum_event(e: EventData) -> bool {
    match e {
        EventData::Internal(_, InternalMessage::EpAcceptedCountReached) => true,
        _ => false,
    }
}

/// Whether the event broadcasts an epoch's decision.
pub open spec fn is_decided_broadcast_event(e: EventData) -> bool {
    match e {
        EventData::Internal(_, InternalMessage::BebBroadcast(m)) => m.payload is EpDecided,
        _ => false,
    }
}

/// The value a decision broadcast carries.
pub open spec fn decided_broadcast_value(e: EventData) -> Value
    recommends
        is_decided_broadcast_event(e),
{
    match e {
        EventData::Internal(_, InternalMessage::BebBroadcast(m)) => match m.payload {
            Payload::EpDecided { value } => value,
            _ => Value { defined: false, v: 0 },
        },
        _ => Value { defined: false, v: 0 },
    }
}

/// Whether the event delivers a broadcast state report, or a broadcast write
/// that carries no defined value. Such a delivery moves no epoch-consensus
/// counter.
pub open spec fn is_vacuous_ep_broadcast(e: EventData) -> bool {
    match e {
        EventData::Internal(_, InternalMessage::BebDeliver(_, m)) => match m.payload {
            Payload::EpState { value_timestamp: _, value } => !value.defined,
            Payload::EpWrite { value } => !value.defined,
            _ => false,
        },
        _ => false,
    }
}

/// The signals of one instance, keyed to it, in order.
pub open spec fn keyed(system_id: String, ems: Seq<InternalMessage>) -> Seq<EventData> {
    Seq::new(ems.len(), |i: int| EventData::Internal(system_id, ems[i]))
}

/// The signals a batch of instance events carries.
pub open spec fn payloads(events: Seq<EventData>) -> Seq<InternalMessage> {
    Seq::new(
        events.len(),
        |i: int|
            match events[i] {
                EventData::Internal(_, im) => im,
                EventData::External(_, _) => InternalMessage::AppInit,
            },
    )
}

/// Keys each emitted signal with the system it belongs to, in order.
pub fn wrap_events(system_id: &String, ems: Vec<InternalMessage>) -> (r: Vec<EventData>)
    ensures
        r@ == keyed(*system_id, ems@),
        payloads(r@) == ems@,
{
    let ghost orig = ems@;
    let mut ems = ems;
    let mut r: Vec<EventData> = Vec::new();
    while ems.len() > 0
        invariant
            r@.len() + ems@.len() == orig.len(),
            ems@ == orig.skip(r@.len() as int),
            forall|i: int| 0 <= i < r@.len() ==> r@[i] == EventData::Internal(*system_id, orig[i]),
        decreases ems.len(),
    {
        let ghost k = r@.len() as int;
        let m = ems.remove(0);
        proof {
            assert(m == orig[k]);
            assert(ems@ =~= orig.skip(k + 1));
        }
        r.push(EventData::Internal(system_id.clone(), m));
    }
    proof {
        assert(r@ =~= keyed(*system_id, orig));
        assert(payloads(r@) =~= orig);
    }
    r
}

/// A participant in event dispatch: the bus offers every event to every
/// handler, and invokes `handle` exactly on those a handler claims.
pub trait EventHandler {
    fn should_handle_event(&self, event: &EventData) -> bool;

    fn handle(&mut self, event: &EventData) -> (Vec<EventData>, Vec<Output>);
}

} // verus!
