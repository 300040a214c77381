use vstd::prelude::*;

use crate::node::Node;

verus! {

/// The integer values an instance decides on.
pub type ValueType = i32;

/// A tagged integer. Undefined values are ignored as if absent.
#[derive(Clone, Copy, PartialEq, Eq, Structural, Debug)]
pub struct Value {
    pub defined: bool,
    pub v: ValueType,
}

impl Value {
    /// The absent value.
    pub fn undefined() -> (r: Value)
        ensures
            r == (Value { defined: false, v: 0 }),
    {
        Value { defined: false, v: 0 }
    }

    /// A present value.
    pub fn defined(v: ValueType) -> (r: Value)
        ensures
            r == (Value { defined: true, v }),
    {
        Value { defined: true, v }
    }
}

/// Participant descriptor as the hub names it when announcing an instance.
pub struct ProcessId {
    pub owner: String,
    pub host: String,
    pub port: u16,
    pub index: u16,
    pub rank: u16,
}

/// The peer descriptor a hub-announced participant stands for.
pub open spec fn spec_node_of(p: ProcessId) -> Node {
    Node {
        owner: p.owner,
        name: p.owner,
        host: p.host,
        port: p.port,
        id: p.index,
        rank: p.rank,
    }
}

impl ProcessId {
    /// The peer descriptor for this participant. The node's `id` is the
    /// hub-assigned `index` and its display name is the owner's.
    pub fn to_node(&self) -> (node: Node)
        ensures
            node == spec_node_of(*self),
    {
        Node {
            owner: self.owner.clone(),
            name: self.owner.clone(),
            host: self.host.clone(),
            port: self.port,
            id: self.index,
            rank: self.rank,
        }
    }
}

impl Clone for ProcessId {
    fn clone(&self) -> (other: ProcessId)
        ensures
            other == *self,
    {
        ProcessId {
            owner: self.owner.clone(),
            host: self.host.clone(),
            port: self.port,
            index: self.index,
            rank: self.rank,
        }
    }
}

/// Deep copy of a participant list.
pub fn clone_process_ids(v: &Vec<ProcessId>) -> (r: Vec<ProcessId>)
    ensures
        r@ == v@,
{
    let mut r: Vec<ProcessId> = Vec::new();
    let mut i: usize = 0;
    while i < v.len()
        invariant
            i <= v.len(),
            r@ == v@.take(i as int),
        decreases v.len() - i,
    {
        r.push(v[i].clone());
        assert(r@ =~= v@.take(i as int + 1));
        i = i + 1;
    }
    assert(r@ =~= v@);
    r
}

/// Names the protocol module a message belongs to, for demultiplexing on the
/// wire. Epoch-consensus instances are disambiguated by their index within
/// the owning controller.
#[derive(Clone, Copy, PartialEq, Eq, Structural, Debug)]
pub enum AbstractionId {
    App,
    Beb,
    Ec,
    Eld,
    Ep(u64),
    Epfd,
    Pl,
    Uc,
}

/// The discriminated payload of a message.
pub enum Payload {
    AppRegistration { index: u16, owner: String },
    AppPropose { processes: Vec<ProcessId>, value: Value },
    AppDecide { value: Value },
    BebBroadcast(Box<Message>),
    EcNewEpoch { timestamp: u64 },
    EcNack,
    EpRead,
    EpState { value_timestamp: u64, value: Value },
    EpWrite { value: Value },
    EpAccept,
    EpDecided { value: Value },
    EpfdHeartbeatRequest,
    EpfdHeartbeatReply,
}

/// A structured message as the modules exchange it. The link layer wraps it
/// in an [`Envelope`] before it goes on the wire.
pub struct Message {
    pub system_id: String,
    pub abstraction_id: AbstractionId,
    pub payload: Payload,
}

/// Payload equality up to representation: participant lists are compared
/// element by element, carried messages by [`msg_equiv`].
pub open spec fn payload_equiv(a: Payload, b: Payload) -> bool
    decreases a,
{
    match (a, b) {
        (
            Payload::AppPropose { processes: p1, value: v1 },
            Payload::AppPropose { processes: p2, value: v2 },
        ) => p1@ == p2@ && v1 == v2,
        (Payload::BebBroadcast(m1), Payload::BebBroadcast(m2)) => msg_equiv(*m1, *m2),
        _ => a == b,
    }
}

/// Message equality up to representation: system ids are compared as
/// character sequences and payloads by [`payload_equiv`]. Copying a message
/// preserves exactly this relation.
pub open spec fn msg_equiv(a: Message, b: Message) -> bool
    decreases a,
{
    &&& a.system_id@ == b.system_id@
    &&& a.abstraction_id == b.abstraction_id
    &&& payload_equiv(a.payload, b.payload)
}

/// A message is equivalent to itself.
pub proof fn lemma_msg_equiv_reflexive(m: Message)
    ensures
        msg_equiv(m, m),
    decreases m,
{
    match m.payload {
        Payload::BebBroadcast(inner) => {
            lemma_msg_equiv_reflexive(*inner);
        },
        _ => {},
    }
}

/// Message equivalence is transitive.
pub proof fn lemma_msg_equiv_transitive(a: Message, b: Message, c: Message)
    requires
        msg_equiv(a, b),
        msg_equiv(b, c),
    ensures
        msg_equiv(a, c),
    decreases a,
{
    match (a.payload, b.payload, c.payload) {
        (Payload::BebBroadcast(x), Payload::BebBroadcast(y), Payload::BebBroadcast(z)) => {
            lemma_msg_equiv_transitive(*x, *y, *z);
        },
        _ => {},
    }
}

/// An equivalent copy of a broadcast wrapper wraps an equivalent message.
pub proof fn lemma_equiv_wrapper(a: Message, b: Message)
    requires
        msg_equiv(a, b),
        a.payload is BebBroadcast,
    ensures
        b.payload is BebBroadcast,
        msg_equiv(*a.payload->BebBroadcast_0, *b.payload->BebBroadcast_0),
{
    if b.payload is BebBroadcast {
        if a.payload == b.payload {
            lemma_msg_equiv_reflexive(*a.payload->BebBroadcast_0);
        }
    }
}

impl Clone for Message {
    fn clone(&self) -> (other: Message)
        ensures
            msg_equiv(*self, other),
        decreases *self,
    {
        Message {
            system_id: self.system_id.clone(),
            abstraction_id: self.abstraction_id,
            payload: match &self.payload {
                Payload::AppRegistration { index, owner } => Payload::AppRegistration {
                    index: *index,
                    owner: owner.clone(),
                },
                Payload::AppPropose { processes, value } => Payload::AppPropose {
                    processes: clone_process_ids(processes),
                    value: *value,
                },
                Payload::AppDecide { value } => Payload::AppDecide { value: *value },
                Payload::BebBroadcast(inner) => Payload::BebBroadcast(Box::new((**inner).clone())),
                Payload::EcNewEpoch { timestamp } => Payload::EcNewEpoch { timestamp: *timestamp },
                Payload::EcNack => Payload::EcNack,
                Payload::EpRead => Payload::EpRead,
                Payload::EpState { value_timestamp, value } => Payload::EpState {
                    value_timestamp: *value_timestamp,
                    value: *value,
                },
                Payload::EpWrite { value } => Payload::EpWrite { value: *value },
                Payload::EpAccept => Payload::EpAccept,
                Payload::EpDecided { value } => Payload::EpDecided { value: *value },
                Payload::EpfdHeartbeatRequest => Payload::EpfdHeartbeatRequest,
                Payload::EpfdHeartbeatReply => Payload::EpfdHeartbeatReply,
            },
        }
    }
}

/// The wire envelope around one message: a fresh tag, the target system, and
/// the sender's listening address, by which the receiver identifies the peer.
pub struct Envelope {
    pub uuid: String,
    pub system_id: String,
    pub sender_host: String,
    pub sender_port: u16,
    pub message: Message,
}

} // verus!
