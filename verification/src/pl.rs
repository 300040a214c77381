use vstd::prelude::*;

use crate::event::EventData;
use crate::event::InternalMessage;
use crate::event::Output;
use crate::message::Envelope;
use crate::message::Message;
use crate::message::Payload;
use crate::message::payload_equiv;
use crate::node::Node;
use crate::node::NodeInfo;

verus! {

/// Relies on `uuid::Uuid::new_v4` and its hyphenated rendering through
/// `Display`: a freshly drawn random tag, always 36 characters long.
#[verifier::external_body]
fn fresh_uuid() -> (r: String)
    ensures
        r@.len() == 36,
{
    uuid::Uuid::new_v4().to_string()
}

/// The first participant listening on `host:port`, if any.
pub open spec fn find_sender(nodes: Seq<Node>, host: Seq<char>, port: u16) -> Option<Node>
    decreases nodes.len(),
{
    if nodes.len() == 0 {
        None
    } else if nodes[0].host@ == host && nodes[0].port == port {
        Some(nodes[0])
    } else {
        find_sender(nodes.drop_first(), host, port)
    }
}

pub proof fn lemma_find_sender_hit(nodes: Seq<Node>, host: Seq<char>, port: u16, i: int)
    requires
        0 <= i < nodes.len(),
        nodes[i].host@ == host && nodes[i].port == port,
        forall|j: int| 0 <= j < i ==> !(nodes[j].host@ == host && nodes[j].port == port),
    ensures
        find_sender(nodes, host, port) == Some(nodes[i]),
    decreases i,
{
    if i > 0 {
        lemma_find_sender_hit(nodes.drop_first(), host, port, i - 1);
        assert(forall|j: int| 1 <= j < nodes.len() ==> nodes[j] == nodes.drop_first()[j - 1]);
    }
}

pub proof fn lemma_find_sender_miss(nodes: Seq<Node>, host: Seq<char>, port: u16)
    requires
        forall|j: int| 0 <= j < nodes.len() ==> !(nodes[j].host@ == host && nodes[j].port == port),
    ensures
        find_sender(nodes, host, port) is None,
    decreases nodes.len(),
{
    if nodes.len() > 0 {
        lemma_find_sender_miss(nodes.drop_first(), host, port);
        assert(forall|j: int| 1 <= j < nodes.len() ==> nodes[j] == nodes.drop_first()[j - 1]);
    }
}

/// Index of the first participant listening on `host:port`, if any.
fn find_sender_index(nodes: &Vec<Node>, host: &String, port: u16) -> (r: Option<usize>)
    ensures
        match r {
            Some(i) => i < nodes@.len() && find_sender(nodes@, host@, port) == Some(nodes@[i as int]),
            None => find_sender(nodes@, host@, port) is None,
        },
{
    let mut i: usize = 0;
    while i < nodes.len()
        invariant
            i <= nodes.len(),
            forall|j: int| 0 <= j < i ==> !(nodes@[j].host@ == host@ && nodes@[j].port == port),
        decreases nodes.len() - i,
    {
        if nodes[i].host == *host && nodes[i].port == port {
            proof {
                lemma_find_sender_hit(nodes@, host@, port, i as int);
            }
            return Some(i);
        }
        i = i + 1;
    }
    proof {
        lemma_find_sender_miss(nodes@, host@, port);
    }
    None
}

/// Whether `o` puts `msg` on the wire towards `dest`, wrapped in an envelope
/// that carries the sender's listening address and a fresh tag.
pub open spec fn is_outbound(o: Output, from: Node, dest: Node, msg: Message) -> bool {
    match o {
        Output::Send { destination, envelope } => {
            &&& destination == dest
            &&& envelope.uuid@.len() == 36
            &&& envelope.system_id@ == msg.system_id@
            &&& envelope.sender_host == from.host
            &&& envelope.sender_port == from.port
            &&& crate::message::msg_equiv(msg, envelope.message)
        },
        _ => false,
    }
}

/// An envelope outbound for an equivalent copy of a message is outbound for
/// the message itself.
pub proof fn lemma_outbound_equiv(o: Output, from: Node, dest: Node, a: Message, b: Message)
    requires
        crate::message::msg_equiv(a, b),
        is_outbound(o, from, dest, b),
    ensures
        is_outbound(o, from, dest, a),
{
    match o {
        Output::Send { destination: _, envelope } => {
            crate::message::lemma_msg_equiv_transitive(a, b, envelope.message);
        },
        Output::ArmTimer { .. } => {},
    }
}

/// Everything surfacing one inbound envelope does: a known sender's message
/// is handed on under the envelope's system id, an instance announcement to
/// the application and anything else to the protocol stack; an unknown
/// sender's envelope is dropped.
pub open spec fn on_external_post(info: NodeInfo, env: Envelope, events: Seq<EventData>) -> bool {
    match find_sender(info.nodes@, env.sender_host@, env.sender_port) {
        None => events == Seq::<EventData>::empty(),
        Some(sender) => {
            &&& events.len() == 1
            &&& match events[0] {
                EventData::Internal(sys, im) => {
                    &&& sys == env.system_id
                    &&& match im {
                        InternalMessage::AppPropose(s, m) => s == sender
                            && env.message.payload is AppPropose && inherits_system(
                            env.message,
                            env.system_id,
                            m,
                        ),
                        InternalMessage::PlDeliver(s, m) => s == sender && !(
                        env.message.payload is AppPropose) && inherits_system(
                            env.message,
                            env.system_id,
                            m,
                        ),
                        _ => false,
                    }
                },
                _ => false,
            }
        },
    }
}

/// Whether `m` is `orig` readdressed to the system `system_id`, as the link
/// hands an inbound message on.
pub open spec fn inherits_system(orig: Message, system_id: String, m: Message) -> bool {
    &&& m.system_id == system_id
    &&& m.abstraction_id == orig.abstraction_id
    &&& payload_equiv(orig.payload, m.payload)
}

/// The point-to-point link. Outbound, it wraps each message in a network
/// envelope naming the sender's listening address; inbound, it identifies
/// the sending peer by that address and surfaces the carried message, routing
/// instance announcements to the application and everything else to the
/// protocol stack. Messages from unknown addresses are dropped.
pub struct PerfectLink {
}

impl PerfectLink {
    pub fn new() -> PerfectLink {
        PerfectLink {  }
    }

    /// Puts one message on the wire.
    pub fn on_send(&self, from: &Node, dest: &Node, msg: Message) -> (r: Output)
        ensures
            is_outbound(r, *from, *dest, msg),
    {
        proof {
            crate::message::lemma_msg_equiv_reflexive(msg);
        }
        let envelope = Envelope {
            uuid: fresh_uuid(),
            system_id: msg.system_id.clone(),
            sender_host: from.host.clone(),
            sender_port: from.port,
            message: msg,
        };
        Output::Send { destination: dest.clone(), envelope }
    }

    /// An envelope arrived from the wire. If its sender address belongs to a
    /// known peer, the carried message is surfaced under the envelope's
    /// system id: an instance announcement as an application event, anything
    /// else as a link delivery. Unknown senders are ignored.
    pub fn on_external(&self, info: &NodeInfo, env: &Envelope) -> (r: Vec<EventData>)
        ensures
            on_external_post(*info, *env, r@),
    {
        let sender = find_sender_index(&info.nodes, &env.sender_host, env.sender_port);
        let mut r: Vec<EventData> = Vec::new();
        match sender {
            None => {},
            Some(idx) => {
                let node = &info.nodes[idx];
                let mut inner = env.message.clone();
                inner.system_id = env.system_id.clone();
                let is_propose = match &inner.payload {
                    Payload::AppPropose { .. } => true,
                    _ => false,
                };
                let im = if is_propose {
                    InternalMessage::AppPropose(node.clone(), inner)
                } else {
                    InternalMessage::PlDeliver(node.clone(), inner)
                };
                r.push(EventData::Internal(env.system_id.clone(), im));
            },
        }
        r
    }
}

} // verus!
