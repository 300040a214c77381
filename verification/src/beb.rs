use vstd::prelude::*;

use crate::event::InternalMessage;
use crate::message::AbstractionId;
use crate::message::Message;
use crate::message::Payload;
use crate::message::msg_equiv;
use crate::node::Node;
use crate::node::NodeInfo;

verus! {

/// Whether `m` asks the link to carry a copy of `inner`, wrapped for
/// broadcast, from `from` to `to`.
pub open spec fn is_wrapped_send(
    m: InternalMessage,
    from: Node,
    to: Node,
    system_id: String,
    inner: Message,
) -> bool {
    match m {
        InternalMessage::PlSend(f, t, w) => {
            &&& f == from
            &&& t == to
            &&& w.system_id == system_id
            &&& w.abstraction_id == AbstractionId::Beb
            &&& match w.payload {
                Payload::BebBroadcast(b) => msg_equiv(inner, *b),
                _ => false,
            }
        },
        _ => false,
    }
}

/// Everything a broadcast does: one wrapped copy of the message is handed to
/// the link for every participant, in participant order.
pub open spec fn broadcast_post(
    system_id: String,
    info: NodeInfo,
    message: Message,
    ems: Seq<InternalMessage>,
) -> bool {
    &&& ems.len() == info.nodes@.len()
    &&& forall|i: int|
        0 <= i < ems.len() ==> is_wrapped_send(
            #[trigger] ems[i],
            info.current_node,
            info.nodes@[i],
            system_id,
            message,
        )
}

/// Everything delivering does: a broadcast wrapper is unwrapped and its
/// carried message handed on; anything else is ignored.
pub open spec fn deliver_post(sender: Node, msg: Message, ems: Seq<InternalMessage>) -> bool {
    match msg.payload {
        Payload::BebBroadcast(inner) => ems == seq![InternalMessage::BebDeliver(sender, *inner)],
        _ => ems == Seq::<InternalMessage>::empty(),
    }
}

/// Best-effort broadcast: one shot of a message to every participant,
/// including the sender, over the point-to-point link. Reliability is the
/// sender's burden alone; if the sender crashes mid-broadcast, peers may
/// receive inconsistently.
pub struct BestEffortBroadcast {
    pub system_id: String,
}

impl BestEffortBroadcast {
    pub fn new(system_id: String) -> (r: BestEffortBroadcast)
        ensures
            r.system_id == system_id,
    {
        BestEffortBroadcast { system_id }
    }

    /// Asks the link to carry one wrapped copy of `message` to every
    /// participant, in participant order.
    pub fn broadcast(&self, info: &NodeInfo, message: &Message) -> (r: Vec<InternalMessage>)
        ensures
            broadcast_post(self.system_id, *info, *message, r@),
    {
        let mut r: Vec<InternalMessage> = Vec::new();
        let mut i: usize = 0;
        while i < info.nodes.len()
            invariant
                i <= info.nodes.len(),
                r@.len() == i,
                forall|j: int|
                    0 <= j < i ==> is_wrapped_send(
                        #[trigger] r@[j],
                        info.current_node,
                        info.nodes@[j],
                        self.system_id,
                        *message,
                    ),
            decreases info.nodes.len() - i,
        {
            let wrapper = Message {
                system_id: self.system_id.clone(),
                abstraction_id: AbstractionId::Beb,
                payload: Payload::BebBroadcast(Box::new(message.clone())),
            };
            r.push(InternalMessage::PlSend(
                info.current_node.clone(),
                info.nodes[i].clone(),
                wrapper,
            ));
            i = i + 1;
        }
        r
    }

    /// The link delivered a broadcast wrapper: unwrap it and hand the carried
    /// message on. Anything that is not a broadcast wrapper is not this
    /// module's business.
    pub fn deliver(&self, sender: &Node, msg: Message) -> (r: Vec<InternalMessage>)
        ensures
            deliver_post(*sender, msg, r@),
    {
        let mut r: Vec<InternalMessage> = Vec::new();
        match msg.payload {
            Payload::BebBroadcast(inner) => {
                r.push(InternalMessage::BebDeliver(sender.clone(), *inner));
            },
            _ => {},
        }
        r
    }
}

} // verus!
