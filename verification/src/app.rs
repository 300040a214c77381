use vstd::prelude::*;

use crate::event::EventData;
use crate::event::InternalMessage;
use crate::message::AbstractionId;
use crate::message::Message;
use crate::message::Payload;
use crate::message::Value;
use crate::message::ValueType;
use crate::message::spec_node_of;
use crate::node::Node;
use crate::node::NodeInfo;
use crate::sys::System;

verus! {

/// The message by which a process announces itself to the hub.
pub open spec fn registration_message(a: App) -> Message {
    Message {
        system_id: a.app_system_id,
        abstraction_id: AbstractionId::App,
        payload: Payload::AppRegistration { index: a.current_node.id, owner: a.current_node.owner },
    }
}

/// The message by which a process reports a decision to the hub.
pub open spec fn decide_message(a: App, system_id: String, v: ValueType) -> Message {
    Message {
        system_id,
        abstraction_id: AbstractionId::App,
        payload: Payload::AppDecide { value: Value { defined: true, v } },
    }
}

/// The value a hub announcement proposes.
pub open spec fn proposed_value(msg: Message) -> ValueType {
    match msg.payload {
        Payload::AppPropose { processes: _, value } => value.v,
        _ => 0,
    }
}

/// The participants a hub announcement names, as peer descriptors.
pub open spec fn proposed_nodes(msg: Message) -> Seq<Node> {
    match msg.payload {
        Payload::AppPropose { processes, value: _ } => processes@.map_values(
            |p: crate::message::ProcessId| spec_node_of(p),
        ),
        _ => Seq::<Node>::empty(),
    }
}

/// The application shim: it registers the process with the hub, spins up a
/// full protocol stack for every instance the hub announces with a defined
/// value, and reports each decision back to the hub.
pub struct App {
    pub current_node: Node,
    pub hub: Node,
    pub app_system_id: String,
}

impl App {
    pub fn new(current_node: Node, hub: Node, app_system_id: String) -> (r: App)
        ensures
            r.current_node == current_node,
            r.hub == hub,
            r.app_system_id == app_system_id,
    {
        App { current_node, hub, app_system_id }
    }

    /// The process came up: send the hub a registration.
    pub fn init(&self) -> (r: Vec<EventData>)
        ensures
            r@ == seq![
                EventData::Internal(
                    self.app_system_id,
                    InternalMessage::PlSend(
                        self.current_node,
                        self.hub,
                        registration_message(*self),
                    ),
                ),
            ],
    {
        let msg = Message {
            system_id: self.app_system_id.clone(),
            abstraction_id: AbstractionId::App,
            payload: Payload::AppRegistration {
                index: self.current_node.id,
                owner: self.current_node.owner.clone(),
            },
        };
        let mut r: Vec<EventData> = Vec::new();
        r.push(EventData::Internal(
            self.app_system_id.clone(),
            InternalMessage::PlSend(self.current_node.clone(), self.hub.clone(), msg),
        ));
        r
    }

    /// The hub announced an instance. If it proposes a defined value for a
    /// non-empty participant set, a full stack for that instance comes up and
    /// the value is proposed into it; an undefined value or an empty set
    /// spins up nothing and proposes nothing.
    pub fn on_propose(&self, msg: &Message) -> (r: (Option<System>, Vec<EventData>))
        ensures
            ({
                match msg.payload {
                    Payload::AppPropose { processes, value } => {
                        if value.defined && processes@.len() >= 1 {
                            &&& match r.0 {
                                Some(sys) => crate::sys::fresh_system(
                                    sys,
                                    self.current_node,
                                    self.hub,
                                    processes@.map_values(
                                        |p: crate::message::ProcessId| spec_node_of(p),
                                    ),
                                    msg.system_id,
                                ),
                                None => false,
                            }
                            &&& r.1@ == seq![
                                EventData::Internal(
                                    msg.system_id,
                                    InternalMessage::UcPropose(value.v),
                                ),
                            ]
                        } else {
                            r.0 is None && r.1@ == Seq::<EventData>::empty()
                        }
                    },
                    _ => r.0 is None && r.1@ == Seq::<EventData>::empty(),
                }
            }),
    {
        match &msg.payload {
            Payload::AppPropose { processes, value } => {
                if value.defined && processes.len() >= 1 {
                    let mut nodes: Vec<Node> = Vec::new();
                    let mut i: usize = 0;
                    while i < processes.len()
                        invariant
                            i <= processes.len(),
                            nodes@ == processes@.take(i as int).map_values(
                                |p: crate::message::ProcessId| spec_node_of(p),
                            ),
                        decreases processes.len() - i,
                    {
                        nodes.push(processes[i].to_node());
                        proof {
                            assert(nodes@ =~= processes@.take(i as int + 1).map_values(
                                |p: crate::message::ProcessId| spec_node_of(p),
                            ));
                        }
                        i = i + 1;
                    }
                    proof {
                        assert(processes@.take(processes@.len() as int) =~= processes@);
                    }
                    let node_info = NodeInfo {
                        current_node: self.current_node.clone(),
                        hub: self.hub.clone(),
                        nodes,
                    };
                    let sys = System::new(node_info, msg.system_id.clone());
                    let mut events: Vec<EventData> = Vec::new();
                    events.push(EventData::Internal(
                        msg.system_id.clone(),
                        InternalMessage::UcPropose(value.v),
                    ));
                    (Some(sys), events)
                } else {
                    (None, Vec::new())
                }
            },
            _ => { (None, Vec::new()) },
        }
    }

    /// An instance decided: report the value to the hub under the instance's
    /// system id.
    pub fn on_decide(&self, system_id: &String, v: ValueType) -> (r: Vec<EventData>)
        ensures
            r@ == seq![
                EventData::Internal(
                    *system_id,
                    InternalMessage::PlSend(
                        self.current_node,
                        self.hub,
                        decide_message(*self, *system_id, v),
                    ),
                ),
            ],
    {
        let msg = Message {
            system_id: system_id.clone(),
            abstraction_id: AbstractionId::App,
            payload: Payload::AppDecide { value: Value::defined(v) },
        };
        let mut r: Vec<EventData> = Vec::new();
        r.push(EventData::Internal(
            system_id.clone(),
            InternalMessage::PlSend(self.current_node.clone(), self.hub.clone(), msg),
        ));
        r
    }
}

} // verus!
