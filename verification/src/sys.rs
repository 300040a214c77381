use vstd::prelude::*;

use crate::beb::BestEffortBroadcast;
use crate::ec::EpochChange;
use crate::eld::EventualLeaderDetector;
use crate::ep::EpochConsensus;
use crate::ep::EpochConsensusState;
use crate::epfd::EvenutallyPerfectFailureDetector;
use crate::event::EventData;
use crate::event::EventHandler;
use crate::event::InternalMessage;
use crate::event::Output;
use crate::event::keyed;
use crate::event::payloads;
use crate::event::wrap_events;
use crate::message::Payload;
use crate::message::Value;
use crate::node::Node;
use crate::node::NodeId;
use crate::node::NodeInfo;
use crate::uc::UniformConsensus;
use crate::uc::UniformConsensusState;

verus! {

/// One consensus instance: the full protocol stack of one system, sharing
/// the instance's participant snapshot. The stack holds exactly one live
/// epoch-consensus instance; the controller retires it on every epoch change
/// and puts the next one in its place.
pub struct System {
    pub system_id: String,
    pub node_info: NodeInfo,
    pub epfd: EvenutallyPerfectFailureDetector,
    pub eld: EventualLeaderDetector,
    pub beb: BestEffortBroadcast,
    pub ec: EpochChange,
    pub ep: EpochConsensus,
    pub uc: UniformConsensus,
}

/// A freshly built instance for the participants `nodes`: every module in
/// its initial state, the first participant as the initial leader, and the
/// first epoch at timestamp zero holding no written value.
pub open spec fn fresh_system(
    r: System,
    current: Node,
    hub: Node,
    nodes: Seq<Node>,
    system_id: String,
) -> bool {
    &&& r.system_id == system_id
    &&& r.node_info.current_node == current
    &&& r.node_info.hub == hub
    &&& r.node_info.nodes@ == nodes
    &&& r.epfd.alive@ == nodes
    &&& r.epfd.suspected@ == Seq::<Node>::empty()
    &&& r.epfd.delay == crate::epfd::DELTA
    &&& r.epfd.system_id == system_id
    &&& r.eld.suspected@ == Seq::<Node>::empty()
    &&& r.eld.leader is None
    &&& r.beb.system_id == system_id
    &&& r.ec.last_ts == 0
    &&& r.ec.ts == current.rank as u64
    &&& r.ec.trusted == nodes[0]
    &&& r.ec.system_id == system_id
    &&& r.ep.state == (EpochConsensusState {
        value_timestamp: 0,
        value: Value { defined: false, v: 0 },
    })
    &&& r.ep.leader == nodes[0]
    &&& r.ep.epoch_ts == 0
    &&& r.ep.system_id == system_id
    &&& r.ep.index == 0
    &&& !r.ep.aborted
    &&& r.ep.accepted == 0
    &&& r.ep.states@ == Seq::<(NodeId, EpochConsensusState)>::empty()
    &&& r.ep.temporary_value == (Value { defined: false, v: 0 })
    &&& !r.uc.proposed
    &&& !r.uc.decided
    &&& r.uc.value is None
    &&& r.uc.state == (UniformConsensusState { epoch_timestamp: 0, leader: Some(nodes[0]) })
    &&& r.uc.new_state == (UniformConsensusState { epoch_timestamp: 0, leader: None::<Node> })
    &&& r.uc.system_id == system_id
    &&& r.uc.ep_index == 0
}

/// The instance neither changed nor spoke.
pub open spec fn no_effect(
    pre: System,
    post: System,
    events: Seq<EventData>,
    outputs: Seq<Output>,
) -> bool {
    &&& post == pre
    &&& events == Seq::<EventData>::empty()
    &&& outputs == Seq::<Output>::empty()
}

/// Everything dispatching one event through an instance's stack does: a case
/// for each signal, each handing the event to the one module that consumes
/// it, framing every other module, and keying the module's emissions to the
/// instance. Events this instance does not consume leave it unchanged and
/// silent.
pub open spec fn handle_post(
    pre: System,
    post: System,
    event: EventData,
    events: Seq<EventData>,
    outputs: Seq<Output>,
) -> bool {
    match event {
        EventData::Internal(_, im) => {
            let ems = payloads(events);
            match im {
                InternalMessage::EldTrust(node) => {
                    &&& post == (System { ec: post.ec, ..pre })
                    &&& events == keyed(pre.system_id, ems)
                    &&& crate::ec::eld_trust_post(pre.ec, post.ec, pre.node_info, node, ems)
                    &&& outputs == Seq::<Output>::empty()
                },
                InternalMessage::BebBroadcast(msg) => {
                    &&& post == pre
                    &&& events == keyed(pre.system_id, ems)
                    &&& crate::beb::broadcast_post(pre.beb.system_id, pre.node_info, msg, ems)
                    &&& outputs == Seq::<Output>::empty()
                },
                InternalMessage::BebDeliver(from, msg) => match msg.payload {
                    Payload::EcNewEpoch { timestamp } => {
                        &&& post == (System { ec: post.ec, ..pre })
                        &&& events == keyed(pre.system_id, ems)
                        &&& crate::ec::new_epoch_post(
                            pre.ec,
                            post.ec,
                            pre.node_info,
                            from,
                            timestamp,
                            ems,
                        )
                        &&& outputs == Seq::<Output>::empty()
                    },
                    Payload::EpRead => {
                        &&& post == pre
                        &&& events == keyed(pre.system_id, ems)
                        &&& crate::ep::read_reply_post(pre.ep, pre.node_info, from, ems)
                        &&& outputs == Seq::<Output>::empty()
                    },
                    Payload::EpWrite { value } => {
                        &&& post == (System { ep: post.ep, ..pre })
                        &&& events == keyed(pre.system_id, ems)
                        &&& crate::ep::write_post(pre.ep, post.ep, pre.node_info, from, value, ems)
                        &&& outputs == Seq::<Output>::empty()
                    },
                    Payload::EpDecided { value } => {
                        &&& post == pre
                        &&& events == keyed(pre.system_id, ems)
                        &&& crate::ep::decided_post(pre.ep, value, ems)
                        &&& outputs == Seq::<Output>::empty()
                    },
                    _ => no_effect(pre, post, events, outputs),
                },
                InternalMessage::EcStartEpoch(leader, timestamp) => {
                    &&& post == (System { uc: post.uc, ..pre })
                    &&& events == keyed(pre.system_id, ems)
                    &&& crate::uc::start_epoch_post(
                        pre.uc,
                        post.uc,
                        pre.node_info,
                        leader,
                        timestamp,
                        ems,
                    )
                    &&& outputs == Seq::<Output>::empty()
                },
                InternalMessage::EpPropose(ts, v) => {
                    &&& post == (System { ep: post.ep, ..pre })
                    &&& events == keyed(pre.system_id, ems)
                    &&& crate::ep::propose_post(pre.ep, post.ep, pre.node_info, ts, v, ems)
                    &&& outputs == Seq::<Output>::empty()
                },
                InternalMessage::EpDecide(ts, v) => {
                    &&& post == (System { uc: post.uc, ..pre })
                    &&& events == keyed(pre.system_id, ems)
                    &&& crate::uc::decide_post(pre.uc, post.uc, ts, v, ems)
                    &&& outputs == Seq::<Output>::empty()
                },
                InternalMessage::EpStateCountReached => {
                    &&& post == (System { ep: post.ep, ..pre })
                    &&& events == keyed(pre.system_id, ems)
                    &&& crate::ep::read_complete_post(pre.ep, post.ep, pre.node_info, ems)
                    &&& outputs == Seq::<Output>::empty()
                },
                InternalMessage::EpAcceptedCountReached => {
                    &&& post == (System { ep: post.ep, ..pre })
                    &&& events == keyed(pre.system_id, ems)
                    &&& crate::ep::write_complete_post(pre.ep, post.ep, pre.node_info, ems)
                    &&& outputs == Seq::<Output>::empty()
                },
                InternalMessage::EpAbort(ts) => {
                    &&& post == (System { ep: post.ep, ..pre })
                    &&& events == keyed(pre.system_id, ems)
                    &&& crate::ep::abort_post(pre.ep, post.ep, ts, ems)
                    &&& outputs == Seq::<Output>::empty()
                },
                InternalMessage::EpAborted(epoch_ts, value_ts, value) => {
                    let acts = pre.uc.state.epoch_timestamp == epoch_ts
                        && pre.uc.new_state.leader is Some;
                    &&& post == (System { uc: post.uc, ep: post.ep, ..pre })
                    &&& events == keyed(pre.system_id, ems)
                    &&& crate::uc::aborted_post(
                        pre.uc,
                        post.uc,
                        pre.node_info,
                        epoch_ts,
                        value_ts,
                        value,
                        ems,
                        if acts {
                            Some(post.ep)
                        } else {
                            None::<EpochConsensus>
                        },
                    )
                    &&& (!acts ==> post.ep == pre.ep)
                    &&& outputs == Seq::<Output>::empty()
                },
                InternalMessage::UcPropose(v) => {
                    &&& post == (System { uc: post.uc, ..pre })
                    &&& events == keyed(pre.system_id, ems)
                    &&& crate::uc::uc_propose_post(pre.uc, post.uc, pre.node_info, v, ems)
                    &&& outputs == Seq::<Output>::empty()
                },
                InternalMessage::PlDeliver(from, msg) => match msg.payload {
                    Payload::BebBroadcast(inner) => {
                        &&& post == pre
                        &&& events == keyed(pre.system_id, ems)
                        &&& ems.len() == 1
                        &&& match ems[0] {
                            InternalMessage::BebDeliver(s, unwrapped) => s == from
                                && crate::message::msg_equiv(*inner, unwrapped),
                            _ => false,
                        }
                        &&& outputs == Seq::<Output>::empty()
                    },
                    Payload::EpfdHeartbeatRequest => {
                        &&& post == pre
                        &&& events == keyed(pre.system_id, ems)
                        &&& crate::epfd::reply_post(pre.epfd, pre.node_info, from, ems)
                        &&& outputs == Seq::<Output>::empty()
                    },
                    Payload::EpfdHeartbeatReply => {
                        &&& post == (System { epfd: post.epfd, ..pre })
                        &&& crate::epfd::got_reply_post(pre.epfd, post.epfd, from)
                        &&& events == Seq::<EventData>::empty()
                        &&& outputs == Seq::<Output>::empty()
                    },
                    Payload::EcNack => {
                        &&& post == (System { ec: post.ec, ..pre })
                        &&& events == keyed(pre.system_id, ems)
                        &&& crate::ec::nack_post(pre.ec, post.ec, pre.node_info, ems)
                        &&& outputs == Seq::<Output>::empty()
                    },
                    Payload::EpState { value_timestamp, value } => {
                        &&& post == (System { ep: post.ep, ..pre })
                        &&& events == keyed(pre.system_id, ems)
                        &&& crate::ep::state_post(
                            pre.ep,
                            post.ep,
                            pre.node_info,
                            from,
                            value_timestamp,
                            value,
                            ems,
                        )
                        &&& outputs == Seq::<Output>::empty()
                    },
                    Payload::EpAccept => {
                        &&& post == (System { ep: post.ep, ..pre })
                        &&& events == keyed(pre.system_id, ems)
                        &&& crate::ep::accept_post(pre.ep, post.ep, pre.node_info, ems)
                        &&& outputs == Seq::<Output>::empty()
                    },
                    _ => no_effect(pre, post, events, outputs),
                },
                InternalMessage::EpfdTimeout => {
                    &&& post == (System { epfd: post.epfd, ..pre })
                    &&& events == keyed(pre.system_id, ems)
                    &&& outputs.len() == 1
                    &&& crate::epfd::timeout_post(pre.epfd, post.epfd, pre.node_info, ems, outputs[0])
                },
                InternalMessage::EpfdSuspect(node) => {
                    &&& post == (System { eld: post.eld, ..pre })
                    &&& events == keyed(pre.system_id, ems)
                    &&& crate::eld::suspect_post(pre.eld, post.eld, pre.node_info.nodes@, node, ems)
                    &&& outputs == Seq::<Output>::empty()
                },
                InternalMessage::EpfdRestore(node) => {
                    &&& post == (System { eld: post.eld, ..pre })
                    &&& events == keyed(pre.system_id, ems)
                    &&& crate::eld::restore_post(pre.eld, post.eld, pre.node_info.nodes@, node, ems)
                    &&& outputs == Seq::<Output>::empty()
                },
                InternalMessage::UcDecide(_) => no_effect(pre, post, events, outputs),
                InternalMessage::PlSend(_, _, _) => no_effect(pre, post, events, outputs),
                InternalMessage::AppPropose(_, _) => no_effect(pre, post, events, outputs),
                InternalMessage::AppInit => no_effect(pre, post, events, outputs),
            }
        },
        EventData::External(_, _) => no_effect(pre, post, events, outputs),
    }
}

impl System {
    pub fn new(node_info: NodeInfo, system_id: String) -> (r: System)
        requires
            node_info.wf(),
        ensures
            fresh_system(
                r,
                node_info.current_node,
                node_info.hub,
                node_info.nodes@,
                system_id,
            ),
    {
        let epfd = EvenutallyPerfectFailureDetector::new(&node_info, system_id.clone());
        let eld = EventualLeaderDetector::new();
        let beb = BestEffortBroadcast::new(system_id.clone());
        let ec = EpochChange::new(&node_info, system_id.clone());
        let ep = EpochConsensus::new(
            EpochConsensusState::new(0, Value::undefined()),
            ec.trusted.clone(),
            0,
            system_id.clone(),
            0,
        );
        let uc = UniformConsensus::new(ec.trusted.clone(), system_id.clone());
        System { system_id, node_info, epfd, eld, beb, ec, ep, uc }
    }

    /// Arms the instance's first failure-detector timer.
    pub fn init(&self) -> (r: Output)
        ensures
            r == (Output::ArmTimer { system_id: self.epfd.system_id, delay_ms: self.epfd.delay }),
    {
        self.epfd.init()
    }

    /// Whether the event is addressed to this instance.
    pub fn should_handle(&self, event: &EventData) -> (r: bool)
        ensures
            r == (event is Internal && event.spec_system_id() == self.system_id@),
    {
        match event {
            EventData::Internal(system_id, _) => *system_id == self.system_id,
            EventData::External(_, _) => false,
        }
    }

    /// Dispatches one event through the stack and returns the follow-up
    /// events and outputs it produced.
    ///
    /// [`handle_post`] fixes the dispatch case by case; the remaining clauses
    /// state the safety laws every dispatch preserves: the epoch-change
    /// timestamp of started epochs only grows and equals the new `last_ts`;
    /// the decision flag only latches, a decision is announced only by the
    /// step that latches it, and one step announces at most one decision; and
    /// a bare link delivery never changes the controller, the elected leader,
    /// or the last started epoch.
    pub fn handle(&mut self, event: &EventData) -> (r: (Vec<EventData>, Vec<Output>))
        ensures
            handle_post(*old(self), *final(self), *event, r.0@, r.1@),
            final(self).system_id == old(self).system_id,
            final(self).node_info.current_node == old(self).node_info.current_node,
            final(self).node_info.hub == old(self).node_info.hub,
            final(self).node_info.nodes@ == old(self).node_info.nodes@,
            old(self).ec.last_ts <= final(self).ec.last_ts,
            forall|i: int|
                0 <= i < r.0@.len() && crate::event::is_start_epoch_event(#[trigger] r.0@[i])
                    ==> crate::event::start_epoch_event_ts(r.0@[i]) == final(self).ec.last_ts
                    && old(self).ec.last_ts < crate::event::start_epoch_event_ts(r.0@[i]),
            old(self).uc.decided ==> final(self).uc.decided,
            forall|i: int|
                0 <= i < r.0@.len() && crate::event::is_uc_decide_event(#[trigger] r.0@[i]) ==> !old(self).uc.decided && final(self).uc.decided,
            forall|i: int, j: int|
                0 <= i < r.0@.len() && 0 <= j < r.0@.len() && crate::event::is_uc_decide_event(
                    #[trigger] r.0@[i],
                ) && crate::event::is_uc_decide_event(#[trigger] r.0@[j]) ==> i == j,
            crate::event::is_pl_deliver_event(*event) ==> final(self).uc == old(self).uc
                && final(self).eld == old(self).eld && final(self).ec.last_ts == old(self).ec.last_ts,
            forall|i: int|
                0 <= i < r.0@.len() && crate::event::is_state_quorum_event(#[trigger] r.0@[i])
                    ==> final(self).ep.states@.len() >= crate::node::spec_quorum(
                    old(self).node_info.nodes@.len() as int,
                ),
            forall|i: int|
                0 <= i < r.0@.len() && crate::event::is_accept_quorum_event(#[trigger] r.0@[i])
                    ==> final(self).ep.accepted >= crate::node::spec_quorum(
                    old(self).node_info.nodes@.len() as int,
                ),
            forall|i: int|
                0 <= i < r.0@.len() && crate::event::is_decided_broadcast_event(#[trigger] r.0@[i])
                    ==> crate::event::decided_broadcast_value(r.0@[i]) == old(
                    self,
                ).ep.temporary_value && old(self).node_info.current_node.id == old(self).ep.leader.id
                    && !old(self).ep.aborted && crate::event::is_accept_quorum_event(*event),
            crate::event::is_vacuous_ep_broadcast(*event) ==> final(self).ep.states@ == old(
                self,
            ).ep.states@ && final(self).ep.accepted == old(self).ep.accepted && final(self).ep.state
                == old(self).ep.state && final(self).ep.temporary_value == old(
                self,
            ).ep.temporary_value && r.0@.len() == 0,
    {
        let mut events: Vec<EventData> = Vec::new();
        let mut outputs: Vec<Output> = Vec::new();
        match event {
            EventData::Internal(_, im) => {
                match im {
                    InternalMessage::EldTrust(node) => {
                        let ems = self.ec.eld_trust(&self.node_info, node);
                        events = wrap_events(&self.system_id, ems);
                    },
                    InternalMessage::BebBroadcast(msg) => {
                        let ems = self.beb.broadcast(&self.node_info, msg);
                        events = wrap_events(&self.system_id, ems);
                    },
                    InternalMessage::BebDeliver(from, msg) => {
                        match &msg.payload {
                            Payload::EcNewEpoch { timestamp } => {
                                let ems = self.ec.beb_deliver_new_epoch(
                                    &self.node_info,
                                    from,
                                    *timestamp,
                                );
                                events = wrap_events(&self.system_id, ems);
                            },
                            Payload::EpRead => {
                                let ems = self.ep.beb_deliver_read(&self.node_info, from);
                                events = wrap_events(&self.system_id, ems);
                            },
                            Payload::EpWrite { value } => {
                                let ems = self.ep.beb_deliver_write(&self.node_info, from, *value);
                                events = wrap_events(&self.system_id, ems);
                            },
                            Payload::EpDecided { value } => {
                                let ems = self.ep.beb_deliver_decided(*value);
                                events = wrap_events(&self.system_id, ems);
                            },
                            _ => {},
                        }
                    },
                    InternalMessage::EcStartEpoch(leader, timestamp) => {
                        let ems = self.uc.ec_start_epoch(&self.node_info, leader, *timestamp);
                        events = wrap_events(&self.system_id, ems);
                    },
                    InternalMessage::EpPropose(ts, v) => {
                        let ems = self.ep.ep_propose(&self.node_info, *ts, *v);
                        events = wrap_events(&self.system_id, ems);
                    },
                    InternalMessage::EpDecide(ts, v) => {
                        let ems = self.uc.ep_decide(*ts, *v);
                        events = wrap_events(&self.system_id, ems);
                    },
                    InternalMessage::EpStateCountReached => {
                        let ems = self.ep.ep_state_count_reached(&self.node_info);
                        events = wrap_events(&self.system_id, ems);
                    },
                    InternalMessage::EpAcceptedCountReached => {
                        let ems = self.ep.ep_accepted_count_reached(&self.node_info);
                        events = wrap_events(&self.system_id, ems);
                    },
                    InternalMessage::EpAbort(ts) => {
                        let ems = self.ep.abort(*ts);
                        events = wrap_events(&self.system_id, ems);
                    },
                    InternalMessage::EpAborted(epoch_ts, value_ts, value) => {
                        let (ems, new_ep) = self.uc.ep_aborted(
                            &self.node_info,
                            *epoch_ts,
                            *value_ts,
                            *value,
                        );
                        let ghost returned_ep = new_ep;
                        match new_ep {
                            Some(ep) => {
                                self.ep = ep;
                            },
                            None => {},
                        }
                        proof {
                            let acts = old(self).uc.state.epoch_timestamp == epoch_ts
                                && old(self).uc.new_state.leader is Some;
                            if acts {
                                assert(returned_ep == Some(self.ep));
                            } else {
                                assert(returned_ep is None);
                            }
                        }
                        events = wrap_events(&self.system_id, ems);
                    },
                    InternalMessage::UcPropose(v) => {
                        let ems = self.uc.uc_propose(&self.node_info, *v);
                        events = wrap_events(&self.system_id, ems);
                    },
                    InternalMessage::PlDeliver(from, msg) => {
                        match &msg.payload {
                            Payload::BebBroadcast(_) => {
                                let copy = msg.clone();
                                let ghost gcopy = copy;
                                let ems = self.beb.deliver(from, copy);
                                proof {
                                    crate::message::lemma_equiv_wrapper(*msg, gcopy);
                                }
                                events = wrap_events(&self.system_id, ems);
                            },
                            Payload::EpfdHeartbeatRequest => {
                                let ems = self.epfd.send_reply(&self.node_info, from);
                                events = wrap_events(&self.system_id, ems);
                            },
                            Payload::EpfdHeartbeatReply => {
                                self.epfd.on_got_reply(from);
                            },
                            Payload::EcNack => {
                                let ems = self.ec.on_nack(&self.node_info);
                                events = wrap_events(&self.system_id, ems);
                            },
                            Payload::EpState { value_timestamp, value } => {
                                let ems = self.ep.pl_deliver_state(
                                    &self.node_info,
                                    from,
                                    *value_timestamp,
                                    *value,
                                );
                                events = wrap_events(&self.system_id, ems);
                            },
                            Payload::EpAccept => {
                                let ems = self.ep.pl_deliver_accept(&self.node_info);
                                events = wrap_events(&self.system_id, ems);
                            },
                            _ => {},
                        }
                    },
                    InternalMessage::EpfdTimeout => {
                        proof {
                            crate::epfd::lemma_epfd_scan_kinds(
                                self.node_info.nodes@,
                                self.node_info.current_node,
                                self.epfd.alive@,
                                self.epfd.suspected@,
                                self.epfd.system_id,
                            );
                        }
                        let (ems, timer) = self.epfd.on_timeout(&self.node_info);
                        events = wrap_events(&self.system_id, ems);
                        outputs.push(timer);
                        proof {
                            assert(outputs@ =~= seq![outputs@[0]]);
                        }
                    },
                    InternalMessage::EpfdSuspect(node) => {
                        let ems = self.eld.on_received_suspect(&self.node_info, node);
                        events = wrap_events(&self.system_id, ems);
                    },
                    InternalMessage::EpfdRestore(node) => {
                        let ems = self.eld.on_removed_suspect(&self.node_info, node);
                        events = wrap_events(&self.system_id, ems);
                    },
                    InternalMessage::UcDecide(_) => {},
                    InternalMessage::PlSend(_, _, _) => {},
                    InternalMessage::AppPropose(_, _) => {},
                    InternalMessage::AppInit => {},
                }
            },
            EventData::External(_, _) => {},
        }
        (events, outputs)
    }
}

impl EventHandler for System {
    fn should_handle_event(&self, event: &EventData) -> bool {
        self.should_handle(event)
    }

    fn handle(&mut self, event: &EventData) -> (Vec<EventData>, Vec<Output>) {
        System::handle(self, event)
    }
}

} // verus!
