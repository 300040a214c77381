// Unit tests of the protocol modules, driven directly on their handlers.

use uniform_consensus::beb::BestEffortBroadcast;
use uniform_consensus::ec::EpochChange;
use uniform_consensus::eld::EventualLeaderDetector;
use uniform_consensus::ep::EpochConsensus;
use uniform_consensus::ep::EpochConsensusState;
use uniform_consensus::epfd::DELTA;
use uniform_consensus::epfd::EvenutallyPerfectFailureDetector;
use uniform_consensus::event::EventData;
use uniform_consensus::event::InternalMessage;
use uniform_consensus::message::AbstractionId;
use uniform_consensus::message::Message;
use uniform_consensus::message::Payload;
use uniform_consensus::message::Value;
use uniform_consensus::node::Node;
use uniform_consensus::node::NodeInfo;
use uniform_consensus::node::quorum;
use uniform_consensus::node::sat_add;
use uniform_consensus::sys::System;
use uniform_consensus::uc::UniformConsensus;

fn peer(id: u16, rank: u16) -> Node {
    Node::new(
        format!("owner-{}", id),
        format!("peer-{}", id),
        "local".to_string(),
        5000 + id,
        id,
        rank,
    )
}

fn info3() -> NodeInfo {
    NodeInfo {
        current_node: peer(1, 1),
        hub: peer(99, 0),
        nodes: vec![peer(1, 1), peer(2, 2), peer(3, 3)],
    }
}

#[test]
fn quorum_is_strict_majority() {
    assert_eq!(quorum(1), 1);
    assert_eq!(quorum(2), 2);
    assert_eq!(quorum(3), 2);
    assert_eq!(quorum(4), 3);
    assert_eq!(quorum(5), 3);
}

#[test]
fn sat_add_stops_at_max() {
    assert_eq!(sat_add(1, 2), 3);
    assert_eq!(sat_add(u64::MAX - 1, 5), u64::MAX);
    assert_eq!(sat_add(u64::MAX, 1), u64::MAX);
}

#[test]
fn nodes_compare_by_id() {
    let a = peer(1, 1);
    let mut b = peer(1, 9);
    b.owner = "someone-else".to_string();
    assert!(a == b);
    assert!(a != peer(2, 1));
}

/// The detector elects the highest-ranked non-suspected peer, announces only
/// changes, and re-elects a restored higher-ranked peer: a false suspicion
/// oscillates the leader but each change is announced exactly once.
#[test]
fn leader_detector_oscillates_and_repins() {
    let info = info3();
    let mut eld = EventualLeaderDetector::new();
    let r = eld.on_received_suspect(&info, &peer(2, 2));
    assert_eq!(r.len(), 1);
    match &r[0] {
        InternalMessage::EldTrust(n) => assert_eq!(n.id, 3),
        _ => panic!("expected a trust event"),
    }
    // suspecting the leader hands leadership to the next rank
    let r = eld.on_received_suspect(&info, &peer(3, 3));
    match &r[0] {
        InternalMessage::EldTrust(n) => assert_eq!(n.id, 1),
        _ => panic!("expected a trust event"),
    }
    // the restored peer outranks everyone and is elected again
    let r = eld.on_removed_suspect(&info, &peer(3, 3));
    match &r[0] {
        InternalMessage::EldTrust(n) => assert_eq!(n.id, 3),
        _ => panic!("expected a trust event"),
    }
    // an unrelated restore changes nothing and stays silent
    let r = eld.on_removed_suspect(&info, &peer(2, 2));
    assert!(r.is_empty());
}

#[test]
fn leader_detector_silent_when_all_suspected() {
    let info = NodeInfo {
        current_node: peer(1, 1),
        hub: peer(99, 0),
        nodes: vec![peer(1, 1)],
    };
    let mut eld = EventualLeaderDetector::new();
    let r = eld.on_received_suspect(&info, &peer(1, 1));
    assert!(r.is_empty());
    assert!(eld.leader.is_none());
}

/// Started epochs carry strictly increasing timestamps and `last_ts` never
/// moves backwards; a stale or wrongly-led announcement is refused.
#[test]
fn epoch_change_is_monotone() {
    let info = info3();
    let mut ec = EpochChange::new(&info, "sys".to_string());
    assert_eq!(ec.last_ts, 0);
    assert_eq!(ec.trusted.id, 1);
    // the trusted peer announces epoch 5: started
    let r = ec.beb_deliver_new_epoch(&info, &peer(1, 1), 5);
    assert!(matches!(r[0], InternalMessage::EcStartEpoch(_, 5)));
    assert_eq!(ec.last_ts, 5);
    // an older announcement from the same leader: refused with a nack
    let r = ec.beb_deliver_new_epoch(&info, &peer(1, 1), 5);
    assert_eq!(r.len(), 1);
    match &r[0] {
        InternalMessage::PlSend(_, to, m) => {
            assert_eq!(to.id, 1);
            assert!(matches!(m.payload, Payload::EcNack));
        },
        _ => panic!("expected a nack"),
    }
    assert_eq!(ec.last_ts, 5);
    // an announcement from a peer that is not trusted: refused
    let r = ec.beb_deliver_new_epoch(&info, &peer(2, 2), 9);
    assert!(matches!(&r[0], InternalMessage::PlSend(_, _, _)));
    assert_eq!(ec.last_ts, 5);
    // a later announcement from the trusted peer: started
    let r = ec.beb_deliver_new_epoch(&info, &peer(1, 1), 9);
    assert!(matches!(r[0], InternalMessage::EcStartEpoch(_, 9)));
    assert_eq!(ec.last_ts, 9);
}

/// Trusting itself makes a process bump its attempt timestamp by the
/// participant count and announce a new epoch; a nack while still trusting
/// itself bumps and announces again.
#[test]
fn epoch_change_bumps_by_participant_count() {
    let info = info3();
    let mut ec = EpochChange::new(&info, "sys".to_string());
    assert_eq!(ec.ts, 1);
    let r = ec.eld_trust(&info, &peer(1, 1));
    assert_eq!(ec.ts, 4);
    match &r[0] {
        InternalMessage::BebBroadcast(m) => {
            assert!(matches!(m.payload, Payload::EcNewEpoch { timestamp: 4 }));
        },
        _ => panic!("expected an announcement"),
    }
    let r = ec.on_nack(&info);
    assert_eq!(ec.ts, 7);
    assert_eq!(r.len(), 1);
    // after trusting someone else, a nack is ignored
    let _ = ec.eld_trust(&info, &peer(3, 3));
    let r = ec.on_nack(&info);
    assert!(r.is_empty());
    assert_eq!(ec.ts, 7);
}

/// A false suspicion, noticed when the suspect answers again, grows the
/// detection period by the base delta.
#[test]
fn failure_detector_backs_off_after_false_suspicion() {
    let info = info3();
    let mut epfd = EvenutallyPerfectFailureDetector::new(&info, "sys".to_string());
    assert_eq!(epfd.delay, DELTA);
    // first period: everyone counted alive initially, nothing suspected
    let (ems, _) = epfd.on_timeout(&info);
    assert!(ems
        .iter()
        .all(|m| matches!(m, InternalMessage::PlSend(_, _, _))));
    // silence: the second period suspects peers 2 and 3
    let (ems, _) = epfd.on_timeout(&info);
    let suspects: Vec<u16> = ems
        .iter()
        .filter_map(|m| match m {
            InternalMessage::EpfdSuspect(n) => Some(n.id),
            _ => None,
        })
        .collect();
    assert_eq!(suspects, vec![2, 3]);
    assert_eq!(epfd.delay, DELTA);
    // peer 2 answers after all: the next period restores it and backs off
    epfd.on_got_reply(&peer(2, 2));
    let (ems, _) = epfd.on_timeout(&info);
    let restored: Vec<u16> = ems
        .iter()
        .filter_map(|m| match m {
            InternalMessage::EpfdRestore(n) => Some(n.id),
            _ => None,
        })
        .collect();
    assert_eq!(restored, vec![2]);
    assert_eq!(epfd.delay, 2 * DELTA);
}

#[test]
fn heartbeat_request_is_answered() {
    let info = info3();
    let epfd = EvenutallyPerfectFailureDetector::new(&info, "sys".to_string());
    let r = epfd.send_reply(&info, &peer(3, 3));
    assert_eq!(r.len(), 1);
    match &r[0] {
        InternalMessage::PlSend(from, to, m) => {
            assert_eq!(from.id, 1);
            assert_eq!(to.id, 3);
            assert!(matches!(m.payload, Payload::EpfdHeartbeatReply));
        },
        _ => panic!("expected a reply"),
    }
}

fn leader_ep() -> EpochConsensus {
    EpochConsensus::new(
        EpochConsensusState::new(0, Value { defined: false, v: 0 }),
        peer(1, 1),
        0,
        "sys".to_string(),
        0,
    )
}

/// The decision broadcast happens only once a strict majority reported a
/// state and a strict majority acknowledged the write, and carries exactly
/// the leader's tentative value.
#[test]
fn decision_broadcast_requires_both_quorums() {
    let info = info3();
    let mut ep = leader_ep();
    let r = ep.ep_propose(&info, 0, 7);
    assert_eq!(r.len(), 1);
    assert_eq!(ep.temporary_value, Value { defined: true, v: 7 });
    // one state is not a strict majority of three
    let r = ep.pl_deliver_state(&info, &peer(1, 1), 0, Value { defined: false, v: 0 });
    assert!(r.is_empty());
    // the second report from the same peer overwrites, and still no quorum
    let r = ep.pl_deliver_state(&info, &peer(1, 1), 0, Value { defined: false, v: 0 });
    assert!(r.is_empty());
    assert_eq!(ep.states.len(), 1);
    // a second peer completes the read quorum
    let r = ep.pl_deliver_state(&info, &peer(2, 2), 0, Value { defined: false, v: 0 });
    assert!(matches!(r[0], InternalMessage::EpStateCountReached));
    // no reported value was defined, so the proposal is written
    let r = ep.ep_state_count_reached(&info);
    match &r[0] {
        InternalMessage::BebBroadcast(m) => match &m.payload {
            Payload::EpWrite { value } => assert_eq!(*value, Value { defined: true, v: 7 }),
            _ => panic!("expected a write"),
        },
        _ => panic!("expected a broadcast"),
    }
    assert!(ep.states.is_empty());
    // one acknowledgement is not a strict majority
    let r = ep.pl_deliver_accept(&info);
    assert!(r.is_empty());
    let r = ep.pl_deliver_accept(&info);
    assert!(matches!(r[0], InternalMessage::EpAcceptedCountReached));
    // the decision carries the tentative value
    let r = ep.ep_accepted_count_reached(&info);
    match &r[0] {
        InternalMessage::BebBroadcast(m) => match &m.payload {
            Payload::EpDecided { value } => assert_eq!(*value, Value { defined: true, v: 7 }),
            _ => panic!("expected a decision"),
        },
        _ => panic!("expected a broadcast"),
    }
    assert_eq!(ep.accepted, 0);
}

/// The read phase adopts the reported defined value with the highest write
/// timestamp over the leader's own proposal.
#[test]
fn read_phase_adopts_highest_defined_state() {
    let info = info3();
    let mut ep = leader_ep();
    let _ = ep.ep_propose(&info, 0, 4);
    let _ = ep.pl_deliver_state(&info, &peer(2, 2), 3, Value { defined: true, v: 9 });
    let r = ep.pl_deliver_state(&info, &peer(3, 3), 1, Value { defined: true, v: 8 });
    assert!(matches!(r[0], InternalMessage::EpStateCountReached));
    let r = ep.ep_state_count_reached(&info);
    match &r[0] {
        InternalMessage::BebBroadcast(m) => match &m.payload {
            Payload::EpWrite { value } => assert_eq!(*value, Value { defined: true, v: 9 }),
            _ => panic!("expected a write"),
        },
        _ => panic!("expected a broadcast"),
    }
}

/// A write with an undefined value moves no counter and changes no state; an
/// undefined decision is ignored too.
#[test]
fn undefined_values_do_not_advance_epoch_consensus() {
    let info = info3();
    let mut ep = leader_ep();
    let before_state = ep.state;
    let r = ep.beb_deliver_write(&info, &peer(1, 1), Value { defined: false, v: 5 });
    assert!(r.is_empty());
    assert_eq!(ep.state, before_state);
    assert_eq!(ep.accepted, 0);
    assert!(ep.states.is_empty());
    let r = ep.beb_deliver_decided(Value { defined: false, v: 5 });
    assert!(r.is_empty());
}

/// An aborted instance answers exactly once with its state and ignores
/// everything afterwards.
#[test]
fn aborted_instance_goes_silent() {
    let info = info3();
    let mut ep = leader_ep();
    let _ = ep.beb_deliver_write(&info, &peer(1, 1), Value { defined: true, v: 6 });
    let r = ep.abort(0);
    assert_eq!(r.len(), 1);
    match &r[0] {
        InternalMessage::EpAborted(0, 0, value) => {
            assert_eq!(*value, Value { defined: true, v: 6 })
        },
        _ => panic!("expected the abort answer"),
    }
    // a second abort, reads, writes, accepts: all ignored
    assert!(ep.abort(0).is_empty());
    assert!(ep.beb_deliver_read(&info, &peer(2, 2)).is_empty());
    assert!(ep
        .beb_deliver_write(&info, &peer(1, 1), Value { defined: true, v: 8 })
        .is_empty());
    assert!(ep.pl_deliver_accept(&info).is_empty());
    assert_eq!(ep.state.value, Value { defined: true, v: 6 });
}

/// The controller decides at most once: a second decision event for the same
/// epoch is swallowed.
#[test]
fn controller_decides_at_most_once() {
    let info = info3();
    let mut uc = UniformConsensus::new(peer(1, 1), "sys".to_string());
    let r = uc.ep_decide(0, 7);
    assert_eq!(r.len(), 1);
    assert!(matches!(r[0], InternalMessage::UcDecide(7)));
    assert!(uc.decided);
    let r = uc.ep_decide(0, 7);
    assert!(r.is_empty());
    let r = uc.ep_decide(0, 9);
    assert!(r.is_empty());
    assert!(uc.decided);
}

/// The controller proposes only while it leads, and only once per epoch.
#[test]
fn controller_proposes_once_as_leader() {
    let info = info3();
    let mut uc = UniformConsensus::new(peer(1, 1), "sys".to_string());
    let r = uc.uc_propose(&info, 5);
    assert_eq!(r.len(), 1);
    assert!(matches!(r[0], InternalMessage::EpPropose(0, 5)));
    // a second proposal attempt for the same epoch stays silent
    let r = uc.uc_propose(&info, 5);
    assert!(r.is_empty());
    // a follower never proposes
    let mut follower = UniformConsensus::new(peer(2, 2), "sys".to_string());
    let r = follower.uc_propose(&info, 5);
    assert!(r.is_empty());
}

/// Broadcast sends one wrapped copy to every participant, and delivery
/// unwraps exactly the broadcast wrapper.
#[test]
fn broadcast_wraps_for_every_participant() {
    let info = info3();
    let beb = BestEffortBroadcast::new("sys".to_string());
    let msg = Message {
        system_id: "sys".to_string(),
        abstraction_id: AbstractionId::Ec,
        payload: Payload::EcNewEpoch { timestamp: 4 },
    };
    let r = beb.broadcast(&info, &msg);
    assert_eq!(r.len(), 3);
    for (i, m) in r.iter().enumerate() {
        match m {
            InternalMessage::PlSend(from, to, w) => {
                assert_eq!(from.id, 1);
                assert_eq!(to.id, info.nodes[i].id);
                match &w.payload {
                    Payload::BebBroadcast(inner) => {
                        assert!(matches!(inner.payload, Payload::EcNewEpoch { timestamp: 4 }))
                    },
                    _ => panic!("expected a wrapper"),
                }
            },
            _ => panic!("expected a link send"),
        }
    }
    // delivering the wrapper unwraps it
    match &r[0] {
        InternalMessage::PlSend(_, _, w) => {
            let delivered = beb.deliver(&peer(1, 1), w.clone());
            assert_eq!(delivered.len(), 1);
            match &delivered[0] {
                InternalMessage::BebDeliver(s, inner) => {
                    assert_eq!(s.id, 1);
                    assert!(matches!(inner.payload, Payload::EcNewEpoch { timestamp: 4 }));
                },
                _ => panic!("expected a broadcast delivery"),
            }
        },
        _ => unreachable!(),
    }
}

/// An outbound envelope names the sender's listening address, carries the
/// message unchanged, and is tagged with a fresh 36-character identifier.
#[test]
fn outbound_envelope_is_tagged_and_addressed() {
    let pl = uniform_consensus::pl::PerfectLink::new();
    let msg = Message {
        system_id: "sys".to_string(),
        abstraction_id: AbstractionId::Ec,
        payload: Payload::EcNack,
    };
    let out = pl.on_send(&peer(1, 1), &peer(2, 2), msg);
    let first_uuid = match &out {
        uniform_consensus::event::Output::Send { destination, envelope } => {
            assert_eq!(destination.id, 2);
            assert_eq!(envelope.uuid.len(), 36);
            assert_eq!(envelope.sender_host, "local");
            assert_eq!(envelope.sender_port, 5001);
            assert_eq!(envelope.system_id, "sys");
            assert!(matches!(envelope.message.payload, Payload::EcNack));
            envelope.uuid.clone()
        },
        _ => panic!("expected a send"),
    };
    // two envelopes never share a tag
    let again = pl.on_send(
        &peer(1, 1),
        &peer(2, 2),
        Message {
            system_id: "sys".to_string(),
            abstraction_id: AbstractionId::Ec,
            payload: Payload::EcNack,
        },
    );
    match &again {
        uniform_consensus::event::Output::Send { envelope, .. } => {
            assert_eq!(envelope.uuid.len(), 36);
            assert_ne!(envelope.uuid, first_uuid);
        },
        _ => panic!("expected a send"),
    }
}

/// An inbound envelope from an address outside the peer list is dropped.
#[test]
fn unknown_sender_is_ignored() {
    let info = info3();
    let pl = uniform_consensus::pl::PerfectLink::new();
    let env = uniform_consensus::message::Envelope {
        uuid: "tag".to_string(),
        system_id: "sys".to_string(),
        sender_host: "elsewhere".to_string(),
        sender_port: 1,
        message: Message {
            system_id: "sys".to_string(),
            abstraction_id: AbstractionId::Ec,
            payload: Payload::EcNack,
        },
    };
    let r = pl.on_external(&info, &env);
    assert!(r.is_empty());
}

/// An announcement naming no participants spins up nothing.
#[test]
fn empty_participant_list_is_ignored() {
    let app = uniform_consensus::app::App::new(peer(1, 1), peer(99, 0), "app".to_string());
    let msg = Message {
        system_id: "sys".to_string(),
        abstraction_id: AbstractionId::App,
        payload: Payload::AppPropose {
            processes: vec![],
            value: Value { defined: true, v: 7 },
        },
    };
    let (sys, events) = app.on_propose(&msg);
    assert!(sys.is_none());
    assert!(events.is_empty());
}

/// A full stack ignores a state report or write that carries no defined
/// value: the live epoch instance keeps all its counters.
#[test]
fn stack_ignores_vacuous_broadcasts() {
    let info = info3();
    let mut sys = System::new(
        NodeInfo {
            current_node: info.current_node.clone(),
            hub: info.hub.clone(),
            nodes: info.nodes.clone(),
        },
        "sys".to_string(),
    );
    let e = EventData::Internal(
        "sys".to_string(),
        InternalMessage::BebDeliver(
            peer(2, 2),
            Message {
                system_id: "sys".to_string(),
                abstraction_id: AbstractionId::Ep(0),
                payload: Payload::EpWrite { value: Value { defined: false, v: 3 } },
            },
        ),
    );
    let (events, outputs) = sys.handle(&e);
    assert!(events.is_empty());
    assert!(outputs.is_empty());
    assert_eq!(sys.ep.accepted, 0);
    assert!(sys.ep.states.is_empty());
    assert_eq!(sys.ep.state.value, Value { defined: false, v: 0 });
}
