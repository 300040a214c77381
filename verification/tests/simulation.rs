// End-to-end scenarios: several processes exchanging envelopes over a
// simulated network, with controlled crashes and timer fires.

use uniform_consensus::event::EventData;
use uniform_consensus::event::InternalMessage;
use uniform_consensus::event::Output;
use uniform_consensus::message::AbstractionId;
use uniform_consensus::message::Envelope;
use uniform_consensus::message::Message;
use uniform_consensus::message::Payload;
use uniform_consensus::message::ProcessId;
use uniform_consensus::message::Value;
use uniform_consensus::node::Node;
use uniform_consensus::node::NodeInfo;
use uniform_consensus::process::Process;

const HUB_PORT: u16 = 9999;

fn peer(id: u16, rank: u16) -> Node {
    Node::new(
        format!("owner-{}", id),
        format!("peer-{}", id),
        "local".to_string(),
        5000 + id,
        id,
        rank,
    )
}

fn hub_node() -> Node {
    Node::new(
        "hub".to_string(),
        "hub".to_string(),
        "local".to_string(),
        HUB_PORT,
        100,
        0,
    )
}

fn process_id_of(n: &Node) -> ProcessId {
    ProcessId {
        owner: n.owner.clone(),
        host: n.host.clone(),
        port: n.port,
        index: n.id,
        rank: n.rank,
    }
}

struct Sim {
    peers: Vec<Node>,
    procs: Vec<Process>,
    crashed: Vec<bool>,
    timers: Vec<Vec<String>>,
    hub_decides: Vec<(String, i32)>,
    wire_log: Vec<(usize, Envelope)>,
}

impl Sim {
    fn new(peers: Vec<Node>) -> Sim {
        let hub = hub_node();
        let mut procs = Vec::new();
        for p in &peers {
            let mut nodes: Vec<Node> = peers.clone();
            nodes.push(hub.clone());
            let info = NodeInfo {
                current_node: p.clone(),
                hub: hub.clone(),
                nodes,
            };
            procs.push(Process::new(info, "app".to_string()));
        }
        let n = peers.len();
        Sim {
            peers,
            procs,
            crashed: vec![false; n],
            timers: vec![Vec::new(); n],
            hub_decides: Vec::new(),
            wire_log: Vec::new(),
        }
    }

    fn proc_by_port(&self, port: u16) -> Option<usize> {
        self.peers.iter().position(|p| p.port == port)
    }

    fn route(&mut self, from: usize, outs: Vec<Output>) {
        for o in outs {
            match o {
                Output::Send { destination, envelope } => {
                    if destination.port == HUB_PORT {
                        if let Payload::AppDecide { value } = &envelope.message.payload {
                            assert!(value.defined);
                            self.hub_decides
                                .push((envelope.message.system_id.clone(), value.v));
                        }
                    } else if let Some(idx) = self.proc_by_port(destination.port) {
                        if !self.crashed[idx] {
                            self.wire_log.push((idx, clone_envelope(&envelope)));
                            self.procs[idx]
                                .push(EventData::External(envelope.system_id.clone(), envelope));
                        }
                    }
                },
                Output::ArmTimer { system_id, delay_ms: _ } => {
                    self.timers[from].push(system_id);
                },
            }
        }
    }

    /// Runs every live process until all queues are empty, routing envelopes
    /// as they are produced. Panics if the network does not quiesce.
    fn drain(&mut self) {
        let mut budget: usize = 100000;
        loop {
            let mut progressed = false;
            for i in 0..self.procs.len() {
                if self.crashed[i] {
                    continue;
                }
                while let Some(outs) = self.procs[i].step() {
                    progressed = true;
                    self.route(i, outs);
                    budget -= 1;
                    assert!(budget > 0, "network did not quiesce");
                }
            }
            if !progressed {
                break;
            }
        }
    }

    /// Runs a single process until its queue is empty, routing its output
    /// envelopes (which only enqueue at their destinations).
    fn drain_one(&mut self, i: usize) {
        let mut budget: usize = 100000;
        while let Some(outs) = self.procs[i].step() {
            self.route(i, outs);
            budget -= 1;
            assert!(budget > 0, "process did not quiesce");
        }
    }

    /// Fires every armed failure-detector timer once, then lets the network
    /// quiesce.
    fn tick(&mut self) {
        for i in 0..self.procs.len() {
            if self.crashed[i] {
                self.timers[i].clear();
                continue;
            }
            let pending: Vec<String> = self.timers[i].drain(..).collect();
            for system_id in pending {
                self.procs[i]
                    .push(EventData::Internal(system_id, InternalMessage::EpfdTimeout));
            }
        }
        self.drain();
    }

    /// Hands process `i` the hub's announcement of instance `system_id` with
    /// the given participants and proposal.
    fn propose(&mut self, i: usize, system_id: &str, participants: &[usize], value: Value) {
        let processes: Vec<ProcessId> = participants
            .iter()
            .map(|&j| process_id_of(&self.peers[j]))
            .collect();
        let msg = Message {
            system_id: system_id.to_string(),
            abstraction_id: AbstractionId::App,
            payload: Payload::AppPropose { processes, value },
        };
        let env = Envelope {
            uuid: "hub-message".to_string(),
            system_id: system_id.to_string(),
            sender_host: "local".to_string(),
            sender_port: HUB_PORT,
            message: msg,
        };
        self.procs[i].push(EventData::External(system_id.to_string(), env));
    }

    fn decided(&self, i: usize, system_id: &str) -> Option<bool> {
        self.procs[i]
            .systems
            .iter()
            .find(|s| s.system_id == system_id)
            .map(|s| s.uc.decided)
    }
}

fn clone_envelope(e: &Envelope) -> Envelope {
    Envelope {
        uuid: e.uuid.clone(),
        system_id: e.system_id.clone(),
        sender_host: e.sender_host.clone(),
        sender_port: e.sender_port,
        message: e.message.clone(),
    }
}

/// A single participant decides its proposed value without any failure
/// detection: the first epoch suffices.
#[test]
fn single_peer_decides_immediately() {
    let mut sim = Sim::new(vec![peer(1, 1)]);
    sim.drain();
    sim.propose(0, "sys-a", &[0], Value { defined: true, v: 7 });
    sim.drain();
    assert_eq!(sim.decided(0, "sys-a"), Some(true));
    assert_eq!(sim.hub_decides, vec![("sys-a".to_string(), 7)]);
}

/// Three live participants all decide the hub's value, and the hub hears
/// three times; everyone agrees on the proposed value.
#[test]
fn three_peers_all_live_decide_proposal() {
    let mut sim = Sim::new(vec![peer(1, 1), peer(2, 2), peer(3, 3)]);
    sim.drain();
    for i in 0..3 {
        sim.propose(i, "sys-a", &[0, 1, 2], Value { defined: true, v: 7 });
    }
    sim.drain();
    for i in 0..3 {
        assert_eq!(sim.decided(i, "sys-a"), Some(true), "peer {} undecided", i);
    }
    assert_eq!(sim.hub_decides.len(), 3);
    for (sys, v) in &sim.hub_decides {
        assert_eq!(sys, "sys-a");
        assert_eq!(*v, 7);
    }
}

/// Three participants, one crashed from the start but not the leader: the
/// two live ones form a strict majority and still decide.
#[test]
fn three_peers_one_crash_still_decides() {
    let mut sim = Sim::new(vec![peer(1, 1), peer(2, 2), peer(3, 3)]);
    sim.crashed[2] = true;
    sim.drain();
    for i in 0..2 {
        sim.propose(i, "sys-b", &[0, 1, 2], Value { defined: true, v: 21 });
    }
    sim.drain();
    assert_eq!(sim.decided(0, "sys-b"), Some(true));
    assert_eq!(sim.decided(1, "sys-b"), Some(true));
    for (_, v) in &sim.hub_decides {
        assert_eq!(*v, 21);
    }
    assert_eq!(sim.hub_decides.len(), 2);
}

/// The highest-ranked participant leads initially but never starts. After
/// the failure detector suspects it, the next-ranked live peer is elected,
/// starts a later epoch, and the live peers decide.
#[test]
fn crashed_initial_leader_is_replaced() {
    // participants ordered leader-first: peer 3 has the highest rank
    let mut sim = Sim::new(vec![peer(3, 3), peer(1, 1), peer(2, 2)]);
    sim.crashed[0] = true;
    sim.drain();
    for i in 1..3 {
        sim.propose(i, "sys-c", &[0, 1, 2], Value { defined: true, v: 42 });
    }
    sim.drain();
    // nobody decides while the crashed leader is trusted
    assert_eq!(sim.decided(1, "sys-c"), Some(false));
    assert_eq!(sim.decided(2, "sys-c"), Some(false));
    // first period: probes out; second period: silence noticed, peer 3
    // suspected, peer 2 (highest live rank) elected, epoch started
    for _ in 0..4 {
        sim.tick();
        if sim.decided(1, "sys-c") == Some(true) {
            break;
        }
    }
    assert_eq!(sim.decided(1, "sys-c"), Some(true));
    assert_eq!(sim.decided(2, "sys-c"), Some(true));
    for (_, v) in &sim.hub_decides {
        assert_eq!(*v, 42);
    }
}

/// A value written to a majority in one epoch survives the leader's crash:
/// the next leader reads it back and decides it instead of its own proposal.
#[test]
fn written_value_locks_in_across_epochs() {
    // peer 5 leads (ordered first, highest rank); peer 4 is next by rank
    let mut sim = Sim::new(vec![
        peer(5, 5),
        peer(4, 4),
        peer(3, 3),
        peer(2, 2),
        peer(1, 1),
    ]);
    sim.drain();
    // the crashing leader proposes 9; the others would propose 4
    sim.procs[0].push(EventData::External(
        "sys-d".to_string(),
        Envelope {
            uuid: "hub-message".to_string(),
            system_id: "sys-d".to_string(),
            sender_host: "local".to_string(),
            sender_port: HUB_PORT,
            message: Message {
                system_id: "sys-d".to_string(),
                abstraction_id: AbstractionId::App,
                payload: Payload::AppPropose {
                    processes: vec![
                        process_id_of(&sim.peers[0]),
                        process_id_of(&sim.peers[1]),
                        process_id_of(&sim.peers[2]),
                        process_id_of(&sim.peers[3]),
                        process_id_of(&sim.peers[4]),
                    ],
                    value: Value { defined: true, v: 9 },
                },
            },
        },
    ));
    for i in 1..5 {
        sim.propose(i, "sys-d", &[0, 1, 2, 3, 4], Value { defined: true, v: 4 });
    }
    // peer 5 opens the read phase; two peers answer, which completes the
    // read quorum of three together with the leader's own state
    sim.drain_one(0);
    sim.drain_one(1);
    sim.drain_one(2);
    // peer 5 broadcasts the write of 9, applies it itself, and crashes
    // before a majority of acknowledgements reaches it
    sim.drain_one(0);
    sim.crashed[0] = true;
    // the surviving peers apply the write; their acknowledgements are lost
    sim.drain();
    let ep_state = sim.procs[1]
        .systems
        .iter()
        .find(|s| s.system_id == "sys-d")
        .map(|s| (s.ep.state.value_timestamp, s.ep.state.value))
        .expect("instance exists at peer 4");
    assert_eq!(ep_state.1, Value { defined: true, v: 9 }, "write of 9 applied");
    assert_eq!(sim.decided(1, "sys-d"), Some(false));
    sim.crashed[0] = true;
    // failure detection replaces the leader; the read phase of the new epoch
    // returns the written 9, which peer 4 adopts over its own 4
    for _ in 0..4 {
        sim.tick();
        if sim.decided(1, "sys-d") == Some(true) {
            break;
        }
    }
    for i in 1..5 {
        assert_eq!(sim.decided(i, "sys-d"), Some(true), "peer {} undecided", i);
    }
    for (_, v) in &sim.hub_decides {
        assert_eq!(*v, 9, "the locked-in value wins");
    }
    assert!(!sim.hub_decides.is_empty());
}

/// An announcement with an undefined value spins up nothing: no instance, no
/// decision, nothing to the hub.
#[test]
fn undefined_proposal_is_ignored() {
    let mut sim = Sim::new(vec![peer(1, 1)]);
    sim.drain();
    sim.propose(0, "sys-e", &[0], Value { defined: false, v: 7 });
    sim.drain();
    assert!(sim.procs[0].systems.is_empty());
    assert!(sim.hub_decides.is_empty());
}

/// Two instances hosted by the same process stay isolated: each decides its
/// own value and events of one never touch the other.
#[test]
fn concurrent_instances_stay_isolated() {
    let mut sim = Sim::new(vec![peer(1, 1)]);
    sim.drain();
    sim.propose(0, "sys-x", &[0], Value { defined: true, v: 7 });
    sim.propose(0, "sys-y", &[0], Value { defined: true, v: 9 });
    sim.drain();
    assert_eq!(sim.decided(0, "sys-x"), Some(true));
    assert_eq!(sim.decided(0, "sys-y"), Some(true));
    let mut decided: Vec<(String, i32)> = sim.hub_decides.clone();
    decided.sort();
    assert_eq!(
        decided,
        vec![("sys-x".to_string(), 7), ("sys-y".to_string(), 9)]
    );
}

/// Re-delivering an already handled envelope changes neither the decision
/// flag, nor the elected leader, nor the last started epoch.
#[test]
fn redelivery_changes_no_decision() {
    let mut sim = Sim::new(vec![peer(1, 1), peer(2, 2), peer(3, 3)]);
    sim.drain();
    for i in 0..3 {
        sim.propose(i, "sys-f", &[0, 1, 2], Value { defined: true, v: 5 });
    }
    sim.drain();
    assert_eq!(sim.decided(0, "sys-f"), Some(true));
    let before: Vec<(bool, u64)> = sim.procs[0]
        .systems
        .iter()
        .map(|s| (s.uc.decided, s.ec.last_ts))
        .collect();
    let leader_before = sim.procs[0].systems[0].eld.leader.as_ref().map(|n| n.id);
    let decides_before = sim.hub_decides.len();
    // replay every envelope that was ever delivered to peer 1
    let replay: Vec<Envelope> = sim
        .wire_log
        .iter()
        .filter(|(idx, _)| *idx == 0)
        .map(|(_, e)| clone_envelope(e))
        .collect();
    for env in replay {
        let sys = env.system_id.clone();
        sim.procs[0].push(EventData::External(sys, env));
    }
    sim.drain();
    let after: Vec<(bool, u64)> = sim.procs[0]
        .systems
        .iter()
        .map(|s| (s.uc.decided, s.ec.last_ts))
        .collect();
    let leader_after = sim.procs[0].systems[0].eld.leader.as_ref().map(|n| n.id);
    assert_eq!(before, after);
    assert_eq!(leader_before, leader_after);
    // the instance had decided already, so no further decision reaches the hub
    assert_eq!(sim.hub_decides.len(), decides_before);
}

/// Any two processes that decide in one instance decide the same value, and
/// that value was proposed.
#[test]
fn agreement_and_validity_across_peers() {
    let mut sim = Sim::new(vec![peer(2, 2), peer(1, 1), peer(3, 3)]);
    sim.drain();
    for i in 0..3 {
        sim.propose(i, "sys-g", &[0, 1, 2], Value { defined: true, v: 33 });
    }
    sim.drain();
    for _ in 0..3 {
        sim.tick();
    }
    let decided: Vec<i32> = sim.hub_decides.iter().map(|(_, v)| *v).collect();
    assert!(!decided.is_empty());
    for v in &decided {
        assert_eq!(*v, 33);
    }
}
