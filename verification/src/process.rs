use vstd::prelude::*;

use crate::app::App;
use crate::event::EventData;
use crate::event::InternalMessage;
use crate::event::Output;
use crate::message::Payload;
use crate::node::NodeInfo;
use crate::pl::PerfectLink;
use crate::sys::System;
use crate::sys::handle_post;

verus! {

/// Moves every event of `src` to the end of `dst`, in order.
pub fn append_events(dst: &mut Vec<EventData>, src: Vec<EventData>)
    ensures
        final(dst)@ == old(dst)@ + src@,
{
    let ghost orig_dst = dst@;
    let ghost orig_src = src@;
    let mut src = src;
    while src.len() > 0
        invariant
            dst@.len() == orig_dst.len() + orig_src.len() - src@.len(),
            src@ == orig_src.skip(orig_src.len() - src@.len()),
            dst@ == orig_dst + orig_src.take(orig_src.len() - src@.len()),
        decreases src.len(),
    {
        let ghost k = orig_src.len() - src@.len();
        let e = src.remove(0);
        proof {
            assert(e == orig_src[k]);
            assert(src@ =~= orig_src.skip(k + 1));
        }
        dst.push(e);
        proof {
            assert(dst@ =~= orig_dst + orig_src.take(k + 1));
        }
    }
    proof {
        assert(dst@ =~= orig_dst + orig_src);
    }
}

/// Moves every output of `src` to the end of `dst`, in order.
pub fn append_outputs(dst: &mut Vec<Output>, src: Vec<Output>)
    ensures
        final(dst)@ == old(dst)@ + src@,
{
    let ghost orig_dst = dst@;
    let ghost orig_src = src@;
    let mut src = src;
    while src.len() > 0
        invariant
            dst@.len() == orig_dst.len() + orig_src.len() - src@.len(),
            src@ == orig_src.skip(orig_src.len() - src@.len()),
            dst@ == orig_dst + orig_src.take(orig_src.len() - src@.len()),
        decreases src.len(),
    {
        let ghost k = orig_src.len() - src@.len();
        let o = src.remove(0);
        proof {
            assert(o == orig_src[k]);
            assert(src@ =~= orig_src.skip(k + 1));
        }
        dst.push(o);
        proof {
            assert(dst@ =~= orig_dst + orig_src.take(k + 1));
        }
    }
    proof {
        assert(dst@ =~= orig_dst + orig_src);
    }
}

/// The event was offered to every hosted instance, in hosting order: each
/// instance the event addresses was stepped exactly as
/// [`handle_post`] says and contributed its emissions and outputs, in order;
/// every other instance is untouched.
pub open spec fn offered(
    pre: Seq<System>,
    post: Seq<System>,
    e: EventData,
    events: Seq<EventData>,
    outs: Seq<Output>,
) -> bool
    decreases pre.len(),
{
    if pre.len() == 0 {
        post.len() == 0 && events.len() == 0 && outs.len() == 0
    } else if post.len() != pre.len() {
        false
    } else if e is Internal && e.spec_system_id() == pre[0].system_id@ {
        exists|k: int, j: int|
            0 <= k <= events.len() && 0 <= j <= outs.len() && #[trigger] handle_post(
                pre[0],
                post[0],
                e,
                events.take(k),
                outs.take(j),
            ) && offered(pre.drop_first(), post.drop_first(), e, events.skip(k), outs.skip(j))
    } else {
        post[0] == pre[0] && offered(pre.drop_first(), post.drop_first(), e, events, outs)
    }
}

/// Extends an offering by one more hosted instance at the end.
proof fn lemma_offered_snoc(
    pre: Seq<System>,
    post: Seq<System>,
    e: EventData,
    events: Seq<EventData>,
    outs: Seq<Output>,
    x: System,
    y: System,
    evs2: Seq<EventData>,
    outs2: Seq<Output>,
)
    requires
        offered(pre, post, e, events, outs),
        (if e is Internal && e.spec_system_id() == x.system_id@ {
            handle_post(x, y, e, evs2, outs2)
        } else {
            y == x && evs2.len() == 0 && outs2.len() == 0
        }),
    ensures
        offered(pre.push(x), post.push(y), e, events + evs2, outs + outs2),
    decreases pre.len(),
{
    let all_e = events + evs2;
    let all_o = outs + outs2;
    if pre.len() == 0 {
        assert((pre.push(x)).drop_first() =~= Seq::<System>::empty());
        assert((post.push(y)).drop_first() =~= Seq::<System>::empty());
        assert(all_e =~= evs2);
        assert(all_o =~= outs2);
        if e is Internal && e.spec_system_id() == x.system_id@ {
            let k0 = evs2.len() as int;
            let j0 = outs2.len() as int;
            assert((pre.push(x))[0] == x);
            assert((post.push(y))[0] == y);
            assert(all_e.take(k0) =~= evs2);
            assert(all_o.take(j0) =~= outs2);
            assert(all_e.skip(k0) =~= Seq::<EventData>::empty());
            assert(all_o.skip(j0) =~= Seq::<Output>::empty());
            assert(handle_post((pre.push(x))[0], (post.push(y))[0], e, all_e.take(k0), all_o.take(j0)));
            assert(offered(
                (pre.push(x)).drop_first(),
                (post.push(y)).drop_first(),
                e,
                all_e.skip(k0),
                all_o.skip(j0),
            ));
            assert(offered(pre.push(x), post.push(y), e, all_e, all_o));
        } else {
            assert((pre.push(x))[0] == x);
            assert((post.push(y))[0] == y);
            assert(offered(
                (pre.push(x)).drop_first(),
                (post.push(y)).drop_first(),
                e,
                all_e,
                all_o,
            ));
            assert(offered(pre.push(x), post.push(y), e, all_e, all_o));
        }
    } else {
        assert((pre.push(x)).drop_first() =~= pre.drop_first().push(x));
        assert((post.push(y)).drop_first() =~= post.drop_first().push(y));
        if e is Internal && e.spec_system_id() == pre[0].system_id@ {
            let (k, j) = choose|k: int, j: int|
                0 <= k <= events.len() && 0 <= j <= outs.len() && #[trigger] handle_post(
                    pre[0],
                    post[0],
                    e,
                    events.take(k),
                    outs.take(j),
                ) && offered(pre.drop_first(), post.drop_first(), e, events.skip(k), outs.skip(j));
            lemma_offered_snoc(
                pre.drop_first(),
                post.drop_first(),
                e,
                events.skip(k),
                outs.skip(j),
                x,
                y,
                evs2,
                outs2,
            );
            assert((pre.push(x))[0] == pre[0]);
            assert((post.push(y))[0] == post[0]);
            assert(all_e.take(k) =~= events.take(k));
            assert(all_o.take(j) =~= outs.take(j));
            assert(all_e.skip(k) =~= events.skip(k) + evs2);
            assert(all_o.skip(j) =~= outs.skip(j) + outs2);
            assert(handle_post((pre.push(x))[0], (post.push(y))[0], e, all_e.take(k), all_o.take(j)));
            assert(offered(
                (pre.push(x)).drop_first(),
                (post.push(y)).drop_first(),
                e,
                all_e.skip(k),
                all_o.skip(j),
            ));
            assert(offered(pre.push(x), post.push(y), e, all_e, all_o));
        } else {
            lemma_offered_snoc(
                pre.drop_first(),
                post.drop_first(),
                e,
                events,
                outs,
                x,
                y,
                evs2,
                outs2,
            );
            assert((pre.push(x))[0] == pre[0]);
            assert((post.push(y))[0] == post[0]);
            assert(offered(pre.push(x), post.push(y), e, all_e, all_o));
        }
    }
}

/// An event none of the stack's modules consume leaves every hosted instance
/// unchanged and silent.
proof fn lemma_offered_silent(
    pre: Seq<System>,
    post: Seq<System>,
    e: EventData,
    events: Seq<EventData>,
    outs: Seq<Output>,
)
    requires
        offered(pre, post, e, events, outs),
        (match e {
            EventData::Internal(_, im) => im is AppInit || im is UcDecide || im is PlSend
                || im is AppPropose,
            EventData::External(_, _) => true,
        }),
    ensures
        post == pre,
        events == Seq::<EventData>::empty(),
        outs == Seq::<Output>::empty(),
    decreases pre.len(),
{
    if pre.len() == 0 {
        assert(post =~= pre);
        assert(events =~= Seq::<EventData>::empty());
        assert(outs =~= Seq::<Output>::empty());
    } else if e is Internal && e.spec_system_id() == pre[0].system_id@ {
        let (k, j) = choose|k: int, j: int|
            0 <= k <= events.len() && 0 <= j <= outs.len() && #[trigger] handle_post(
                pre[0],
                post[0],
                e,
                events.take(k),
                outs.take(j),
            ) && offered(pre.drop_first(), post.drop_first(), e, events.skip(k), outs.skip(j));
        assert(crate::sys::no_effect(pre[0], post[0], events.take(k), outs.take(j)));
        assert(events.take(k).len() == 0);
        assert(outs.take(j).len() == 0);
        assert(k == 0);
        assert(j == 0);
        assert(events.skip(0) =~= events);
        assert(outs.skip(0) =~= outs);
        lemma_offered_silent(pre.drop_first(), post.drop_first(), e, events, outs);
        assert(forall|i: int| 1 <= i < pre.len() ==> pre[i] == pre.drop_first()[i - 1]);
        assert(forall|i: int| 1 <= i < post.len() ==> post[i] == post.drop_first()[i - 1]);
        assert(post =~= pre);
    } else {
        lemma_offered_silent(pre.drop_first(), post.drop_first(), e, events, outs);
        assert(forall|i: int| 1 <= i < pre.len() ==> pre[i] == pre.drop_first()[i - 1]);
        assert(forall|i: int| 1 <= i < post.len() ==> post[i] == post.drop_first()[i - 1]);
        assert(post =~= pre);
    }
}

/// One running process: the event bus, the application shim, the link, and
/// one protocol stack per consensus instance it currently hosts.
///
/// The bus is a queue of pending events. A step takes the oldest event and
/// offers it to the application, the link, and every instance whose system
/// id it carries, in that order; the events the handlers emit join the back
/// of the queue and are dispatched by later steps, and the outputs are handed
/// back for the surroundings to perform. Instances the hub announces join the
/// dispatch from the following step on.
pub struct Process {
    pub node_info: NodeInfo,
    pub app: App,
    pub pl: PerfectLink,
    pub systems: Vec<System>,
    pub queue: Vec<EventData>,
}

/// Everything dispatching the oldest pending event does. With `e` the head
/// event and `appended` what the step added behind the kept remainder of the
/// queue:
///
/// - a start-up event makes the application emit its hub registration;
/// - a decision event makes it emit the hub report;
/// - a send event makes the link put exactly that message on the wire;
/// - a hub announcement launches a fresh instance for the announced
///   participants — unless the value is undefined, the participant set is
///   empty, or an instance with that system id is already hosted — arms its
///   first timer, and proposes the announced value into it;
/// - an inbound envelope is surfaced by the link;
/// - and every other event is exactly the hosted instances' business: each
///   addressed instance is stepped as [`handle_post`] says.
pub open spec fn step_post(pre: Process, post: Process, outs: Seq<Output>) -> bool {
    let e = pre.queue@[0];
    let n0 = pre.systems@.len() as int;
    let appended = post.queue@.skip(pre.queue@.len() - 1);
    &&& post.queue@.len() >= pre.queue@.len() - 1
    &&& post.queue@.take(pre.queue@.len() - 1) == pre.queue@.drop_first()
    &&& post.node_info == pre.node_info
    &&& post.app == pre.app
    &&& match e {
        EventData::Internal(sid, im) => match im {
            InternalMessage::AppInit => {
                &&& post.systems@.len() == n0
                &&& offered(
                    pre.systems@,
                    post.systems@,
                    e,
                    Seq::<EventData>::empty(),
                    Seq::<Output>::empty(),
                )
                &&& appended == seq![
                    EventData::Internal(
                        pre.app.app_system_id,
                        InternalMessage::PlSend(
                            pre.app.current_node,
                            pre.app.hub,
                            crate::app::registration_message(pre.app),
                        ),
                    ),
                ]
                &&& outs == Seq::<Output>::empty()
            },
            InternalMessage::UcDecide(v) => {
                &&& post.systems@.len() == n0
                &&& offered(
                    pre.systems@,
                    post.systems@,
                    e,
                    Seq::<EventData>::empty(),
                    Seq::<Output>::empty(),
                )
                &&& appended == seq![
                    EventData::Internal(
                        sid,
                        InternalMessage::PlSend(
                            pre.app.current_node,
                            pre.app.hub,
                            crate::app::decide_message(pre.app, sid, v),
                        ),
                    ),
                ]
                &&& outs == Seq::<Output>::empty()
            },
            InternalMessage::PlSend(from, dest, msg) => {
                &&& post.systems@.len() == n0
                &&& offered(
                    pre.systems@,
                    post.systems@,
                    e,
                    Seq::<EventData>::empty(),
                    Seq::<Output>::empty(),
                )
                &&& appended == Seq::<EventData>::empty()
                &&& outs.len() == 1
                &&& crate::pl::is_outbound(outs[0], from, dest, msg)
            },
            InternalMessage::AppPropose(_, msg) => {
                let launches = match msg.payload {
                    Payload::AppPropose { processes, value } => value.defined && processes@.len()
                        >= 1,
                    _ => false,
                };
                let hosted = exists|i: int|
                    0 <= i < n0 && (#[trigger] pre.systems@[i].system_id)@ == msg.system_id@;
                &&& offered(
                    pre.systems@,
                    post.systems@.take(n0),
                    e,
                    Seq::<EventData>::empty(),
                    Seq::<Output>::empty(),
                )
                &&& (launches ==> appended == seq![
                    EventData::Internal(
                        msg.system_id,
                        InternalMessage::UcPropose(crate::app::proposed_value(msg)),
                    ),
                ])
                &&& (!launches ==> appended == Seq::<EventData>::empty())
                &&& if launches && !hosted {
                    &&& post.systems@.len() == n0 + 1
                    &&& crate::sys::fresh_system(
                        post.systems@[n0],
                        pre.app.current_node,
                        pre.app.hub,
                        crate::app::proposed_nodes(msg),
                        msg.system_id,
                    )
                    &&& outs == seq![
                        Output::ArmTimer {
                            system_id: msg.system_id,
                            delay_ms: crate::epfd::DELTA,
                        },
                    ]
                } else {
                    post.systems@.len() == n0 && outs == Seq::<Output>::empty()
                }
            },
            _ => {
                &&& post.systems@.len() == n0
                &&& offered(pre.systems@, post.systems@, e, appended, outs)
            },
        },
        EventData::External(_, env) => {
            &&& post.systems@ == pre.systems@
            &&& crate::pl::on_external_post(pre.node_info, env, appended)
            &&& outs == Seq::<Output>::empty()
        },
    }
}

impl Process {
    /// A fresh process: no instances yet, and the bus holds the start-up
    /// event that will register the process with the hub.
    pub fn new(node_info: NodeInfo, app_system_id: String) -> (r: Process)
        ensures
            r.node_info.current_node == node_info.current_node,
            r.node_info.hub == node_info.hub,
            r.node_info.nodes@ == node_info.nodes@,
            r.app.current_node == node_info.current_node,
            r.app.hub == node_info.hub,
            r.app.app_system_id == app_system_id,
            r.systems@ == Seq::<System>::empty(),
            r.queue@ == seq![EventData::Internal(app_system_id, InternalMessage::AppInit)],
    {
        let app = App::new(
            node_info.current_node.clone(),
            node_info.hub.clone(),
            app_system_id.clone(),
        );
        let mut queue: Vec<EventData> = Vec::new();
        queue.push(EventData::Internal(app_system_id, InternalMessage::AppInit));
        Process { node_info, app, pl: PerfectLink::new(), systems: Vec::new(), queue }
    }

    /// Admits one event to the bus.
    pub fn push(&mut self, event: EventData)
        ensures
            final(self).queue@ == old(self).queue@.push(event),
            final(self).node_info == old(self).node_info,
            final(self).app == old(self).app,
            final(self).systems == old(self).systems,
    {
        self.queue.push(event);
    }

    /// Whether an instance with this system id is already hosted.
    pub fn has_system(&self, system_id: &String) -> (r: bool)
        ensures
            r == exists|i: int|
                0 <= i < self.systems@.len() && (#[trigger] self.systems@[i].system_id)@
                    == system_id@,
    {
        let mut i: usize = 0;
        while i < self.systems.len()
            invariant
                i <= self.systems.len(),
                forall|j: int|
                    0 <= j < i ==> (#[trigger] self.systems@[j].system_id)@ != system_id@,
            decreases self.systems.len() - i,
        {
            if self.systems[i].system_id == *system_id {
                return true;
            }
            i = i + 1;
        }
        false
    }

    /// Dispatches the oldest pending event, if there is one, and returns the
    /// outputs it produced.
    ///
    /// [`step_post`] fixes what dispatching does: the head event is offered
    /// to the application, the link, and every hosted instance it addresses,
    /// a hub-announced instance joins the hosted set, and the handlers'
    /// emissions join the back of the queue. The remaining clauses state the
    /// bus laws: instances are isolated — one whose system id the event does
    /// not carry is left exactly as it was — hosted instances keep their
    /// place and id, each one's decision flag only latches, its last started
    /// epoch never moves backwards, and the rest of the queue is kept, in
    /// order, ahead of whatever the handlers emitted.
    pub fn step(&mut self) -> (r: Option<Vec<Output>>)
        ensures
            old(self).queue@.len() == 0 ==> r is None && *final(self) == *old(self),
            old(self).queue@.len() > 0 ==> r is Some && step_post(
                *old(self),
                *final(self),
                r->Some_0@,
            ),
            old(self).queue@.len() > 0 ==> {
                let e = old(self).queue@[0];
                &&& final(self).node_info.current_node == old(self).node_info.current_node
                &&& final(self).node_info.hub == old(self).node_info.hub
                &&& final(self).node_info.nodes@ == old(self).node_info.nodes@
                &&& final(self).app == old(self).app
                &&& final(self).systems@.len() >= old(self).systems@.len()
                &&& (forall|i: int|
                    0 <= i < old(self).systems@.len() ==> {
                        let pre = old(self).systems@[i];
                        let post = #[trigger] final(self).systems@[i];
                        &&& post.system_id@ == pre.system_id@
                        &&& (!(e is Internal && e.spec_system_id() == pre.system_id@) ==> post
                            == pre)
                        &&& (pre.uc.decided ==> post.uc.decided)
                        &&& pre.ec.last_ts <= post.ec.last_ts
                    })
                &&& final(self).queue@.len() >= old(self).queue@.len() - 1
                &&& (forall|i: int|
                    0 <= i < old(self).queue@.len() - 1 ==> #[trigger] final(self).queue@[i] == old(
                        self,
                    ).queue@[i + 1])
            },
    {
        if self.queue.len() == 0 {
            return None;
        }
        let e = self.queue.remove(0);
        let mut head_events: Vec<EventData> = Vec::new();
        let mut outputs: Vec<Output> = Vec::new();
        let mut spawned: Option<System> = None;

        match &e {
            EventData::Internal(system_id, im) => {
                match im {
                    InternalMessage::AppInit => {
                        let evs = self.app.init();
                        append_events(&mut head_events, evs);
                    },
                    InternalMessage::AppPropose(_, msg) => {
                        let (sys, evs) = self.app.on_propose(msg);
                        spawned = sys;
                        append_events(&mut head_events, evs);
                    },
                    InternalMessage::UcDecide(v) => {
                        let evs = self.app.on_decide(system_id, *v);
                        append_events(&mut head_events, evs);
                    },
                    InternalMessage::PlSend(from, dest, msg) => {
                        let ghost original = *msg;
                        let copy = msg.clone();
                        let ghost gcopy = copy;
                        let out = self.pl.on_send(from, dest, copy);
                        proof {
                            crate::pl::lemma_outbound_equiv(out, *from, *dest, original, gcopy);
                        }
                        outputs.push(out);
                    },
                    _ => {},
                }
            },
            EventData::External(_, env) => {
                let evs = self.pl.on_external(&self.node_info, env);
                append_events(&mut head_events, evs);
            },
        }

        let ghost orig_systems = self.systems@;
        let ghost pre_loop_queue = self.queue@;
        let mut handled: Vec<System> = Vec::new();
        let mut sys_events: Vec<EventData> = Vec::new();
        let mut sys_outputs: Vec<Output> = Vec::new();
        while self.systems.len() > 0
            invariant
                self.node_info == old(self).node_info,
                self.app == old(self).app,
                self.queue@ == pre_loop_queue,
                handled@.len() + self.systems@.len() == orig_systems.len(),
                self.systems@ == orig_systems.skip(handled@.len() as int),
                offered(
                    orig_systems.take(handled@.len() as int),
                    handled@,
                    e,
                    sys_events@,
                    sys_outputs@,
                ),
                forall|i: int|
                    0 <= i < handled@.len() ==> {
                        let pre = orig_systems[i];
                        let post = #[trigger] handled@[i];
                        &&& post.system_id@ == pre.system_id@
                        &&& (!(e is Internal && e.spec_system_id() == pre.system_id@) ==> post
                            == pre)
                        &&& (pre.uc.decided ==> post.uc.decided)
                        &&& pre.ec.last_ts <= post.ec.last_ts
                    },
            decreases self.systems.len(),
        {
            let ghost k = handled@.len() as int;
            let mut s = self.systems.remove(0);
            proof {
                assert(s == orig_systems[k]);
                assert(self.systems@ =~= orig_systems.skip(k + 1));
            }
            let ghost pre_s = s;
            let ghost pre_evs = sys_events@;
            let ghost pre_outs = sys_outputs@;
            if s.should_handle(&e) {
                let (evs, outs) = s.handle(&e);
                let ghost g_evs = evs@;
                let ghost g_outs = outs@;
                append_events(&mut sys_events, evs);
                append_outputs(&mut sys_outputs, outs);
                proof {
                    lemma_offered_snoc(
                        orig_systems.take(k),
                        handled@,
                        e,
                        pre_evs,
                        pre_outs,
                        pre_s,
                        s,
                        g_evs,
                        g_outs,
                    );
                    assert(orig_systems.take(k).push(pre_s) =~= orig_systems.take(k + 1));
                }
            } else {
                proof {
                    lemma_offered_snoc(
                        orig_systems.take(k),
                        handled@,
                        e,
                        pre_evs,
                        pre_outs,
                        pre_s,
                        s,
                        Seq::<EventData>::empty(),
                        Seq::<Output>::empty(),
                    );
                    assert(orig_systems.take(k).push(pre_s) =~= orig_systems.take(k + 1));
                    assert(sys_events@ =~= pre_evs + Seq::<EventData>::empty());
                    assert(sys_outputs@ =~= pre_outs + Seq::<Output>::empty());
                }
            }
            handled.push(s);
        }
        proof {
            assert(orig_systems.take(orig_systems.len() as int) =~= orig_systems);
        }
        let ghost g_handled = handled@;
        let ghost g_head_events = head_events@;
        let ghost g_sys_events = sys_events@;
        let ghost g_sys_outputs = sys_outputs@;
        let ghost g_head_outputs = outputs@;
        self.systems = handled;
        append_outputs(&mut outputs, sys_outputs);

        let ghost g_spawned = spawned;
        match spawned {
            Some(sys) => {
                let ghost g_sys = sys;
                proof {
                    // the loop preserves every instance's id, so an id is
                    // hosted afterwards exactly when it was hosted before
                    if exists|i: int|
                        0 <= i < orig_systems.len() && (
                        #[trigger] orig_systems[i].system_id)@ == g_sys.system_id@ {
                        let i = choose|i: int|
                            0 <= i < orig_systems.len() && (
                            #[trigger] orig_systems[i].system_id)@ == g_sys.system_id@;
                        assert((g_handled[i].system_id)@ == g_sys.system_id@);
                    }
                    if exists|i: int|
                        0 <= i < g_handled.len() && (#[trigger] g_handled[i].system_id)@
                            == g_sys.system_id@ {
                        let i = choose|i: int|
                            0 <= i < g_handled.len() && (#[trigger] g_handled[i].system_id)@
                                == g_sys.system_id@;
                        assert((orig_systems[i].system_id)@ == g_sys.system_id@);
                    }
                }
                if !self.has_system(&sys.system_id) {
                    outputs.push(sys.init());
                    self.systems.push(sys);
                }
            },
            None => {},
        }
        let ghost g_post_systems = self.systems@;
        let ghost g_outputs = outputs@;

        let ghost rest = self.queue@;
        append_events(&mut self.queue, head_events);
        append_events(&mut self.queue, sys_events);
        proof {
            let pre_state = *old(self);
            let ge = e;
            assert(rest =~= pre_state.queue@.drop_first());
            assert(self.queue@ =~= rest + (g_head_events + g_sys_events));
            assert(self.queue@.take(pre_state.queue@.len() - 1) =~= rest);
            assert(self.queue@.skip(pre_state.queue@.len() - 1) =~= g_head_events + g_sys_events);
            let appended = self.queue@.skip(pre_state.queue@.len() - 1);
            match ge {
                EventData::Internal(_, im) => {
                    match im {
                        InternalMessage::AppInit => {
                            lemma_offered_silent(
                                orig_systems,
                                g_handled,
                                ge,
                                g_sys_events,
                                g_sys_outputs,
                            );
                            assert(appended =~= g_head_events);
                            assert(g_outputs =~= Seq::<Output>::empty());
                        },
                        InternalMessage::UcDecide(_) => {
                            lemma_offered_silent(
                                orig_systems,
                                g_handled,
                                ge,
                                g_sys_events,
                                g_sys_outputs,
                            );
                            assert(appended =~= g_head_events);
                            assert(g_outputs =~= Seq::<Output>::empty());
                        },
                        InternalMessage::PlSend(_, _, _) => {
                            lemma_offered_silent(
                                orig_systems,
                                g_handled,
                                ge,
                                g_sys_events,
                                g_sys_outputs,
                            );
                            assert(appended =~= Seq::<EventData>::empty());
                            assert(g_outputs =~= seq![g_head_outputs[0]]);
                        },
                        InternalMessage::AppPropose(_, _) => {
                            lemma_offered_silent(
                                orig_systems,
                                g_handled,
                                ge,
                                g_sys_events,
                                g_sys_outputs,
                            );
                            assert(appended =~= g_head_events);
                            assert(g_post_systems.take(orig_systems.len() as int) =~= g_handled);
                            if g_spawned is None {
                                assert(g_post_systems =~= g_handled);
                                assert(g_outputs =~= Seq::<Output>::empty());
                            }
                        },
                        _ => {
                            assert(appended =~= g_sys_events);
                            assert(g_outputs =~= g_sys_outputs);
                            assert(g_post_systems =~= g_handled);
                        },
                    }
                },
                EventData::External(_, _) => {
                    lemma_offered_silent(orig_systems, g_handled, ge, g_sys_events, g_sys_outputs);
                    assert(g_post_systems =~= orig_systems);
                    assert(appended =~= g_head_events);
                    assert(g_outputs =~= Seq::<Output>::empty());
                },
            }
        }
        Some(outputs)
    }
}

} // verus!
