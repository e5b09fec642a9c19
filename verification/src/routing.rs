//! The routing engine's decisions: which routes start and under which
//! indices, how one egress route reacts to each event of its loop, what the
//! ingress reader does with each datagram, and how the supervisor answers a
//! shutdown request. The surrounding process owns the sockets, channels and
//! threads and feeds these machines the events they react to.

use vstd::prelude::*;

use crate::config::AppConfigState;
use crate::config::VORAppIdentifier;
use crate::config::VORAppStatus;
use crate::config::VORConfig;
use crate::config::VORConfigWrapper;
use crate::osc::OscDecoded;
use crate::osc::decoded_model;
use crate::osc::osc_model;
use crate::pf::FilterVerdict;
use crate::pf::PacketFilter;
use crate::pf::packet_filter;
use crate::pf::spec_filter_allows;
use crate::pf::spec_filter_payload;
use crate::vorerr::VORAppError;
use crate::vorerr::app_error;
use crate::vorutils::dec_value;
use crate::vorutils::parse_u64_str;
use crate::vorutils::u64_body;
use crate::vorutils::u64_parses;

verus! {

/// The one control message the engine takes: stop everything.
pub enum RouterMsg {
    ShutdownAll,
}

/// The broadcast queue capacity named by the configuration: a positive
/// decimal that fits in a `usize`. Zero is rejected, so every engine run
/// has a strictly positive capacity.
pub fn parse_vor_buffer_size(s: &String) -> (r: Option<usize>)
    ensures
        r is Some <==> (u64_parses(s@) && 0 < dec_value(u64_body(s@)) <= usize::MAX),
        r matches Some(v) ==> v == dec_value(u64_body(s@)),
{
    match parse_u64_str(s.as_str()) {
        Some(v) => {
            if v > 0 && v <= usize::MAX as u64 {
                Some(v as usize)
            } else {
                None
            }
        },
        None => None,
    }
}

/// The configurations of the routes that start, in their configured order:
/// every route whose status is not Disabled.
pub open spec fn spec_enabled_configs(
    c: Seq<(VORConfigWrapper, VORAppStatus, AppConfigState)>,
) -> Seq<VORConfig>
    decreases c.len(),
{
    if c.len() == 0 {
        Seq::empty()
    } else {
        let init = spec_enabled_configs(c.drop_last());
        if c.last().1 is Disabled {
            init
        } else {
            init.push(c.last().0.config_data)
        }
    }
}

/// The routes the supervisor starts: each enabled configuration paired with
/// its index, which is its position in the enabled list.
pub fn enabled_routes(configs: Vec<(VORConfigWrapper, VORAppStatus, AppConfigState)>) -> (r: Vec<
    (VORConfig, i64),
>)
    requires
        configs@.len() <= i64::MAX,
    ensures
        r@.len() == spec_enabled_configs(configs@).len(),
        forall|j: int| 0 <= j < r@.len() ==> #[trigger] r@[j].0 == spec_enabled_configs(configs@)[j]
            && r@[j].1 == j,
{
    let ghost all = configs@;
    let mut r: Vec<(VORConfig, i64)> = Vec::new();
    let mut rest = configs;
    let total: usize = rest.len();
    proof {
        assert(all.len() == total);
        assert(all.skip(0) =~= all);
    }
    let mut taken: usize = 0;
    while rest.len() > 0
        invariant
            taken + rest@.len() == all.len(),
            all.len() <= i64::MAX,
            all.len() <= usize::MAX,
            rest@ == all.skip(taken as int),
            r@.len() == spec_enabled_configs(all.take(taken as int)).len(),
            r@.len() <= taken,
            forall|j: int| 0 <= j < r@.len() ==> #[trigger] r@[j].0 == spec_enabled_configs(
                all.take(taken as int),
            )[j] && r@[j].1 == j,
        decreases rest@.len(),
    {
        let c = rest.remove(0);
        let ghost before = spec_enabled_configs(all.take(taken as int));
        let ghost old_r = r@;
        proof {
            assert(all.take(taken as int + 1).drop_last() =~= all.take(taken as int));
            assert(all.take(taken as int + 1).last() == all[taken as int]);
            assert(c == all[taken as int]);
        }
        let enabled = match c.1 {
            VORAppStatus::Disabled => false,
            _ => true,
        };
        if enabled {
            let ix = r.len() as i64;
            r.push((c.0.config_data, ix));
            proof {
                let na = all.take(taken as int + 1);
                assert(spec_enabled_configs(na) == before.push(c.0.config_data));
                assert(r@ == old_r.push((c.0.config_data, ix)));
                assert forall|j: int| 0 <= j < r@.len() implies #[trigger] r@[j].0
                    == spec_enabled_configs(na)[j] && r@[j].1 == j by {
                    if j < old_r.len() {
                        assert(r@[j] == old_r[j]);
                        assert(spec_enabled_configs(na)[j] == before[j]);
                    } else {
                        assert(r@[j] == (c.0.config_data, ix));
                        assert(spec_enabled_configs(na)[j] == c.0.config_data);
                    }
                }
            }
        } else {
            proof {
                let na = all.take(taken as int + 1);
                assert(c.1 is Disabled);
                assert(spec_enabled_configs(na) == before);
            }
        }
        taken = taken + 1;
    }
    proof {
        assert(all.take(taken as int) =~= all);
        assert forall|j: int| 0 <= j < r@.len() implies #[trigger] r@[j].0 == spec_enabled_configs(
            configs@,
        )[j] && r@[j].1 == j by {
            assert(r@[j].0 == spec_enabled_configs(all.take(taken as int))[j] && r@[j].1 == j);
        }
    }
    r
}

/// No enabled routes, no workers: an engine whose configurations are all
/// disabled starts none, and received packets are dropped on the floor.
pub proof fn lemma_no_enabled_routes(c: Seq<(VORConfigWrapper, VORAppStatus, AppConfigState)>)
    requires
        forall|i: int| 0 <= i < c.len() ==> c[i].1 is Disabled,
    ensures
        spec_enabled_configs(c).len() == 0,
    decreases c.len(),
{
    if c.len() > 0 {
        assert(c.last() == c[c.len() - 1]);
        assert(forall|i: int| 0 <= i < c.drop_last().len() ==> c.drop_last()[i] == c[i]);
        lemma_no_enabled_routes(c.drop_last());
    }
}

/// What the supervisor does on start: spawn one worker per enabled route,
/// or, when the listening socket failed to bind, report one engine-level
/// error (sentinel index -1) and spawn nothing.
pub enum StartPlan {
    BindFailed(VORAppIdentifier),
    Spawn(Vec<(VORConfig, i64)>),
}

/// The supervisor's startup decision. `bind_ok` says whether the listening
/// socket bound.
pub fn plan_start(
    bind_ok: bool,
    configs: Vec<(VORConfigWrapper, VORAppStatus, AppConfigState)>,
) -> (r: StartPlan)
    requires
        configs@.len() <= i64::MAX,
    ensures
        r is BindFailed <==> !bind_ok,
        r matches StartPlan::BindFailed(id) ==> id.index == -1 && (id.status matches
        VORAppStatus::AppError(e) && e.id == -1),
        r matches StartPlan::Spawn(routes) ==> routes@.len() == spec_enabled_configs(
            configs@,
        ).len() && forall|j: int| 0 <= j < routes@.len() ==> #[trigger] routes@[j].0
            == spec_enabled_configs(configs@)[j] && routes@[j].1 == j,
{
    if !bind_ok {
        StartPlan::BindFailed(app_error(-1, -1, "Failed to bind VOR socket.".to_string()))
    } else {
        StartPlan::Spawn(enabled_routes(configs))
    }
}

/// Every index a start plan hands out is a valid enabled-route index:
/// at least zero and below the number of enabled routes.
pub proof fn lemma_start_plan_indices(
    routes: Seq<(VORConfig, i64)>,
    configs: Seq<(VORConfigWrapper, VORAppStatus, AppConfigState)>,
)
    requires
        routes.len() == spec_enabled_configs(configs).len(),
        forall|j: int| 0 <= j < routes.len() ==> #[trigger] routes[j].1 == j,
    ensures
        forall|j: int| 0 <= j < routes.len() ==> 0 <= #[trigger] routes[j].1 < spec_enabled_configs(
            configs,
        ).len(),
{
}

/// Where one egress route stands in its life: waiting for its send socket,
/// in its receive-and-forward loop, or finished.
pub enum RoutePhase {
    Binding,
    Running,
    Done,
}

/// One thing that happened to an egress route: the outcome of the bind, a
/// value read from its shutdown channel, the outcome of one broadcast
/// receive, or the outcome of one send.
pub enum RouteEvent {
    BindOk,
    BindFailed(String),
    ShutdownSignal(bool),
    BusMessage(Vec<u8>),
    BusEmpty,
    BusLagged(u64),
    BusClosed,
    SendOk,
    SendFailed(String),
}

/// What the route does next: keep looping, send these bytes to its
/// destination, or leave the loop.
pub enum RouteAction {
    Continue,
    Send(Vec<u8>),
    Exit,
}

/// Which events can reach a route in which phase: bind outcomes while
/// binding, loop events while running, nothing once done.
pub open spec fn spec_event_fits(p: RoutePhase, e: RouteEvent) -> bool {
    match p {
        RoutePhase::Binding => e is BindOk || e is BindFailed,
        RoutePhase::Running => !(e is BindOk || e is BindFailed),
        RoutePhase::Done => false,
    }
}

/// The phase a route moves to on an event.
pub open spec fn spec_route_next(p: RoutePhase, e: RouteEvent) -> RoutePhase {
    match p {
        RoutePhase::Binding => match e {
            RouteEvent::BindOk => RoutePhase::Running,
            RouteEvent::BindFailed(_) => RoutePhase::Done,
            _ => RoutePhase::Binding,
        },
        RoutePhase::Running => match e {
            RouteEvent::ShutdownSignal(sig) => if sig {
                RoutePhase::Done
            } else {
                RoutePhase::Running
            },
            RouteEvent::BusClosed => RoutePhase::Done,
            _ => RoutePhase::Running,
        },
        RoutePhase::Done => RoutePhase::Done,
    }
}

/// The status the route reports on an event, if any: Running after a
/// successful bind; an error (without leaving the loop) on a failed send;
/// an error and exit on a failed bind; Stopped on shutdown or when the
/// broadcast has closed.
pub open spec fn spec_route_emit(ix: i64, p: RoutePhase, e: RouteEvent) -> Option<
    VORAppIdentifier,
> {
    match p {
        RoutePhase::Binding => match e {
            RouteEvent::BindOk => Some(
                VORAppIdentifier { index: ix, status: VORAppStatus::Running },
            ),
            RouteEvent::BindFailed(m) => Some(
                VORAppIdentifier {
                    index: ix,
                    status: VORAppStatus::AppError(VORAppError { id: -2i32, msg: m }),
                },
            ),
            _ => None,
        },
        RoutePhase::Running => match e {
            RouteEvent::ShutdownSignal(sig) => if sig {
                Some(VORAppIdentifier { index: ix, status: VORAppStatus::Stopped })
            } else {
                None
            },
            RouteEvent::BusClosed => Some(
                VORAppIdentifier { index: ix, status: VORAppStatus::Stopped },
            ),
            RouteEvent::SendFailed(m) => Some(
                VORAppIdentifier {
                    index: ix,
                    status: VORAppStatus::AppError(VORAppError { id: -3i32, msg: m }),
                },
            ),
            _ => None,
        },
        RoutePhase::Done => None,
    }
}

/// The action the route takes on an event: forward a received buffer, exit
/// on shutdown, bind failure or a closed broadcast, keep looping otherwise
/// (a lag gap is skipped without any status change).
pub open spec fn spec_route_action(p: RoutePhase, e: RouteEvent) -> RouteAction {
    match p {
        RoutePhase::Binding => match e {
            RouteEvent::BindFailed(_) => RouteAction::Exit,
            _ => RouteAction::Continue,
        },
        RoutePhase::Running => match e {
            RouteEvent::ShutdownSignal(sig) => if sig {
                RouteAction::Exit
            } else {
                RouteAction::Continue
            },
            RouteEvent::BusClosed => RouteAction::Exit,
            RouteEvent::BusMessage(b) => RouteAction::Send(b),
            _ => RouteAction::Continue,
        },
        RoutePhase::Done => RouteAction::Exit,
    }
}

/// A status a route may report between Running and its final Stopped.
pub open spec fn status_is_mid(s: VORAppStatus) -> bool {
    s is Running || s is AppError
}

/// The statuses of a route still in its loop: Running first, then only
/// Running or Error.
pub open spec fn running_trace(t: Seq<VORAppStatus>) -> bool {
    &&& t.len() >= 1
    &&& t[0] is Running
    &&& forall|i: int| 0 <= i < t.len() ==> status_is_mid(#[trigger] t[i])
}

/// The statuses of a finished route: either the single error of a failed
/// bind, or Running, then Running/Error, then a final Stopped.
pub open spec fn done_trace(t: Seq<VORAppStatus>) -> bool {
    ||| (t.len() == 1 && t[0] is AppError)
    ||| (t.len() >= 2 && t[0] is Running && t.last() is Stopped && forall|i: int|
        0 <= i < t.len() - 1 ==> status_is_mid(#[trigger] t[i]))
}

/// One egress route's lifecycle, driven by the loop around it. `trace`
/// records every status the route has reported, in order.
pub struct RouteWorker {
    pub index: i64,
    pub phase: RoutePhase,
    pub trace: Ghost<Seq<VORAppStatus>>,
}

impl RouteWorker {
    /// The trace always fits the phase: nothing reported while binding, a
    /// running trace while running, a finished trace when done.
    pub open spec fn wf(self) -> bool {
        match self.phase {
            RoutePhase::Binding => self.trace@.len() == 0,
            RoutePhase::Running => running_trace(self.trace@),
            RoutePhase::Done => done_trace(self.trace@),
        }
    }

    /// A fresh worker for the route with this index, about to bind.
    pub fn new(index: i64) -> (w: RouteWorker)
        ensures
            w.index == index,
            w.phase is Binding,
            w.trace@ == Seq::<VORAppStatus>::empty(),
            w.wf(),
    {
        RouteWorker { index, phase: RoutePhase::Binding, trace: Ghost(Seq::empty()) }
    }

    /// Reacts to one event: moves phase, reports at most one status (always
    /// under this route's own index), and answers with the action to take.
    pub fn step(&mut self, event: RouteEvent) -> (r: (Option<VORAppIdentifier>, RouteAction))
        requires
            old(self).wf(),
            spec_event_fits(old(self).phase, event),
        ensures
            final(self).wf(),
            final(self).index == old(self).index,
            final(self).phase == spec_route_next(old(self).phase, event),
            r.0 == spec_route_emit(old(self).index, old(self).phase, event),
            r.1 == spec_route_action(old(self).phase, event),
            (r.0 matches Some(id) ==> final(self).trace@ == old(self).trace@.push(id.status)),
            (r.0 is None ==> final(self).trace@ == old(self).trace@),
    {
        match event {
            RouteEvent::BindOk => {
                self.phase = RoutePhase::Running;
                proof {
                    self.trace@ = self.trace@.push(VORAppStatus::Running);
                }
                (
                    Some(VORAppIdentifier { index: self.index, status: VORAppStatus::Running }),
                    RouteAction::Continue,
                )
            },
            RouteEvent::BindFailed(m) => {
                self.phase = RoutePhase::Done;
                let id = app_error(self.index, -2, m);
                proof {
                    self.trace@ = self.trace@.push(id.status);
                }
                (Some(id), RouteAction::Exit)
            },
            RouteEvent::ShutdownSignal(sig) => {
                if sig {
                    self.phase = RoutePhase::Done;
                    proof {
                        self.trace@ = self.trace@.push(VORAppStatus::Stopped);
                    }
                    (
                        Some(
                            VORAppIdentifier { index: self.index, status: VORAppStatus::Stopped },
                        ),
                        RouteAction::Exit,
                    )
                } else {
                    (None, RouteAction::Continue)
                }
            },
            RouteEvent::BusMessage(b) => (None, RouteAction::Send(b)),
            RouteEvent::BusEmpty => (None, RouteAction::Continue),
            RouteEvent::BusLagged(_) => (None, RouteAction::Continue),
            RouteEvent::BusClosed => {
                self.phase = RoutePhase::Done;
                proof {
                    self.trace@ = self.trace@.push(VORAppStatus::Stopped);
                }
                (
                    Some(VORAppIdentifier { index: self.index, status: VORAppStatus::Stopped }),
                    RouteAction::Exit,
                )
            },
            RouteEvent::SendOk => (None, RouteAction::Continue),
            RouteEvent::SendFailed(m) => {
                let id = app_error(self.index, -3, m);
                proof {
                    self.trace@ = self.trace@.push(id.status);
                }
                (Some(id), RouteAction::Continue)
            },
        }
    }
}

/// Whether `t` is a prefix of the status pattern
/// Stopped, Running, (Error | Running)*, Stopped.
pub open spec fn spec_status_prefix_ok(t: Seq<VORAppStatus>) -> bool {
    ||| t.len() == 0
    ||| (t[0] is Stopped && (t.len() == 1 || (t[1] is Running && forall|i: int|
        2 <= i < t.len() ==> (status_is_mid(#[trigger] t[i]) || (t[i] is Stopped && i == t.len()
            - 1)))))
}

/// The statuses observed for a route whose send socket bound -- the initial
/// Stopped it is configured with, then everything its worker reported, in
/// order -- form a prefix of: Stopped, Running, (Error | Running)*, Stopped.
/// (A route whose bind failed reports a single error instead.)
pub proof fn lemma_route_status_prefix(w: RouteWorker)
    requires
        w.wf(),
        w.trace@.len() > 0 ==> w.trace@[0] is Running,
    ensures
        spec_status_prefix_ok(seq![VORAppStatus::Stopped] + w.trace@),
{
    let t = seq![VORAppStatus::Stopped] + w.trace@;
    if w.trace@.len() > 0 {
        assert(t[0] is Stopped);
        assert(t[1] == w.trace@[0]);
        assert forall|i: int| 2 <= i < t.len() implies (status_is_mid(#[trigger] t[i]) || (
        t[i] is Stopped && i == t.len() - 1)) by {
            assert(t[i] == w.trace@[i - 1]);
        }
    }
}

/// One engine's answer to control messages: whether it has already shut
/// down, and what it tears down when asked to.
pub struct Supervisor {
    pub route_count: usize,
    pub async_mode: bool,
    pub shut_down: bool,
}

/// What a shutdown request makes the supervisor do: signal the ingress
/// reader, signal every route's shutdown channel, and, in cooperative mode,
/// abort the task handles and tear the runtime down.
pub struct ShutdownPlan {
    pub signal_ingress: bool,
    pub signal_routes: usize,
    pub abort_tasks: bool,
}

/// The plan that does nothing.
pub open spec fn spec_empty_plan() -> ShutdownPlan {
    ShutdownPlan { signal_ingress: false, signal_routes: 0, abort_tasks: false }
}

/// The supervisor state after a control message: ShutdownAll leaves it shut
/// down, and once shut down it stays so.
pub open spec fn spec_control_next(s: Supervisor, msg: RouterMsg) -> Supervisor {
    match msg {
        RouterMsg::ShutdownAll => Supervisor {
            route_count: s.route_count,
            async_mode: s.async_mode,
            shut_down: true,
        },
    }
}

/// The teardown a control message triggers: on the first ShutdownAll,
/// signal the ingress reader and all routes (aborting tasks in cooperative
/// mode); afterwards, nothing -- the engine is already down.
pub open spec fn spec_control_plan(s: Supervisor, msg: RouterMsg) -> ShutdownPlan {
    match msg {
        RouterMsg::ShutdownAll => if s.shut_down {
            spec_empty_plan()
        } else {
            ShutdownPlan {
                signal_ingress: true,
                signal_routes: s.route_count,
                abort_tasks: s.async_mode,
            }
        },
    }
}

impl Supervisor {
    /// A live supervisor over `route_count` spawned routes.
    pub fn new(route_count: usize, async_mode: bool) -> (s: Supervisor)
        ensures
            s == (Supervisor { route_count, async_mode, shut_down: false }),
    {
        Supervisor { route_count, async_mode, shut_down: false }
    }

    /// Answers one control message with the teardown to perform.
    pub fn handle(&mut self, msg: RouterMsg) -> (r: ShutdownPlan)
        ensures
            *final(self) == spec_control_next(*old(self), msg),
            r == spec_control_plan(*old(self), msg),
    {
        match msg {
            RouterMsg::ShutdownAll => {
                if self.shut_down {
                    ShutdownPlan { signal_ingress: false, signal_routes: 0, abort_tasks: false }
                } else {
                    self.shut_down = true;
                    ShutdownPlan {
                        signal_ingress: true,
                        signal_routes: self.route_count,
                        abort_tasks: self.async_mode,
                    }
                }
            },
        }
    }
}

/// ShutdownAll is idempotent: after one ShutdownAll the supervisor is shut
/// down, and a second request changes nothing and tears nothing down.
pub proof fn lemma_shutdown_idempotent(s: Supervisor)
    ensures
        spec_control_next(s, RouterMsg::ShutdownAll).shut_down,
        spec_control_plan(
            spec_control_next(s, RouterMsg::ShutdownAll),
            RouterMsg::ShutdownAll,
        ) == spec_empty_plan(),
        spec_control_next(
            spec_control_next(s, RouterMsg::ShutdownAll),
            RouterMsg::ShutdownAll,
        ) == spec_control_next(s, RouterMsg::ShutdownAll),
{
}

/// Every status a worker reports carries the worker's own index.
pub proof fn lemma_emitted_index(ix: i64, p: RoutePhase, e: RouteEvent)
    ensures
        spec_route_emit(ix, p, e) matches Some(id) ==> id.index == ix,
{
}

/// The first ShutdownAll reaches every worker: the teardown plan signals
/// the ingress reader and all of the supervisor's routes, and a running
/// route that reads the signal reports Stopped and exits at once.
pub proof fn lemma_shutdown_reaches_all_workers(s: Supervisor, ix: i64)
    requires
        !s.shut_down,
    ensures
        spec_control_plan(s, RouterMsg::ShutdownAll).signal_ingress,
        spec_control_plan(s, RouterMsg::ShutdownAll).signal_routes == s.route_count,
        spec_route_action(RoutePhase::Running, RouteEvent::ShutdownSignal(true))
            == RouteAction::Exit,
        spec_route_emit(ix, RoutePhase::Running, RouteEvent::ShutdownSignal(true)) matches Some(id)
            && id.status is Stopped,
{
}

/// One thing that happened to the ingress reader: a datagram of these bytes
/// arrived, or the receive timed out or failed.
pub enum IngressEvent {
    Datagram(Vec<u8>),
    RecvFailed,
}

/// What the ingress reader does after one receive: publish these bytes on
/// the broadcast (if any), hand this decode outcome to the debug tap (if
/// one was evaluated), and exit when the shutdown signal was raised.
pub struct IngressStep {
    pub publish: Option<Vec<u8>>,
    pub decoded: Option<OscDecoded>,
    pub exit: bool,
}

/// One iteration of the ingress loop: an empty read is skipped, a datagram
/// goes through the packet filter, a failed receive publishes nothing, and
/// the shutdown channel's value (when one was pending) decides the exit.
pub fn ingress_step(pf: &PacketFilter, event: IngressEvent, shutdown: Option<bool>) -> (r:
    IngressStep)
    ensures
        r.exit == (shutdown == Some(true)),
        event matches IngressEvent::Datagram(b) ==> {
            &&& b@.len() > 0 ==> {
                &&& (r.publish is Some <==> spec_filter_allows(*pf, osc_model(b@)))
                &&& (r.publish matches Some(p) ==> p@ == spec_filter_payload(
                    *pf,
                    osc_model(b@),
                    b@,
                ))
                &&& (r.decoded matches Some(d) && decoded_model(d) == osc_model(b@))
            }
            &&& b@.len() == 0 ==> r.publish is None && r.decoded is None
        },
        event is RecvFailed ==> r.publish is None && r.decoded is None,
{
    let exit = match shutdown {
        Some(sig) => sig,
        None => false,
    };
    match event {
        IngressEvent::Datagram(b) => {
            if b.len() == 0 {
                IngressStep { publish: None, decoded: None, exit }
            } else {
                let outcome = packet_filter(pf, &b);
                let publish = match outcome.verdict {
                    FilterVerdict::Allowed(p) => Some(p),
                    FilterVerdict::Dropped => None,
                };
                IngressStep { publish, decoded: Some(outcome.decoded), exit }
            }
        },
        IngressEvent::RecvFailed => IngressStep { publish: None, decoded: None, exit },
    }
}

} // verus!
