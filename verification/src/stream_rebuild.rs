//! The worker that rebuilds a receiver's pipeline while its session goes on.
//!
//! It runs like the sender's, with two differences: the old receiver holds the UDP port, so the
//! port is probed again once the old pipeline is down, and a mux thread has to be started for the
//! new one. Between two calls the bridge may have changed.
use crate::channel::BridgeCounters;
use crate::errors::BundleError;
use crate::events::SupervisorSignal;
use crate::flags;
use crate::rebuild;
use crate::rebuild::{failed, gave_up, succeeded, Leg, RebuildLeg};
use crate::stream;
use crate::stream::{
    build_stream_session, mux_start, push_shutdown, BindCtx, MuxStart, ReceiverBundle, StreamBridge,
    StreamBuildRequest, StreamRestartCache, StreamSession, StreamStep,
};
use crate::text;
use crate::text::push_decimal;
use crate::trace;
use crate::trace::HostCall;
use vstd::prelude::*;

verus! {

broadcast use trace::lemma_no_call;

/// How often a rebuild tries to bind its port.
pub const MAX_PROBE_ATTEMPTS: u32 = 3;

/// How long it waits between two tries.
pub const PROBE_RETRY_SLEEP_NS: u64 = 100_000_000;

/// The worker of one rebuild.
#[derive(Debug, Clone, Copy, PartialEq, Eq, Structural)]
pub struct StreamRebuildWorker {
    /// The stop flag of the generation that failed. Once it is raised, the rebuild is given up; a
    /// rebuild that worked raises it itself, and the drains of that generation leave.
    pub old_stop_flag: u64,
    /// Number in the worker's thread name.
    pub attempt: u32,
}

/// The worker for a rebuild.
pub fn make_stream_rebuild_hook(old_stop_flag: u64, attempt: u32) -> (w: StreamRebuildWorker)
    ensures
        w == (StreamRebuildWorker { old_stop_flag, attempt }),
{
    StreamRebuildWorker { old_stop_flag, attempt }
}

/// How the superseded generation is taken down: the receiver goes first, which frees the port and
/// lets the mux thread run out; then the mux thread is waited for and signaling stops. The drains
/// are not waited for, since one of them waits for this worker; the stop flag stays down for
/// now, since it is what tells this worker to give up.
pub open spec fn teardown_steps(session: StreamSession) -> Seq<StreamStep> {
    stream::step_if(session.receiver, |h: u64| StreamStep::DropReceiver(h)) + stream::step_if(
        session.mux_handle,
        |h: u64| StreamStep::JoinMux(h),
    ) + stream::step_if(session.signaling, |h: u64| StreamStep::StopSignaling(h))
}

/// The request for the new generation: the session's own parameters and a fresh stop flag.
pub open spec fn rebuild_request(cache: StreamRestartCache, stop_flag: u64) -> StreamBuildRequest {
    StreamBuildRequest {
        udp_port: cache.udp_port,
        service_name: cache.service_name,
        stop_flag,
        channel: cache.channel,
    }
}

/// What a rebuild builds with: the socket that was probed, and the request.
#[derive(Debug)]
pub struct StreamRebuildPlan<S> {
    pub bind_ctx: BindCtx<S>,
    pub request: StreamBuildRequest,
}

/// The first leg, and the bridge after it.
pub open spec fn begin_leg<B>(bridge: StreamBridge<B>, stop_flag: bool) -> (
    Leg<StreamStep, StreamRestartCache>,
    StreamBridge<B>,
) {
    match bridge.restart_cache {
        Some(cache) if !stop_flag => (
            Leg {
                steps: match bridge.session {
                    Some(session) => teardown_steps(session),
                    None => Seq::empty(),
                },
                released: match bridge.session {
                    Some(session) => Some(session.stop_flag),
                    None => None,
                },
                signals: Seq::empty(),
                closing: None,
                next: Some(cache),
            },
            bridge.without_session(),
        ),
        _ => (rebuild::given_up(), bridge),
    }
}

/// The second leg, and the bridge after it.
pub open spec fn probe_leg<B, S>(
    worker: StreamRebuildWorker,
    bridge: StreamBridge<B>,
    cache: StreamRestartCache,
    probed: Result<S, BundleError>,
    stop_flag: bool,
) -> (Leg<StreamStep, StreamRebuildPlan<S>>, StreamBridge<B>) {
    match probed {
        Ok(socket) if !stop_flag => (
            Leg {
                steps: Seq::empty(),
                released: None,
                signals: Seq::empty(),
                closing: None,
                next: Some(
                    StreamRebuildPlan {
                        bind_ctx: BindCtx { socket },
                        request: rebuild_request(
                            cache,
                            flags::apart_from(bridge.flags_issued, worker.old_stop_flag),
                        ),
                    },
                ),
            },
            bridge.with_flag_apart_from(worker.old_stop_flag),
        ),
        _ => (rebuild::given_up(), bridge),
    }
}

/// The third leg.
pub open spec fn build_leg(
    request: StreamBuildRequest,
    built: Result<ReceiverBundle, BundleError>,
    stop_flag: bool,
) -> Leg<StreamStep, ReceiverBundle> {
    match built {
        Err(_) => rebuild::given_up(),
        Ok(_) if stop_flag => Leg {
            steps: seq![StreamStep::RaiseStopFlag(request.stop_flag)],
            released: Some(request.stop_flag),
            signals: rebuild::failure(),
            closing: None,
            next: None,
        },
        Ok(bundle) => Leg {
            steps: Seq::empty(),
            released: None,
            signals: Seq::empty(),
            closing: None,
            next: Some(bundle),
        },
    }
}

/// The fourth leg, and the bridge after it.
pub open spec fn spawn_leg<B>(
    bridge: StreamBridge<B>,
    request: StreamBuildRequest,
    bundle: ReceiverBundle,
    mux: Result<u64, String>,
) -> (Leg<StreamStep, ()>, StreamBridge<B>) {
    match mux {
        Err(_) => (
            Leg {
                steps: Seq::empty(),
                released: Some(request.stop_flag),
                signals: rebuild::failure(),
                closing: None,
                next: None,
            },
            bridge,
        ),
        Ok(handle) => (
            Leg {
                steps: Seq::empty(),
                released: match bridge.session {
                    Some(replaced) => Some(replaced.stop_flag),
                    None => None,
                },
                signals: Seq::empty(),
                closing: None,
                next: Some(()),
            },
            StreamBridge {
                session: Some(
                    stream::session_of(bundle, handle, request.stop_flag, request.channel),
                ),
                ..bridge
            },
        ),
    }
}

/// The last leg, and the bridge after it.
pub open spec fn install_leg<B>(
    worker: StreamRebuildWorker,
    bridge: StreamBridge<B>,
    stop_flag: bool,
) -> (
    Leg<StreamStep, ()>,
    StreamBridge<B>,
) {
    if !stop_flag {
        (
            Leg {
                steps: Seq::empty(),
                released: None,
                signals: rebuild::success(),
                closing: Some(StreamStep::RaiseStopFlag(worker.old_stop_flag)),
                next: None,
            },
            bridge,
        )
    } else {
        (
            Leg {
                steps: match bridge.session {
                    Some(session) => stream::shutdown_steps(session),
                    None => Seq::empty(),
                },
                released: match bridge.session {
                    Some(session) => Some(session.stop_flag),
                    None => None,
                },
                signals: rebuild::failure(),
                closing: None,
                next: None,
            },
            bridge.without_session(),
        )
    }
}

/// The port is taken by someone else; waiting may help.
pub open spec fn is_taken<S>(probed: Result<S, BundleError>) -> bool {
    probed matches Err(BundleError::PortInUse(_))
}

/// `probes` are the outcomes of all tries to bind a port, in order: there was another try after
/// each that found the port taken, up to the limit, and after no other.
pub open spec fn is_probe_run<S>(probes: Seq<Result<S, BundleError>>) -> bool {
    &&& 1 <= probes.len() <= MAX_PROBE_ATTEMPTS
    &&& forall|i: int| 0 <= i < probes.len() - 1 ==> is_taken(#[trigger] probes[i])
    &&& is_taken(probes.last()) ==> probes.len() == MAX_PROBE_ATTEMPTS
}

/// Decides whether a port is to be probed again after `made` tries, the last of which came back
/// with `probed`.
pub fn probes_again<S>(made: u32, probed: &Result<S, BundleError>) -> (r: bool)
    ensures
        r == (made < MAX_PROBE_ATTEMPTS && is_taken(*probed)),
{
    match probed {
        Err(BundleError::PortInUse(_)) => made < MAX_PROBE_ATTEMPTS,
        Err(BundleError::NoLocalNic) => false,
        Err(BundleError::Other(_)) => false,
        Ok(_) => false,
    }
}

impl StreamRebuildWorker {
    /// The name of the worker's thread.
    pub fn thread_name(&self) -> (r: String)
        ensures
            r@ == "sm-rebuild-worker-stream-"@ + text::decimal(self.attempt as nat),
    {
        let mut r = "sm-rebuild-worker-stream-".to_string();
        push_decimal(&mut r, self.attempt as u64);
        r
    }

    /// The report when the worker's thread cannot be started.
    pub fn spawn_failed(&self) -> (signals: Vec<SupervisorSignal>)
        ensures
            signals@ == rebuild::failure(),
    {
        failed()
    }

    /// First leg: unless a stop came or the session was given up, takes the old generation out
    /// and says how to take it down. `stop_flag` is the old generation's.
    pub fn begin<B>(&self, bridge: &mut StreamBridge<B>, stop_flag: bool) -> (leg: RebuildLeg<
        StreamStep,
        StreamRestartCache,
    >)
        ensures
            leg@ == begin_leg(*old(bridge), stop_flag).0,
            *final(bridge) == begin_leg(*old(bridge), stop_flag).1,
    {
        if stop_flag {
            return gave_up();
        }
        let cache = match &bridge.restart_cache {
            None => {
                return gave_up();
            },
            Some(cache) => StreamRestartCache {
                udp_port: cache.udp_port,
                service_name: cache.service_name.clone(),
                channel: cache.channel,
                session_nonce: cache.session_nonce,
            },
        };
        let mut steps: Vec<StreamStep> = Vec::new();
        let mut released: Option<u64> = None;
        match bridge.session.take() {
            None => {},
            Some(session) => {
                if let Some(receiver) = session.receiver {
                    steps.push(StreamStep::DropReceiver(receiver));
                }
                if let Some(mux) = session.mux_handle {
                    steps.push(StreamStep::JoinMux(mux));
                }
                if let Some(signaling) = session.signaling {
                    steps.push(StreamStep::StopSignaling(signaling));
                }
                released = Some(session.stop_flag);
                assert(steps@ =~= teardown_steps(session));
            },
        }
        RebuildLeg { steps, released, signals: Vec::new(), closing: None, next: Some(cache) }
    }

    /// Second leg: takes the outcome of the bind probe and, unless a stop came in the meantime,
    /// says what to build. A socket that is not handed on is given up.
    pub fn after_probe<B, S>(
        &self,
        bridge: &mut StreamBridge<B>,
        cache: StreamRestartCache,
        probed: Result<S, BundleError>,
        stop_flag: bool,
    ) -> (leg: RebuildLeg<StreamStep, StreamRebuildPlan<S>>)
        ensures
            leg@ == probe_leg(*self, *old(bridge), cache, probed, stop_flag).0,
            *final(bridge) == probe_leg(*self, *old(bridge), cache, probed, stop_flag).1,
    {
        let socket = match probed {
            Ok(socket) => socket,
            Err(_) => {
                return gave_up();
            },
        };
        if stop_flag {
            return gave_up();
        }
        let fresh: u64 = bridge.issue_flag_apart_from(self.old_stop_flag);
        RebuildLeg {
            steps: Vec::new(),
            released: None,
            signals: Vec::new(),
            closing: None,
            next: Some(
                StreamRebuildPlan {
                    bind_ctx: BindCtx { socket },
                    request: StreamBuildRequest {
                        udp_port: cache.udp_port,
                        service_name: cache.service_name,
                        stop_flag: fresh,
                        channel: cache.channel,
                    },
                },
            ),
        }
    }

    /// Third leg: takes what the builder made. A failed build is reported. If a stop came in the
    /// meantime, the new generation is told to stop and let go; otherwise its mux thread is to be
    /// started.
    pub fn after_build(
        &self,
        request: &StreamBuildRequest,
        built: Result<ReceiverBundle, BundleError>,
        stop_flag: bool,
    ) -> (leg: RebuildLeg<StreamStep, ReceiverBundle>)
        ensures
            leg@ == build_leg(*request, built, stop_flag),
    {
        match built {
            Err(_) => gave_up(),
            Ok(bundle) => {
                if stop_flag {
                    return RebuildLeg {
                        steps: vec![StreamStep::RaiseStopFlag(request.stop_flag)],
                        released: Some(request.stop_flag),
                        signals: failed(),
                        closing: None,
                        next: None,
                    };
                }
                RebuildLeg {
                    steps: Vec::new(),
                    released: None,
                    signals: Vec::new(),
                    closing: None,
                    next: Some(bundle),
                }
            },
        }
    }

    /// Fourth leg: takes the mux thread and installs the new generation, with fresh counters.
    pub fn after_spawn<B>(
        &self,
        bridge: &mut StreamBridge<B>,
        request: &StreamBuildRequest,
        bundle: ReceiverBundle,
        mux: Result<u64, String>,
    ) -> (leg: RebuildLeg<StreamStep, ()>)
        ensures
            leg@ == spawn_leg(*old(bridge), *request, bundle, mux).0,
            *final(bridge) == spawn_leg(*old(bridge), *request, bundle, mux).1,
    {
        match build_stream_session(request.channel, bundle, request.stop_flag, mux) {
            Err(_) => RebuildLeg {
                steps: Vec::new(),
                released: Some(request.stop_flag),
                signals: failed(),
                closing: None,
                next: None,
            },
            Ok(session) => {
                let released: Option<u64> = match &bridge.session {
                    Some(replaced) => Some(replaced.stop_flag),
                    None => None,
                };
                bridge.session = Some(session);
                RebuildLeg {
                    steps: Vec::new(),
                    released,
                    signals: Vec::new(),
                    closing: None,
                    next: Some(()),
                }
            },
        }
    }

    /// Last leg: reports success, unless a stop came while the new generation was installed. Then
    /// that generation is taken out and down again; its threads are not the one that waits for
    /// this worker, so they are waited for.
    pub fn after_install<B>(&self, bridge: &mut StreamBridge<B>, stop_flag: bool) -> (leg:
        RebuildLeg<StreamStep, ()>)
        ensures
            leg@ == install_leg(*self, *old(bridge), stop_flag).0,
            *final(bridge) == install_leg(*self, *old(bridge), stop_flag).1,
    {
        if !stop_flag {
            return RebuildLeg {
                steps: Vec::new(),
                released: None,
                signals: succeeded(),
                closing: Some(StreamStep::RaiseStopFlag(self.old_stop_flag)),
                next: None,
            };
        }
        let mut steps: Vec<StreamStep> = Vec::new();
        let mut released: Option<u64> = None;
        match bridge.session.take() {
            None => {},
            Some(session) => {
                push_shutdown(&mut steps, &session);
                released = Some(session.stop_flag);
                assert(steps@ =~= stream::shutdown_steps(session));
            },
        }
        RebuildLeg { steps, released, signals: failed(), closing: None, next: None }
    }
}

/// What the worker finds at one gate: the bridge as it is by then, and the old generation's stop
/// flag.
pub struct Gate<B> {
    pub bridge: StreamBridge<B>,
    pub stop_flag: bool,
}

/// Everything that a worker sends to the supervisor, from its first leg to its last. At each gate
/// it may find another bridge than it left, since commands go on.
pub open spec fn rebuild_signals<B, S>(
    worker: StreamRebuildWorker,
    a: Gate<B>,
    probed: Result<S, BundleError>,
    b: Gate<B>,
    built: Result<ReceiverBundle, BundleError>,
    c_stop: bool,
    at_spawn: StreamBridge<B>,
    mux: Result<u64, String>,
    d: Gate<B>,
) -> Seq<SupervisorSignal> {
    let first = begin_leg(a.bridge, a.stop_flag).0;
    if first.next is None {
        first.signals
    } else {
        let second = probe_leg(worker, b.bridge, first.next->0, probed, b.stop_flag).0;
        if second.next is None {
            first.signals + second.signals
        } else {
            let request = second.next->0.request;
            let third = build_leg(request, built, c_stop);
            if third.next is None {
                first.signals + second.signals + third.signals
            } else {
                let fourth = spawn_leg(at_spawn, request, third.next->0, mux).0;
                if fourth.next is None {
                    first.signals + second.signals + third.signals + fourth.signals
                } else {
                    first.signals + second.signals + third.signals + fourth.signals + install_leg(
                        worker,
                        d.bridge,
                        d.stop_flag,
                    ).0.signals
                }
            }
        }
    }
}

/// Every rebuild ends in exactly one report. It is a success, followed by the request to stop,
/// exactly when no gate saw a stop, the session had not been given up, and port, pipeline and mux
/// thread were all to be had; otherwise it is one failure.
pub proof fn law_one_report<B, S>(
    worker: StreamRebuildWorker,
    a: Gate<B>,
    probed: Result<S, BundleError>,
    b: Gate<B>,
    built: Result<ReceiverBundle, BundleError>,
    c_stop: bool,
    at_spawn: StreamBridge<B>,
    mux: Result<u64, String>,
    d: Gate<B>,
)
    ensures
        rebuild_signals(worker, a, probed, b, built, c_stop, at_spawn, mux, d) == (if !a.stop_flag
            && a.bridge.restart_cache is Some && probed is Ok && !b.stop_flag && built is Ok
            && !c_stop && mux is Ok && !d.stop_flag {
            rebuild::success()
        } else {
            rebuild::failure()
        }),
{
    let signals = rebuild_signals(worker, a, probed, b, built, c_stop, at_spawn, mux, d);
    assert(signals =~= rebuild::success() || signals =~= rebuild::failure());
}

/// Place of a step in the teardown of a superseded generation.
pub open spec fn teardown_rank(step: StreamStep) -> int {
    match step {
        StreamStep::DropReceiver(_) => 1,
        StreamStep::JoinMux(_) => 2,
        StreamStep::StopSignaling(_) => 3,
        _ => 0,
    }
}

/// A superseded generation is taken down in a fixed order: the receiver goes first, then the mux
/// thread is waited for, then signaling stops. Nothing else is done to it; in particular no drain
/// is waited for and no stop flag is raised.
pub proof fn law_teardown_order(session: StreamSession, i: int, j: int)
    requires
        0 <= i <= j < teardown_steps(session).len(),
    ensures
        1 <= teardown_rank(teardown_steps(session)[i]),
        i < j ==> teardown_rank(teardown_steps(session)[i]) < teardown_rank(
            teardown_steps(session)[j],
        ),
{
}

/// A rebuild does not touch the session's arguments, its restart parameters or its place for a
/// supervisor; a well-formed bridge stays well-formed, as long as the new generation's stop flag is
/// one that it has handed out.
pub proof fn law_rebuild_keeps_parameters<B, S>(
    worker: StreamRebuildWorker,
    bridge: StreamBridge<B>,
    cache: StreamRestartCache,
    probed: Result<S, BundleError>,
    request: StreamBuildRequest,
    bundle: ReceiverBundle,
    mux: Result<u64, String>,
    stop_flag: bool,
)
    ensures
        same_parameters(bridge, begin_leg(bridge, stop_flag).1),
        same_parameters(bridge, probe_leg(worker, bridge, cache, probed, stop_flag).1),
        same_parameters(bridge, spawn_leg(bridge, request, bundle, mux).1),
        same_parameters(bridge, install_leg(worker, bridge, stop_flag).1),
        bridge.wf() ==> {
            &&& begin_leg(bridge, stop_flag).1.wf()
            &&& probe_leg(worker, bridge, cache, probed, stop_flag).1.wf()
            &&& flags::is_issued(request.stop_flag, bridge.flags_issued) ==> spawn_leg(
                bridge,
                request,
                bundle,
                mux,
            ).1.wf()
            &&& install_leg(worker, bridge, stop_flag).1.wf()
        },
{
}

/// Nothing takes back a stop flag that was handed out: their number only grows, whatever a command
/// or a rebuild does to the bridge.
pub proof fn law_flags_only_grow<B, S>(
    worker: StreamRebuildWorker,
    bridge: StreamBridge<B>,
    session_nonce: u64,
    session: StreamSession,
    cache: StreamRestartCache,
    probed: Result<S, BundleError>,
    request: StreamBuildRequest,
    bundle: ReceiverBundle,
    mux: Result<u64, String>,
    stop_flag: bool,
)
    ensures
        bridge.flags_issued <= bridge.cleared_for_start().flags_issued,
        bridge.flags_issued == bridge.started(request, session_nonce, session).flags_issued,
        bridge.flags_issued == bridge.without_session().flags_issued,
        bridge.flags_issued == bridge.stopped().flags_issued,
        bridge.flags_issued == begin_leg(bridge, stop_flag).1.flags_issued,
        bridge.flags_issued <= probe_leg(worker, bridge, cache, probed, stop_flag).1.flags_issued,
        bridge.flags_issued == spawn_leg(bridge, request, bundle, mux).1.flags_issued,
        bridge.flags_issued == install_leg(worker, bridge, stop_flag).1.flags_issued,
{
}

/// Two bridges that differ at most in their session and in the stop flags handed out.
pub open spec fn same_parameters<B>(x: StreamBridge<B>, y: StreamBridge<B>) -> bool {
    &&& x.builder == y.builder
    &&& x.current_args == y.current_args
    &&& x.restart_cache == y.restart_cache
    &&& x.supervisor_signal_tx == y.supervisor_signal_tx
}

/// What a rebuild of the receiver needs of the surrounding program; `S` is a bound socket.
pub trait StreamRebuildHost<B, S>: Sized {
    /// Has this stop flag been raised?
    fn stop_requested(self, flag: u64) -> (r: (Self, bool));

    /// Takes hold of the bridge; nobody else has it until it is given back.
    fn lock(self) -> (r: (Self, StreamBridge<B>));

    /// Gives the bridge back.
    fn unlock(self, bridge: StreamBridge<B>) -> (after: Self);

    /// Takes one step.
    fn perform(self, step: StreamStep) -> (after: Self);

    /// Binds a port.
    fn probe(self, port: u16) -> (r: (Self, Result<S, BundleError>));

    /// Waits this long.
    fn sleep(self, ns: u64) -> (after: Self);

    /// Builds a pipeline on a socket.
    fn build(self, bind_ctx: BindCtx<S>, request: StreamBuildRequest) -> (r: (
        Self,
        Result<ReceiverBundle, BundleError>,
    ));

    /// Starts a mux thread.
    fn spawn_mux(self, mux: MuxStart) -> (r: (Self, Result<u64, String>));

    /// Lets go of a generation.
    fn release(self, generation: u64) -> (after: Self);

    /// Tells the supervisor, if it has room.
    fn signal(self, signal: SupervisorSignal) -> (after: Self);
}

/// A call to the host of a rebuild.
pub enum StreamRebuildCall<B, S> {
    StopRequested { flag: u64, raised: bool },
    Lock(StreamBridge<B>),
    Unlock(StreamBridge<B>),
    Perform(StreamStep),
    Probe { port: u16, probed: Result<S, BundleError> },
    Sleep(u64),
    Build {
        bind_ctx: BindCtx<S>,
        request: StreamBuildRequest,
        built: Result<ReceiverBundle, BundleError>,
    },
    SpawnMux { mux: MuxStart, spawned: Result<u64, String> },
    Release(u64),
    Signal(SupervisorSignal),
}

impl<B, S, H: StreamRebuildHost<B, S>> HostCall<H> for StreamRebuildCall<B, S> {
    open spec fn made(self, before: H, after: H) -> bool {
        match self {
            StreamRebuildCall::StopRequested { flag, raised } => call_ensures(
                H::stop_requested,
                (before, flag),
                (after, raised),
            ),
            StreamRebuildCall::Lock(bridge) => call_ensures(H::lock, (before,), (after, bridge)),
            StreamRebuildCall::Unlock(bridge) => call_ensures(H::unlock, (before, bridge), after),
            StreamRebuildCall::Perform(step) => call_ensures(H::perform, (before, step), after),
            StreamRebuildCall::Probe { port, probed } => call_ensures(
                H::probe,
                (before, port),
                (after, probed),
            ),
            StreamRebuildCall::Sleep(ns) => call_ensures(H::sleep, (before, ns), after),
            StreamRebuildCall::Build { bind_ctx, request, built } => call_ensures(
                H::build,
                (before, bind_ctx, request),
                (after, built),
            ),
            StreamRebuildCall::SpawnMux { mux, spawned } => call_ensures(
                H::spawn_mux,
                (before, mux),
                (after, spawned),
            ),
            StreamRebuildCall::Release(generation) => call_ensures(
                H::release,
                (before, generation),
                after,
            ),
            StreamRebuildCall::Signal(signal) => call_ensures(H::signal, (before, signal), after),
        }
    }
}

/// The calls by which the worker comes to a gate: the stop flag is read before the bridge is taken
/// hold of.
pub open spec fn gate_calls<B, S>(worker: StreamRebuildWorker, gate: Gate<B>) -> Seq<
    StreamRebuildCall<B, S>,
> {
    seq![
        StreamRebuildCall::StopRequested { flag: worker.old_stop_flag, raised: gate.stop_flag },
        StreamRebuildCall::Lock(gate.bridge),
    ]
}

/// The calls that take these steps.
pub open spec fn step_calls<B, S>(steps: Seq<StreamStep>) -> Seq<StreamRebuildCall<B, S>> {
    steps.map_values(|step: StreamStep| StreamRebuildCall::<B, S>::Perform(step))
}

/// The call that lets go of a generation, if there is one to let go of.
pub open spec fn release_calls<B, S>(released: Option<u64>) -> Seq<StreamRebuildCall<B, S>> {
    match released {
        Some(generation) => seq![StreamRebuildCall::Release(generation)],
        None => Seq::empty(),
    }
}

/// The calls that send these signals.
pub open spec fn signal_calls<B, S>(signals: Seq<SupervisorSignal>) -> Seq<
    StreamRebuildCall<B, S>,
> {
    signals.map_values(|signal: SupervisorSignal| StreamRebuildCall::<B, S>::Signal(signal))
}

/// The call that takes the last step of a leg, if there is one.
pub open spec fn closing_calls<B, S>(closing: Option<StreamStep>) -> Seq<StreamRebuildCall<B, S>> {
    match closing {
        Some(step) => seq![StreamRebuildCall::Perform(step)],
        None => Seq::empty(),
    }
}

/// The calls by which a leg does what it asks for: it takes its steps, lets go of a generation,
/// reports, and takes its last step.
pub open spec fn asked_calls<B, S, T>(leg: Leg<StreamStep, T>) -> Seq<StreamRebuildCall<B, S>> {
    step_calls(leg.steps) + release_calls(leg.released) + signal_calls(leg.signals) + closing_calls(
        leg.closing,
    )
}

/// The calls of a leg that takes hold of the bridge: it gives the bridge back before it does
/// anything else.
pub open spec fn leg_calls<B, S, T>(leg: (Leg<StreamStep, T>, StreamBridge<B>)) -> Seq<
    StreamRebuildCall<B, S>,
> {
    seq![StreamRebuildCall::Unlock(leg.1)] + asked_calls(leg.0)
}

/// The calls that bind a port: a pause lies before each try but the first.
pub open spec fn probe_calls<B, S>(port: u16, probes: Seq<Result<S, BundleError>>) -> Seq<
    StreamRebuildCall<B, S>,
>
    decreases probes.len(),
{
    if probes.len() == 0 {
        Seq::empty()
    } else if probes.len() == 1 {
        seq![StreamRebuildCall::Probe { port, probed: probes[0] }]
    } else {
        probe_calls::<B, S>(port, probes.drop_last()).push(
            StreamRebuildCall::Sleep(PROBE_RETRY_SLEEP_NS),
        ).push(StreamRebuildCall::Probe { port, probed: probes.last() })
    }
}

/// The calls of the second half of a rebuild, once there is a plan for it.
pub open spec fn plan_calls<B, S>(
    worker: StreamRebuildWorker,
    plan: StreamRebuildPlan<S>,
    built: Result<ReceiverBundle, BundleError>,
    c_stop: bool,
    at_spawn: StreamBridge<B>,
    mux: Result<u64, String>,
    d: Gate<B>,
) -> Seq<StreamRebuildCall<B, S>> {
    let request = plan.request;
    let third = build_leg(request, built, c_stop);
    seq![
        StreamRebuildCall::Build { bind_ctx: plan.bind_ctx, request, built },
        StreamRebuildCall::StopRequested { flag: worker.old_stop_flag, raised: c_stop },
    ] + asked_calls(third) + match third.next {
        None => Seq::empty(),
        Some(bundle) => {
            let fourth = spawn_leg(at_spawn, request, bundle, mux);
            seq![
                StreamRebuildCall::SpawnMux { mux: stream::mux_of(bundle, request), spawned: mux },
                StreamRebuildCall::Lock(at_spawn),
            ] + leg_calls(fourth) + match fourth.0.next {
                None => Seq::empty(),
                Some(_) => gate_calls(worker, d) + leg_calls(install_leg(worker, d.bridge, d.stop_flag)),
            }
        },
    }
}

/// The calls of a rebuild: one leg after the other, as long as each leads to the next.
pub open spec fn rebuild_calls<B, S>(
    worker: StreamRebuildWorker,
    a: Gate<B>,
    probes: Seq<Result<S, BundleError>>,
    b: Gate<B>,
    built: Result<ReceiverBundle, BundleError>,
    c_stop: bool,
    at_spawn: StreamBridge<B>,
    mux: Result<u64, String>,
    d: Gate<B>,
) -> Seq<StreamRebuildCall<B, S>> {
    let first = begin_leg(a.bridge, a.stop_flag);
    gate_calls(worker, a) + leg_calls(first) + match first.0.next {
        None => Seq::empty(),
        Some(cache) => {
            let second = probe_leg(worker, b.bridge, cache, probes.last(), b.stop_flag);
            probe_calls(cache.udp_port, probes) + gate_calls(worker, b) + leg_calls(second)
                + match second.0.next {
                None => Seq::empty(),
                Some(plan) => plan_calls(worker, plan, built, c_stop, at_spawn, mux, d),
            }
        },
    }
}

/// Comes to a gate.
fn pass_gate<B, S, H: StreamRebuildHost<B, S>>(worker: StreamRebuildWorker, host: H) -> (r: (
    H,
    bool,
    StreamBridge<B>,
))
    ensures
        trace::leads(host, gate_calls::<B, S>(worker, (Gate { bridge: r.2, stop_flag: r.1 })), r.0),
{
    let ghost first = host;
    let ghost nothing = Seq::<StreamRebuildCall<B, S>>::empty();
    let (mid, stop_flag) = host.stop_requested(worker.old_stop_flag);
    let (after, bridge) = mid.lock();
    proof {
        let asked = StreamRebuildCall::<B, S>::StopRequested {
            flag: worker.old_stop_flag,
            raised: stop_flag,
        };
        let locked = StreamRebuildCall::<B, S>::Lock(bridge);
        trace::lemma_called(first, nothing, first, asked, mid);
        trace::lemma_called(first, nothing.push(asked), mid, locked, after);
        assert(gate_calls::<B, S>(worker, Gate { bridge, stop_flag }) =~= nothing.push(asked).push(locked));
    }
    (after, stop_flag, bridge)
}

/// Does what a leg asks for: the steps in order, then the release, then the signals in order, then
/// the last step.
fn carry_out<B, S, H: StreamRebuildHost<B, S>>(
    host: H,
    steps: Vec<StreamStep>,
    released: Option<u64>,
    signals: Vec<SupervisorSignal>,
    closing: Option<StreamStep>,
) -> (after: H)
    ensures
        trace::leads(
            host,
            step_calls::<B, S>(steps@) + release_calls::<B, S>(released) + signal_calls::<B, S>(
                signals@,
            ) + closing_calls::<B, S>(closing),
            after,
        ),
{
    let ghost first = host;
    let mut at = host;
    assert(step_calls::<B, S>(steps@.take(0)) =~= Seq::<StreamRebuildCall<B, S>>::empty());
    let mut i: usize = 0;
    while i < steps.len()
        invariant
            i <= steps.len(),
            trace::leads(first, step_calls::<B, S>(steps@.take(i as int)), at),
        decreases steps.len() - i,
    {
        let ghost before = at;
        at = at.perform(steps[i]);
        proof {
            let calls = step_calls::<B, S>(steps@.take(i as int));
            let call = StreamRebuildCall::<B, S>::Perform(steps@[i as int]);
            trace::lemma_called(first, calls, before, call, at);
            assert(step_calls::<B, S>(steps@.take(i + 1)) =~= calls.push(call));
        }
        i += 1;
    }
    assert(steps@.take(i as int) =~= steps@);
    let ghost mut calls = step_calls::<B, S>(steps@);
    if let Some(generation) = released {
        let ghost before = at;
        at = at.release(generation);
        proof {
            let call = StreamRebuildCall::<B, S>::Release(generation);
            trace::lemma_called(first, calls, before, call, at);
            calls = calls.push(call);
        }
    }
    assert(calls =~= step_calls::<B, S>(steps@) + release_calls::<B, S>(released));
    let ghost all = signals@;
    let ghost mut done: int = 0;
    let mut signals = signals;
    assert(calls + signal_calls::<B, S>(all.take(0)) =~= calls);
    while signals.len() > 0
        invariant
            0 <= done <= all.len(),
            signals@ == all.skip(done),
            trace::leads(first, calls + signal_calls::<B, S>(all.take(done)), at),
        decreases signals.len(),
    {
        let ghost before = at;
        let signal = signals.remove(0);
        let ghost call = StreamRebuildCall::<B, S>::Signal(signal);
        at = at.signal(signal);
        proof {
            assert(signal == all[done]);
            let sent = calls + signal_calls::<B, S>(all.take(done));
            trace::lemma_called(first, sent, before, call, at);
            assert(calls + signal_calls::<B, S>(all.take(done + 1)) =~= sent.push(call));
            assert(signals@ =~= all.skip(done + 1));
            done = done + 1;
        }
    }
    assert(all.take(done) =~= all);
    let ghost told = calls + signal_calls::<B, S>(all);
    let ghost mut finished = told;
    if let Some(step) = closing {
        let ghost before = at;
        at = at.perform(step);
        proof {
            let call = StreamRebuildCall::<B, S>::Perform(step);
            trace::lemma_called(first, told, before, call, at);
            finished = told.push(call);
        }
    }
    assert(finished =~= told + closing_calls::<B, S>(closing));
    at
}

/// Gives the bridge back and does what a leg asks for.
fn give_back<B, S, H: StreamRebuildHost<B, S>>(
    host: H,
    bridge: StreamBridge<B>,
    steps: Vec<StreamStep>,
    released: Option<u64>,
    signals: Vec<SupervisorSignal>,
    closing: Option<StreamStep>,
) -> (after: H)
    ensures
        trace::leads(
            host,
            seq![StreamRebuildCall::<B, S>::Unlock(bridge)] + (step_calls::<B, S>(steps@)
                + release_calls::<B, S>(released) + signal_calls::<B, S>(signals@)
                + closing_calls::<B, S>(closing)),
            after,
        ),
{
    let ghost first = host;
    let ghost nothing = Seq::<StreamRebuildCall<B, S>>::empty();
    let ghost call = StreamRebuildCall::<B, S>::Unlock(bridge);
    let ghost asked = step_calls::<B, S>(steps@) + release_calls::<B, S>(released)
        + signal_calls::<B, S>(signals@) + closing_calls::<B, S>(closing);
    let mid = host.unlock(bridge);
    let after = carry_out::<B, S, H>(mid, steps, released, signals, closing);
    proof {
        trace::lemma_called(first, nothing, first, call, mid);
        assert(seq![call] =~= nothing.push(call));
        trace::lemma_joined(first, seq![call], mid, asked, after);
    }
    after
}

/// Binds the port of a rebuild. The system may take a moment to free it after the old receiver is
/// gone, so a port that is taken is tried again after a pause, a few times; any other failure is
/// final at once.
pub fn probe_with_retry<B, S, H: StreamRebuildHost<B, S>>(host: H, udp_port: u16) -> (r: (
    H,
    Result<S, BundleError>,
))
    ensures
        exists|probes: Seq<Result<S, BundleError>>|
            {
                &&& is_probe_run(probes)
                &&& probes.last() == r.1
                &&& trace::leads(host, #[trigger] probe_calls::<B, S>(udp_port, probes), r.0)
            },
{
    let ghost first = host;
    let ghost nothing = Seq::<StreamRebuildCall<B, S>>::empty();
    let mut made: u32 = 1;
    let (at, probed) = host.probe(udp_port);
    let ghost mut probes: Seq<Result<S, BundleError>> = seq![probed];
    proof {
        let call = StreamRebuildCall::<B, S>::Probe { port: udp_port, probed };
        trace::lemma_called(first, nothing, first, call, at);
        assert(probe_calls::<B, S>(udp_port, probes) =~= nothing.push(call));
    }
    let mut at = at;
    let mut probed = probed;
    while probes_again(made, &probed)
        invariant
            1 <= made <= MAX_PROBE_ATTEMPTS,
            probes.len() == made,
            probes.last() == probed,
            forall|i: int| 0 <= i < probes.len() - 1 ==> is_taken(#[trigger] probes[i]),
            trace::leads(first, probe_calls::<B, S>(udp_port, probes), at),
        decreases MAX_PROBE_ATTEMPTS - made,
    {
        let ghost before = at;
        let ghost calls = probe_calls::<B, S>(udp_port, probes);
        let rested = at.sleep(PROBE_RETRY_SLEEP_NS);
        let (next, again) = rested.probe(udp_port);
        at = next;
        probed = again;
        made = made + 1;
        proof {
            let pause = StreamRebuildCall::<B, S>::Sleep(PROBE_RETRY_SLEEP_NS);
            let call = StreamRebuildCall::<B, S>::Probe { port: udp_port, probed };
            trace::lemma_called(first, calls, before, pause, rested);
            trace::lemma_called(first, calls.push(pause), rested, call, at);
            let more = probes.push(probed);
            assert(more.drop_last() =~= probes);
            assert(probe_calls::<B, S>(udp_port, more) == calls.push(pause).push(call));
            probes = more;
        }
    }
    assert(is_probe_run(probes));
    (at, probed)
}

impl StreamRebuildWorker {
    /// Runs the rebuild on a host, from its first leg to its last.
    pub fn run<B, S, H: StreamRebuildHost<B, S>>(&self, host: H) -> (after: H)
        ensures
            exists|
                a: Gate<B>,
                probes: Seq<Result<S, BundleError>>,
                b: Gate<B>,
                built: Result<ReceiverBundle, BundleError>,
                c_stop: bool,
                at_spawn: StreamBridge<B>,
                mux: Result<u64, String>,
                d: Gate<B>,
            |
                is_probe_run(probes) && trace::leads(
                    host,
                    #[trigger] rebuild_calls::<B, S>(
                        *self,
                        a,
                        probes,
                        b,
                        built,
                        c_stop,
                        at_spawn,
                        mux,
                        d,
                    ),
                    after,
                ),
    {
        let ghost nowhere: Gate<B> = arbitrary();
        let ghost unbuilt: Result<ReceiverBundle, BundleError> = arbitrary();
        let ghost unspawned: Result<u64, String> = arbitrary();

        let (at, stop_flag, mut bridge) = pass_gate::<B, S, H>(*self, host);
        let ghost at_gate = at;
        let ghost a = Gate { bridge, stop_flag };
        let leg = self.begin(&mut bridge, stop_flag);
        let at = give_back::<B, S, H>(at, bridge, leg.steps, leg.released, leg.signals, leg.closing);
        let ghost first = begin_leg(a.bridge, a.stop_flag);
        let ghost one = gate_calls::<B, S>(*self, a) + leg_calls::<B, S, StreamRestartCache>(first);
        proof {
            trace::lemma_joined(
                host,
                gate_calls::<B, S>(*self, a),
                at_gate,
                leg_calls::<B, S, StreamRestartCache>(first),
                at,
            );
        }
        let cache = match leg.next {
            Some(cache) => cache,
            None => {
                proof {
                    let unprobed: Seq<Result<S, BundleError>> = seq![
                        Err(BundleError::NoLocalNic),
                    ];
                    assert(is_probe_run(unprobed));
                    assert(rebuild_calls::<B, S>(
                        *self,
                        a,
                        unprobed,
                        nowhere,
                        unbuilt,
                        false,
                        nowhere.bridge,
                        unspawned,
                        nowhere,
                    ) =~= one);
                }
                return at;
            },
        };
        let ghost the_cache = cache;
        let ghost after_one = at;

        let (at, probed) = probe_with_retry::<B, S, H>(at, cache.udp_port);
        let ghost the_probe = probed;
        let ghost probes = choose|probes: Seq<Result<S, BundleError>>|
            {
                &&& is_probe_run(probes)
                &&& probes.last() == the_probe
                &&& trace::leads(
                    after_one,
                    #[trigger] probe_calls::<B, S>(the_cache.udp_port, probes),
                    at,
                )
            };
        let ghost tried = probe_calls::<B, S>(the_cache.udp_port, probes);
        let ghost after_probe = at;
        let (at, stop_flag, mut bridge) = pass_gate::<B, S, H>(*self, at);
        let ghost at_gate = at;
        let ghost b = Gate { bridge, stop_flag };
        let leg = self.after_probe(&mut bridge, cache, probed, stop_flag);
        let at = give_back::<B, S, H>(at, bridge, leg.steps, leg.released, leg.signals, leg.closing);
        let ghost second = probe_leg(*self, b.bridge, the_cache, the_probe, b.stop_flag);
        let ghost two = gate_calls::<B, S>(*self, b) + leg_calls::<B, S, StreamRebuildPlan<S>>(second);
        let ghost so_far = one + tried + two;
        proof {
            trace::lemma_joined(
                after_probe,
                gate_calls::<B, S>(*self, b),
                at_gate,
                leg_calls::<B, S, StreamRebuildPlan<S>>(second),
                at,
            );
            trace::lemma_joined(host, one, after_one, tried, after_probe);
            trace::lemma_joined(host, one + tried, after_probe, two, at);
        }
        let plan = match leg.next {
            Some(plan) => plan,
            None => {
                assert(rebuild_calls::<B, S>(
                    *self,
                    a,
                    probes,
                    b,
                    unbuilt,
                    false,
                    nowhere.bridge,
                    unspawned,
                    nowhere,
                ) =~= so_far);
                return at;
            },
        };
        let ghost the_plan = plan;
        let ghost after_two = at;
        let at = self.build_on(at, plan);
        proof {
            let (built, c_stop, at_spawn, mux, d): (
                Result<ReceiverBundle, BundleError>,
                bool,
                StreamBridge<B>,
                Result<u64, String>,
                Gate<B>,
            ) = choose|
                built: Result<ReceiverBundle, BundleError>,
                c_stop: bool,
                at_spawn: StreamBridge<B>,
                mux: Result<u64, String>,
                d: Gate<B>,
            |
                trace::leads(
                    after_two,
                    #[trigger] plan_calls::<B, S>(*self, the_plan, built, c_stop, at_spawn, mux, d),
                    at,
                );
            let rest = plan_calls::<B, S>(*self, the_plan, built, c_stop, at_spawn, mux, d);
            trace::lemma_joined(host, so_far, after_two, rest, at);
            assert(rebuild_calls::<B, S>(*self, a, probes, b, built, c_stop, at_spawn, mux, d) =~= so_far
                + rest);
        }
        at
    }

    /// The second half of a rebuild.
    fn build_on<B, S, H: StreamRebuildHost<B, S>>(&self, host: H, plan: StreamRebuildPlan<S>) -> (
    after: H)
        ensures
            exists|
                built: Result<ReceiverBundle, BundleError>,
                c_stop: bool,
                at_spawn: StreamBridge<B>,
                mux: Result<u64, String>,
                d: Gate<B>,
            |
                trace::leads(
                    host,
                    #[trigger] plan_calls::<B, S>(*self, plan, built, c_stop, at_spawn, mux, d),
                    after,
                ),
    {
        let ghost nowhere: Gate<B> = arbitrary();
        let ghost unspawned: Result<u64, String> = arbitrary();
        let ghost nothing = Seq::<StreamRebuildCall<B, S>>::empty();
        let ghost the_plan = plan;
        let StreamRebuildPlan { bind_ctx, request } = plan;

        let (at, built) = host.build(bind_ctx, request.clone());
        let ghost the_build = built;
        let ghost after_build = at;
        let (at, c_stop) = at.stop_requested(self.old_stop_flag);
        let ghost head = seq![
            StreamRebuildCall::<B, S>::Build { bind_ctx: the_plan.bind_ctx, request, built },
            StreamRebuildCall::<B, S>::StopRequested { flag: self.old_stop_flag, raised: c_stop },
        ];
        proof {
            trace::lemma_called(host, nothing, host, head[0], after_build);
            trace::lemma_called(host, nothing.push(head[0]), after_build, head[1], at);
            assert(head =~= nothing.push(head[0]).push(head[1]));
        }
        let ghost at_leg = at;
        let leg = self.after_build(&request, built, c_stop);
        let at = carry_out::<B, S, H>(at, leg.steps, leg.released, leg.signals, leg.closing);
        let ghost third = build_leg(request, the_build, c_stop);
        let ghost one = head + asked_calls::<B, S, ReceiverBundle>(third);
        proof {
            trace::lemma_joined(
                host,
                head,
                at_leg,
                asked_calls::<B, S, ReceiverBundle>(third),
                at,
            );
        }
        let bundle = match leg.next {
            Some(bundle) => bundle,
            None => {
                assert(plan_calls::<B, S>(
                    *self,
                    the_plan,
                    the_build,
                    c_stop,
                    nowhere.bridge,
                    unspawned,
                    nowhere,
                ) =~= one);
                return at;
            },
        };
        let ghost the_bundle = bundle;
        let ghost after_one = at;

        let (at, mux) = at.spawn_mux(mux_start(&bundle, &request));
        let ghost the_mux = mux;
        let ghost after_spawn = at;
        let (at, mut bridge) = at.lock();
        let ghost at_spawn = bridge;
        let ghost spawn = seq![
            StreamRebuildCall::<B, S>::SpawnMux {
                mux: stream::mux_of(the_bundle, request),
                spawned: mux,
            },
            StreamRebuildCall::<B, S>::Lock(at_spawn),
        ];
        proof {
            trace::lemma_called(host, one, after_one, spawn[0], after_spawn);
            trace::lemma_called(host, one.push(spawn[0]), after_spawn, spawn[1], at);
            assert(one + spawn =~= one.push(spawn[0]).push(spawn[1]));
        }
        let ghost at_leg = at;
        let leg = self.after_spawn(&mut bridge, &request, bundle, mux);
        let at = give_back::<B, S, H>(at, bridge, leg.steps, leg.released, leg.signals, leg.closing);
        let ghost fourth = spawn_leg(at_spawn, request, the_bundle, the_mux);
        let ghost two = one + spawn + leg_calls::<B, S, ()>(fourth);
        proof {
            trace::lemma_joined(host, one + spawn, at_leg, leg_calls::<B, S, ()>(fourth), at);
        }
        match leg.next {
            Some(_) => {},
            None => {
                assert(plan_calls::<B, S>(
                    *self,
                    the_plan,
                    the_build,
                    c_stop,
                    at_spawn,
                    the_mux,
                    nowhere,
                ) =~= two);
                return at;
            },
        }
        let ghost after_two = at;

        let (at, stop_flag, mut bridge) = pass_gate::<B, S, H>(*self, at);
        let ghost at_gate = at;
        let ghost d = Gate { bridge, stop_flag };
        let leg = self.after_install(&mut bridge, stop_flag);
        let at = give_back::<B, S, H>(at, bridge, leg.steps, leg.released, leg.signals, leg.closing);
        proof {
            let last = install_leg(*self, d.bridge, d.stop_flag);
            let gate = gate_calls::<B, S>(*self, d);
            trace::lemma_joined(host, two, after_two, gate, at_gate);
            trace::lemma_joined(host, two + gate, at_gate, leg_calls::<B, S, ()>(last), at);
            assert(plan_calls::<B, S>(*self, the_plan, the_build, c_stop, at_spawn, the_mux, d) =~= two
                + gate + leg_calls::<B, S, ()>(last));
        }
        at
    }
}

/// The signals that a row of calls sends, in order.
pub open spec fn sent_by<B, S>(calls: Seq<StreamRebuildCall<B, S>>) -> Seq<SupervisorSignal>
    decreases calls.len(),
{
    if calls.len() == 0 {
        Seq::empty()
    } else {
        match calls.last() {
            StreamRebuildCall::Signal(signal) => sent_by(calls.drop_last()).push(signal),
            _ => sent_by(calls.drop_last()),
        }
    }
}

/// What two rows of calls send, one after the other.
proof fn lemma_sent_joined<B, S>(
    first: Seq<StreamRebuildCall<B, S>>,
    second: Seq<StreamRebuildCall<B, S>>,
)
    ensures
        sent_by(first + second) == sent_by(first) + sent_by(second),
    decreases second.len(),
{
    if second.len() == 0 {
        assert(first + second =~= first);
        assert(sent_by(first) + sent_by(second) =~= sent_by(first));
    } else {
        lemma_sent_joined(first, second.drop_last());
        assert((first + second).drop_last() =~= first + second.drop_last());
        assert((first + second).last() == second.last());
        assert(sent_by(first + second) =~= sent_by(first) + sent_by(second));
    }
}

/// Calls among which there is no signal send none.
proof fn lemma_silent<B, S>(calls: Seq<StreamRebuildCall<B, S>>)
    requires
        forall|i: int| 0 <= i < calls.len() ==> (#[trigger] calls[i]) !is Signal,
    ensures
        sent_by(calls) == Seq::<SupervisorSignal>::empty(),
    decreases calls.len(),
{
    if calls.len() > 0 {
        assert(calls.last() == calls[calls.len() - 1]);
        lemma_silent(calls.drop_last());
    }
}

/// Trying a port sends nothing.
proof fn lemma_probing_is_silent<B, S>(port: u16, probes: Seq<Result<S, BundleError>>)
    ensures
        sent_by(probe_calls::<B, S>(port, probes)) == Seq::<SupervisorSignal>::empty(),
    decreases probes.len(),
{
    if probes.len() == 1 {
        lemma_silent(probe_calls::<B, S>(port, probes));
    } else if probes.len() > 1 {
        let front = probe_calls::<B, S>(port, probes.drop_last());
        let rest = seq![
            StreamRebuildCall::<B, S>::Sleep(PROBE_RETRY_SLEEP_NS),
            StreamRebuildCall::<B, S>::Probe { port, probed: probes.last() },
        ];
        lemma_probing_is_silent::<B, S>(port, probes.drop_last());
        lemma_silent(rest);
        lemma_sent_joined(front, rest);
        assert(probe_calls::<B, S>(port, probes) =~= front + rest);
        assert(sent_by(probe_calls::<B, S>(port, probes)) =~= Seq::<SupervisorSignal>::empty());
    }
}

/// Calls that send these signals send these signals.
proof fn lemma_signal_calls<B, S>(signals: Seq<SupervisorSignal>)
    ensures
        sent_by(signal_calls::<B, S>(signals)) == signals,
    decreases signals.len(),
{
    if signals.len() > 0 {
        lemma_signal_calls::<B, S>(signals.drop_last());
        assert(signal_calls::<B, S>(signals).drop_last() =~= signal_calls::<B, S>(
            signals.drop_last(),
        ));
    }
    assert(sent_by(signal_calls::<B, S>(signals)) =~= signals);
}

/// What a leg sends, after calls that send nothing.
proof fn lemma_sent_by_leg<B, S, T>(quiet: Seq<StreamRebuildCall<B, S>>, leg: Leg<StreamStep, T>)
    requires
        sent_by(quiet) == Seq::<SupervisorSignal>::empty(),
    ensures
        sent_by(quiet + asked_calls::<B, S, T>(leg)) == leg.signals,
{
    let doing = step_calls::<B, S>(leg.steps) + release_calls::<B, S>(leg.released);
    let telling = signal_calls::<B, S>(leg.signals);
    let closing = closing_calls::<B, S>(leg.closing);
    lemma_silent(doing);
    lemma_silent(closing);
    lemma_signal_calls::<B, S>(leg.signals);
    lemma_sent_joined(quiet, doing);
    lemma_sent_joined(quiet + doing, telling);
    lemma_sent_joined(quiet + doing + telling, closing);
    assert(quiet + asked_calls::<B, S, T>(leg) =~= quiet + doing + telling + closing);
    assert(sent_by(quiet + asked_calls::<B, S, T>(leg)) =~= leg.signals);
}

/// What the second half of a rebuild sends.
proof fn lemma_sent_by_plan<B, S>(
    worker: StreamRebuildWorker,
    plan: StreamRebuildPlan<S>,
    built: Result<ReceiverBundle, BundleError>,
    c_stop: bool,
    at_spawn: StreamBridge<B>,
    mux: Result<u64, String>,
    d: Gate<B>,
)
    ensures
        sent_by(plan_calls::<B, S>(worker, plan, built, c_stop, at_spawn, mux, d)) == ({
            let third = build_leg(plan.request, built, c_stop);
            if third.next is None {
                third.signals
            } else {
                let fourth = spawn_leg(at_spawn, plan.request, third.next->0, mux).0;
                if fourth.next is None {
                    third.signals + fourth.signals
                } else {
                    third.signals + fourth.signals + install_leg(worker, d.bridge, d.stop_flag).0.signals
                }
            }
        }),
{
    let request = plan.request;
    let all = plan_calls::<B, S>(worker, plan, built, c_stop, at_spawn, mux, d);
    let third = build_leg(request, built, c_stop);
    let head = seq![
        StreamRebuildCall::<B, S>::Build { bind_ctx: plan.bind_ctx, request, built },
        StreamRebuildCall::<B, S>::StopRequested { flag: worker.old_stop_flag, raised: c_stop },
    ];
    let one = head + asked_calls::<B, S, ReceiverBundle>(third);
    lemma_silent(head);
    lemma_sent_by_leg(head, third);
    if third.next is Some {
        let bundle = third.next->0;
        let fourth = spawn_leg(at_spawn, request, bundle, mux);
        let spawn = seq![
            StreamRebuildCall::<B, S>::SpawnMux {
                mux: stream::mux_of(bundle, request),
                spawned: mux,
            },
            StreamRebuildCall::<B, S>::Lock(at_spawn),
            StreamRebuildCall::<B, S>::Unlock(fourth.1),
        ];
        let two = spawn + asked_calls::<B, S, ()>(fourth.0);
        lemma_silent(spawn);
        lemma_sent_by_leg(spawn, fourth.0);
        lemma_sent_joined(one, two);
        if fourth.0.next is Some {
            let last = install_leg(worker, d.bridge, d.stop_flag);
            let gate = gate_calls::<B, S>(worker, d).push(StreamRebuildCall::Unlock(last.1));
            let three = gate + asked_calls::<B, S, ()>(last.0);
            lemma_silent(gate);
            lemma_sent_by_leg(gate, last.0);
            lemma_sent_joined(one + two, three);
            assert(all =~= one + two + three);
        } else {
            assert(all =~= one + two);
        }
    } else {
        assert(all =~= one);
    }
}

/// What the calls of a rebuild send is what `rebuild_signals` says.
#[verifier::rlimit(40)]
pub proof fn law_calls_follow_the_legs<B, S>(
    worker: StreamRebuildWorker,
    a: Gate<B>,
    probes: Seq<Result<S, BundleError>>,
    b: Gate<B>,
    built: Result<ReceiverBundle, BundleError>,
    c_stop: bool,
    at_spawn: StreamBridge<B>,
    mux: Result<u64, String>,
    d: Gate<B>,
)
    ensures
        sent_by(rebuild_calls::<B, S>(worker, a, probes, b, built, c_stop, at_spawn, mux, d))
            == rebuild_signals(worker, a, probes.last(), b, built, c_stop, at_spawn, mux, d),
{
    let all = rebuild_calls::<B, S>(worker, a, probes, b, built, c_stop, at_spawn, mux, d);
    let first = begin_leg(a.bridge, a.stop_flag);
    let gate = gate_calls::<B, S>(worker, a).push(StreamRebuildCall::Unlock(first.1));
    let one = gate + asked_calls::<B, S, StreamRestartCache>(first.0);
    lemma_silent(gate);
    lemma_sent_by_leg(gate, first.0);
    if first.0.next is Some {
        let cache = first.0.next->0;
        let second = probe_leg(worker, b.bridge, cache, probes.last(), b.stop_flag);
        let tried = probe_calls::<B, S>(cache.udp_port, probes);
        let gate = gate_calls::<B, S>(worker, b).push(StreamRebuildCall::Unlock(second.1));
        let two = gate + asked_calls::<B, S, StreamRebuildPlan<S>>(second.0);
        lemma_probing_is_silent::<B, S>(cache.udp_port, probes);
        lemma_silent(gate);
        lemma_sent_by_leg(gate, second.0);
        lemma_sent_joined(one, tried);
        lemma_sent_joined(one + tried, two);
        let so_far = one + tried + two;
        assert(sent_by(so_far) =~= first.0.signals + second.0.signals);
        if second.0.next is Some {
            let plan = second.0.next->0;
            let rest = plan_calls::<B, S>(worker, plan, built, c_stop, at_spawn, mux, d);
            lemma_sent_by_plan::<B, S>(worker, plan, built, c_stop, at_spawn, mux, d);
            lemma_sent_joined(so_far, rest);
            assert(all =~= so_far + rest);
            assert(sent_by(all) =~= rebuild_signals(
                worker,
                a,
                probes.last(),
                b,
                built,
                c_stop,
                at_spawn,
                mux,
                d,
            ));
        } else {
            assert(all =~= so_far);
        }
    } else {
        assert(all =~= one);
    }
}

/// The session that a rebuild installs, if it comes to that.
pub open spec fn installed<B, S>(
    worker: StreamRebuildWorker,
    a: Gate<B>,
    probed: Result<S, BundleError>,
    b: Gate<B>,
    built: Result<ReceiverBundle, BundleError>,
    c_stop: bool,
    at_spawn: StreamBridge<B>,
    mux: Result<u64, String>,
) -> Option<StreamSession> {
    match begin_leg(a.bridge, a.stop_flag).0.next {
        None => None,
        Some(cache) => match probe_leg(worker, b.bridge, cache, probed, b.stop_flag).0.next {
            None => None,
            Some(plan) => match build_leg(plan.request, built, c_stop).next {
                None => None,
                Some(bundle) => {
                    let fourth = spawn_leg(at_spawn, plan.request, bundle, mux);
                    match fourth.0.next {
                        None => None,
                        Some(_) => fourth.1.session,
                    }
                },
            },
        },
    }
}

/// The session that a rebuild installs has a stop flag of its own, whatever the bridge looks like:
/// it is not that of the generation that failed. Nor is it that of the session that the rebuild took
/// out, as long as the bridge was well-formed then and fewer stop flags than a `u64` can count have
/// been handed out.
pub proof fn law_new_generation_has_its_own_flag<B, S>(
    worker: StreamRebuildWorker,
    a: Gate<B>,
    probed: Result<S, BundleError>,
    b: Gate<B>,
    built: Result<ReceiverBundle, BundleError>,
    c_stop: bool,
    at_spawn: StreamBridge<B>,
    mux: Result<u64, String>,
)
    requires
        installed(worker, a, probed, b, built, c_stop, at_spawn, mux) is Some,
    ensures
        ({
            let session = installed(worker, a, probed, b, built, c_stop, at_spawn, mux)->0;
            &&& session.stop_flag != worker.old_stop_flag
            &&& a.bridge.wf() && a.bridge.session is Some && a.bridge.flags_issued
                <= b.bridge.flags_issued < u64::MAX ==> session.stop_flag
                != a.bridge.session->0.stop_flag
        }),
{
}

/// A rebuild that worked has installed the new generation, and the last thing it does, after its
/// report, is to raise the stop flag of the generation that failed, so that the drains of that one
/// leave. Any other rebuild ends with its report.
pub proof fn law_old_drains_leave_after_success<B, S>(
    worker: StreamRebuildWorker,
    a: Gate<B>,
    probes: Seq<Result<S, BundleError>>,
    b: Gate<B>,
    built: Result<ReceiverBundle, BundleError>,
    c_stop: bool,
    at_spawn: StreamBridge<B>,
    mux: Result<u64, String>,
    d: Gate<B>,
)
    ensures
        ({
            let probed = probes.last();
            let calls = rebuild_calls::<B, S>(
                worker,
                a,
                probes,
                b,
                built,
                c_stop,
                at_spawn,
                mux,
                d,
            );
            let signals = rebuild_signals(worker, a, probed, b, built, c_stop, at_spawn, mux, d);
            &&& signals == rebuild::success() ==> {
                &&& installed(worker, a, probed, b, built, c_stop, at_spawn, mux) is Some
                &&& calls.last() == StreamRebuildCall::<B, S>::Perform(
                    StreamStep::RaiseStopFlag(worker.old_stop_flag),
                )
            }
            &&& signals == rebuild::failure() ==> calls.last() == StreamRebuildCall::<B, S>::Signal(
                SupervisorSignal::RebuildFailed,
            )
        }),
{
    let probed = probes.last();
    law_one_report(worker, a, probed, b, built, c_stop, at_spawn, mux, d);
    assert(rebuild::success().len() != rebuild::failure().len());
    let first = begin_leg(a.bridge, a.stop_flag).0;
    lemma_end_of_leg::<B, S, StreamRestartCache>(first);
    if first.next is Some {
        let second = probe_leg(worker, b.bridge, first.next->0, probed, b.stop_flag).0;
        lemma_end_of_leg::<B, S, StreamRebuildPlan<S>>(second);
        if second.next is Some {
            let request = second.next->0.request;
            let third = build_leg(request, built, c_stop);
            lemma_end_of_leg::<B, S, ReceiverBundle>(third);
            if third.next is Some {
                let fourth = spawn_leg(at_spawn, request, third.next->0, mux).0;
                lemma_end_of_leg::<B, S, ()>(fourth);
                if fourth.next is Some {
                    lemma_end_of_leg::<B, S, ()>(install_leg(worker, d.bridge, d.stop_flag).0);
                }
            }
        }
    }
}

/// The last call of a leg that reports or has a last step.
proof fn lemma_end_of_leg<B, S, T>(leg: Leg<StreamStep, T>)
    ensures
        match leg.closing {
            Some(step) => asked_calls::<B, S, T>(leg).len() > 0 && asked_calls::<B, S, T>(leg).last()
                == StreamRebuildCall::<B, S>::Perform(step),
            None => leg.signals.len() > 0 ==> asked_calls::<B, S, T>(leg).len() > 0 && asked_calls::<
                B,
                S,
                T,
            >(leg).last() == StreamRebuildCall::<B, S>::Signal(leg.signals.last()),
        },
{
}

/// Each part of a superseded receiver that is there is taken down once, by its own handle: the
/// receiver, the mux thread, and the signaling.
pub proof fn law_teardown_of_each_part(session: StreamSession)
    ensures
        teardown_steps(session) == (match session.receiver {
            Some(h) => seq![StreamStep::DropReceiver(h)],
            None => Seq::empty(),
        }) + (match session.mux_handle {
            Some(h) => seq![StreamStep::JoinMux(h)],
            None => Seq::empty(),
        }) + (match session.signaling {
            Some(h) => seq![StreamStep::StopSignaling(h)],
            None => Seq::empty(),
        }),
{
}

/// A rebuild that is given up at its first gate, because a stop came or the session has no
/// parameters any more, gives the bridge back as it found it, touches no generation and no port, and
/// reports that it failed.
pub proof fn law_early_end_changes_nothing<B, S>(
    worker: StreamRebuildWorker,
    a: Gate<B>,
    probes: Seq<Result<S, BundleError>>,
    b: Gate<B>,
    built: Result<ReceiverBundle, BundleError>,
    c_stop: bool,
    at_spawn: StreamBridge<B>,
    mux: Result<u64, String>,
    d: Gate<B>,
)
    requires
        a.stop_flag || a.bridge.restart_cache is None,
    ensures
        rebuild_calls::<B, S>(worker, a, probes, b, built, c_stop, at_spawn, mux, d) == seq![
            StreamRebuildCall::<B, S>::StopRequested { flag: worker.old_stop_flag, raised: a.stop_flag },
            StreamRebuildCall::<B, S>::Lock(a.bridge),
            StreamRebuildCall::<B, S>::Unlock(a.bridge),
            StreamRebuildCall::<B, S>::Signal(SupervisorSignal::RebuildFailed),
        ],
{
    assert(rebuild_calls::<B, S>(worker, a, probes, b, built, c_stop, at_spawn, mux, d) =~= seq![
        StreamRebuildCall::<B, S>::StopRequested { flag: worker.old_stop_flag, raised: a.stop_flag },
        StreamRebuildCall::<B, S>::Lock(a.bridge),
        StreamRebuildCall::<B, S>::Unlock(a.bridge),
        StreamRebuildCall::<B, S>::Signal(SupervisorSignal::RebuildFailed),
    ]);
}

/// Trying a port alternates tries and pauses: every try is on the same port, every pause takes a
/// tenth of a second, and there is none before the first try and none after the last.
pub proof fn law_tries_and_pauses<B, S>(port: u16, probes: Seq<Result<S, BundleError>>, i: int)
    requires
        probes.len() > 0,
        0 <= i < probe_calls::<B, S>(port, probes).len(),
    ensures
        probe_calls::<B, S>(port, probes).len() == 2 * probes.len() - 1,
        i % 2 == 0 ==> probe_calls::<B, S>(port, probes)[i] == (StreamRebuildCall::<B, S>::Probe {
            port,
            probed: probes[i / 2],
        }),
        i % 2 == 1 ==> probe_calls::<B, S>(port, probes)[i] == StreamRebuildCall::<B, S>::Sleep(
            100_000_000,
        ),
    decreases probes.len(),
{
    lemma_number_of_tries::<B, S>(port, probes);
    if probes.len() > 1 {
        lemma_number_of_tries::<B, S>(port, probes.drop_last());
        let front = probe_calls::<B, S>(port, probes.drop_last());
        if i < front.len() {
            law_tries_and_pauses::<B, S>(port, probes.drop_last(), i);
            assert(probe_calls::<B, S>(port, probes)[i] == front[i]);
            assert(probes.drop_last()[i / 2] == probes[i / 2]);
        }
    }
}

/// How many calls it takes to try a port.
proof fn lemma_number_of_tries<B, S>(port: u16, probes: Seq<Result<S, BundleError>>)
    requires
        probes.len() > 0,
    ensures
        probe_calls::<B, S>(port, probes).len() == 2 * probes.len() - 1,
    decreases probes.len(),
{
    if probes.len() > 1 {
        lemma_number_of_tries::<B, S>(port, probes.drop_last());
    }
}

/// A port is tried up to three times. Only a port that someone else has is tried again: a socket, and
/// any other failure, ends the tries.
pub proof fn law_when_tries_end<S>(probes: Seq<Result<S, BundleError>>, i: int)
    requires
        is_probe_run(probes),
        0 <= i < probes.len(),
    ensures
        probes.len() <= 3,
        i == probes.len() - 1 <==> i == 2 || !(probes[i] matches Err(BundleError::PortInUse(_))),
{
    assert(i < probes.len() - 1 ==> is_taken(probes[i]));
}

/// A rebuild whose first gate is open takes the session out of the bridge and nothing else, takes it
/// down, lets go of it, tries the port of the restart parameters, and comes to its second gate. There
/// it is given up if a stop came or the port was not to be had: the bridge is given back as it was
/// found then, and the failure reported.
pub proof fn law_rebuild_without_a_port<B, S>(
    worker: StreamRebuildWorker,
    a: Gate<B>,
    probes: Seq<Result<S, BundleError>>,
    b: Gate<B>,
    built: Result<ReceiverBundle, BundleError>,
    c_stop: bool,
    at_spawn: StreamBridge<B>,
    mux: Result<u64, String>,
    d: Gate<B>,
)
    requires
        !a.stop_flag,
        a.bridge.restart_cache is Some,
        b.stop_flag || probes.last() is Err,
    ensures
        rebuild_calls::<B, S>(worker, a, probes, b, built, c_stop, at_spawn, mux, d) == (seq![
            StreamRebuildCall::<B, S>::StopRequested { flag: worker.old_stop_flag, raised: false },
            StreamRebuildCall::<B, S>::Lock(a.bridge),
            StreamRebuildCall::<B, S>::Unlock(StreamBridge { session: None, ..a.bridge }),
        ] + (match a.bridge.session {
            Some(session) => teardown_steps(session).map_values(
                |step: StreamStep| StreamRebuildCall::<B, S>::Perform(step),
            ).push(StreamRebuildCall::<B, S>::Release(session.stop_flag)),
            None => Seq::empty(),
        })) + probe_calls(a.bridge.restart_cache->0.udp_port, probes) + seq![
            StreamRebuildCall::<B, S>::StopRequested { flag: worker.old_stop_flag, raised: b.stop_flag },
            StreamRebuildCall::<B, S>::Lock(b.bridge),
            StreamRebuildCall::<B, S>::Unlock(b.bridge),
            StreamRebuildCall::<B, S>::Signal(SupervisorSignal::RebuildFailed),
        ],
{
    let cache = a.bridge.restart_cache->0;
    lemma_first_leg::<B, S>(worker, a);
    let first = begin_leg(a.bridge, a.stop_flag);
    let second = probe_leg(worker, b.bridge, cache, probes.last(), b.stop_flag);
    let one = gate_calls::<B, S>(worker, a) + leg_calls::<B, S, StreamRestartCache>(first);
    let tried = probe_calls::<B, S>(cache.udp_port, probes);
    let end = seq![
        StreamRebuildCall::<B, S>::StopRequested {
            flag: worker.old_stop_flag,
            raised: b.stop_flag,
        },
        StreamRebuildCall::<B, S>::Lock(b.bridge),
        StreamRebuildCall::<B, S>::Unlock(b.bridge),
        StreamRebuildCall::<B, S>::Signal(SupervisorSignal::RebuildFailed),
    ];
    assert(gate_calls::<B, S>(worker, b) + leg_calls::<B, S, StreamRebuildPlan<S>>(second) =~= end);
    assert(rebuild_calls::<B, S>(worker, a, probes, b, built, c_stop, at_spawn, mux, d) =~= one
        + tried + end);
}

/// The calls of a first leg that leads on.
proof fn lemma_first_leg<B, S>(worker: StreamRebuildWorker, a: Gate<B>)
    requires
        !a.stop_flag,
        a.bridge.restart_cache is Some,
    ensures
        gate_calls::<B, S>(worker, a) + leg_calls::<B, S, StreamRestartCache>(
            begin_leg(a.bridge, a.stop_flag),
        ) == seq![
            StreamRebuildCall::<B, S>::StopRequested { flag: worker.old_stop_flag, raised: false },
            StreamRebuildCall::<B, S>::Lock(a.bridge),
            StreamRebuildCall::<B, S>::Unlock(StreamBridge { session: None, ..a.bridge }),
        ] + (match a.bridge.session {
            Some(session) => teardown_steps(session).map_values(
                |step: StreamStep| StreamRebuildCall::<B, S>::Perform(step),
            ).push(StreamRebuildCall::<B, S>::Release(session.stop_flag)),
            None => Seq::<StreamRebuildCall<B, S>>::empty(),
        }),
{
    let first = begin_leg(a.bridge, a.stop_flag);
    assert(gate_calls::<B, S>(worker, a) + leg_calls::<B, S, StreamRestartCache>(first) =~= seq![
        StreamRebuildCall::<B, S>::StopRequested { flag: worker.old_stop_flag, raised: false },
        StreamRebuildCall::<B, S>::Lock(a.bridge),
        StreamRebuildCall::<B, S>::Unlock(StreamBridge { session: None, ..a.bridge }),
    ] + (match a.bridge.session {
        Some(session) => teardown_steps(session).map_values(
            |step: StreamStep| StreamRebuildCall::<B, S>::Perform(step),
        ).push(StreamRebuildCall::<B, S>::Release(session.stop_flag)),
        None => Seq::<StreamRebuildCall<B, S>>::empty(),
    }));
}

/// A rebuild that got its port asks the builder for the session that was lost: on the socket that was
/// bound, with the port, the service name and the channel that the restart parameters had when the
/// rebuild began. The new generation gets the next stop flag, or the one after it if the next is the
/// old generation's; the bridge counts it as handed out and is otherwise given back as it was found.
pub proof fn law_rebuild_asks_for_the_same_session<B, S>(
    worker: StreamRebuildWorker,
    a: Gate<B>,
    probes: Seq<Result<S, BundleError>>,
    socket: S,
    b: Gate<B>,
    built: Result<ReceiverBundle, BundleError>,
    c_stop: bool,
    at_spawn: StreamBridge<B>,
    mux: Result<u64, String>,
    d: Gate<B>,
)
    requires
        !a.stop_flag,
        a.bridge.restart_cache is Some,
        probes.last() == Ok::<S, BundleError>(socket),
        !b.stop_flag,
    ensures
        ({
            let cache = a.bridge.restart_cache->0;
            let fresh = flags::apart_from(b.bridge.flags_issued, worker.old_stop_flag);
            let counted = flags::including(b.bridge.flags_issued, fresh);
            let plan = StreamRebuildPlan {
                bind_ctx: BindCtx { socket },
                request: StreamBuildRequest {
                    udp_port: cache.udp_port,
                    service_name: cache.service_name,
                    stop_flag: fresh,
                    channel: cache.channel,
                },
            };
            rebuild_calls::<B, S>(worker, a, probes, b, built, c_stop, at_spawn, mux, d) == (seq![
                StreamRebuildCall::<B, S>::StopRequested { flag: worker.old_stop_flag, raised: false },
                StreamRebuildCall::<B, S>::Lock(a.bridge),
                StreamRebuildCall::<B, S>::Unlock(StreamBridge { session: None, ..a.bridge }),
            ] + (match a.bridge.session {
                Some(session) => teardown_steps(session).map_values(
                    |step: StreamStep| StreamRebuildCall::<B, S>::Perform(step),
                ).push(StreamRebuildCall::<B, S>::Release(session.stop_flag)),
                None => Seq::empty(),
            })) + probe_calls(cache.udp_port, probes) + seq![
                StreamRebuildCall::<B, S>::StopRequested { flag: worker.old_stop_flag, raised: false },
                StreamRebuildCall::<B, S>::Lock(b.bridge),
                StreamRebuildCall::<B, S>::Unlock(StreamBridge { flags_issued: counted, ..b.bridge }),
            ] + plan_calls(worker, plan, built, c_stop, at_spawn, mux, d)
        }),
{
    let cache = a.bridge.restart_cache->0;
    let fresh = flags::apart_from(b.bridge.flags_issued, worker.old_stop_flag);
    let counted = flags::including(b.bridge.flags_issued, fresh);
    lemma_first_leg::<B, S>(worker, a);
    let first = begin_leg(a.bridge, a.stop_flag);
    let second = probe_leg(worker, b.bridge, cache, probes.last(), b.stop_flag);
    let plan = StreamRebuildPlan {
        bind_ctx: BindCtx { socket },
        request: StreamBuildRequest {
            udp_port: cache.udp_port,
            service_name: cache.service_name,
            stop_flag: fresh,
            channel: cache.channel,
        },
    };
    let one = gate_calls::<B, S>(worker, a) + leg_calls::<B, S, StreamRestartCache>(first);
    let tried = probe_calls::<B, S>(cache.udp_port, probes);
    let mid = seq![
        StreamRebuildCall::<B, S>::StopRequested { flag: worker.old_stop_flag, raised: false },
        StreamRebuildCall::<B, S>::Lock(b.bridge),
        StreamRebuildCall::<B, S>::Unlock(StreamBridge { flags_issued: counted, ..b.bridge }),
    ];
    let rest = plan_calls::<B, S>(worker, plan, built, c_stop, at_spawn, mux, d);
    assert(second.0.next == Some(plan));
    assert(gate_calls::<B, S>(worker, b) + leg_calls::<B, S, StreamRebuildPlan<S>>(second) =~= mid);
    assert(rebuild_calls::<B, S>(worker, a, probes, b, built, c_stop, at_spawn, mux, d) =~= one
        + tried + mid + rest);
}

/// The second half of a rebuild asks the builder for what the plan says and then looks at the stop
/// flag. A build that failed is reported. A generation that was built in vain, because a stop came
/// while it was, is told to stop by its own flag and let go. A generation whose mux thread could not
/// be started is let go. Either way the failure is reported, and the bridge stays as it is.
pub proof fn law_generation_that_is_not_installed<B, S>(
    worker: StreamRebuildWorker,
    plan: StreamRebuildPlan<S>,
    bundle: ReceiverBundle,
    failure: BundleError,
    c_stop: bool,
    at_spawn: StreamBridge<B>,
    mux: Result<u64, String>,
    d: Gate<B>,
)
    ensures
        plan_calls::<B, S>(worker, plan, Err(failure), c_stop, at_spawn, mux, d) == seq![
            StreamRebuildCall::<B, S>::Build {
                bind_ctx: plan.bind_ctx,
                request: plan.request,
                built: Err(failure),
            },
            StreamRebuildCall::<B, S>::StopRequested { flag: worker.old_stop_flag, raised: c_stop },
            StreamRebuildCall::<B, S>::Signal(SupervisorSignal::RebuildFailed),
        ],
        plan_calls::<B, S>(worker, plan, Ok(bundle), true, at_spawn, mux, d) == seq![
            StreamRebuildCall::<B, S>::Build {
                bind_ctx: plan.bind_ctx,
                request: plan.request,
                built: Ok(bundle),
            },
            StreamRebuildCall::<B, S>::StopRequested { flag: worker.old_stop_flag, raised: true },
            StreamRebuildCall::<B, S>::Perform(StreamStep::RaiseStopFlag(plan.request.stop_flag)),
            StreamRebuildCall::<B, S>::Release(plan.request.stop_flag),
            StreamRebuildCall::<B, S>::Signal(SupervisorSignal::RebuildFailed),
        ],
        mux is Err ==> plan_calls::<B, S>(worker, plan, Ok(bundle), false, at_spawn, mux, d)
            == seq![
            StreamRebuildCall::<B, S>::Build {
                bind_ctx: plan.bind_ctx,
                request: plan.request,
                built: Ok(bundle),
            },
            StreamRebuildCall::<B, S>::StopRequested { flag: worker.old_stop_flag, raised: false },
            StreamRebuildCall::<B, S>::SpawnMux {
                mux: MuxStart {
                    pkt_rx: bundle.pkt_rx,
                    receiver: bundle.receiver,
                    stop_flag: plan.request.stop_flag,
                    channel: plan.request.channel,
                },
                spawned: mux,
            },
            StreamRebuildCall::<B, S>::Lock(at_spawn),
            StreamRebuildCall::<B, S>::Unlock(at_spawn),
            StreamRebuildCall::<B, S>::Release(plan.request.stop_flag),
            StreamRebuildCall::<B, S>::Signal(SupervisorSignal::RebuildFailed),
        ],
{
    assert(plan_calls::<B, S>(worker, plan, Err(failure), c_stop, at_spawn, mux, d) =~= seq![
        StreamRebuildCall::<B, S>::Build {
            bind_ctx: plan.bind_ctx,
            request: plan.request,
            built: Err(failure),
        },
        StreamRebuildCall::<B, S>::StopRequested { flag: worker.old_stop_flag, raised: c_stop },
        StreamRebuildCall::<B, S>::Signal(SupervisorSignal::RebuildFailed),
    ]);
}

/// A generation that was built in time, with its mux thread started on its packets and its receiver,
/// is installed with everything that belongs to it: the stop flag and the channel it was asked for
/// with, the mux thread, the receiver, the signaling and the drains of its bundle, counters at zero
/// and no keyframe asked for yet. Nothing else in the bridge changes; a session that was there is let
/// go. Then, if no stop comes, success is reported, the old supervisor is stopped, and the old
/// generation's stop flag goes up. If one does come, the session that is in the bridge by then is
/// taken out and down, and the failure is reported.
pub proof fn law_built_generation_is_installed<B, S>(
    worker: StreamRebuildWorker,
    plan: StreamRebuildPlan<S>,
    bundle: ReceiverBundle,
    at_spawn: StreamBridge<B>,
    handle: u64,
    d: Gate<B>,
)
    ensures
        plan_calls::<B, S>(worker, plan, Ok(bundle), false, at_spawn, Ok(handle), d) == seq![
            StreamRebuildCall::<B, S>::Build {
                bind_ctx: plan.bind_ctx,
                request: plan.request,
                built: Ok(bundle),
            },
            StreamRebuildCall::<B, S>::StopRequested { flag: worker.old_stop_flag, raised: false },
            StreamRebuildCall::<B, S>::SpawnMux {
                mux: MuxStart {
                    pkt_rx: bundle.pkt_rx,
                    receiver: bundle.receiver,
                    stop_flag: plan.request.stop_flag,
                    channel: plan.request.channel,
                },
                spawned: Ok(handle),
            },
            StreamRebuildCall::<B, S>::Lock(at_spawn),
            StreamRebuildCall::<B, S>::Unlock(
                StreamBridge {
                    session: Some(
                        StreamSession {
                            stop_flag: plan.request.stop_flag,
                            mux_handle: Some(handle),
                            counters: BridgeCounters {
                                fragments_emitted: 0,
                                init_segments_emitted: 0,
                                dropped_segments: 0,
                                keyframe_requests_fired: 0,
                            },
                            mux_requests: 0,
                            receiver: Some(bundle.receiver),
                            last_pli: None,
                            channel: plan.request.channel,
                            signaling: bundle.signaling,
                            drain_handles: bundle.drain_handles,
                        },
                    ),
                    ..at_spawn
                },
            ),
        ] + (match at_spawn.session {
            Some(replaced) => seq![StreamRebuildCall::<B, S>::Release(replaced.stop_flag)],
            None => Seq::empty(),
        }) + seq![
            StreamRebuildCall::<B, S>::StopRequested { flag: worker.old_stop_flag, raised: d.stop_flag },
            StreamRebuildCall::<B, S>::Lock(d.bridge),
        ] + (if !d.stop_flag {
            seq![
                StreamRebuildCall::<B, S>::Unlock(d.bridge),
                StreamRebuildCall::<B, S>::Signal(SupervisorSignal::RebuildSucceeded),
                StreamRebuildCall::<B, S>::Signal(SupervisorSignal::Stop),
                StreamRebuildCall::<B, S>::Perform(StreamStep::RaiseStopFlag(worker.old_stop_flag)),
            ]
        } else {
            seq![StreamRebuildCall::<B, S>::Unlock(StreamBridge { session: None, ..d.bridge })] + (
            match d.bridge.session {
                Some(session) => stream::shutdown_steps(session).map_values(
                    |step: StreamStep| StreamRebuildCall::<B, S>::Perform(step),
                ).push(StreamRebuildCall::<B, S>::Release(session.stop_flag)),
                None => Seq::empty(),
            }) + seq![StreamRebuildCall::<B, S>::Signal(SupervisorSignal::RebuildFailed)]
        }),
{
    let fourth = spawn_leg(at_spawn, plan.request, bundle, Ok(handle));
    let last = install_leg(worker, d.bridge, d.stop_flag);
    let head = seq![
        StreamRebuildCall::<B, S>::Build {
            bind_ctx: plan.bind_ctx,
            request: plan.request,
            built: Ok(bundle),
        },
        StreamRebuildCall::<B, S>::StopRequested { flag: worker.old_stop_flag, raised: false },
        StreamRebuildCall::<B, S>::SpawnMux {
            mux: stream::mux_of(bundle, plan.request),
            spawned: Ok(handle),
        },
        StreamRebuildCall::<B, S>::Lock(at_spawn),
        StreamRebuildCall::<B, S>::Unlock(fourth.1),
    ];
    let let_go: Seq<StreamRebuildCall<B, S>> = match at_spawn.session {
        Some(replaced) => seq![StreamRebuildCall::<B, S>::Release(replaced.stop_flag)],
        None => Seq::<StreamRebuildCall<B, S>>::empty(),
    };
    let gate = seq![
        StreamRebuildCall::<B, S>::StopRequested {
            flag: worker.old_stop_flag,
            raised: d.stop_flag,
        },
        StreamRebuildCall::<B, S>::Lock(d.bridge),
    ];
    let tail: Seq<StreamRebuildCall<B, S>> = if !d.stop_flag {
        seq![
            StreamRebuildCall::<B, S>::Unlock(d.bridge),
            StreamRebuildCall::<B, S>::Signal(SupervisorSignal::RebuildSucceeded),
            StreamRebuildCall::<B, S>::Signal(SupervisorSignal::Stop),
            StreamRebuildCall::<B, S>::Perform(StreamStep::RaiseStopFlag(worker.old_stop_flag)),
        ]
    } else {
        seq![StreamRebuildCall::<B, S>::Unlock(StreamBridge { session: None, ..d.bridge })] + (
        match d.bridge.session {
            Some(session) => stream::shutdown_steps(session).map_values(
                |step: StreamStep| StreamRebuildCall::<B, S>::Perform(step),
            ).push(StreamRebuildCall::<B, S>::Release(session.stop_flag)),
            None => Seq::<StreamRebuildCall<B, S>>::empty(),
        }) + seq![StreamRebuildCall::<B, S>::Signal(SupervisorSignal::RebuildFailed)]
    };
    assert(leg_calls::<B, S, ()>(last) =~= tail);
    assert(plan_calls::<B, S>(worker, plan, Ok(bundle), false, at_spawn, Ok(handle), d) =~= head
        + let_go + gate + tail);
}

/// Each call of a rebuild goes to the method of the host that it is named after, with these arguments
/// and this answer.
pub proof fn law_calls_reach_the_host<B, S, H: StreamRebuildHost<B, S>>(
    call: StreamRebuildCall<B, S>,
    before: H,
    after: H,
)
    requires
        HostCall::<H>::made(call, before, after),
    ensures
        call matches StreamRebuildCall::StopRequested { flag, raised } ==> call_ensures(
            H::stop_requested,
            (before, flag),
            (after, raised),
        ),
        call matches StreamRebuildCall::Lock(bridge) ==> call_ensures(
            H::lock,
            (before,),
            (after, bridge),
        ),
        call matches StreamRebuildCall::Unlock(bridge) ==> call_ensures(
            H::unlock,
            (before, bridge),
            after,
        ),
        call matches StreamRebuildCall::Perform(step) ==> call_ensures(
            H::perform,
            (before, step),
            after,
        ),
        call matches StreamRebuildCall::Probe { port, probed } ==> call_ensures(
            H::probe,
            (before, port),
            (after, probed),
        ),
        call matches StreamRebuildCall::Sleep(ns) ==> call_ensures(H::sleep, (before, ns), after),
        call matches StreamRebuildCall::Build { bind_ctx, request, built } ==> call_ensures(
            H::build,
            (before, bind_ctx, request),
            (after, built),
        ),
        call matches StreamRebuildCall::SpawnMux { mux, spawned } ==> call_ensures(
            H::spawn_mux,
            (before, mux),
            (after, spawned),
        ),
        call matches StreamRebuildCall::Release(generation) ==> call_ensures(
            H::release,
            (before, generation),
            after,
        ),
        call matches StreamRebuildCall::Signal(signal) ==> call_ensures(
            H::signal,
            (before, signal),
            after,
        ),
{
}

/// A worker remembers the stop flag of the generation that failed; its number is in the name of its
/// thread. A port is tried again only after fewer than three tries, and only if it was taken.
pub proof fn law_what_a_worker_is<S>(
    old_stop_flag: u64,
    attempt: u32,
    w: StreamRebuildWorker,
    name: String,
    made: u32,
    probed: &Result<S, BundleError>,
    again: bool,
)
    requires
        call_ensures(make_stream_rebuild_hook, (old_stop_flag, attempt), w),
        call_ensures(StreamRebuildWorker::thread_name, (&w,), name),
        call_ensures(probes_again::<S>, (made, probed), again),
    ensures
        w.old_stop_flag == old_stop_flag,
        name@ == "sm-rebuild-worker-stream-"@ + text::decimal(attempt as nat),
        again <==> made < 3 && (*probed matches Err(BundleError::PortInUse(_))),
{
}

/// What a rebuild asks the builder for, seen on the function that decides it: on the socket that was
/// bound, the port, the name and the channel of the restart parameters it is handed, under a stop flag
/// that is not the old one's. Without a socket, and after a stop, it leads nowhere.
pub proof fn law_what_a_probe_leads_to<B, S>(
    worker: &StreamRebuildWorker,
    cache: StreamRestartCache,
    probed: Result<S, BundleError>,
    stop_flag: bool,
)
    ensures
        forall|bridge: &mut StreamBridge<B>, leg: RebuildLeg<StreamStep, StreamRebuildPlan<S>>|
            #[trigger]
            call_ensures(
                StreamRebuildWorker::after_probe::<B, S>,
                (worker, bridge, cache, probed, stop_flag),
                leg,
            ) ==> if stop_flag || probed is Err {
                &&& leg.next is None
                &&& leg.signals@ == seq![SupervisorSignal::RebuildFailed]
                &&& *final(bridge) == *bridge
            } else {
                &&& leg.next matches Some(plan)
                &&& plan.bind_ctx.socket == probed->Ok_0
                &&& plan.request.udp_port == cache.udp_port
                &&& plan.request.service_name == cache.service_name
                &&& plan.request.channel == cache.channel
                &&& plan.request.stop_flag != worker.old_stop_flag
                &&& leg.signals@.len() == 0 && leg.steps@.len() == 0
                &&& final(bridge).session == bridge.session
                &&& final(bridge).restart_cache == bridge.restart_cache
                &&& final(bridge).flags_issued >= bridge.flags_issued
            },
{
}

} // verus!
