//! The worker that rebuilds a sender's pipeline while its session goes on.
//!
//! The worker runs on a thread of its own, next to user commands that may stop the session at any
//! moment. It looks at the old generation's stop flag at four gates, and every way through it ends
//! in one report to the supervisor. Between two calls the bridge may have changed.
use crate::errors::BundleError;
use crate::events::SupervisorSignal;
use crate::flags;
use crate::rebuild;
use crate::rebuild::{failed, gave_up, succeeded, Leg, RebuildLeg};
use crate::sender;
use crate::sender_drain::SenderCounters;
use crate::sender::{
    push_joins, RestartCache, SenderBridge, SenderBuildRequest, SenderBundle, SenderSession,
    SenderStart, SenderStep,
};
use crate::text;
use crate::text::push_decimal;
use crate::trace;
use crate::trace::HostCall;
use vstd::prelude::*;

verus! {

broadcast use trace::lemma_no_call;

/// The worker of one rebuild.
#[derive(Debug, Clone, Copy, PartialEq, Eq, Structural)]
pub struct SenderRebuildWorker {
    /// The stop flag of the generation that failed. Once it is raised, the rebuild is given up; a
    /// rebuild that worked raises it itself, and the drains of that generation leave.
    pub old_stop_flag: u64,
    /// Number in the worker's thread name.
    pub attempt: u32,
    /// The attempt of the reconnect cycle, read before the worker starts.
    pub current_attempt: u8,
}

/// How the superseded generation is taken down: no goodbye to the peer, no more reports, signaling
/// quiet, and only then the resources. Its threads are not waited for, since one of them waits for
/// this worker; its stop flag stays down for now, since it is what tells this worker to give up.
pub open spec fn teardown_steps(session: SenderSession) -> Seq<SenderStep> {
    sender::step_if(session.suppress_bye_on_rebuild, |h: u64| SenderStep::SuppressBye(h))
        + sender::step_if(
        session.disarm_escalation_on_rebuild,
        |h: u64| SenderStep::DisarmEscalation(h),
    ) + sender::step_if(session.stop_signaling_on_rebuild, |h: u64| SenderStep::StopSignaling(h))
        + sender::step_if(session.shutdown, |h: u64| SenderStep::Shutdown(h))
}

/// How a new generation is taken down again when a stop came while it was installed.
pub open spec fn undo_steps(session: SenderSession) -> Seq<SenderStep> {
    seq![SenderStep::RaiseStopFlag(session.stop_flag)] + sender::step_if(
        session.shutdown,
        |h: u64| SenderStep::Shutdown(h),
    ) + sender::joins(session.drain_handles@)
}

/// The request for the new generation: the session's own parameters, a fresh stop flag, the
/// attempt of this cycle, and media expected.
pub open spec fn rebuild_request(
    cache: RestartCache,
    stop_flag: u64,
    attempt: u8,
) -> SenderBuildRequest {
    SenderBuildRequest {
        udp_port: cache.udp_port,
        service_name: cache.service_name,
        stop_flag,
        channel: cache.channel,
        attempt,
        arm_media_watchdog: true,
    }
}

/// The first leg, and the bridge after it.
pub open spec fn begin_leg<B>(bridge: SenderBridge<B>, stop_flag: bool) -> (
    Leg<SenderStep, RestartCache>,
    SenderBridge<B>,
) {
    match bridge.restart_cache {
        Some(cache) if !stop_flag => (
            Leg {
                steps: match bridge.session {
                    Some(session) => teardown_steps(session),
                    None => Seq::empty(),
                },
                released: match bridge.session {
                    Some(session) => Some(session.stop_flag),
                    None => None,
                },
                signals: Seq::empty(),
                closing: None,
                next: Some(cache),
            },
            bridge.without_session(),
        ),
        _ => (rebuild::given_up(), bridge),
    }
}

/// The second leg, and the bridge after it.
pub open spec fn teardown_leg<B>(
    worker: SenderRebuildWorker,
    bridge: SenderBridge<B>,
    cache: RestartCache,
    stop_flag: bool,
) -> (Leg<SenderStep, SenderBuildRequest>, SenderBridge<B>) {
    if stop_flag {
        (rebuild::given_up(), bridge)
    } else {
        (
            Leg {
                steps: Seq::empty(),
                released: None,
                signals: Seq::empty(),
                closing: None,
                next: Some(
                    rebuild_request(
                        cache,
                        flags::apart_from(bridge.flags_issued, worker.old_stop_flag),
                        worker.current_attempt,
                    ),
                ),
            },
            bridge.with_flag_apart_from(worker.old_stop_flag),
        )
    }
}

/// The third leg, and the bridge after it.
pub open spec fn build_leg<B>(
    bridge: SenderBridge<B>,
    request: SenderBuildRequest,
    built: Result<SenderBundle, BundleError>,
    stop_flag: bool,
) -> (Leg<SenderStep, ()>, SenderBridge<B>) {
    match built {
        Err(_) => (rebuild::given_up(), bridge),
        Ok(_) if stop_flag => (
            Leg {
                steps: seq![SenderStep::RaiseStopFlag(request.stop_flag)],
                released: Some(request.stop_flag),
                signals: rebuild::failure(),
                closing: None,
                next: None,
            },
            bridge,
        ),
        Ok(bundle) => (
            Leg {
                steps: Seq::empty(),
                released: match bridge.session {
                    Some(replaced) => Some(replaced.stop_flag),
                    None => None,
                },
                signals: Seq::empty(),
                closing: None,
                next: Some(()),
            },
            SenderBridge {
                session: Some(sender::session_of(bundle, request.stop_flag, request.channel)),
                ..bridge
            },
        ),
    }
}

/// The last leg, and the bridge after it.
pub open spec fn install_leg<B>(
    worker: SenderRebuildWorker,
    bridge: SenderBridge<B>,
    stop_flag: bool,
) -> (
    Leg<SenderStep, ()>,
    SenderBridge<B>,
) {
    if !stop_flag {
        (
            Leg {
                steps: Seq::empty(),
                released: None,
                signals: rebuild::success(),
                closing: Some(SenderStep::RaiseStopFlag(worker.old_stop_flag)),
                next: None,
            },
            bridge,
        )
    } else {
        (
            Leg {
                steps: match bridge.session {
                    Some(session) => undo_steps(session),
                    None => Seq::empty(),
                },
                released: match bridge.session {
                    Some(session) => Some(session.stop_flag),
                    None => None,
                },
                signals: rebuild::failure(),
                closing: None,
                next: None,
            },
            bridge.without_session(),
        )
    }
}

/// The worker for a rebuild in the given attempt of the reconnect cycle.
pub fn make_sender_rebuild_hook(old_stop_flag: u64, attempt: u32, sender_attempt: u8) -> (w:
    SenderRebuildWorker)
    ensures
        w == (SenderRebuildWorker { old_stop_flag, attempt, current_attempt: sender_attempt }),
{
    SenderRebuildWorker { old_stop_flag, attempt, current_attempt: sender_attempt }
}

impl SenderRebuildWorker {
    /// The name of the worker's thread.
    pub fn thread_name(&self) -> (r: String)
        ensures
            r@ == "sm-rebuild-worker-sender-"@ + text::decimal(self.attempt as nat),
    {
        let mut r = "sm-rebuild-worker-sender-".to_string();
        push_decimal(&mut r, self.attempt as u64);
        r
    }

    /// The report when the worker's thread cannot be started.
    pub fn spawn_failed(&self) -> (signals: Vec<SupervisorSignal>)
        ensures
            signals@ == rebuild::failure(),
    {
        failed()
    }

    /// First leg: unless a stop came or the session was given up, takes the old generation out
    /// and says how to take it down. `stop_flag` is the old generation's.
    pub fn begin<B>(&self, bridge: &mut SenderBridge<B>, stop_flag: bool) -> (leg: RebuildLeg<
        SenderStep,
        RestartCache,
    >)
        ensures
            leg@ == begin_leg(*old(bridge), stop_flag).0,
            *final(bridge) == begin_leg(*old(bridge), stop_flag).1,
    {
        if stop_flag {
            return gave_up();
        }
        let cache = match &bridge.restart_cache {
            None => {
                return gave_up();
            },
            Some(cache) => RestartCache {
                udp_port: cache.udp_port,
                service_name: cache.service_name.clone(),
                channel: cache.channel,
                session_nonce: cache.session_nonce,
            },
        };
        let mut steps: Vec<SenderStep> = Vec::new();
        let mut released: Option<u64> = None;
        match bridge.session.take() {
            None => {},
            Some(session) => {
                if let Some(hook) = session.suppress_bye_on_rebuild {
                    steps.push(SenderStep::SuppressBye(hook));
                }
                if let Some(hook) = session.disarm_escalation_on_rebuild {
                    steps.push(SenderStep::DisarmEscalation(hook));
                }
                if let Some(hook) = session.stop_signaling_on_rebuild {
                    steps.push(SenderStep::StopSignaling(hook));
                }
                if let Some(shutdown) = session.shutdown {
                    steps.push(SenderStep::Shutdown(shutdown));
                }
                released = Some(session.stop_flag);
                assert(steps@ =~= teardown_steps(session));
            },
        }
        RebuildLeg { steps, released, signals: Vec::new(), closing: None, next: Some(cache) }
    }

    /// Second leg: unless a stop came during the teardown, says what to build.
    pub fn after_teardown<B>(
        &self,
        bridge: &mut SenderBridge<B>,
        cache: RestartCache,
        stop_flag: bool,
    ) -> (leg: RebuildLeg<SenderStep, SenderBuildRequest>)
        ensures
            leg@ == teardown_leg(*self, *old(bridge), cache, stop_flag).0,
            *final(bridge) == teardown_leg(*self, *old(bridge), cache, stop_flag).1,
    {
        if stop_flag {
            return gave_up();
        }
        let fresh: u64 = bridge.issue_flag_apart_from(self.old_stop_flag);
        RebuildLeg {
            steps: Vec::new(),
            released: None,
            signals: Vec::new(),
            closing: None,
            next: Some(
                SenderBuildRequest {
                    udp_port: cache.udp_port,
                    service_name: cache.service_name,
                    stop_flag: fresh,
                    channel: cache.channel,
                    attempt: self.current_attempt,
                    arm_media_watchdog: true,
                },
            ),
        }
    }

    /// Third leg: takes what the builder made. A failed build is reported. If a stop came in the
    /// meantime, the new generation is told to stop and let go; otherwise it is installed, with
    /// its own callbacks and fresh counters.
    pub fn after_build<B>(
        &self,
        bridge: &mut SenderBridge<B>,
        request: &SenderBuildRequest,
        built: Result<SenderBundle, BundleError>,
        stop_flag: bool,
    ) -> (leg: RebuildLeg<SenderStep, ()>)
        ensures
            leg@ == build_leg(*old(bridge), *request, built, stop_flag).0,
            *final(bridge) == build_leg(*old(bridge), *request, built, stop_flag).1,
    {
        match built {
            Err(_) => gave_up(),
            Ok(bundle) => {
                if stop_flag {
                    return RebuildLeg {
                        steps: vec![SenderStep::RaiseStopFlag(request.stop_flag)],
                        released: Some(request.stop_flag),
                        signals: failed(),
                        closing: None,
                        next: None,
                    };
                }
                let released: Option<u64> = match &bridge.session {
                    Some(replaced) => Some(replaced.stop_flag),
                    None => None,
                };
                bridge.session = Some(
                    SenderSession::from_bundle(bundle, request.stop_flag, request.channel),
                );
                RebuildLeg {
                    steps: Vec::new(),
                    released,
                    signals: Vec::new(),
                    closing: None,
                    next: Some(()),
                }
            },
        }
    }

    /// Last leg: reports success, unless a stop came while the new generation was installed. Then
    /// that generation is taken out and down again; its threads are not the one that waits for
    /// this worker, so they are waited for.
    pub fn after_install<B>(&self, bridge: &mut SenderBridge<B>, stop_flag: bool) -> (leg:
        RebuildLeg<SenderStep, ()>)
        ensures
            leg@ == install_leg(*self, *old(bridge), stop_flag).0,
            *final(bridge) == install_leg(*self, *old(bridge), stop_flag).1,
    {
        if !stop_flag {
            return RebuildLeg {
                steps: Vec::new(),
                released: None,
                signals: succeeded(),
                closing: Some(SenderStep::RaiseStopFlag(self.old_stop_flag)),
                next: None,
            };
        }
        let mut steps: Vec<SenderStep> = Vec::new();
        let mut released: Option<u64> = None;
        match bridge.session.take() {
            None => {},
            Some(session) => {
                steps.push(SenderStep::RaiseStopFlag(session.stop_flag));
                if let Some(shutdown) = session.shutdown {
                    steps.push(SenderStep::Shutdown(shutdown));
                }
                push_joins(&mut steps, &session.drain_handles);
                released = Some(session.stop_flag);
                assert(steps@ =~= undo_steps(session));
            },
        }
        RebuildLeg { steps, released, signals: failed(), closing: None, next: None }
    }
}

/// What the worker finds at one gate: the bridge as it is by then, and the old generation's stop
/// flag.
pub struct Gate<B> {
    pub bridge: SenderBridge<B>,
    pub stop_flag: bool,
}

/// Everything that a worker sends to the supervisor, from its first leg to its last. At each gate
/// it may find another bridge than it left, since commands go on.
pub open spec fn rebuild_signals<B>(
    worker: SenderRebuildWorker,
    a: Gate<B>,
    b: Gate<B>,
    built: Result<SenderBundle, BundleError>,
    c: Gate<B>,
    d: Gate<B>,
) -> Seq<SupervisorSignal> {
    let first = begin_leg(a.bridge, a.stop_flag).0;
    if first.next is None {
        first.signals
    } else {
        let second = teardown_leg(worker, b.bridge, first.next->0, b.stop_flag).0;
        if second.next is None {
            first.signals + second.signals
        } else {
            let third = build_leg(c.bridge, second.next->0, built, c.stop_flag).0;
            if third.next is None {
                first.signals + second.signals + third.signals
            } else {
                first.signals + second.signals + third.signals + install_leg(
                    worker,
                    d.bridge,
                    d.stop_flag,
                ).0.signals
            }
        }
    }
}

/// Every rebuild ends in exactly one report. It is a success, followed by the request to stop,
/// exactly when no gate saw a stop, the session had not been given up, and the build worked;
/// otherwise it is one failure.
pub proof fn law_one_report<B>(
    worker: SenderRebuildWorker,
    a: Gate<B>,
    b: Gate<B>,
    built: Result<SenderBundle, BundleError>,
    c: Gate<B>,
    d: Gate<B>,
)
    ensures
        rebuild_signals(worker, a, b, built, c, d) == (if !a.stop_flag
            && a.bridge.restart_cache is Some && !b.stop_flag && built is Ok && !c.stop_flag
            && !d.stop_flag {
            rebuild::success()
        } else {
            rebuild::failure()
        }),
{
    let signals = rebuild_signals(worker, a, b, built, c, d);
    assert(signals =~= rebuild::success() || signals =~= rebuild::failure());
}

/// Place of a step in the teardown of a superseded generation.
pub open spec fn rank(step: SenderStep) -> int {
    match step {
        SenderStep::SuppressBye(_) => 1,
        SenderStep::DisarmEscalation(_) => 2,
        SenderStep::StopSignaling(_) => 3,
        SenderStep::Shutdown(_) => 4,
        _ => 0,
    }
}

/// A superseded generation is taken down in a fixed order: the goodbye is suppressed first, then
/// reports are disarmed, then signaling is stopped, then the resources go. Nothing else is done
/// to it; in particular no thread is waited for and no stop flag is raised.
pub proof fn law_teardown_order(session: SenderSession, i: int, j: int)
    requires
        0 <= i <= j < teardown_steps(session).len(),
    ensures
        1 <= rank(teardown_steps(session)[i]),
        i < j ==> rank(teardown_steps(session)[i]) < rank(teardown_steps(session)[j]),
{
}

/// A rebuild does not touch the session's arguments, its restart parameters, its place for a
/// supervisor or its count of watchdog fires; a well-formed bridge stays well-formed, as long as
/// the new generation's stop flag is one that it has handed out.
pub proof fn law_rebuild_keeps_parameters<B>(
    worker: SenderRebuildWorker,
    bridge: SenderBridge<B>,
    cache: RestartCache,
    request: SenderBuildRequest,
    built: Result<SenderBundle, BundleError>,
    stop_flag: bool,
)
    ensures
        same_parameters(bridge, begin_leg(bridge, stop_flag).1),
        same_parameters(bridge, teardown_leg(worker, bridge, cache, stop_flag).1),
        same_parameters(bridge, build_leg(bridge, request, built, stop_flag).1),
        same_parameters(bridge, install_leg(worker, bridge, stop_flag).1),
        bridge.wf() ==> {
            &&& begin_leg(bridge, stop_flag).1.wf()
            &&& teardown_leg(worker, bridge, cache, stop_flag).1.wf()
            &&& flags::is_issued(request.stop_flag, bridge.flags_issued) ==> build_leg(
                bridge,
                request,
                built,
                stop_flag,
            ).1.wf()
            &&& install_leg(worker, bridge, stop_flag).1.wf()
        },
{
}

/// Two bridges that differ at most in their session and in the stop flags handed out.
pub open spec fn same_parameters<B>(x: SenderBridge<B>, y: SenderBridge<B>) -> bool {
    &&& x.builder == y.builder
    &&& x.current_args == y.current_args
    &&& x.restart_cache == y.restart_cache
    &&& x.supervisor_signal_tx == y.supervisor_signal_tx
    &&& x.media_watchdog_fires == y.media_watchdog_fires
}

/// Nothing takes back a stop flag that was handed out: their number only grows, whatever a command
/// or a rebuild does to the bridge.
pub proof fn law_flags_only_grow<B>(
    worker: SenderRebuildWorker,
    bridge: SenderBridge<B>,
    start: SenderStart,
    bundle: SenderBundle,
    cache: RestartCache,
    request: SenderBuildRequest,
    built: Result<SenderBundle, BundleError>,
    stop_flag: bool,
)
    ensures
        bridge.flags_issued <= bridge.cleared_for_start().flags_issued,
        bridge.flags_issued == bridge.started(start, bundle).flags_issued,
        bridge.flags_issued == bridge.without_session().flags_issued,
        bridge.flags_issued == bridge.stopped().flags_issued,
        bridge.flags_issued == begin_leg(bridge, stop_flag).1.flags_issued,
        bridge.flags_issued <= teardown_leg(worker, bridge, cache, stop_flag).1.flags_issued,
        bridge.flags_issued == build_leg(bridge, request, built, stop_flag).1.flags_issued,
        bridge.flags_issued == install_leg(worker, bridge, stop_flag).1.flags_issued,
{
}

/// What a rebuild of the sender needs of the surrounding program.
pub trait SenderRebuildHost<B>: Sized {
    /// Has this stop flag been raised?
    fn stop_requested(self, flag: u64) -> (r: (Self, bool));

    /// Takes hold of the bridge; nobody else has it until it is given back.
    fn lock(self) -> (r: (Self, SenderBridge<B>));

    /// Gives the bridge back.
    fn unlock(self, bridge: SenderBridge<B>) -> (after: Self);

    /// Takes one step.
    fn perform(self, step: SenderStep) -> (after: Self);

    /// Builds a pipeline.
    fn build(self, request: SenderBuildRequest) -> (r: (Self, Result<SenderBundle, BundleError>));

    /// Lets go of a generation.
    fn release(self, generation: u64) -> (after: Self);

    /// Tells the supervisor, if it has room.
    fn signal(self, signal: SupervisorSignal) -> (after: Self);
}

/// A call to the host of a rebuild.
pub enum SenderRebuildCall<B> {
    StopRequested { flag: u64, raised: bool },
    Lock(SenderBridge<B>),
    Unlock(SenderBridge<B>),
    Perform(SenderStep),
    Build { request: SenderBuildRequest, built: Result<SenderBundle, BundleError> },
    Release(u64),
    Signal(SupervisorSignal),
}

impl<B, H: SenderRebuildHost<B>> HostCall<H> for SenderRebuildCall<B> {
    open spec fn made(self, before: H, after: H) -> bool {
        match self {
            SenderRebuildCall::StopRequested { flag, raised } => call_ensures(
                H::stop_requested,
                (before, flag),
                (after, raised),
            ),
            SenderRebuildCall::Lock(bridge) => call_ensures(H::lock, (before,), (after, bridge)),
            SenderRebuildCall::Unlock(bridge) => call_ensures(H::unlock, (before, bridge), after),
            SenderRebuildCall::Perform(step) => call_ensures(H::perform, (before, step), after),
            SenderRebuildCall::Build { request, built } => call_ensures(
                H::build,
                (before, request),
                (after, built),
            ),
            SenderRebuildCall::Release(generation) => call_ensures(
                H::release,
                (before, generation),
                after,
            ),
            SenderRebuildCall::Signal(signal) => call_ensures(H::signal, (before, signal), after),
        }
    }
}

/// The calls by which the worker comes to a gate: the stop flag is read before the bridge is taken
/// hold of.
pub open spec fn gate_calls<B>(worker: SenderRebuildWorker, gate: Gate<B>) -> Seq<
    SenderRebuildCall<B>,
> {
    seq![
        SenderRebuildCall::StopRequested { flag: worker.old_stop_flag, raised: gate.stop_flag },
        SenderRebuildCall::Lock(gate.bridge),
    ]
}

/// The calls that take these steps.
pub open spec fn step_calls<B>(steps: Seq<SenderStep>) -> Seq<SenderRebuildCall<B>> {
    steps.map_values(|step: SenderStep| SenderRebuildCall::<B>::Perform(step))
}

/// The call that lets go of a generation, if there is one to let go of.
pub open spec fn release_calls<B>(released: Option<u64>) -> Seq<SenderRebuildCall<B>> {
    match released {
        Some(generation) => seq![SenderRebuildCall::Release(generation)],
        None => Seq::empty(),
    }
}

/// The calls that send these signals.
pub open spec fn signal_calls<B>(signals: Seq<SupervisorSignal>) -> Seq<SenderRebuildCall<B>> {
    signals.map_values(|signal: SupervisorSignal| SenderRebuildCall::<B>::Signal(signal))
}

/// The call that takes the last step of a leg, if there is one.
pub open spec fn closing_calls<B>(closing: Option<SenderStep>) -> Seq<SenderRebuildCall<B>> {
    match closing {
        Some(step) => seq![SenderRebuildCall::Perform(step)],
        None => Seq::empty(),
    }
}

/// The calls of one leg: at its gate it takes hold of the bridge and gives it back, and only then
/// takes its steps, lets go of a generation, reports, and takes its last step.
pub open spec fn leg_calls<B, T>(
    worker: SenderRebuildWorker,
    gate: Gate<B>,
    leg: (Leg<SenderStep, T>, SenderBridge<B>),
) -> Seq<
    SenderRebuildCall<B>,
> {
    gate_calls(worker, gate) + asked_calls(
        leg.1,
        leg.0.steps,
        leg.0.released,
        leg.0.signals,
        leg.0.closing,
    )
}

/// The calls by which a leg gives the bridge back and does what it asks for.
pub open spec fn asked_calls<B>(
    bridge: SenderBridge<B>,
    steps: Seq<SenderStep>,
    released: Option<u64>,
    signals: Seq<SupervisorSignal>,
    closing: Option<SenderStep>,
) -> Seq<SenderRebuildCall<B>> {
    seq![SenderRebuildCall::Unlock(bridge)] + step_calls(steps) + release_calls(released)
        + signal_calls(signals) + closing_calls(closing)
}

/// The calls of a rebuild: one leg after the other, as long as each leads to the next, with the
/// build between the second and the third.
pub open spec fn rebuild_calls<B>(
    worker: SenderRebuildWorker,
    a: Gate<B>,
    b: Gate<B>,
    built: Result<SenderBundle, BundleError>,
    c: Gate<B>,
    d: Gate<B>,
) -> Seq<SenderRebuildCall<B>> {
    let first = begin_leg(a.bridge, a.stop_flag);
    leg_calls(worker, a, first) + match first.0.next {
        None => Seq::empty(),
        Some(cache) => {
            let second = teardown_leg(worker, b.bridge, cache, b.stop_flag);
            leg_calls(worker, b, second) + match second.0.next {
                None => Seq::empty(),
                Some(request) => {
                    let third = build_leg(c.bridge, request, built, c.stop_flag);
                    seq![SenderRebuildCall::Build { request, built }] + leg_calls(worker, c, third)
                        + match third.0.next {
                        None => Seq::empty(),
                        Some(_) => leg_calls(worker, d, install_leg(worker, d.bridge, d.stop_flag)),
                    }
                },
            }
        },
    }
}

/// Comes to a gate.
fn pass_gate<B, H: SenderRebuildHost<B>>(worker: SenderRebuildWorker, host: H) -> (r: (
    H,
    bool,
    SenderBridge<B>,
))
    ensures
        trace::leads(host, gate_calls(worker, (Gate { bridge: r.2, stop_flag: r.1 })), r.0),
{
    let ghost first = host;
    let ghost nothing = Seq::<SenderRebuildCall<B>>::empty();
    let (mid, stop_flag) = host.stop_requested(worker.old_stop_flag);
    let (after, bridge) = mid.lock();
    proof {
        let asked = SenderRebuildCall::<B>::StopRequested {
            flag: worker.old_stop_flag,
            raised: stop_flag,
        };
        let locked = SenderRebuildCall::Lock(bridge);
        trace::lemma_called(first, nothing, first, asked, mid);
        trace::lemma_called(first, nothing.push(asked), mid, locked, after);
        assert(gate_calls(worker, Gate { bridge, stop_flag }) =~= nothing.push(asked).push(locked));
    }
    (after, stop_flag, bridge)
}

/// Gives the bridge back and does what a leg asks for: the steps in order, then the release, then
/// the signals in order, then the last step.
fn carry_out<B, H: SenderRebuildHost<B>>(
    host: H,
    bridge: SenderBridge<B>,
    steps: Vec<SenderStep>,
    released: Option<u64>,
    signals: Vec<SupervisorSignal>,
    closing: Option<SenderStep>,
) -> (after: H)
    ensures
        trace::leads(host, asked_calls(bridge, steps@, released, signals@, closing), after),
{
    let ghost first = host;
    let ghost given = bridge;
    let ghost nothing = Seq::<SenderRebuildCall<B>>::empty();
    let mut at = host.unlock(bridge);
    let ghost unlocked = seq![SenderRebuildCall::Unlock(given)];
    proof {
        let call = SenderRebuildCall::Unlock(given);
        trace::lemma_called(first, nothing, first, call, at);
        assert(nothing.push(call) =~= unlocked);
        assert(unlocked + step_calls(steps@.take(0)) =~= unlocked);
    }
    let mut i: usize = 0;
    while i < steps.len()
        invariant
            i <= steps.len(),
            trace::leads(first, unlocked + step_calls(steps@.take(i as int)), at),
        decreases steps.len() - i,
    {
        let ghost before = at;
        at = at.perform(steps[i]);
        proof {
            let calls = unlocked + step_calls(steps@.take(i as int));
            let call = SenderRebuildCall::<B>::Perform(steps@[i as int]);
            trace::lemma_called(first, calls, before, call, at);
            assert(unlocked + step_calls(steps@.take(i + 1)) =~= calls.push(call));
        }
        i += 1;
    }
    assert(steps@.take(i as int) =~= steps@);
    let ghost mut calls = unlocked + step_calls(steps@);
    if let Some(generation) = released {
        let ghost before = at;
        at = at.release(generation);
        proof {
            let call = SenderRebuildCall::<B>::Release(generation);
            trace::lemma_called(first, calls, before, call, at);
            calls = calls.push(call);
        }
    }
    assert(calls =~= unlocked + step_calls(steps@) + release_calls(released));
    let ghost all = signals@;
    let ghost mut done: int = 0;
    let mut signals = signals;
    assert(calls + signal_calls(all.take(0)) =~= calls);
    while signals.len() > 0
        invariant
            0 <= done <= all.len(),
            signals@ == all.skip(done),
            trace::leads(first, calls + signal_calls(all.take(done)), at),
        decreases signals.len(),
    {
        let ghost before = at;
        let signal = signals.remove(0);
        let ghost call = SenderRebuildCall::<B>::Signal(signal);
        at = at.signal(signal);
        proof {
            assert(signal == all[done]);
            let sent = calls + signal_calls(all.take(done));
            trace::lemma_called(first, sent, before, call, at);
            assert(calls + signal_calls(all.take(done + 1)) =~= sent.push(call));
            assert(signals@ =~= all.skip(done + 1));
            done = done + 1;
        }
    }
    assert(all.take(done) =~= all);
    let ghost told = calls + signal_calls(all);
    let ghost mut finished = told;
    if let Some(step) = closing {
        let ghost before = at;
        at = at.perform(step);
        proof {
            let call = SenderRebuildCall::<B>::Perform(step);
            trace::lemma_called(first, told, before, call, at);
            finished = told.push(call);
        }
    }
    assert(finished =~= told + closing_calls(closing));
    at
}

impl SenderRebuildWorker {
    /// Runs the rebuild on a host, from its first leg to its last.
    #[verifier::rlimit(60)]
    pub fn run<B, H: SenderRebuildHost<B>>(&self, host: H) -> (after: H)
        ensures
            exists|
                a: Gate<B>,
                b: Gate<B>,
                built: Result<SenderBundle, BundleError>,
                c: Gate<B>,
                d: Gate<B>,
            |
                trace::leads(host, #[trigger] rebuild_calls(*self, a, b, built, c, d), after),
    {
        let ghost nowhere: Gate<B> = arbitrary();
        let ghost unbuilt: Result<SenderBundle, BundleError> = arbitrary();

        let (at, stop_flag, mut bridge) = pass_gate(*self, host);
        let ghost at_gate = at;
        let ghost a = Gate { bridge, stop_flag };
        let leg = self.begin(&mut bridge, stop_flag);
        let at = carry_out(at, bridge, leg.steps, leg.released, leg.signals, leg.closing);
        let ghost first = begin_leg(a.bridge, a.stop_flag);
        let ghost one = leg_calls(*self, a, first);
        proof {
            trace::lemma_joined(
                host,
                gate_calls(*self, a),
                at_gate,
                asked_calls(
                    first.1,
                    first.0.steps,
                    first.0.released,
                    first.0.signals,
                    first.0.closing,
                ),
                at,
            );
        }
        let cache = match leg.next {
            Some(cache) => cache,
            None => {
                assert(rebuild_calls(*self, a, nowhere, unbuilt, nowhere, nowhere) =~= one);
                return at;
            },
        };
        let ghost the_cache = cache;
        let ghost after_one = at;

        let (at, stop_flag, mut bridge) = pass_gate(*self, at);
        let ghost at_gate = at;
        let ghost b = Gate { bridge, stop_flag };
        let leg = self.after_teardown(&mut bridge, cache, stop_flag);
        let at = carry_out(at, bridge, leg.steps, leg.released, leg.signals, leg.closing);
        let ghost second = teardown_leg(*self, b.bridge, the_cache, b.stop_flag);
        let ghost two = leg_calls(*self, b, second);
        proof {
            trace::lemma_joined(
                after_one,
                gate_calls(*self, b),
                at_gate,
                asked_calls(
                    second.1,
                    second.0.steps,
                    second.0.released,
                    second.0.signals,
                    second.0.closing,
                ),
                at,
            );
            trace::lemma_joined(host, one, after_one, two, at);
        }
        let request = match leg.next {
            Some(request) => request,
            None => {
                assert(rebuild_calls(*self, a, b, unbuilt, nowhere, nowhere) =~= one + two);
                return at;
            },
        };
        let ghost after_two = at;

        let (at, built) = at.build(request.clone());
        let ghost the_build = built;
        let ghost build = SenderRebuildCall::<B>::Build { request, built };
        proof {
            trace::lemma_called(host, one + two, after_two, build, at);
        }
        let ghost after_build = at;
        let (at, stop_flag, mut bridge) = pass_gate(*self, at);
        let ghost at_gate = at;
        let ghost c = Gate { bridge, stop_flag };
        let leg = self.after_build(&mut bridge, &request, built, stop_flag);
        let at = carry_out(at, bridge, leg.steps, leg.released, leg.signals, leg.closing);
        let ghost third = build_leg(c.bridge, request, the_build, c.stop_flag);
        let ghost three = leg_calls(*self, c, third);
        let ghost so_far = (one + two).push(build) + three;
        proof {
            trace::lemma_joined(
                after_build,
                gate_calls(*self, c),
                at_gate,
                asked_calls(
                    third.1,
                    third.0.steps,
                    third.0.released,
                    third.0.signals,
                    third.0.closing,
                ),
                at,
            );
            trace::lemma_joined(host, (one + two).push(build), after_build, three, at);
        }
        match leg.next {
            Some(_) => {},
            None => {
                assert(rebuild_calls(*self, a, b, the_build, c, nowhere) =~= so_far);
                return at;
            },
        }
        let ghost after_three = at;

        let (at, stop_flag, mut bridge) = pass_gate(*self, at);
        let ghost at_gate = at;
        let ghost d = Gate { bridge, stop_flag };
        let leg = self.after_install(&mut bridge, stop_flag);
        let at = carry_out(at, bridge, leg.steps, leg.released, leg.signals, leg.closing);
        proof {
            let last = install_leg(*self, d.bridge, d.stop_flag);
            trace::lemma_joined(
                after_three,
                gate_calls(*self, d),
                at_gate,
                asked_calls(last.1, last.0.steps, last.0.released, last.0.signals, last.0.closing),
                at,
            );
            trace::lemma_joined(host, so_far, after_three, leg_calls(*self, d, last), at);
            assert(rebuild_calls(*self, a, b, the_build, c, d) =~= so_far + leg_calls(*self, d, last));
        }
        at
    }
}

/// The signals that a row of calls sends, in order.
pub open spec fn sent_by<B>(calls: Seq<SenderRebuildCall<B>>) -> Seq<SupervisorSignal>
    decreases calls.len(),
{
    if calls.len() == 0 {
        Seq::empty()
    } else {
        match calls.last() {
            SenderRebuildCall::Signal(signal) => sent_by(calls.drop_last()).push(signal),
            _ => sent_by(calls.drop_last()),
        }
    }
}

/// What two rows of calls send, one after the other.
proof fn lemma_sent_joined<B>(first: Seq<SenderRebuildCall<B>>, second: Seq<SenderRebuildCall<B>>)
    ensures
        sent_by(first + second) == sent_by(first) + sent_by(second),
    decreases second.len(),
{
    if second.len() == 0 {
        assert(first + second =~= first);
        assert(sent_by(first) + sent_by(second) =~= sent_by(first));
    } else {
        lemma_sent_joined(first, second.drop_last());
        assert((first + second).drop_last() =~= first + second.drop_last());
        assert((first + second).last() == second.last());
        assert(sent_by(first + second) =~= sent_by(first) + sent_by(second));
    }
}

/// Calls among which there is no signal send none.
proof fn lemma_silent<B>(calls: Seq<SenderRebuildCall<B>>)
    requires
        forall|i: int| 0 <= i < calls.len() ==> (#[trigger] calls[i]) !is Signal,
    ensures
        sent_by(calls) == Seq::<SupervisorSignal>::empty(),
    decreases calls.len(),
{
    if calls.len() > 0 {
        assert(calls.last() == calls[calls.len() - 1]);
        lemma_silent(calls.drop_last());
    }
}

/// Calls that send these signals send these signals.
proof fn lemma_signal_calls<B>(signals: Seq<SupervisorSignal>)
    ensures
        sent_by(signal_calls::<B>(signals)) == signals,
    decreases signals.len(),
{
    if signals.len() > 0 {
        lemma_signal_calls::<B>(signals.drop_last());
        assert(signal_calls::<B>(signals).drop_last() =~= signal_calls::<B>(signals.drop_last()));
    }
    assert(sent_by(signal_calls::<B>(signals)) =~= signals);
}

/// What one leg sends.
proof fn lemma_sent_by_leg<B, T>(
    worker: SenderRebuildWorker,
    gate: Gate<B>,
    leg: (Leg<SenderStep, T>, SenderBridge<B>),
)
    ensures
        sent_by(leg_calls(worker, gate, leg)) == leg.0.signals,
{
    let quiet = gate_calls(worker, gate) + (seq![SenderRebuildCall::Unlock(leg.1)] + step_calls(
        leg.0.steps,
    ) + release_calls(leg.0.released));
    lemma_silent(quiet);
    lemma_signal_calls::<B>(leg.0.signals);
    lemma_sent_joined(quiet, signal_calls(leg.0.signals));
    let told = quiet + signal_calls(leg.0.signals);
    lemma_silent(closing_calls::<B>(leg.0.closing));
    lemma_sent_joined(told, closing_calls(leg.0.closing));
    assert(leg_calls(worker, gate, leg) =~= told + closing_calls(leg.0.closing));
    assert(sent_by(leg_calls(worker, gate, leg)) =~= leg.0.signals);
}

/// What the calls of a rebuild send is what `rebuild_signals` says.
pub proof fn law_calls_follow_the_legs<B>(
    worker: SenderRebuildWorker,
    a: Gate<B>,
    b: Gate<B>,
    built: Result<SenderBundle, BundleError>,
    c: Gate<B>,
    d: Gate<B>,
)
    ensures
        sent_by(rebuild_calls(worker, a, b, built, c, d)) == rebuild_signals(
            worker,
            a,
            b,
            built,
            c,
            d,
        ),
{
    let first = begin_leg(a.bridge, a.stop_flag);
    let one = leg_calls(worker, a, first);
    lemma_sent_by_leg(worker, a, first);
    if first.0.next is Some {
        let second = teardown_leg(worker, b.bridge, first.0.next->0, b.stop_flag);
        let two = leg_calls(worker, b, second);
        lemma_sent_by_leg(worker, b, second);
        lemma_sent_joined(one, two);
        if second.0.next is Some {
            let request = second.0.next->0;
            let third = build_leg(c.bridge, request, built, c.stop_flag);
            let build = seq![SenderRebuildCall::<B>::Build { request, built }];
            let three = leg_calls(worker, c, third);
            lemma_silent(build);
            lemma_sent_by_leg(worker, c, third);
            lemma_sent_joined(one + two, build);
            lemma_sent_joined(one + two + build, three);
            if third.0.next is Some {
                let last = install_leg(worker, d.bridge, d.stop_flag);
                lemma_sent_by_leg(worker, d, last);
                lemma_sent_joined(one + two + build + three, leg_calls(worker, d, last));
                assert(rebuild_calls(worker, a, b, built, c, d) =~= one + two + build + three
                    + leg_calls(worker, d, last));
            } else {
                assert(rebuild_calls(worker, a, b, built, c, d) =~= one + two + build + three);
            }
        } else {
            assert(rebuild_calls(worker, a, b, built, c, d) =~= one + two);
        }
    } else {
        assert(rebuild_calls(worker, a, b, built, c, d) =~= one);
    }
    assert(sent_by(rebuild_calls(worker, a, b, built, c, d)) =~= rebuild_signals(
        worker,
        a,
        b,
        built,
        c,
        d,
    ));
}

/// The session that a rebuild installs, if it comes to that.
pub open spec fn installed<B>(
    worker: SenderRebuildWorker,
    a: Gate<B>,
    b: Gate<B>,
    built: Result<SenderBundle, BundleError>,
    c: Gate<B>,
) -> Option<SenderSession> {
    match begin_leg(a.bridge, a.stop_flag).0.next {
        None => None,
        Some(cache) => match teardown_leg(worker, b.bridge, cache, b.stop_flag).0.next {
            None => None,
            Some(request) => {
                let third = build_leg(c.bridge, request, built, c.stop_flag);
                match third.0.next {
                    None => None,
                    Some(_) => third.1.session,
                }
            },
        },
    }
}

/// The session that a rebuild installs has a stop flag of its own, whatever the bridge looks like:
/// it is not that of the generation that failed. Nor is it that of the session that the rebuild took
/// out, as long as the bridge was well-formed then and fewer stop flags than a `u64` can count have
/// been handed out.
pub proof fn law_new_generation_has_its_own_flag<B>(
    worker: SenderRebuildWorker,
    a: Gate<B>,
    b: Gate<B>,
    built: Result<SenderBundle, BundleError>,
    c: Gate<B>,
)
    requires
        installed(worker, a, b, built, c) is Some,
    ensures
        installed(worker, a, b, built, c)->0.stop_flag != worker.old_stop_flag,
        a.bridge.wf() && a.bridge.session is Some && a.bridge.flags_issued <= b.bridge.flags_issued
            < u64::MAX ==> installed(worker, a, b, built, c)->0.stop_flag
            != a.bridge.session->0.stop_flag,
{
}

/// A rebuild that worked has installed the new generation, and the last thing it does, after its
/// report, is to raise the stop flag of the generation that failed, so that the drains of that one
/// leave. Any other rebuild ends with its report.
pub proof fn law_old_drains_leave_after_success<B>(
    worker: SenderRebuildWorker,
    a: Gate<B>,
    b: Gate<B>,
    built: Result<SenderBundle, BundleError>,
    c: Gate<B>,
    d: Gate<B>,
)
    ensures
        rebuild_signals(worker, a, b, built, c, d) == rebuild::success() ==> {
            &&& installed(worker, a, b, built, c) is Some
            &&& rebuild_calls(worker, a, b, built, c, d).last() == SenderRebuildCall::<B>::Perform(
                SenderStep::RaiseStopFlag(worker.old_stop_flag),
            )
        },
        rebuild_signals(worker, a, b, built, c, d) == rebuild::failure() ==> rebuild_calls(
            worker,
            a,
            b,
            built,
            c,
            d,
        ).last() == SenderRebuildCall::<B>::Signal(SupervisorSignal::RebuildFailed),
{
    law_one_report(worker, a, b, built, c, d);
    let calls = rebuild_calls(worker, a, b, built, c, d);
    assert(rebuild::success().len() != rebuild::failure().len());
    let first = begin_leg(a.bridge, a.stop_flag);
    lemma_end_of_leg(worker, a, first);
    if first.0.next is Some {
        let second = teardown_leg(worker, b.bridge, first.0.next->0, b.stop_flag);
        lemma_end_of_leg(worker, b, second);
        if second.0.next is Some {
            let third = build_leg(c.bridge, second.0.next->0, built, c.stop_flag);
            lemma_end_of_leg(worker, c, third);
            if third.0.next is Some {
                lemma_end_of_leg(worker, d, install_leg(worker, d.bridge, d.stop_flag));
            }
        }
    }
}

/// The last call of a leg.
proof fn lemma_end_of_leg<B, T>(
    worker: SenderRebuildWorker,
    gate: Gate<B>,
    leg: (Leg<SenderStep, T>, SenderBridge<B>),
)
    ensures
        leg_calls(worker, gate, leg).len() > 0,
        match leg.0.closing {
            Some(step) => leg_calls(worker, gate, leg).last() == SenderRebuildCall::<B>::Perform(
                step,
            ),
            None => leg.0.signals.len() > 0 ==> leg_calls(worker, gate, leg).last()
                == SenderRebuildCall::<B>::Signal(leg.0.signals.last()),
        },
{
}

/// What is done to the generation that a rebuild replaces, callback by callback: each one that the
/// session has is called once, under its own number and in this order, and one that it does not have
/// is passed over.
pub proof fn law_teardown_calls_each_callback(session: SenderSession)
    ensures
        teardown_steps(session) == (match session.suppress_bye_on_rebuild {
            Some(h) => seq![SenderStep::SuppressBye(h)],
            None => Seq::empty(),
        }) + (match session.disarm_escalation_on_rebuild {
            Some(h) => seq![SenderStep::DisarmEscalation(h)],
            None => Seq::empty(),
        }) + (match session.stop_signaling_on_rebuild {
            Some(h) => seq![SenderStep::StopSignaling(h)],
            None => Seq::empty(),
        }) + (match session.shutdown {
            Some(h) => seq![SenderStep::Shutdown(h)],
            None => Seq::empty(),
        }),
{
}

/// A rebuild that is given up at its first gate, because a stop came or the session has no
/// parameters any more, gives the bridge back as it found it, does nothing to any generation, and
/// reports that it failed.
pub proof fn law_early_end_changes_nothing<B>(
    worker: SenderRebuildWorker,
    a: Gate<B>,
    b: Gate<B>,
    built: Result<SenderBundle, BundleError>,
    c: Gate<B>,
    d: Gate<B>,
)
    requires
        a.stop_flag || a.bridge.restart_cache is None,
    ensures
        rebuild_calls(worker, a, b, built, c, d) == seq![
            SenderRebuildCall::StopRequested { flag: worker.old_stop_flag, raised: a.stop_flag },
            SenderRebuildCall::Lock(a.bridge),
            SenderRebuildCall::Unlock(a.bridge),
            SenderRebuildCall::Signal(SupervisorSignal::RebuildFailed),
        ],
{
    assert(rebuild_calls(worker, a, b, built, c, d) =~= seq![
        SenderRebuildCall::StopRequested { flag: worker.old_stop_flag, raised: a.stop_flag },
        SenderRebuildCall::Lock(a.bridge),
        SenderRebuildCall::Unlock(a.bridge),
        SenderRebuildCall::Signal(SupervisorSignal::RebuildFailed),
    ]);
}

/// What a rebuild does before it builds: it takes the session out of the bridge and nothing else,
/// takes that session down, lets go of it, and looks at the stop flag again.
spec fn first_half<B>(worker: SenderRebuildWorker, a: Gate<B>, b: Gate<B>) -> Seq<
    SenderRebuildCall<B>,
> {
    seq![
        SenderRebuildCall::StopRequested { flag: worker.old_stop_flag, raised: a.stop_flag },
        SenderRebuildCall::Lock(a.bridge),
        SenderRebuildCall::Unlock(SenderBridge { session: None, ..a.bridge }),
    ] + (match a.bridge.session {
        Some(session) => teardown_steps(session).map_values(
            |step: SenderStep| SenderRebuildCall::<B>::Perform(step),
        ).push(SenderRebuildCall::Release(session.stop_flag)),
        None => Seq::empty(),
    }) + seq![
        SenderRebuildCall::StopRequested { flag: worker.old_stop_flag, raised: b.stop_flag },
        SenderRebuildCall::Lock(b.bridge),
    ]
}

/// A rebuild whose first gate is open and whose second sees a stop has taken the old session down
/// and out of the bridge, builds nothing, and reports that it failed.
pub proof fn law_stop_during_teardown<B>(
    worker: SenderRebuildWorker,
    a: Gate<B>,
    b: Gate<B>,
    built: Result<SenderBundle, BundleError>,
    c: Gate<B>,
    d: Gate<B>,
)
    requires
        !a.stop_flag,
        a.bridge.restart_cache is Some,
        b.stop_flag,
    ensures
        rebuild_calls(worker, a, b, built, c, d) == seq![
            SenderRebuildCall::StopRequested { flag: worker.old_stop_flag, raised: false },
            SenderRebuildCall::Lock(a.bridge),
            SenderRebuildCall::Unlock(SenderBridge { session: None, ..a.bridge }),
        ] + (match a.bridge.session {
            Some(session) => teardown_steps(session).map_values(
                |step: SenderStep| SenderRebuildCall::<B>::Perform(step),
            ).push(SenderRebuildCall::Release(session.stop_flag)),
            None => Seq::empty(),
        }) + seq![
            SenderRebuildCall::StopRequested { flag: worker.old_stop_flag, raised: true },
            SenderRebuildCall::Lock(b.bridge),
            SenderRebuildCall::Unlock(b.bridge),
            SenderRebuildCall::Signal(SupervisorSignal::RebuildFailed),
        ],
{
    let rest = seq![
        SenderRebuildCall::Unlock(b.bridge),
        SenderRebuildCall::Signal(SupervisorSignal::RebuildFailed),
    ];
    assert(rebuild_calls(worker, a, b, built, c, d) =~= first_half(worker, a, b) + rest);
    assert(first_half(worker, a, b) + rest =~= seq![
        SenderRebuildCall::StopRequested { flag: worker.old_stop_flag, raised: false },
        SenderRebuildCall::Lock(a.bridge),
        SenderRebuildCall::Unlock(SenderBridge { session: None, ..a.bridge }),
    ] + (match a.bridge.session {
        Some(session) => teardown_steps(session).map_values(
            |step: SenderStep| SenderRebuildCall::<B>::Perform(step),
        ).push(SenderRebuildCall::Release(session.stop_flag)),
        None => Seq::empty(),
    }) + seq![
        SenderRebuildCall::StopRequested { flag: worker.old_stop_flag, raised: true },
        SenderRebuildCall::Lock(b.bridge),
        SenderRebuildCall::Unlock(b.bridge),
        SenderRebuildCall::Signal(SupervisorSignal::RebuildFailed),
    ]);
}

/// A rebuild that comes to the builder asks it for the session that was lost: with the port, the
/// service name and the channel that the restart parameters had when the rebuild began, with the
/// attempt of this reconnect cycle, and with the media watchdog armed. The new generation gets a
/// stop flag that is not the old one's and, while there are numbers left, one that was never handed
/// out before; the bridge counts it as handed out and is otherwise given back as it was found. The
/// builder is asked after the old session is down, and only once.
pub proof fn law_rebuild_asks_for_the_same_session<B>(
    worker: SenderRebuildWorker,
    a: Gate<B>,
    b: Gate<B>,
    built: Result<SenderBundle, BundleError>,
    c: Gate<B>,
    d: Gate<B>,
    i: int,
)
    requires
        0 <= i < rebuild_calls(worker, a, b, built, c, d).len(),
        rebuild_calls(worker, a, b, built, c, d)[i] is Build,
    ensures
        ({
            let calls = rebuild_calls(worker, a, b, built, c, d);
            let request = calls[i]->request;
            &&& !a.stop_flag && !b.stop_flag
            &&& a.bridge.restart_cache matches Some(cache)
            &&& calls[i]->built == built
            &&& request.udp_port == cache.udp_port
            &&& request.service_name == cache.service_name
            &&& request.channel == cache.channel
            &&& request.attempt == worker.current_attempt
            &&& request.arm_media_watchdog
            &&& request.stop_flag != worker.old_stop_flag
            &&& b.bridge.flags_issued < u64::MAX - 1 ==> request.stop_flag >= b.bridge.flags_issued
            &&& forall|j: int| 0 <= j < calls.len() && (#[trigger] calls[j]) is Build ==> j == i
            &&& calls.take(i) == seq![
                SenderRebuildCall::StopRequested { flag: worker.old_stop_flag, raised: false },
                SenderRebuildCall::Lock(a.bridge),
                SenderRebuildCall::Unlock(SenderBridge { session: None, ..a.bridge }),
            ] + (match a.bridge.session {
                Some(session) => teardown_steps(session).map_values(
                    |step: SenderStep| SenderRebuildCall::<B>::Perform(step),
                ).push(SenderRebuildCall::Release(session.stop_flag)),
                None => Seq::empty(),
            }) + seq![
                SenderRebuildCall::StopRequested { flag: worker.old_stop_flag, raised: false },
                SenderRebuildCall::Lock(b.bridge),
                SenderRebuildCall::Unlock(
                    SenderBridge { flags_issued: calls[i - 1]->Unlock_0.flags_issued, ..b.bridge },
                ),
            ]
            &&& calls[i - 1]->Unlock_0.flags_issued >= b.bridge.flags_issued
            &&& request.stop_flag < calls[i - 1]->Unlock_0.flags_issued || calls[i
                - 1]->Unlock_0.flags_issued == u64::MAX
        }),
{
    let calls = rebuild_calls(worker, a, b, built, c, d);
    lemma_where_it_builds(worker, a, b, built, c, d);
    let head = first_half(worker, a, b);
    let n = head.len() as int + 1;
    assert(i == n);
    let given = b.bridge.with_flag_apart_from(worker.old_stop_flag);
    assert(calls.take(i) =~= head.push(SenderRebuildCall::Unlock(given)));
    assert(calls[i - 1] == SenderRebuildCall::Unlock(given));
    assert(calls.take(i) =~= seq![
        SenderRebuildCall::StopRequested { flag: worker.old_stop_flag, raised: false },
        SenderRebuildCall::Lock(a.bridge),
        SenderRebuildCall::Unlock(SenderBridge { session: None, ..a.bridge }),
    ] + (match a.bridge.session {
        Some(session) => teardown_steps(session).map_values(
            |step: SenderStep| SenderRebuildCall::<B>::Perform(step),
        ).push(SenderRebuildCall::Release(session.stop_flag)),
        None => Seq::empty(),
    }) + seq![
        SenderRebuildCall::StopRequested { flag: worker.old_stop_flag, raised: false },
        SenderRebuildCall::Lock(b.bridge),
        SenderRebuildCall::Unlock(
            SenderBridge { flags_issued: given.flags_issued, ..b.bridge },
        ),
    ]);
}

/// A rebuild comes to the builder whenever no stop came before that and the session still has its
/// parameters.
pub proof fn law_rebuild_comes_to_the_builder<B>(
    worker: SenderRebuildWorker,
    a: Gate<B>,
    b: Gate<B>,
    built: Result<SenderBundle, BundleError>,
    c: Gate<B>,
    d: Gate<B>,
)
    ensures
        (exists|i: int|
            0 <= i < rebuild_calls(worker, a, b, built, c, d).len() && (
            #[trigger] rebuild_calls(worker, a, b, built, c, d)[i]) is Build) <==> !a.stop_flag
            && a.bridge.restart_cache is Some && !b.stop_flag,
{
    let calls = rebuild_calls(worker, a, b, built, c, d);
    lemma_where_it_builds(worker, a, b, built, c, d);
    if !a.stop_flag && a.bridge.restart_cache is Some && !b.stop_flag {
        assert(calls[first_half(worker, a, b).len() as int + 1] is Build);
    }
}

/// Where the builder is asked.
proof fn lemma_where_it_builds<B>(
    worker: SenderRebuildWorker,
    a: Gate<B>,
    b: Gate<B>,
    built: Result<SenderBundle, BundleError>,
    c: Gate<B>,
    d: Gate<B>,
)
    ensures
        ({
            let calls = rebuild_calls(worker, a, b, built, c, d);
            let n = first_half(worker, a, b).len() as int + 1;
            &&& forall|i: int|
                0 <= i < calls.len() && (#[trigger] calls[i]) is Build ==> i == n && !a.stop_flag
                    && a.bridge.restart_cache is Some && !b.stop_flag
            &&& !a.stop_flag && a.bridge.restart_cache is Some && !b.stop_flag ==> {
                let request = rebuild_request(
                    a.bridge.restart_cache->0,
                    flags::apart_from(b.bridge.flags_issued, worker.old_stop_flag),
                    worker.current_attempt,
                );
                &&& n < calls.len()
                &&& calls.take(n) == first_half(worker, a, b).push(
                    SenderRebuildCall::Unlock(b.bridge.with_flag_apart_from(worker.old_stop_flag)),
                )
                &&& calls[n] == SenderRebuildCall::<B>::Build { request, built }
                &&& calls.skip(n + 1) == after_build_calls(worker, request, built, c, d)
            }
        }),
{
    let calls = rebuild_calls(worker, a, b, built, c, d);
    let first = begin_leg(a.bridge, a.stop_flag);
    let one = leg_calls(worker, a, first);
    let n = first_half(worker, a, b).len() as int + 1;
    lemma_leg_builds_nothing(worker, a, first);
    if first.0.next is Some {
        let second = teardown_leg(worker, b.bridge, first.0.next->0, b.stop_flag);
        let two = leg_calls(worker, b, second);
        lemma_leg_builds_nothing(worker, b, second);
        if second.0.next is Some {
            let request = second.0.next->0;
            let third = build_leg(c.bridge, request, built, c.stop_flag);
            let three = leg_calls(worker, c, third);
            let rest = after_build_calls(worker, request, built, c, d);
            lemma_leg_builds_nothing(worker, c, third);
            if third.0.next is Some {
                lemma_leg_builds_nothing(worker, d, install_leg(worker, d.bridge, d.stop_flag));
            }
            let build = SenderRebuildCall::<B>::Build { request, built };
            assert(calls =~= one + two + seq![build] + rest);
            assert(one + two =~= first_half(worker, a, b).push(
                SenderRebuildCall::Unlock(b.bridge.with_flag_apart_from(worker.old_stop_flag)),
            ));
            assert(calls.take(n) =~= one + two);
            assert(calls.skip(n + 1) =~= rest);
            assert forall|i: int| 0 <= i < calls.len() && (#[trigger] calls[i]) is Build implies i
                == n by {
                if i < one.len() {
                    assert(calls[i] == one[i]);
                } else if i < n {
                    assert(calls[i] == two[i - one.len()]);
                } else if i > n {
                    assert(calls[i] == rest[i - n - 1]);
                    if i - n - 1 < three.len() {
                        assert(rest[i - n - 1] == three[i - n - 1]);
                    } else {
                        assert(rest[i - n - 1] == leg_calls(
                            worker,
                            d,
                            install_leg(worker, d.bridge, d.stop_flag),
                        )[i - n - 1 - three.len()]);
                    }
                }
            }
        } else {
            assert(calls =~= one + two);
            assert forall|i: int| 0 <= i < calls.len() implies (#[trigger] calls[i]) !is Build by {
                if i < one.len() {
                    assert(calls[i] == one[i]);
                } else {
                    assert(calls[i] == two[i - one.len()]);
                }
            }
        }
    } else {
        assert(calls =~= one);
    }
}

/// The calls of a rebuild after its build.
spec fn after_build_calls<B>(
    worker: SenderRebuildWorker,
    request: SenderBuildRequest,
    built: Result<SenderBundle, BundleError>,
    c: Gate<B>,
    d: Gate<B>,
) -> Seq<SenderRebuildCall<B>> {
    let third = build_leg(c.bridge, request, built, c.stop_flag);
    leg_calls(worker, c, third) + match third.0.next {
        None => Seq::empty(),
        Some(_) => leg_calls(worker, d, install_leg(worker, d.bridge, d.stop_flag)),
    }
}

/// No leg asks the builder for anything by itself.
proof fn lemma_leg_builds_nothing<B, T>(
    worker: SenderRebuildWorker,
    gate: Gate<B>,
    leg: (Leg<SenderStep, T>, SenderBridge<B>),
)
    ensures
        forall|i: int|
            0 <= i < leg_calls(worker, gate, leg).len() ==> (#[trigger] leg_calls(
                worker,
                gate,
                leg,
            )[i]) !is Build,
{
}

/// A rebuild whose build failed gives the bridge back as it finds it then, and reports the failure.
pub proof fn law_failed_build_is_reported<B>(
    worker: SenderRebuildWorker,
    a: Gate<B>,
    b: Gate<B>,
    failure: BundleError,
    c: Gate<B>,
    d: Gate<B>,
    i: int,
)
    requires
        0 <= i < rebuild_calls(worker, a, b, Err(failure), c, d).len(),
        rebuild_calls(worker, a, b, Err(failure), c, d)[i] is Build,
    ensures
        rebuild_calls(worker, a, b, Err(failure), c, d).skip(i + 1) == seq![
            SenderRebuildCall::StopRequested { flag: worker.old_stop_flag, raised: c.stop_flag },
            SenderRebuildCall::Lock(c.bridge),
            SenderRebuildCall::Unlock(c.bridge),
            SenderRebuildCall::Signal(SupervisorSignal::RebuildFailed),
        ],
{
    let calls = rebuild_calls(worker, a, b, Err(failure), c, d);
    lemma_where_it_builds(worker, a, b, Err(failure), c, d);
    assert(calls.skip(i + 1) =~= seq![
        SenderRebuildCall::StopRequested { flag: worker.old_stop_flag, raised: c.stop_flag },
        SenderRebuildCall::Lock(c.bridge),
        SenderRebuildCall::Unlock(c.bridge),
        SenderRebuildCall::Signal(SupervisorSignal::RebuildFailed),
    ]);
}

/// A generation that was built in vain, because a stop came while it was, is not installed: its own
/// stop flag goes up, it is let go, and the failure is reported. The bridge stays as it is.
pub proof fn law_unwanted_generation_is_dropped<B>(
    worker: SenderRebuildWorker,
    a: Gate<B>,
    b: Gate<B>,
    bundle: SenderBundle,
    c: Gate<B>,
    d: Gate<B>,
    i: int,
)
    requires
        c.stop_flag,
        0 <= i < rebuild_calls(worker, a, b, Ok(bundle), c, d).len(),
        rebuild_calls(worker, a, b, Ok(bundle), c, d)[i] is Build,
    ensures
        ({
            let calls = rebuild_calls(worker, a, b, Ok(bundle), c, d);
            let fresh = calls[i]->request.stop_flag;
            calls.skip(i + 1) == seq![
                SenderRebuildCall::StopRequested { flag: worker.old_stop_flag, raised: true },
                SenderRebuildCall::Lock(c.bridge),
                SenderRebuildCall::Unlock(c.bridge),
                SenderRebuildCall::Perform(SenderStep::RaiseStopFlag(fresh)),
                SenderRebuildCall::Release(fresh),
                SenderRebuildCall::Signal(SupervisorSignal::RebuildFailed),
            ]
        }),
{
    let calls = rebuild_calls(worker, a, b, Ok(bundle), c, d);
    lemma_where_it_builds(worker, a, b, Ok(bundle), c, d);
    let fresh = calls[i]->request.stop_flag;
    assert(calls.skip(i + 1) =~= seq![
        SenderRebuildCall::StopRequested { flag: worker.old_stop_flag, raised: true },
        SenderRebuildCall::Lock(c.bridge),
        SenderRebuildCall::Unlock(c.bridge),
        SenderRebuildCall::Perform(SenderStep::RaiseStopFlag(fresh)),
        SenderRebuildCall::Release(fresh),
        SenderRebuildCall::Signal(SupervisorSignal::RebuildFailed),
    ]);
}

/// A generation that was built in time is installed with everything that belongs to it: the stop
/// flag and the channel it was asked for with, the threads, the callbacks and the backend name of
/// its bundle, and counters that start at zero. Nothing else in the bridge changes; a session that
/// was there is let go. Then, if no stop comes, success is reported, the old supervisor is stopped,
/// and the old generation's stop flag goes up. If one does come, the session that is in the bridge
/// by then is taken out and down, with its threads waited for, and the failure is reported.
pub proof fn law_built_generation_is_installed<B>(
    worker: SenderRebuildWorker,
    a: Gate<B>,
    b: Gate<B>,
    bundle: SenderBundle,
    c: Gate<B>,
    d: Gate<B>,
    i: int,
)
    requires
        !c.stop_flag,
        0 <= i < rebuild_calls(worker, a, b, Ok(bundle), c, d).len(),
        rebuild_calls(worker, a, b, Ok(bundle), c, d)[i] is Build,
    ensures
        ({
            let calls = rebuild_calls(worker, a, b, Ok(bundle), c, d);
            let request = calls[i]->request;
            let old_flag = worker.old_stop_flag;
            calls.skip(i + 1) == seq![
                SenderRebuildCall::StopRequested { flag: old_flag, raised: false },
                SenderRebuildCall::Lock(c.bridge),
                SenderRebuildCall::Unlock(
                    SenderBridge {
                        session: Some(
                            SenderSession {
                                stop_flag: request.stop_flag,
                                drain_handles: bundle.drain_handles,
                                channel: request.channel,
                                counters: SenderCounters {
                                    dropped_frames_encoder: 0,
                                    dropped_frames_transport: 0,
                                    keyframe_requests_received: 0,
                                },
                                shutdown: bundle.shutdown,
                                suppress_bye_on_rebuild: bundle.suppress_bye_on_rebuild,
                                stop_signaling_on_rebuild: bundle.stop_signaling_on_rebuild,
                                disarm_escalation_on_rebuild: bundle.disarm_escalation_on_rebuild,
                                backend_name: bundle.backend_name,
                            },
                        ),
                        ..c.bridge
                    },
                ),
            ] + (match c.bridge.session {
                Some(replaced) => seq![SenderRebuildCall::Release(replaced.stop_flag)],
                None => Seq::empty(),
            }) + seq![
                SenderRebuildCall::StopRequested { flag: old_flag, raised: d.stop_flag },
                SenderRebuildCall::Lock(d.bridge),
            ] + (if !d.stop_flag {
                seq![
                    SenderRebuildCall::Unlock(d.bridge),
                    SenderRebuildCall::Signal(SupervisorSignal::RebuildSucceeded),
                    SenderRebuildCall::Signal(SupervisorSignal::Stop),
                    SenderRebuildCall::Perform(SenderStep::RaiseStopFlag(old_flag)),
                ]
            } else {
                seq![SenderRebuildCall::Unlock(SenderBridge { session: None, ..d.bridge })] + (
                match d.bridge.session {
                    Some(session) => seq![
                        SenderRebuildCall::Perform(SenderStep::RaiseStopFlag(session.stop_flag)),
                    ] + (match session.shutdown {
                        Some(h) => seq![SenderRebuildCall::Perform(SenderStep::Shutdown(h))],
                        None => Seq::empty(),
                    }) + Seq::new(
                        session.drain_handles@.len(),
                        |k: int|
                            SenderRebuildCall::<B>::Perform(
                                SenderStep::JoinDrain(session.drain_handles@[k]),
                            ),
                    ) + seq![SenderRebuildCall::Release(session.stop_flag)],
                    None => Seq::empty(),
                }) + seq![SenderRebuildCall::Signal(SupervisorSignal::RebuildFailed)]
            })
        }),
{
    let calls = rebuild_calls(worker, a, b, Ok(bundle), c, d);
    lemma_where_it_builds(worker, a, b, Ok(bundle), c, d);
    let request = calls[i]->request;
    let third = build_leg(c.bridge, request, Ok(bundle), false);
    let last = install_leg(worker, d.bridge, d.stop_flag);
    let tail = leg_calls(worker, d, last);
    let old_flag = worker.old_stop_flag;
    let gate = seq![
        SenderRebuildCall::StopRequested { flag: old_flag, raised: d.stop_flag },
        SenderRebuildCall::Lock(d.bridge),
    ];
    if d.stop_flag {
        if let Some(session) = d.bridge.session {
            let joins = Seq::new(
                session.drain_handles@.len(),
                |k: int|
                    SenderRebuildCall::<B>::Perform(
                        SenderStep::JoinDrain(session.drain_handles@[k]),
                    ),
            );
            let raised = seq![
                SenderRebuildCall::<B>::Perform(SenderStep::RaiseStopFlag(session.stop_flag)),
            ];
            let shut: Seq<SenderRebuildCall<B>> = match session.shutdown {
                Some(h) => seq![SenderRebuildCall::Perform(SenderStep::Shutdown(h))],
                None => Seq::empty(),
            };
            assert(step_calls::<B>(undo_steps(session)) =~= raised + shut + joins);
        }
        assert(tail =~= gate + (seq![
            SenderRebuildCall::Unlock(SenderBridge { session: None, ..d.bridge }),
        ] + (match d.bridge.session {
            Some(session) => seq![
                SenderRebuildCall::Perform(SenderStep::RaiseStopFlag(session.stop_flag)),
            ] + (match session.shutdown {
                Some(h) => seq![SenderRebuildCall::Perform(SenderStep::Shutdown(h))],
                None => Seq::empty(),
            }) + Seq::new(
                session.drain_handles@.len(),
                |k: int|
                    SenderRebuildCall::<B>::Perform(
                        SenderStep::JoinDrain(session.drain_handles@[k]),
                    ),
            ) + seq![SenderRebuildCall::Release(session.stop_flag)],
            None => Seq::empty(),
        }) + seq![SenderRebuildCall::Signal(SupervisorSignal::RebuildFailed)]));
    } else {
        assert(tail =~= gate + seq![
            SenderRebuildCall::Unlock(d.bridge),
            SenderRebuildCall::Signal(SupervisorSignal::RebuildSucceeded),
            SenderRebuildCall::Signal(SupervisorSignal::Stop),
            SenderRebuildCall::Perform(SenderStep::RaiseStopFlag(old_flag)),
        ]);
    }
    assert(leg_calls(worker, c, third) =~= seq![
        SenderRebuildCall::StopRequested { flag: old_flag, raised: false },
        SenderRebuildCall::Lock(c.bridge),
        SenderRebuildCall::Unlock(third.1),
    ] + (match c.bridge.session {
        Some(replaced) => seq![SenderRebuildCall::Release(replaced.stop_flag)],
        None => Seq::empty(),
    }));
}

/// Each call of a rebuild goes to the method of the host that it is named after, with these arguments
/// and this answer.
pub proof fn law_calls_reach_the_host<B, H: SenderRebuildHost<B>>(
    call: SenderRebuildCall<B>,
    before: H,
    after: H,
)
    requires
        HostCall::<H>::made(call, before, after),
    ensures
        call matches SenderRebuildCall::StopRequested { flag, raised } ==> call_ensures(
            H::stop_requested,
            (before, flag),
            (after, raised),
        ),
        call matches SenderRebuildCall::Lock(bridge) ==> call_ensures(
            H::lock,
            (before,),
            (after, bridge),
        ),
        call matches SenderRebuildCall::Unlock(bridge) ==> call_ensures(
            H::unlock,
            (before, bridge),
            after,
        ),
        call matches SenderRebuildCall::Perform(step) ==> call_ensures(
            H::perform,
            (before, step),
            after,
        ),
        call matches SenderRebuildCall::Build { request, built } ==> call_ensures(
            H::build,
            (before, request),
            (after, built),
        ),
        call matches SenderRebuildCall::Release(generation) ==> call_ensures(
            H::release,
            (before, generation),
            after,
        ),
        call matches SenderRebuildCall::Signal(signal) ==> call_ensures(
            H::signal,
            (before, signal),
            after,
        ),
{
}

/// A worker remembers the stop flag of the generation that failed and the attempt with which the new
/// one stamps its offer; its own number is in the name of its thread.
pub proof fn law_what_a_worker_is(
    old_stop_flag: u64,
    attempt: u32,
    sender_attempt: u8,
    w: SenderRebuildWorker,
    name: String,
)
    requires
        call_ensures(make_sender_rebuild_hook, (old_stop_flag, attempt, sender_attempt), w),
        call_ensures(SenderRebuildWorker::thread_name, (&w,), name),
    ensures
        w.old_stop_flag == old_stop_flag,
        w.current_attempt == sender_attempt,
        name@ == "sm-rebuild-worker-sender-"@ + text::decimal(attempt as nat),
{
}

/// What a rebuild asks the builder for, seen on the function that decides it: the port, the name and
/// the channel of the restart parameters it is handed, its own attempt, the watchdog armed, and a stop
/// flag that is not the old one's. A stop in the meantime leads nowhere.
pub proof fn law_what_a_teardown_leads_to<B>(
    worker: &SenderRebuildWorker,
    cache: RestartCache,
    stop_flag: bool,
)
    ensures
        forall|bridge: &mut SenderBridge<B>, leg: RebuildLeg<SenderStep, SenderBuildRequest>|
            #[trigger]
            call_ensures(
                SenderRebuildWorker::after_teardown::<B>,
                (worker, bridge, cache, stop_flag),
                leg,
            ) ==> if stop_flag {
                &&& leg.next is None
                &&& leg.signals@ == seq![SupervisorSignal::RebuildFailed]
                &&& *final(bridge) == *bridge
            } else {
                &&& leg.next matches Some(request)
                &&& request.udp_port == cache.udp_port
                &&& request.service_name == cache.service_name
                &&& request.channel == cache.channel
                &&& request.attempt == worker.current_attempt
                &&& request.arm_media_watchdog
                &&& request.stop_flag != worker.old_stop_flag
                &&& leg.signals@.len() == 0 && leg.steps@.len() == 0
                &&& final(bridge).session == bridge.session
                &&& final(bridge).restart_cache == bridge.restart_cache
                &&& final(bridge).flags_issued >= bridge.flags_issued
            },
{
}

} // verus!
