//! The receiver's session: starting it, stopping it, attaching the frontend, and looking at it.
//!
//! Threads, stop flags, receivers, signaling adapters and frontend channels belong to the
//! surrounding program, which keeps each under a number. This module decides what is to be done
//! with them, and in which order. Times are nanoseconds on one monotonic clock.
use crate::channel::{BridgeCounters, StreamStats};
use crate::errors;
use crate::errors::{BundleError, StartStreamError, TransportError};
use crate::flags;
use crate::flags::{issue_apart, issue_one};
use crate::nonce;
use crate::nonce::nonzero_session_nonce;
use crate::sender;
use crate::trace;
use crate::trace::HostCall;
use crate::validation;
use crate::validation::{validate_service_name, validate_udp_port};
use vstd::prelude::*;

verus! {

broadcast use trace::lemma_no_call;

/// Port of a receiver that is not told otherwise.
pub const DEFAULT_UDP_PORT: u16 = 7889;

/// Shortest time between two keyframe requests.
pub const PLI_INTERVAL_NS: u64 = 2_000_000_000;

/// A bound socket on its way from the probe to the builder.
#[derive(Debug)]
pub struct BindCtx<S> {
    pub socket: S,
}

/// What a builder of receiver pipelines is asked for.
#[derive(Debug)]
pub struct StreamBuildRequest {
    pub udp_port: u16,
    pub service_name: String,
    /// A fresh stop flag, which every thread of the pipeline is to honour.
    pub stop_flag: u64,
    pub channel: u64,
}

impl Clone for StreamBuildRequest {
    fn clone(&self) -> (r: Self)
        ensures
            r == *self,
    {
        StreamBuildRequest {
            udp_port: self.udp_port,
            service_name: self.service_name.clone(),
            stop_flag: self.stop_flag,
            channel: self.channel,
        }
    }
}

/// A receiver pipeline that has been built and started.
#[derive(Debug)]
pub struct ReceiverBundle {
    pub receiver: u64,
    /// Where the mux thread is to take its packets from.
    pub pkt_rx: u64,
    pub signaling: Option<u64>,
    pub drain_handles: Vec<u64>,
}

/// What is needed to build the session's pipeline again.
#[derive(Debug)]
pub struct StreamRestartCache {
    pub udp_port: u16,
    pub service_name: String,
    pub channel: u64,
    /// Drawn once per session; never zero.
    pub session_nonce: u64,
}

/// An active receiver session.
#[derive(Debug)]
pub struct StreamSession {
    pub stop_flag: u64,
    pub mux_handle: Option<u64>,
    pub counters: BridgeCounters,
    /// Keyframe requests that the mux thread has fired.
    pub mux_requests: u64,
    pub receiver: Option<u64>,
    /// When a keyframe was last asked for.
    pub last_pli: Option<u64>,
    pub channel: u64,
    pub signaling: Option<u64>,
    pub drain_handles: Vec<u64>,
}

/// State of the receiver, with the builder `B` of its pipelines.
pub struct StreamBridge<B> {
    pub session: Option<StreamSession>,
    pub builder: B,
    /// Port and service name of the active session.
    pub current_args: Option<(u16, String)>,
    pub restart_cache: Option<StreamRestartCache>,
    /// The signal channel of the supervisor, while one is active.
    pub supervisor_signal_tx: Option<u64>,
    /// How many stop flags have been handed out; the next one gets this number.
    pub flags_issued: u64,
}

/// What the bridge needs of the receivers of the surrounding program.
pub trait ReceiverOps: Sized {
    /// Asks the sender for a keyframe.
    fn request_keyframe(self, receiver: u64) -> (r: (Self, Result<(), TransportError>));

    /// How many frames the receiver has dropped.
    fn dropped_frames(self, receiver: u64) -> (r: (Self, u64));
}

/// One thing to do to the pipeline of a session.
#[derive(Debug, Clone, Copy, PartialEq, Eq, Structural)]
pub enum StreamStep {
    /// Tell the supervisor behind this channel to stop.
    StopSupervisor(u64),
    RaiseStopFlag(u64),
    DropReceiver(u64),
    JoinMux(u64),
    JoinDrain(u64),
    StopSignaling(u64),
}

impl StreamBridge<()> {
    /// A bridge without a session, for a program that builds the pipelines itself.
    pub fn new() -> (b: Self)
        ensures
            b == (StreamBridge {
                session: None,
                builder: (),
                current_args: None,
                restart_cache: None,
                supervisor_signal_tx: None,
                flags_issued: 0,
            }),
    {
        StreamBridge::new_with_builder(())
    }
}

impl Default for StreamBridge<()> {
    fn default() -> (b: Self)
        ensures
            b == (StreamBridge {
                session: None,
                builder: (),
                current_args: None,
                restart_cache: None,
                supervisor_signal_tx: None,
                flags_issued: 0,
            }),
    {
        StreamBridge::new()
    }
}

impl<B> StreamBridge<B> {
    /// A bridge without a session, whose pipelines `builder` makes.
    pub fn new_with_builder(builder: B) -> (b: Self)
        ensures
            b == (StreamBridge {
                session: None,
                builder,
                current_args: None,
                restart_cache: None,
                supervisor_signal_tx: None,
                flags_issued: 0,
            }),
    {
        StreamBridge::new_with_builder_and_arcs(builder, None, None, None)
    }

    /// The same, with a supervisor's signal channel already in place.
    pub fn new_with_builder_and_sup_tx(builder: B, supervisor_signal_tx: Option<u64>) -> (b: Self)
        ensures
            b == (StreamBridge {
                session: None,
                builder,
                current_args: None,
                restart_cache: None,
                supervisor_signal_tx,
                flags_issued: 0,
            }),
    {
        StreamBridge::new_with_builder_and_arcs(builder, None, None, supervisor_signal_tx)
    }

    /// The same, with a session and its restart parameters already in place.
    pub fn new_with_builder_and_arcs(
        builder: B,
        session: Option<StreamSession>,
        restart_cache: Option<StreamRestartCache>,
        supervisor_signal_tx: Option<u64>,
    ) -> (b: Self)
        ensures
            b == (StreamBridge {
                session,
                builder,
                current_args: None,
                restart_cache,
                supervisor_signal_tx,
                flags_issued: match session {
                    Some(s) => flags::one_more(s.stop_flag),
                    None => 0,
                },
            }),
    {
        let flags_issued: u64 = match &session {
            Some(s) => issue_one(s.stop_flag),
            None => 0,
        };
        StreamBridge {
            session,
            builder,
            current_args: None,
            restart_cache,
            supervisor_signal_tx,
            flags_issued,
        }
    }

    /// Is a session there whose stop flag is down?
    pub fn is_running<F: StopFlags>(&self, flags: F) -> (r: (F, bool))
        ensures
            match self.session {
                Some(session) => session.is_said_to_run(flags, r.0, r.1),
                None => r.0 == flags && !r.1,
            },
    {
        match &self.session {
            Some(session) => session.is_running(flags),
            None => (flags, false),
        }
    }

    /// The stop flag of the session is one that the bridge has handed out. The arguments and the
    /// restart parameters are there together and agree, and they are ones that a start accepts.
    pub open spec fn wf(self) -> bool {
        &&& self.session matches Some(session) ==> flags::is_issued(
            session.stop_flag,
            self.flags_issued,
        )
        &&& match (self.current_args, self.restart_cache) {
            (Some(args), Some(cache)) => {
                &&& args.0 == cache.udp_port
                &&& args.1@ == cache.service_name@
                &&& accepts_port(cache.udp_port)
                &&& validation::is_service_name(cache.service_name@)
                &&& cache.session_nonce != 0
            },
            (None, None) => true,
            _ => false,
        }
    }

    /// The bridge once a stop flag other than `taken` has been handed out.
    pub open spec fn with_flag_apart_from(self, taken: u64) -> StreamBridge<B> {
        StreamBridge {
            flags_issued: flags::including(
                self.flags_issued,
                flags::apart_from(self.flags_issued, taken),
            ),
            ..self
        }
    }

    /// Hands out a stop flag that is not `taken`, which another generation has.
    pub fn issue_flag_apart_from(&mut self, taken: u64) -> (flag: u64)
        ensures
            flag == flags::apart_from(old(self).flags_issued, taken),
            *final(self) == old(self).with_flag_apart_from(taken),
    {
        let (flag, issued) = issue_apart(self.flags_issued, taken);
        self.flags_issued = issued;
        flag
    }

    /// Hands out the next stop flag.
    pub fn issue_flag(&mut self) -> (flag: u64)
        ensures
            flag == old(self).flags_issued,
            *final(self) == (StreamBridge {
                flags_issued: flags::one_more(old(self).flags_issued),
                ..*old(self)
            }),
    {
        let flag: u64 = self.flags_issued;
        self.flags_issued = issue_one(flag);
        flag
    }
}

impl StreamSession {
    /// The session's own stop flag is read, and the answer is that it is down.
    pub open spec fn is_said_to_run<F: StopFlags>(self, flags: F, after: F, r: bool) -> bool {
        call_ensures(F::is_raised, (flags, self.stop_flag), (after, !r))
    }

    /// Is the session's stop flag down?
    pub fn is_running<F: StopFlags>(&self, flags: F) -> (r: (F, bool))
        ensures
            self.is_said_to_run(flags, r.0, r.1),
    {
        let (after, raised) = flags.is_raised(self.stop_flag);
        (after, !raised)
    }
}

/// The stop flags of the surrounding program.
pub trait StopFlags: Sized {
    /// Has this stop flag been raised?
    fn is_raised(self, flag: u64) -> (r: (Self, bool));
}

/// A receiver may use this port: any but 0 and the privileged ones.
pub open spec fn accepts_port(port: u16) -> bool {
    port >= validation::FIRST_UNPRIVILEGED_PORT
}

/// What a failed bind probe reports: whether the port is taken is told apart by the kind of the
/// failure, and the port reported is the one that was asked for.
pub fn probe_failure(port: u16, addr_in_use: bool, e: std::io::Error) -> (r: BundleError)
    ensures
        if addr_in_use {
            r == BundleError::PortInUse(port)
        } else {
            errors::reports_io(r, e)
        },
{
    if addr_in_use {
        BundleError::PortInUse(port)
    } else {
        BundleError::from(e)
    }
}

/// The port that a start resolves to.
pub open spec fn resolved_port(udp_port: Option<u16>) -> u16 {
    match udp_port {
        Some(port) => port,
        None => DEFAULT_UDP_PORT,
    }
}

/// A start whose arguments have been checked and filled in.
#[derive(Debug)]
pub struct StreamPlan {
    pub udp_port: u16,
    pub service_name: String,
}

/// A start that has been let through: the socket, what to build, and the session's nonce.
#[derive(Debug)]
pub struct StreamStart<S> {
    pub bind_ctx: BindCtx<S>,
    pub request: StreamBuildRequest,
    pub session_nonce: u64,
}

/// The arguments are refused, and this is the error.
pub open spec fn refuses_args(
    e: StartStreamError,
    udp_port: Option<u16>,
    service_name: Option<String>,
) -> bool {
    if udp_port matches Some(port) && !accepts_port(port) {
        e == (StartStreamError::InvalidPort {
            value: udp_port->0,
            reason: if udp_port->0 == 0 {
                crate::errors::PortRejectReason::Zero
            } else {
                crate::errors::PortRejectReason::Privileged
            },
        })
    } else {
        &&& service_name is Some
        &&& validation::name_fault(service_name->0@) is Some
        &&& e matches StartStreamError::InvalidServiceName { value, reason }
        &&& value@ == service_name->0@
        &&& reason@ == validation::name_fault(service_name->0@)->0
    }
}

/// The arguments are ones that a start accepts.
pub open spec fn args_ok(udp_port: Option<u16>, service_name: Option<String>) -> bool {
    &&& udp_port matches Some(port) ==> accepts_port(port)
    &&& service_name matches Some(name) ==> validation::is_service_name(name@)
}

/// The plan that acceptable arguments give.
pub open spec fn is_plan(
    plan: StreamPlan,
    udp_port: Option<u16>,
    service_name: Option<String>,
) -> bool {
    &&& plan.udp_port == resolved_port(udp_port)
    &&& plan.service_name@ == sender::resolved_name(service_name)
}

/// First part of a start: checks the arguments, the port before the name, and fills in what was
/// left open.
pub fn plan_stream_start(udp_port: Option<u16>, service_name: Option<String>) -> (r: Result<
    StreamPlan,
    StartStreamError,
>)
    ensures
        r is Ok <==> args_ok(udp_port, service_name),
        match r {
            Ok(plan) => is_plan(plan, udp_port, service_name),
            Err(e) => refuses_args(e, udp_port, service_name),
        },
{
    proof {
        if service_name is Some {
            validation::law_accepted_names(service_name->0@);
        }
    }
    if let Some(port) = udp_port {
        match validate_udp_port(port) {
            Ok(()) => {},
            Err(e) => {
                return Err(e);
            },
        }
    }
    if let Some(name) = &service_name {
        match validate_service_name(name.as_str()) {
            Ok(()) => {},
            Err(e) => {
                return Err(e);
            },
        }
    }
    let port: u16 = match udp_port {
        Some(port) => port,
        None => DEFAULT_UDP_PORT,
    };
    let name = match service_name {
        Some(name) => name,
        None => "_screen-mirror._tcp.local.".to_string(),
    };
    Ok(StreamPlan { udp_port: port, service_name: name })
}

/// The error that reports a failed probe or build.
pub open spec fn reports_build(e: StartStreamError, failure: BundleError) -> bool {
    match failure {
        BundleError::PortInUse(port) => e == (StartStreamError::PortInUse { port }),
        BundleError::NoLocalNic => e matches StartStreamError::BundleBuildFailed(s) && s@
            == failure.text(),
        BundleError::Other(s) => e == StartStreamError::BundleBuildFailed(s),
    }
}

/// The error that reports a failed probe or build.
pub fn start_error(failure: BundleError) -> (e: StartStreamError)
    ensures
        reports_build(e, failure),
{
    match failure {
        BundleError::PortInUse(port) => StartStreamError::PortInUse { port },
        BundleError::NoLocalNic => StartStreamError::BundleBuildFailed(
            BundleError::NoLocalNic.message(),
        ),
        BundleError::Other(s) => StartStreamError::BundleBuildFailed(s),
    }
}

impl<B> StreamBridge<B> {
    /// The bridge once a start has been let through: the supervisor of an earlier session is
    /// forgotten, and a stop flag has been handed out.
    pub open spec fn cleared_for_start(self) -> StreamBridge<B> {
        StreamBridge {
            supervisor_signal_tx: None,
            flags_issued: flags::one_more(self.flags_issued),
            ..self
        }
    }

    /// The bridge once the session of a start is there.
    pub open spec fn started(
        self,
        request: StreamBuildRequest,
        session_nonce: u64,
        session: StreamSession,
    ) -> StreamBridge<B> {
        StreamBridge {
            session: Some(session),
            current_args: Some((request.udp_port, request.service_name)),
            restart_cache: Some(
                StreamRestartCache {
                    udp_port: request.udp_port,
                    service_name: request.service_name,
                    channel: request.channel,
                    session_nonce,
                },
            ),
            ..self
        }
    }
}

/// What a start asks for: the planned arguments, the next stop flag, the socket that was probed,
/// and a nonce that was drawn for it and is not zero.
pub open spec fn asks_for<S>(
    start: StreamStart<S>,
    flags_issued: u64,
    channel: u64,
    plan: StreamPlan,
    socket: S,
) -> bool {
    &&& start.bind_ctx.socket == socket
    &&& start.request == (StreamBuildRequest {
        udp_port: plan.udp_port,
        service_name: plan.service_name,
        stop_flag: flags_issued,
        channel,
    })
    &&& start.session_nonce != 0
    &&& nonce::is_session_nonce(start.session_nonce)
}

/// Whether a start that has its socket is let through: not while a session is active. A refusal
/// changes nothing.
pub open spec fn admission<B, S>(
    before: StreamBridge<B>,
    after: StreamBridge<B>,
    channel: u64,
    plan: StreamPlan,
    socket: S,
    r: Result<StreamStart<S>, StartStreamError>,
) -> bool {
    match before.current_args {
        Some(args) => r == Err::<StreamStart<S>, StartStreamError>(
            StartStreamError::AlreadyRunning {
                current_port: args.0,
                current_service_name: args.1,
            },
        ) && after == before,
        None => r matches Ok(start) && asks_for(
            start,
            before.flags_issued,
            channel,
            plan,
            socket,
        ) && after == before.cleared_for_start(),
    }
}

/// Second part of a start: checks that no session is active, and says what to build. A socket that
/// is not handed on is given up.
pub fn admit_stream_start<B, S>(
    bridge: &mut StreamBridge<B>,
    channel: u64,
    plan: StreamPlan,
    socket: S,
) -> (r: Result<StreamStart<S>, StartStreamError>)
    ensures
        admission(*old(bridge), *final(bridge), channel, plan, socket, r),
{
    if let Some(args) = &bridge.current_args {
        return Err(
            StartStreamError::AlreadyRunning {
                current_port: args.0,
                current_service_name: args.1.clone(),
            },
        );
    }
    let session_nonce: u64 = nonzero_session_nonce();
    bridge.supervisor_signal_tx = None;
    let stop_flag: u64 = bridge.issue_flag();
    Ok(
        StreamStart {
            bind_ctx: BindCtx { socket },
            request: StreamBuildRequest {
                udp_port: plan.udp_port,
                service_name: plan.service_name,
                stop_flag,
                channel,
            },
            session_nonce,
        },
    )
}

/// The session that a bundle and its mux thread become.
pub open spec fn session_of(
    bundle: ReceiverBundle,
    mux: u64,
    stop_flag: u64,
    channel: u64,
) -> StreamSession {
    StreamSession {
        stop_flag,
        mux_handle: Some(mux),
        counters: BridgeCounters::none(),
        mux_requests: 0,
        receiver: Some(bundle.receiver),
        last_pli: None,
        channel,
        signaling: bundle.signaling,
        drain_handles: bundle.drain_handles,
    }
}

/// The text for a mux thread that could not be started.
pub open spec fn mux_failure(why: Seq<char>) -> Seq<char> {
    "failed to spawn mux thread: "@ + why
}

/// Makes a session of a bundle, once its mux thread has been started or could not be.
pub fn build_stream_session(
    channel: u64,
    bundle: ReceiverBundle,
    stop_flag: u64,
    mux: Result<u64, String>,
) -> (r: Result<StreamSession, String>)
    ensures
        match mux {
            Ok(handle) => r == Ok::<StreamSession, String>(
                session_of(bundle, handle, stop_flag, channel),
            ),
            Err(why) => r matches Err(text) && text@ == mux_failure(why@),
        },
{
    match mux {
        Ok(handle) => Ok(
            StreamSession {
                stop_flag,
                mux_handle: Some(handle),
                counters: BridgeCounters::zero(),
                mux_requests: 0,
                receiver: Some(bundle.receiver),
                last_pli: None,
                channel,
                signaling: bundle.signaling,
                drain_handles: bundle.drain_handles,
            },
        ),
        Err(why) => {
            let mut text = "failed to spawn mux thread: ".to_string();
            text.append(why.as_str());
            Err(text)
        },
    }
}

/// What comes of a start whose pipeline is there, once its mux thread has been started or could
/// not be.
pub open spec fn installation<B>(
    before: StreamBridge<B>,
    after: StreamBridge<B>,
    request: StreamBuildRequest,
    session_nonce: u64,
    bundle: ReceiverBundle,
    mux: Result<u64, String>,
    r: Result<(), StartStreamError>,
) -> bool {
    match mux {
        Ok(handle) => r is Ok && after == before.started(
            request,
            session_nonce,
            session_of(bundle, handle, request.stop_flag, request.channel),
        ),
        Err(why) => r matches Err(StartStreamError::BundleBuildFailed(text)) && text@
            == mux_failure(why@) && after == before,
    }
}

/// Last part of a start: takes the mux thread of the pipeline and installs the session.
pub fn finish_stream_start<B>(
    bridge: &mut StreamBridge<B>,
    request: StreamBuildRequest,
    session_nonce: u64,
    bundle: ReceiverBundle,
    mux: Result<u64, String>,
) -> (r: Result<(), StartStreamError>)
    ensures
        installation(*old(bridge), *final(bridge), request, session_nonce, bundle, mux, r),
{
    match build_stream_session(request.channel, bundle, request.stop_flag, mux) {
        Err(text) => Err(StartStreamError::BundleBuildFailed(text)),
        Ok(session) => {
            bridge.session = Some(session);
            bridge.current_args = Some((request.udp_port, request.service_name.clone()));
            bridge.restart_cache = Some(
                StreamRestartCache {
                    udp_port: request.udp_port,
                    service_name: request.service_name,
                    channel: request.channel,
                    session_nonce,
                },
            );
            Ok(())
        },
    }
}

/// What the commands of a receiver need of the surrounding program; `S` is a bound socket. The bridge
/// is shared with the threads of the session: a command takes hold of it for a moment at a time, and
/// never while a port is bound or a pipeline is built or taken down.
pub trait StreamHost<B, S>: Sized {
    /// Takes hold of the bridge; nobody else has it until it is given back.
    fn lock(self) -> (r: (Self, StreamBridge<B>));

    /// Gives the bridge back.
    fn unlock(self, bridge: StreamBridge<B>) -> (after: Self);

    /// Takes one step.
    fn perform(self, step: StreamStep) -> (after: Self);

    /// Binds a port.
    fn probe(self, port: u16) -> (r: (Self, Result<S, BundleError>));

    /// Has the builder make a pipeline on the socket.
    fn build(self, builder: B, bind_ctx: BindCtx<S>, request: StreamBuildRequest) -> (r: (
        Self,
        Result<ReceiverBundle, BundleError>,
    ));

    /// Starts a mux thread.
    fn spawn_mux(self, mux: MuxStart) -> (r: (Self, Result<u64, String>));
}

/// What a mux thread is started with.
#[derive(Debug, Clone, Copy, PartialEq, Eq, Structural)]
pub struct MuxStart {
    /// Where its packets come from.
    pub pkt_rx: u64,
    /// The receiver that passes on its keyframe request.
    pub receiver: u64,
    pub stop_flag: u64,
    pub channel: u64,
}

/// The mux thread of a pipeline that was asked for.
pub open spec fn mux_of(bundle: ReceiverBundle, request: StreamBuildRequest) -> MuxStart {
    MuxStart {
        pkt_rx: bundle.pkt_rx,
        receiver: bundle.receiver,
        stop_flag: request.stop_flag,
        channel: request.channel,
    }
}

/// The mux thread of a pipeline that was asked for.
pub(crate) fn mux_start(bundle: &ReceiverBundle, request: &StreamBuildRequest) -> (r: MuxStart)
    ensures
        r == mux_of(*bundle, *request),
{
    MuxStart {
        pkt_rx: bundle.pkt_rx,
        receiver: bundle.receiver,
        stop_flag: request.stop_flag,
        channel: request.channel,
    }
}

/// A call to the host of a receiver.
pub enum StreamCall<B, S> {
    Lock(StreamBridge<B>),
    Unlock(StreamBridge<B>),
    Perform(StreamStep),
    Probe { port: u16, probed: Result<S, BundleError> },
    Build {
        builder: B,
        bind_ctx: BindCtx<S>,
        request: StreamBuildRequest,
        built: Result<ReceiverBundle, BundleError>,
    },
    SpawnMux { mux: MuxStart, spawned: Result<u64, String> },
}

impl<B, S, H: StreamHost<B, S>> HostCall<H> for StreamCall<B, S> {
    open spec fn made(self, before: H, after: H) -> bool {
        match self {
            StreamCall::Lock(bridge) => call_ensures(H::lock, (before,), (after, bridge)),
            StreamCall::Unlock(bridge) => call_ensures(H::unlock, (before, bridge), after),
            StreamCall::Perform(step) => call_ensures(H::perform, (before, step), after),
            StreamCall::Probe { port, probed } => call_ensures(
                H::probe,
                (before, port),
                (after, probed),
            ),
            StreamCall::Build { builder, bind_ctx, request, built } => call_ensures(
                H::build,
                (before, builder, bind_ctx, request),
                (after, built),
            ),
            StreamCall::SpawnMux { mux, spawned } => call_ensures(
                H::spawn_mux,
                (before, mux),
                (after, spawned),
            ),
        }
    }
}

/// What goes on in a start with acceptable arguments: its plan, what the probe brings, the bridge
/// that the start finds, whether it is let through, what the builder makes, what comes of the mux
/// thread, and the bridge as it is by then.
pub struct StartRun<B, S> {
    pub plan: StreamPlan,
    pub probed: Result<S, BundleError>,
    pub found: StreamBridge<B>,
    pub admitted: Result<StreamStart<S>, StartStreamError>,
    pub admitted_by: StreamBridge<B>,
    pub builder: B,
    pub built: Result<ReceiverBundle, BundleError>,
    pub mux: Result<u64, String>,
    pub later: StreamBridge<B>,
    pub installed: StreamBridge<B>,
}

impl<B: Clone, S> StartRun<B, S> {
    /// What the start asks for, what it answers, and what it makes of the bridge.
    pub open spec fn answers(
        self,
        channel: u64,
        udp_port: Option<u16>,
        service_name: Option<String>,
        r: Result<(), StartStreamError>,
    ) -> bool {
        &&& is_plan(self.plan, udp_port, service_name)
        &&& match self.probed {
            Err(failure) => r matches Err(e) && reports_build(e, failure),
            Ok(socket) => {
                &&& admission(
                    self.found,
                    self.admitted_by,
                    channel,
                    self.plan,
                    socket,
                    self.admitted,
                )
                &&& match self.admitted {
                    Err(e) => r == Err::<(), StartStreamError>(e),
                    Ok(start) => {
                        &&& cloned(self.found.builder, self.builder)
                        &&& match self.built {
                            Err(failure) => r matches Err(e) && reports_build(e, failure),
                            Ok(bundle) => installation(
                                self.later,
                                self.installed,
                                start.request,
                                start.session_nonce,
                                bundle,
                                self.mux,
                                r,
                            ),
                        }
                    },
                }
            },
        }
    }

    /// The calls of the start: the port is bound once, before the bridge is looked at; the builder
    /// is asked once, with the socket and while the bridge is free, if the start is let through; one
    /// mux thread is started if there is a pipeline; and the session is installed in the bridge as
    /// it is by then.
    pub open spec fn calls(self) -> Seq<StreamCall<B, S>> {
        seq![StreamCall::<B, S>::Probe { port: self.plan.udp_port, probed: self.probed }]
            + match self.probed {
            Err(_) => Seq::empty(),
            Ok(_) => seq![
                StreamCall::<B, S>::Lock(self.found),
                StreamCall::<B, S>::Unlock(self.admitted_by),
            ] + match self.admitted {
                Err(_) => Seq::empty(),
                Ok(start) => seq![
                    StreamCall::Build {
                        builder: self.builder,
                        bind_ctx: start.bind_ctx,
                        request: start.request,
                        built: self.built,
                    },
                ] + match self.built {
                    Err(_) => Seq::empty(),
                    Ok(bundle) => seq![
                        StreamCall::<B, S>::SpawnMux {
                            mux: mux_of(bundle, start.request),
                            spawned: self.mux,
                        },
                        StreamCall::<B, S>::Lock(self.later),
                        StreamCall::<B, S>::Unlock(self.installed),
                    ],
                },
            },
        }
    }
}

/// Starts a session: checks the arguments, reserves the port, has the builder make the pipeline,
/// starts its mux thread, and installs it. Arguments that are refused reach neither the port nor
/// the builder.
pub fn start_stream_inner<B: Clone, S, H: StreamHost<B, S>>(
    host: H,
    channel: u64,
    udp_port: Option<u16>,
    service_name: Option<String>,
) -> (r: (H, Result<(), StartStreamError>))
    ensures
        if args_ok(udp_port, service_name) {
            exists|run: StartRun<B, S>|
                run.answers(channel, udp_port, service_name, r.1) && trace::leads(
                    host,
                    #[trigger] run.calls(),
                    r.0,
                )
        } else {
            &&& r.1 matches Err(e) && refuses_args(e, udp_port, service_name)
            &&& r.0 == host
        },
{
    let plan = match plan_stream_start(udp_port, service_name) {
        Ok(plan) => plan,
        Err(e) => {
            return (host, Err(e));
        },
    };
    let ghost nothing = Seq::<StreamCall<B, S>>::empty();
    let ghost mut run: StartRun<B, S> = arbitrary();
    let (at, probed) = host.probe(plan.udp_port);
    let ghost first = StreamCall::<B, S>::Probe { port: plan.udp_port, probed };
    let ghost one = nothing.push(first);
    let ghost bound = at;
    proof {
        run.plan = plan;
        run.probed = probed;
        trace::lemma_called(host, nothing, host, first, at);
    }
    let socket = match probed {
        Ok(socket) => socket,
        Err(failure) => {
            assert(run.calls() =~= one);
            return (at, Err(start_error(failure)));
        },
    };
    let (at, mut bridge) = at.lock();
    let ghost lock = StreamCall::<B, S>::Lock(bridge);
    let ghost locked = at;
    proof {
        run.found = bridge;
        trace::lemma_called(host, one, bound, lock, at);
    }
    let admitted = admit_stream_start(&mut bridge, channel, plan, socket);
    let builder = bridge.builder.clone();
    let ghost unlock = StreamCall::<B, S>::Unlock(bridge);
    let ghost two = one.push(lock).push(unlock);
    proof {
        run.admitted = admitted;
        run.admitted_by = bridge;
        run.builder = builder;
    }
    let at = at.unlock(bridge);
    let ghost freed = at;
    proof {
        trace::lemma_called(host, one.push(lock), locked, unlock, at);
    }
    let start = match admitted {
        Ok(start) => start,
        Err(e) => {
            assert(run.calls() =~= two);
            return (at, Err(e));
        },
    };
    let ghost the_start = start;
    let StreamStart { bind_ctx, request, session_nonce } = start;
    let (at, built) = at.build(builder, bind_ctx, request.clone());
    let ghost build = StreamCall::<B, S>::Build {
        builder: run.builder,
        bind_ctx: the_start.bind_ctx,
        request: the_start.request,
        built,
    };
    let ghost three = two.push(build);
    let ghost made = at;
    proof {
        run.built = built;
        trace::lemma_called(host, two, freed, build, at);
    }
    let bundle = match built {
        Ok(bundle) => bundle,
        Err(failure) => {
            assert(run.calls() =~= three);
            return (at, Err(start_error(failure)));
        },
    };
    let ghost the_bundle = bundle;
    let (at, mux) = at.spawn_mux(mux_start(&bundle, &request));
    let ghost spawn = StreamCall::<B, S>::SpawnMux {
        mux: mux_of(the_bundle, the_start.request),
        spawned: mux,
    };
    let ghost spawned = at;
    proof {
        run.mux = mux;
        trace::lemma_called(host, three, made, spawn, at);
    }
    let (at, mut bridge) = at.lock();
    let ghost lock = StreamCall::<B, S>::Lock(bridge);
    let ghost locked = at;
    proof {
        run.later = bridge;
        trace::lemma_called(host, three.push(spawn), spawned, lock, at);
    }
    let r = finish_stream_start(&mut bridge, request, session_nonce, bundle, mux);
    let ghost unlock = StreamCall::<B, S>::Unlock(bridge);
    proof {
        run.installed = bridge;
    }
    let at = at.unlock(bridge);
    proof {
        trace::lemma_called(host, three.push(spawn).push(lock), locked, unlock, at);
        assert(run.calls() =~= three.push(spawn).push(lock).push(unlock));
        assert(run.answers(channel, udp_port, service_name, r));
    }
    (at, r)
}

/// A start gives back well-formed bridges, if those that it finds are well-formed and no stop flag
/// is taken back in the meantime.
pub proof fn law_start_keeps_bridges_well_formed<B: Clone, S>(
    run: StartRun<B, S>,
    channel: u64,
    udp_port: Option<u16>,
    service_name: Option<String>,
    r: Result<(), StartStreamError>,
)
    requires
        args_ok(udp_port, service_name),
        run.answers(channel, udp_port, service_name, r),
        run.probed is Ok,
        run.admitted is Ok,
        run.found.wf(),
        run.later.wf(),
        run.admitted_by.flags_issued <= run.later.flags_issued,
    ensures
        run.admitted_by.wf(),
        run.built is Ok ==> run.installed.wf(),
{
    sender::law_default_name_is_accepted();
}

/// A start keeps what has come to be in the bridge while the pipeline was built: the supervisor that
/// the pipeline has registered, and the stop flags that were handed out.
pub proof fn law_start_keeps_registrations<B>(
    later: StreamBridge<B>,
    request: StreamBuildRequest,
    session_nonce: u64,
    session: StreamSession,
)
    ensures
        ({
            let after = later.started(request, session_nonce, session);
            &&& after.supervisor_signal_tx == later.supervisor_signal_tx
            &&& after.flags_issued == later.flags_issued
            &&& after.builder == later.builder
        }),
{
}

/// The step for a resource, if it is there.
pub open spec fn step_if(resource: Option<u64>, step: spec_fn(u64) -> StreamStep) -> Seq<
    StreamStep,
> {
    match resource {
        Some(h) => seq![step(h)],
        None => Seq::empty(),
    }
}

/// Waiting for each of these threads, in order.
pub open spec fn joins(handles: Seq<u64>) -> Seq<StreamStep> {
    handles.map_values(|h: u64| StreamStep::JoinDrain(h))
}

/// How a session is taken down from outside its own threads: they are told to stop and waited
/// for, the mux thread first, before signaling stops.
pub open spec fn shutdown_steps(session: StreamSession) -> Seq<StreamStep> {
    seq![StreamStep::RaiseStopFlag(session.stop_flag)] + step_if(
        session.mux_handle,
        |h: u64| StreamStep::JoinMux(h),
    ) + joins(session.drain_handles@) + step_if(
        session.signaling,
        |h: u64| StreamStep::StopSignaling(h),
    ) + step_if(session.receiver, |h: u64| StreamStep::DropReceiver(h))
}

/// Appends a step for each of these threads.
fn push_joins(steps: &mut Vec<StreamStep>, handles: &Vec<u64>)
    ensures
        final(steps)@ == old(steps)@ + joins(handles@),
{
    let ghost before = steps@;
    let mut i: usize = 0;
    while i < handles.len()
        invariant
            i <= handles.len(),
            steps@ =~= before + joins(handles@).take(i as int),
        decreases handles.len() - i,
    {
        steps.push(StreamStep::JoinDrain(handles[i]));
        i += 1;
    }
}

/// Appends the steps that take a session down.
pub(crate) fn push_shutdown(steps: &mut Vec<StreamStep>, session: &StreamSession)
    ensures
        final(steps)@ == old(steps)@ + shutdown_steps(*session),
{
    steps.push(StreamStep::RaiseStopFlag(session.stop_flag));
    if let Some(mux) = session.mux_handle {
        steps.push(StreamStep::JoinMux(mux));
    }
    push_joins(steps, &session.drain_handles);
    if let Some(signaling) = session.signaling {
        steps.push(StreamStep::StopSignaling(signaling));
    }
    if let Some(receiver) = session.receiver {
        steps.push(StreamStep::DropReceiver(receiver));
    }
    assert(steps@ =~= old(steps)@ + shutdown_steps(*session));
}

impl<B> StreamBridge<B> {
    /// The bridge without its session.
    pub open spec fn without_session(self) -> StreamBridge<B> {
        StreamBridge { session: None, ..self }
    }

    /// The bridge without the parameters of its session.
    pub open spec fn forgotten(self) -> StreamBridge<B> {
        StreamBridge { current_args: None, restart_cache: None, ..self }
    }

    /// The bridge after a stop, if nothing else has happened to it.
    pub open spec fn stopped(self) -> StreamBridge<B> {
        self.without_session().forgotten()
    }

    /// What a stop asks to be done: nothing without a session; otherwise the supervisor is told
    /// first, and then the session is taken down.
    pub open spec fn steps_to_stop(self) -> Seq<StreamStep> {
        match self.session {
            Some(session) => step_if(
                self.supervisor_signal_tx,
                |h: u64| StreamStep::StopSupervisor(h),
            ) + shutdown_steps(session),
            None => Seq::empty(),
        }
    }
}

/// Takes the session out and says how to take it down. The arguments and the restart parameters
/// stay. Without a session there is nothing to do.
pub fn stop_stream_session_internal<B>(bridge: &mut StreamBridge<B>) -> (steps: Vec<StreamStep>)
    ensures
        steps@ == old(bridge).steps_to_stop(),
        *final(bridge) == old(bridge).without_session(),
        old(bridge).wf() ==> final(bridge).wf(),
{
    let mut steps: Vec<StreamStep> = Vec::new();
    match bridge.session.take() {
        None => {},
        Some(session) => {
            if let Some(supervisor) = bridge.supervisor_signal_tx {
                steps.push(StreamStep::StopSupervisor(supervisor));
            }
            push_shutdown(&mut steps, &session);
        },
    }
    assert(steps@ =~= old(bridge).steps_to_stop());
    steps
}

/// Forgets the parameters of a session that is gone, so that another can be started.
pub fn forget_stream_session<B>(bridge: &mut StreamBridge<B>)
    ensures
        *final(bridge) == old(bridge).forgotten(),
        old(bridge).wf() || old(bridge).session is None ==> final(bridge).wf(),
{
    bridge.current_args = None;
    bridge.restart_cache = None;
}

/// The calls that take these steps.
pub open spec fn step_calls<B, S>(steps: Seq<StreamStep>) -> Seq<StreamCall<B, S>> {
    steps.map_values(|step: StreamStep| StreamCall::<B, S>::Perform(step))
}

/// Takes these steps, in order.
fn take_steps<B, S, H: StreamHost<B, S>>(host: H, steps: &Vec<StreamStep>) -> (after: H)
    ensures
        trace::leads(host, step_calls::<B, S>(steps@), after),
{
    let mut at = host;
    let mut i: usize = 0;
    assert(step_calls::<B, S>(steps@.take(0)) =~= Seq::empty());
    while i < steps.len()
        invariant
            i <= steps.len(),
            trace::leads(host, step_calls::<B, S>(steps@.take(i as int)), at),
        decreases steps.len() - i,
    {
        let ghost before = at;
        at = at.perform(steps[i]);
        proof {
            let calls = step_calls::<B, S>(steps@.take(i as int));
            let call = StreamCall::<B, S>::Perform(steps@[i as int]);
            trace::lemma_called(host, calls, before, call, at);
            assert(step_calls::<B, S>(steps@.take(i + 1)) =~= calls.push(call));
        }
        i += 1;
    }
    assert(steps@.take(i as int) =~= steps@);
    at
}

/// What goes on in a stop: the bridge as the stop finds it, and as it is once the session is down.
pub struct StopRun<B> {
    pub found: StreamBridge<B>,
    pub later: StreamBridge<B>,
}

impl<B> StopRun<B> {
    /// The calls of a stop: the session is taken out, then taken down step by step while the bridge
    /// is free, and only then are its parameters forgotten, so that no start is let through before.
    pub open spec fn calls<S>(self) -> Seq<StreamCall<B, S>> {
        seq![StreamCall::Lock(self.found), StreamCall::Unlock(self.found.without_session())]
            + step_calls::<B, S>(self.found.steps_to_stop()) + seq![
            StreamCall::Lock(self.later),
            StreamCall::Unlock(self.later.forgotten()),
        ]
    }
}

/// Stops the session, if there is one, and forgets its parameters.
pub fn stop_stream_session<B, S, H: StreamHost<B, S>>(host: H) -> (after: H)
    ensures
        exists|run: StopRun<B>| trace::leads(host, #[trigger] run.calls::<S>(), after),
{
    let ghost nothing = Seq::<StreamCall<B, S>>::empty();
    let (at, mut bridge) = host.lock();
    let ghost found = bridge;
    let ghost locked = at;
    let steps = stop_stream_session_internal(&mut bridge);
    let at = at.unlock(bridge);
    let ghost freed = at;
    let ghost head = seq![
        StreamCall::<B, S>::Lock(found),
        StreamCall::<B, S>::Unlock(found.without_session()),
    ];
    proof {
        trace::lemma_called(host, nothing, host, head[0], locked);
        trace::lemma_called(host, nothing.push(head[0]), locked, head[1], at);
        assert(head =~= nothing.push(head[0]).push(head[1]));
    }
    let at = take_steps::<B, S, H>(at, &steps);
    let ghost down = head + step_calls::<B, S>(steps@);
    proof {
        trace::lemma_joined(host, head, freed, step_calls::<B, S>(steps@), at);
    }
    let ghost taken = at;
    let (at, mut bridge) = at.lock();
    let ghost later = bridge;
    let ghost locked = at;
    forget_stream_session(&mut bridge);
    let after = at.unlock(bridge);
    proof {
        let lock = StreamCall::<B, S>::Lock(later);
        let unlock = StreamCall::<B, S>::Unlock(later.forgotten());
        trace::lemma_called(host, down, taken, lock, locked);
        trace::lemma_called(host, down.push(lock), locked, unlock, after);
        assert((StopRun { found, later }).calls::<S>() =~= down.push(lock).push(unlock));
    }
    after
}

impl StreamSession {
    /// The receiver that is to be asked for a keyframe at `now`: the last request must lie far
    /// enough back, and there must be a receiver.
    pub open spec fn pli_due(self, now: u64) -> Option<u64> {
        if self.last_pli matches Some(last) && now - last < PLI_INTERVAL_NS {
            None
        } else {
            self.receiver
        }
    }

    /// The session after a keyframe was asked for at `now`. A request that failed does not count,
    /// and may be repeated at once.
    pub open spec fn after_pli(self, now: u64, sent: bool) -> StreamSession {
        if sent {
            StreamSession {
                counters: self.counters.with_request(true),
                last_pli: Some(now),
                ..self
            }
        } else {
            self
        }
    }

    /// Decides which receiver, if any, is to be asked for a keyframe at `now`.
    pub fn keyframe_request_due(&self, now: u64) -> (r: Option<u64>)
        ensures
            r == self.pli_due(now),
    {
        match self.last_pli {
            Some(last) => {
                if now.saturating_sub(last) >= PLI_INTERVAL_NS {
                    self.receiver
                } else {
                    None
                }
            },
            None => self.receiver,
        }
    }

    /// Takes the outcome of a keyframe request made at `now`.
    pub fn keyframe_requested(&mut self, now: u64, result: &Result<(), TransportError>)
        ensures
            *final(self) == old(self).after_pli(now, *result is Ok),
    {
        if result.is_ok() {
            self.counters.count_request(true);
            self.last_pli = Some(now);
        }
    }
}

/// What attaching the frontend does: if a keyframe request is due, its receiver is asked once and
/// the outcome is noted; otherwise nothing is asked and nothing changes.
pub open spec fn is_attachment<B, R: ReceiverOps>(
    bridge: StreamBridge<B>,
    receivers: R,
    now: u64,
    bridge_after: StreamBridge<B>,
    receivers_after: R,
) -> bool {
    match bridge.session {
        Some(session) if session.pli_due(now) is Some => exists|result: Result<(), TransportError>|
            #[trigger]
            call_ensures(
                R::request_keyframe,
                (receivers, session.pli_due(now)->0),
                (receivers_after, result),
            ) && bridge_after == (StreamBridge {
                session: Some(session.after_pli(now, result is Ok)),
                ..bridge
            }),
        _ => bridge_after == bridge && receivers_after == receivers,
    }
}

/// Attaches the frontend: asks the sender for a keyframe, at most once in the interval.
pub fn attach_stream<B, R: ReceiverOps>(
    bridge: &mut StreamBridge<B>,
    receivers: R,
    now: u64,
) -> (after: R)
    ensures
        is_attachment(*old(bridge), receivers, now, *final(bridge), after),
        old(bridge).wf() ==> final(bridge).wf(),
{
    let mut session = match bridge.session.take() {
        None => {
            return receivers;
        },
        Some(session) => session,
    };
    let mut at = receivers;
    if let Some(receiver) = session.keyframe_request_due(now) {
        let (next, result) = at.request_keyframe(receiver);
        at = next;
        session.keyframe_requested(now, &result);
    }
    bridge.session = Some(session);
    at
}

/// What the diagnostics show of a session that dropped `receiver_drops` frames; all zero without a
/// session.
pub open spec fn stats_of(session: Option<StreamSession>, receiver_drops: u64) -> StreamStats {
    match session {
        None => StreamStats {
            fragments_emitted: 0,
            init_segments_emitted: 0,
            dropped_segments: 0,
            receiver_dropped_frames: 0,
            keyframe_requests_fired: 0,
        },
        Some(session) => StreamStats {
            fragments_emitted: session.counters.fragments_emitted,
            init_segments_emitted: session.counters.init_segments_emitted,
            dropped_segments: session.counters.dropped_segments,
            receiver_dropped_frames: receiver_drops,
            keyframe_requests_fired: requests_of(session),
        },
    }
}

/// The keyframe requests of a session, by the frontend and by the mux thread. The count starts again
/// after its last value.
pub open spec fn requests_of(session: StreamSession) -> u64 {
    vstd::wrapping::u64_specs::wrapping_add(
        session.counters.keyframe_requests_fired,
        session.mux_requests,
    )
}

/// What the diagnostics show of a session that dropped `receiver_drops` frames.
pub fn stream_stats(session: &Option<StreamSession>, receiver_drops: u64) -> (r: StreamStats)
    ensures
        r == stats_of(*session, receiver_drops),
{
    match session {
        None => StreamStats {
            fragments_emitted: 0,
            init_segments_emitted: 0,
            dropped_segments: 0,
            receiver_dropped_frames: 0,
            keyframe_requests_fired: 0,
        },
        Some(session) => StreamStats {
            fragments_emitted: session.counters.fragments_emitted,
            init_segments_emitted: session.counters.init_segments_emitted,
            dropped_segments: session.counters.dropped_segments,
            receiver_dropped_frames: receiver_drops,
            keyframe_requests_fired: session.counters.keyframe_requests_fired.wrapping_add(
                session.mux_requests,
            ),
        },
    }
}

/// What the diagnostics show. A session without a receiver has dropped no frames.
pub fn stream_diagnostics<B, R: ReceiverOps>(bridge: &StreamBridge<B>, receivers: R) -> (r: (
    R,
    StreamStats,
))
    ensures
        match bridge.session {
            Some(session) if session.receiver is Some => exists|drops: u64|
                call_ensures(R::dropped_frames, (receivers, session.receiver->0), (r.0, drops))
                    && r.1 == #[trigger] stats_of(bridge.session, drops),
            _ => r.0 == receivers && r.1 == stats_of(bridge.session, 0),
        },
{
    match &bridge.session {
        Some(session) => match session.receiver {
            Some(receiver) => {
                let (after, drops) = receivers.dropped_frames(receiver);
                (after, stream_stats(&bridge.session, drops))
            },
            None => (receivers, stream_stats(&bridge.session, 0)),
        },
        None => (receivers, stream_stats(&bridge.session, 0)),
    }
}

impl<B> StreamBridge<B> {
    /// Takes over what the mux thread of the session has counted. The keyframe requests that the
    /// frontend has fired stay.
    pub fn record_segments(&mut self, media: &BridgeCounters)
        ensures
            *final(self) == (StreamBridge {
                session: match old(self).session {
                    Some(session) => Some(
                        StreamSession {
                            counters: BridgeCounters {
                                keyframe_requests_fired: session.counters.keyframe_requests_fired,
                                ..*media
                            },
                            mux_requests: media.keyframe_requests_fired,
                            ..session
                        },
                    ),
                    None => None,
                },
                ..*old(self)
            }),
    {
        if let Some(mut session) = self.session.take() {
            session.counters = BridgeCounters {
                fragments_emitted: media.fragments_emitted,
                init_segments_emitted: media.init_segments_emitted,
                dropped_segments: media.dropped_segments,
                keyframe_requests_fired: session.counters.keyframe_requests_fired,
            };
            session.mux_requests = media.keyframe_requests_fired;
            self.session = Some(session);
        }
    }
}

/// Stopping twice is stopping once: the second stop finds nothing to do and changes nothing.
pub proof fn law_stop_is_idempotent<B>(bridge: StreamBridge<B>)
    ensures
        bridge.stopped().stopped() == bridge.stopped(),
        bridge.stopped().steps_to_stop() == Seq::<StreamStep>::empty(),
{
}

/// After a stop no session counts as running, and a start that has its port is let through.
pub proof fn law_stop_makes_way<B, S>(
    bridge: StreamBridge<B>,
    after: StreamBridge<B>,
    channel: u64,
    plan: StreamPlan,
    socket: S,
    r: Result<StreamStart<S>, StartStreamError>,
)
    requires
        admission(bridge.stopped(), after, channel, plan, socket, r),
    ensures
        r is Ok,
        bridge.stopped().session is None,
{
}

/// While a session is active, a start that has its port is answered with the arguments of that
/// session, be they the same or not, and changes nothing.
pub proof fn law_second_start_is_refused<B, S>(
    bridge: StreamBridge<B>,
    request: StreamBuildRequest,
    session_nonce: u64,
    session: StreamSession,
    after: StreamBridge<B>,
    channel: u64,
    plan: StreamPlan,
    socket: S,
    r: Result<StreamStart<S>, StartStreamError>,
)
    requires
        admission(
            bridge.started(request, session_nonce, session),
            after,
            channel,
            plan,
            socket,
            r,
        ),
    ensures
        r == Err::<StreamStart<S>, StartStreamError>(
            StartStreamError::AlreadyRunning {
                current_port: request.udp_port,
                current_service_name: request.service_name,
            },
        ),
        after == bridge.started(request, session_nonce, session),
{
}

/// Two keyframe requests that reached the transport are never closer together than the interval.
pub proof fn law_keyframe_requests_are_spaced(session: StreamSession, first: u64, second: u64)
    requires
        first <= second,
        session.after_pli(first, true).pli_due(second) is Some,
    ensures
        second - first >= PLI_INTERVAL_NS,
{
}

/// While a keyframe request that reached the transport is too recent, attaching the frontend again
/// asks no receiver for anything and changes nothing.
pub proof fn law_recent_request_is_not_repeated<B, R: ReceiverOps>(
    bridge: StreamBridge<B>,
    receivers: R,
    now: u64,
    bridge_after: StreamBridge<B>,
    receivers_after: R,
)
    requires
        is_attachment(bridge, receivers, now, bridge_after, receivers_after),
        bridge.session matches Some(session) && session.last_pli matches Some(last) && now - last
            < PLI_INTERVAL_NS,
    ensures
        bridge_after == bridge,
        receivers_after == receivers,
{
}

/// A session is taken down in a fixed order: its stop flag goes up first, then its mux thread and
/// its drains are waited for, then signaling stops, and the receiver goes last.
pub proof fn law_shutdown_order(session: StreamSession, i: int, j: int)
    requires
        0 <= i <= j < shutdown_steps(session).len(),
    ensures
        1 <= rank(shutdown_steps(session)[i]) <= rank(shutdown_steps(session)[j]),
        rank(shutdown_steps(session)[i]) == rank(shutdown_steps(session)[j]) ==> i == j
            || shutdown_steps(session)[i] is JoinDrain,
{
    let steps = shutdown_steps(session);
    let a = step_if(session.mux_handle, |h: u64| StreamStep::JoinMux(h));
    let b = joins(session.drain_handles@);
    let c = step_if(session.signaling, |h: u64| StreamStep::StopSignaling(h));
    let d = step_if(session.receiver, |h: u64| StreamStep::DropReceiver(h));
    assert(steps.len() == 1 + a.len() + b.len() + c.len() + d.len());
    assert forall|k: int| 0 <= k < steps.len() implies #[trigger] steps[k] == (if k == 0 {
        StreamStep::RaiseStopFlag(session.stop_flag)
    } else if k < 1 + a.len() {
        a[k - 1]
    } else if k < 1 + a.len() + b.len() {
        StreamStep::JoinDrain(session.drain_handles@[k - 1 - a.len()])
    } else if k < 1 + a.len() + b.len() + c.len() {
        c[k - 1 - a.len() - b.len()]
    } else {
        d[k - 1 - a.len() - b.len() - c.len()]
    }) by {}
}

/// Place of a step in the shutdown of a session.
pub open spec fn rank(step: StreamStep) -> int {
    match step {
        StreamStep::StopSupervisor(_) => 0,
        StreamStep::RaiseStopFlag(_) => 1,
        StreamStep::JoinMux(_) => 2,
        StreamStep::JoinDrain(_) => 3,
        StreamStep::StopSignaling(_) => 4,
        StreamStep::DropReceiver(_) => 5,
    }
}

/// Each call of a command goes to the method of the host that it is named after, with these arguments
/// and this answer.
pub proof fn law_calls_reach_the_host<B, S, H: StreamHost<B, S>>(
    call: StreamCall<B, S>,
    before: H,
    after: H,
)
    requires
        HostCall::<H>::made(call, before, after),
    ensures
        call matches StreamCall::Lock(bridge) ==> call_ensures(H::lock, (before,), (after, bridge)),
        call matches StreamCall::Unlock(bridge) ==> call_ensures(
            H::unlock,
            (before, bridge),
            after,
        ),
        call matches StreamCall::Perform(step) ==> call_ensures(H::perform, (before, step), after),
        call matches StreamCall::Probe { port, probed } ==> call_ensures(
            H::probe,
            (before, port),
            (after, probed),
        ),
        call matches StreamCall::Build { builder, bind_ctx, request, built } ==> call_ensures(
            H::build,
            (before, builder, bind_ctx, request),
            (after, built),
        ),
        call matches StreamCall::SpawnMux { mux, spawned } ==> call_ensures(
            H::spawn_mux,
            (before, mux),
            (after, spawned),
        ),
{
}

/// Which arguments are refused, and how: a port below 1024 first, 0 as zero and the others as
/// privileged, and then a name that is no service name, with the first rule that it breaks.
pub proof fn law_refused_arguments(
    e: StartStreamError,
    udp_port: Option<u16>,
    service_name: Option<String>,
)
    requires
        refuses_args(e, udp_port, service_name),
    ensures
        ({
            let bad_port = udp_port is Some && udp_port->0 < 1024;
            let bad_name = service_name is Some && !validation::is_service_name(service_name->0@);
            &&& bad_port || bad_name
            &&& !args_ok(udp_port, service_name)
            &&& bad_port ==> e == (StartStreamError::InvalidPort {
                value: udp_port->0,
                reason: if udp_port->0 == 0 {
                    crate::errors::PortRejectReason::Zero
                } else {
                    crate::errors::PortRejectReason::Privileged
                },
            })
            &&& !bad_port ==> {
                &&& e matches StartStreamError::InvalidServiceName { value, reason }
                &&& value@ == service_name->0@
                &&& Some(reason@) == validation::name_fault(value@)
            }
        }),
{
    if let Some(name) = service_name {
        validation::law_accepted_names(name@);
    }
}

/// Which arguments are accepted: a port from 1024 on, or none, and a service name, or none.
pub proof fn law_accepted_arguments(udp_port: Option<u16>, service_name: Option<String>)
    ensures
        args_ok(udp_port, service_name) <==> (udp_port is None || udp_port->0 >= 1024) && (
        service_name is None || validation::is_service_name(service_name->0@)),
{
}

/// What a start does. It binds the port it was given, or the usual one. A port that is not to be had
/// is answered by what the probe said, and that is all. While a session is active, the answer is that
/// session's arguments, and the bridge is given back as it was found. Otherwise the start is let
/// through: an earlier supervisor is forgotten and the next stop flag is handed out, and the builder
/// is asked once, on the bound socket, with that port and the name it was given, or the usual one, in
/// the channel the start was called with.
pub proof fn law_what_a_start_does<B: Clone, S>(
    run: StartRun<B, S>,
    channel: u64,
    udp_port: Option<u16>,
    service_name: Option<String>,
    r: Result<(), StartStreamError>,
)
    requires
        run.answers(channel, udp_port, service_name, r),
    ensures
        run.plan.udp_port == (match udp_port {
            Some(port) => port,
            None => 7889,
        }),
        run.plan.service_name@ == (match service_name {
            Some(name) => name@,
            None => "_screen-mirror._tcp.local."@,
        }),
        run.calls().len() > 0,
        run.calls()[0] == (StreamCall::<B, S>::Probe {
            port: run.plan.udp_port,
            probed: run.probed,
        }),
        run.probed is Err ==> run.calls().len() == 1,
        run.probed matches Err(BundleError::PortInUse(port)) ==> r == Err::<(), StartStreamError>(
            StartStreamError::PortInUse { port },
        ),
        run.probed matches Err(BundleError::NoLocalNic) ==> (r matches Err(
            StartStreamError::BundleBuildFailed(s),
        ) && s@ == "no local network interface available"@),
        run.probed matches Err(BundleError::Other(s)) ==> r == Err::<(), StartStreamError>(
            StartStreamError::BundleBuildFailed(s),
        ),
        run.probed is Ok && run.found.current_args is Some ==> {
            &&& r == Err::<(), StartStreamError>(
                StartStreamError::AlreadyRunning {
                    current_port: (run.found.current_args->0).0,
                    current_service_name: (run.found.current_args->0).1,
                },
            )
            &&& run.calls() == seq![
                StreamCall::<B, S>::Probe { port: run.plan.udp_port, probed: run.probed },
                StreamCall::<B, S>::Lock(run.found),
                StreamCall::<B, S>::Unlock(run.found),
            ]
        },
        run.probed is Ok && run.found.current_args is None ==> {
            &&& run.calls().len() >= 4
            &&& run.calls().take(4) == seq![
                StreamCall::<B, S>::Probe { port: run.plan.udp_port, probed: run.probed },
                StreamCall::<B, S>::Lock(run.found),
                StreamCall::<B, S>::Unlock(
                    StreamBridge {
                        supervisor_signal_tx: None,
                        flags_issued: flags::one_more(run.found.flags_issued),
                        ..run.found
                    },
                ),
                StreamCall::<B, S>::Build {
                    builder: run.builder,
                    bind_ctx: BindCtx { socket: run.probed->Ok_0 },
                    request: StreamBuildRequest {
                        udp_port: run.plan.udp_port,
                        service_name: run.plan.service_name,
                        stop_flag: run.found.flags_issued,
                        channel,
                    },
                    built: run.built,
                },
            ]
            &&& cloned(run.found.builder, run.builder)
        },
{
    let calls = run.calls();
    if run.probed is Ok && run.found.current_args is None {
        assert(calls.take(4) =~= seq![
            StreamCall::<B, S>::Probe { port: run.plan.udp_port, probed: run.probed },
            StreamCall::<B, S>::Lock(run.found),
            StreamCall::<B, S>::Unlock(
                StreamBridge {
                    supervisor_signal_tx: None,
                    flags_issued: flags::one_more(run.found.flags_issued),
                    ..run.found
                },
            ),
            StreamCall::<B, S>::Build {
                builder: run.builder,
                bind_ctx: BindCtx { socket: run.probed->Ok_0 },
                request: StreamBuildRequest {
                    udp_port: run.plan.udp_port,
                    service_name: run.plan.service_name,
                    stop_flag: run.found.flags_issued,
                    channel,
                },
                built: run.built,
            },
        ]);
    }
}

/// What a start does with what the builder made. A build that failed is answered by the port or the
/// text it failed with, and nothing more happens. Otherwise a mux thread is started on the packets and
/// the receiver of the pipeline, under the stop flag and in the channel of the session. If that fails,
/// the text says so and the bridge is given back as it is by then. If not, the session is installed:
/// with everything the bundle holds, the mux thread, counters at zero and no keyframe asked for, and
/// with the arguments it was asked for and a nonce that was drawn and is not zero. What else has come
/// to be in the bridge stays.
pub proof fn law_what_a_start_makes_of_the_pipeline<B: Clone, S>(
    run: StartRun<B, S>,
    channel: u64,
    udp_port: Option<u16>,
    service_name: Option<String>,
    r: Result<(), StartStreamError>,
)
    requires
        run.answers(channel, udp_port, service_name, r),
        run.probed is Ok,
        run.found.current_args is None,
    ensures
        ({
            let flag = run.found.flags_issued;
            let nonce = run.admitted->Ok_0.session_nonce;
            &&& nonce != 0 && nonce::is_session_nonce(nonce)
            &&& run.built is Err ==> run.calls().len() == 4
            &&& run.built matches Err(BundleError::PortInUse(port)) ==> r == Err::<
                (),
                StartStreamError,
            >(StartStreamError::PortInUse { port })
            &&& run.built matches Err(BundleError::NoLocalNic) ==> (r matches Err(
                StartStreamError::BundleBuildFailed(s),
            ) && s@ == "no local network interface available"@)
            &&& run.built matches Err(BundleError::Other(s)) ==> r == Err::<(), StartStreamError>(
                StartStreamError::BundleBuildFailed(s),
            )
            &&& run.built is Ok ==> {
                let bundle = run.built->Ok_0;
                run.calls().skip(4) == seq![
                    StreamCall::<B, S>::SpawnMux {
                        mux: MuxStart {
                            pkt_rx: bundle.pkt_rx,
                            receiver: bundle.receiver,
                            stop_flag: flag,
                            channel,
                        },
                        spawned: run.mux,
                    },
                    StreamCall::<B, S>::Lock(run.later),
                    StreamCall::<B, S>::Unlock(
                        match run.mux {
                            Err(_) => run.later,
                            Ok(handle) => StreamBridge {
                                session: Some(
                                    StreamSession {
                                        stop_flag: flag,
                                        mux_handle: Some(handle),
                                        counters: BridgeCounters {
                                            fragments_emitted: 0,
                                            init_segments_emitted: 0,
                                            dropped_segments: 0,
                                            keyframe_requests_fired: 0,
                                        },
                                        mux_requests: 0,
                                        receiver: Some(bundle.receiver),
                                        last_pli: None,
                                        channel,
                                        signaling: bundle.signaling,
                                        drain_handles: bundle.drain_handles,
                                    },
                                ),
                                current_args: Some((run.plan.udp_port, run.plan.service_name)),
                                restart_cache: Some(
                                    StreamRestartCache {
                                        udp_port: run.plan.udp_port,
                                        service_name: run.plan.service_name,
                                        channel,
                                        session_nonce: nonce,
                                    },
                                ),
                                ..run.later
                            },
                        },
                    ),
                ]
            }
            &&& run.built is Ok && run.mux is Ok ==> r is Ok
            &&& run.built is Ok && run.mux is Err ==> (r matches Err(
                StartStreamError::BundleBuildFailed(text),
            ) && text@ == "failed to spawn mux thread: "@ + run.mux->Err_0@)
        }),
{
    if run.built is Ok {
        let bundle = run.built->Ok_0;
        assert(run.calls().skip(4) =~= seq![
            StreamCall::<B, S>::SpawnMux {
                mux: mux_of(bundle, run.admitted->Ok_0.request),
                spawned: run.mux,
            },
            StreamCall::<B, S>::Lock(run.later),
            StreamCall::<B, S>::Unlock(run.installed),
        ]);
    }
}

/// How a session is taken down, step for step: its stop flag goes up, its mux thread is waited for,
/// each of its drains is, in order, its signaling stops, and its receiver goes.
pub proof fn law_how_a_session_is_taken_down(session: StreamSession)
    ensures
        shutdown_steps(session) == seq![StreamStep::RaiseStopFlag(session.stop_flag)] + (
        match session.mux_handle {
            Some(h) => seq![StreamStep::JoinMux(h)],
            None => Seq::empty(),
        }) + Seq::new(
            session.drain_handles@.len(),
            |k: int| StreamStep::JoinDrain(session.drain_handles@[k]),
        ) + (match session.signaling {
            Some(h) => seq![StreamStep::StopSignaling(h)],
            None => Seq::empty(),
        }) + (match session.receiver {
            Some(h) => seq![StreamStep::DropReceiver(h)],
            None => Seq::empty(),
        }),
{
    assert(joins(session.drain_handles@) =~= Seq::new(
        session.drain_handles@.len(),
        |k: int| StreamStep::JoinDrain(session.drain_handles@[k]),
    ));
}

/// What a stop does, call for call. The session is taken out of the bridge, which is otherwise left as
/// it is; its supervisor is told to stop and it is taken down; without a session there is nothing of
/// that. Last, the arguments and the restart parameters are forgotten in the bridge as it is by then,
/// and nothing else.
pub proof fn law_what_a_stop_does<B, S>(run: StopRun<B>)
    ensures
        run.calls::<S>() == (seq![
            StreamCall::<B, S>::Lock(run.found),
            StreamCall::<B, S>::Unlock(StreamBridge { session: None, ..run.found }),
        ] + (match run.found.session {
            Some(session) => (match run.found.supervisor_signal_tx {
                Some(h) => seq![StreamCall::<B, S>::Perform(StreamStep::StopSupervisor(h))],
                None => Seq::empty(),
            }) + shutdown_steps(session).map_values(
                |step: StreamStep| StreamCall::<B, S>::Perform(step),
            ),
            None => Seq::empty(),
        })) + seq![
            StreamCall::<B, S>::Lock(run.later),
            StreamCall::<B, S>::Unlock(
                StreamBridge { current_args: None, restart_cache: None, ..run.later },
            ),
        ],
{
    if let Some(session) = run.found.session {
        let told: Seq<StreamCall<B, S>> = match run.found.supervisor_signal_tx {
            Some(h) => seq![StreamCall::<B, S>::Perform(StreamStep::StopSupervisor(h))],
            None => Seq::<StreamCall<B, S>>::empty(),
        };
        assert(step_calls::<B, S>(run.found.steps_to_stop()) =~= told + shutdown_steps(
            session,
        ).map_values(|step: StreamStep| StreamCall::<B, S>::Perform(step)));
    } else {
        assert(step_calls::<B, S>(run.found.steps_to_stop()) =~= Seq::<StreamCall<B, S>>::empty());
    }
}

/// When a keyframe is asked for: never without a receiver, and never within two seconds of the last
/// request that reached the transport; otherwise of the session's receiver. A request that got through
/// is counted and its time is kept; one that failed leaves no trace.
pub proof fn law_when_a_keyframe_is_asked_for(session: StreamSession, now: u64)
    ensures
        session.last_pli is None ==> session.pli_due(now) == session.receiver,
        session.last_pli matches Some(last) ==> session.pli_due(now) == (if now - last
            >= 2_000_000_000 {
            session.receiver
        } else {
            None
        }),
        session.after_pli(now, false) == session,
        session.after_pli(now, true) == (StreamSession {
            counters: BridgeCounters {
                keyframe_requests_fired: if session.counters.keyframe_requests_fired == u64::MAX {
                    0
                } else {
                    (session.counters.keyframe_requests_fired + 1) as u64
                },
                ..session.counters
            },
            last_pli: Some(now),
            ..session
        }),
{
}

/// What attaching the frontend does to the bridge and to the receivers: it asks the session's receiver
/// for a keyframe if there is one and if the last request lies two seconds back or more, and changes
/// the session by what came of that and nothing else; otherwise it does nothing.
pub proof fn law_what_an_attachment_does<B, R: ReceiverOps>(
    bridge: StreamBridge<B>,
    receivers: R,
    now: u64,
    bridge_after: StreamBridge<B>,
    receivers_after: R,
)
    requires
        is_attachment(bridge, receivers, now, bridge_after, receivers_after),
    ensures
        ({
            let due = bridge.session matches Some(session) && session.receiver is Some && (
            session.last_pli is None || now - session.last_pli->0 >= 2_000_000_000);
            &&& !due ==> bridge_after == bridge && receivers_after == receivers
            &&& due ==> exists|result: Result<(), TransportError>| #[trigger]
                call_ensures(
                    R::request_keyframe,
                    (receivers, bridge.session->0.receiver->0),
                    (receivers_after, result),
                ) && bridge_after == (StreamBridge {
                    session: Some(bridge.session->0.after_pli(now, result is Ok)),
                    ..bridge
                })
        }),
{
}

/// What the diagnostics show: each count of the session under its own name, the frames that its
/// receiver says it dropped, and the keyframe requests of the frontend and of the mux thread together,
/// which wrap around. Without a session everything is zero, and without a receiver nobody is asked.
pub proof fn law_what_the_diagnostics_show<B, R: ReceiverOps>(
    bridge: &StreamBridge<B>,
    receivers: R,
    r: (R, StreamStats),
)
    requires
        call_ensures(stream_diagnostics::<B, R>, (bridge, receivers), r),
    ensures
        match bridge.session {
            None => {
                &&& r.0 == receivers
                &&& r.1 == (StreamStats {
                    fragments_emitted: 0,
                    init_segments_emitted: 0,
                    dropped_segments: 0,
                    receiver_dropped_frames: 0,
                    keyframe_requests_fired: 0,
                })
            },
            Some(session) => {
                let fired = session.counters.keyframe_requests_fired + session.mux_requests;
                &&& r.1.fragments_emitted == session.counters.fragments_emitted
                &&& r.1.init_segments_emitted == session.counters.init_segments_emitted
                &&& r.1.dropped_segments == session.counters.dropped_segments
                &&& r.1.keyframe_requests_fired == (if fired <= u64::MAX {
                    fired
                } else {
                    fired - u64::MAX - 1
                })
                &&& session.receiver is None ==> r.0 == receivers && r.1.receiver_dropped_frames
                    == 0
                &&& session.receiver matches Some(receiver) ==> call_ensures(
                    R::dropped_frames,
                    (receivers, receiver),
                    (r.0, r.1.receiver_dropped_frames),
                )
            },
        },
{
}

/// A bridge runs exactly if it has a session whose stop flag, when it is asked for, is down.
pub proof fn law_when_a_bridge_runs<B, F: StopFlags>(
    bridge: &StreamBridge<B>,
    flags: F,
    r: (F, bool),
)
    requires
        call_ensures(StreamBridge::<B>::is_running::<F>, (bridge, flags), r),
    ensures
        bridge.session is None ==> r.0 == flags && !r.1,
        bridge.session matches Some(session) ==> call_ensures(
            F::is_raised,
            (flags, session.stop_flag),
            (r.0, !r.1),
        ),
{
}

/// A probe that found the port taken reports the port it was asked for; any other is reported by its
/// text.
pub proof fn law_what_a_failed_probe_reports(
    port: u16,
    addr_in_use: bool,
    e: std::io::Error,
    r: BundleError,
)
    requires
        call_ensures(probe_failure, (port, addr_in_use, e), r),
    ensures
        addr_in_use ==> r == BundleError::PortInUse(port),
        !addr_in_use ==> errors::reports_io(r, e) && r is Other,
{
}

/// A new bridge has no session, no arguments and no supervisor, and has handed out no stop flag.
pub proof fn law_what_a_new_bridge_holds<B>(builder: B, b: StreamBridge<B>)
    requires
        call_ensures(StreamBridge::<B>::new_with_builder, (builder,), b),
    ensures
        b.session is None,
        b.builder == builder,
        b.current_args is None,
        b.restart_cache is None,
        b.supervisor_signal_tx is None,
        b.flags_issued == 0,
{
}

/// A bridge that is given a session, its restart parameters and a supervisor has them, and hands out
/// the stop flags behind that session's.
pub proof fn law_what_a_given_bridge_holds<B>(
    builder: B,
    session: Option<StreamSession>,
    restart_cache: Option<StreamRestartCache>,
    supervisor: Option<u64>,
    b: StreamBridge<B>,
    c: StreamBridge<B>,
)
    requires
        call_ensures(
            StreamBridge::<B>::new_with_builder_and_arcs,
            (builder, session, restart_cache, supervisor),
            b,
        ),
        call_ensures(StreamBridge::<B>::new_with_builder_and_sup_tx, (builder, supervisor), c),
    ensures
        b.session == session,
        b.builder == builder,
        b.current_args is None,
        b.restart_cache == restart_cache,
        b.supervisor_signal_tx == supervisor,
        session is None ==> b.flags_issued == 0,
        session matches Some(s) && s.stop_flag < u64::MAX ==> b.flags_issued
            == session->0.stop_flag + 1,
        c.session is None,
        c.builder == builder,
        c.supervisor_signal_tx == supervisor,
        c.flags_issued == 0,
{
}

/// What the bridge takes over and hands out, seen on its functions themselves. The next stop flag is
/// the number of those before it. What the mux thread has counted becomes what the session has, but for
/// the keyframe requests: those of the frontend stay, and those of the mux thread are kept beside them.
/// Nothing else changes.
pub proof fn law_functions_of_the_bridge<B>(media: &BridgeCounters)
    ensures
        forall|bridge: &mut StreamBridge<B>, flag: u64| #[trigger]
            call_ensures(StreamBridge::<B>::issue_flag, (bridge,), flag) ==> {
                &&& flag == bridge.flags_issued
                &&& bridge.flags_issued < u64::MAX ==> final(bridge).flags_issued
                    == bridge.flags_issued + 1
                &&& *final(bridge) == (StreamBridge {
                    flags_issued: final(bridge).flags_issued,
                    ..*bridge
                })
            },
        forall|bridge: &mut StreamBridge<B>| #[trigger]
            call_ensures(StreamBridge::<B>::record_segments, (bridge, media), ()) ==> {
                &&& bridge.session is None ==> *final(bridge) == *bridge
                &&& bridge.session matches Some(session) ==> *final(bridge) == (StreamBridge {
                    session: Some(
                        StreamSession {
                            counters: BridgeCounters {
                                fragments_emitted: media.fragments_emitted,
                                init_segments_emitted: media.init_segments_emitted,
                                dropped_segments: media.dropped_segments,
                                keyframe_requests_fired: session.counters.keyframe_requests_fired,
                            },
                            mux_requests: media.keyframe_requests_fired,
                            ..session
                        },
                    ),
                    ..*bridge
                })
            },
{
}

} // verus!
