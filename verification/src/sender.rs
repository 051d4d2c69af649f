//! The sender's session: starting it, stopping it, starting it again, and looking at it.
//!
//! Threads, stop flags, callbacks and frontend channels belong to the surrounding program, which
//! keeps each under a number. This module decides what is to be done with them, and in which
//! order.
use crate::errors::{BundleError, StartSenderError};
use crate::events::SenderStatusEvent;
use crate::flags;
use crate::flags::{issue_apart, issue_one};
use crate::nonce;
use crate::nonce::draw;
use crate::sender_drain;
use crate::sender_drain::SenderCounters;
use crate::trace;
use crate::trace::HostCall;
use crate::validation;
use crate::validation::{validate_service_name_for_sender, validate_udp_port_for_sender};
use vstd::prelude::*;

verus! {

broadcast use trace::lemma_no_call;

/// What a builder of sender pipelines is asked for.
#[derive(Debug)]
pub struct SenderBuildRequest {
    /// 0 lets the system pick a port.
    pub udp_port: u16,
    pub service_name: String,
    /// A fresh stop flag, which every thread of the pipeline is to honour.
    pub stop_flag: u64,
    pub channel: u64,
    /// The attempt with which the offer is stamped; 1 on a cold start.
    pub attempt: u8,
    /// The generation comes out of a rebuild, so media is expected of it.
    pub arm_media_watchdog: bool,
}

impl Clone for SenderBuildRequest {
    fn clone(&self) -> (r: Self)
        ensures
            r == *self,
    {
        SenderBuildRequest {
            udp_port: self.udp_port,
            service_name: self.service_name.clone(),
            stop_flag: self.stop_flag,
            channel: self.channel,
            attempt: self.attempt,
            arm_media_watchdog: self.arm_media_watchdog,
        }
    }
}

/// A sender pipeline that has been built and started.
#[derive(Debug)]
pub struct SenderBundle {
    pub drain_handles: Vec<u64>,
    /// Releases the pipeline's resources, in order.
    pub shutdown: Option<u64>,
    pub backend_name: String,
    /// For a rebuild only: keeps the superseded generation from saying goodbye to the peer.
    pub suppress_bye_on_rebuild: Option<u64>,
    /// For a rebuild only: waits until the superseded generation's signaling is quiet.
    pub stop_signaling_on_rebuild: Option<u64>,
    /// For a rebuild only: keeps the superseded generation from reporting failures.
    pub disarm_escalation_on_rebuild: Option<u64>,
}

/// Arguments of the session that is active.
#[derive(Debug)]
pub struct SenderArgs {
    pub udp_port: u16,
    pub service_name: String,
}

/// What is needed to build the session's pipeline again.
#[derive(Debug)]
pub struct RestartCache {
    pub udp_port: u16,
    pub service_name: String,
    pub channel: u64,
    /// Drawn once per session.
    pub session_nonce: u64,
}

/// An active sender session.
#[derive(Debug)]
pub struct SenderSession {
    pub stop_flag: u64,
    pub drain_handles: Vec<u64>,
    pub channel: u64,
    pub counters: SenderCounters,
    pub shutdown: Option<u64>,
    pub suppress_bye_on_rebuild: Option<u64>,
    pub stop_signaling_on_rebuild: Option<u64>,
    pub disarm_escalation_on_rebuild: Option<u64>,
    /// The encoder backend, as it was named when the session was made.
    pub backend_name: String,
}

/// State of the sender, with the builder `B` of its pipelines.
pub struct SenderBridge<B> {
    pub session: Option<SenderSession>,
    pub builder: B,
    pub current_args: Option<SenderArgs>,
    pub restart_cache: Option<RestartCache>,
    /// The signal channel of the supervisor, while one is active.
    pub supervisor_signal_tx: Option<u64>,
    /// Fires of the media watchdog in a row, over all generations of a connection episode.
    pub media_watchdog_fires: u8,
    /// How many stop flags have been handed out; the next one gets this number.
    pub flags_issued: u64,
}

/// What the diagnostics show of a sender.
#[derive(Debug)]
pub struct SenderStats {
    pub dropped_frames_encoder: u64,
    pub dropped_frames_transport: u64,
    pub keyframe_requests_received: u64,
    pub running: bool,
    pub backend_name: String,
}

/// One thing to do to the pipeline of a session.
#[derive(Debug, Clone, Copy, PartialEq, Eq, Structural)]
pub enum SenderStep {
    /// Tell the supervisor behind this channel to stop.
    StopSupervisor(u64),
    RaiseStopFlag(u64),
    SuppressBye(u64),
    DisarmEscalation(u64),
    StopSignaling(u64),
    Shutdown(u64),
    JoinDrain(u64),
    /// Show in this channel that the session has stopped.
    ShowStopped(u64),
}

impl SenderStep {
    /// A step that only a rebuild may take.
    pub open spec fn is_rebuild_only(self) -> bool {
        self is SuppressBye || self is DisarmEscalation || self is StopSignaling
    }
}

impl SenderBundle {
    /// The smallest bundle: no threads, nothing to shut down, no callbacks.
    pub fn test_stub() -> (b: Self)
        ensures
            b.drain_handles@.len() == 0,
            b.shutdown is None,
            b.backend_name@ == "sw_fake"@,
            b.suppress_bye_on_rebuild is None,
            b.stop_signaling_on_rebuild is None,
            b.disarm_escalation_on_rebuild is None,
    {
        SenderBundle {
            drain_handles: Vec::new(),
            shutdown: None,
            backend_name: "sw_fake".to_string(),
            suppress_bye_on_rebuild: None,
            stop_signaling_on_rebuild: None,
            disarm_escalation_on_rebuild: None,
        }
    }
}

/// Every counter is zero.
pub open spec fn no_counts() -> SenderCounters {
    SenderCounters {
        dropped_frames_encoder: 0,
        dropped_frames_transport: 0,
        keyframe_requests_received: 0,
    }
}

/// The session that a bundle becomes: everything in it is the bundle's own, and the counters
/// start again.
pub open spec fn session_of(bundle: SenderBundle, stop_flag: u64, channel: u64) -> SenderSession {
    SenderSession {
        stop_flag,
        drain_handles: bundle.drain_handles,
        channel,
        counters: no_counts(),
        shutdown: bundle.shutdown,
        suppress_bye_on_rebuild: bundle.suppress_bye_on_rebuild,
        stop_signaling_on_rebuild: bundle.stop_signaling_on_rebuild,
        disarm_escalation_on_rebuild: bundle.disarm_escalation_on_rebuild,
        backend_name: bundle.backend_name,
    }
}

impl SenderSession {
    /// A session from its parts.
    pub fn new(
        stop_flag: u64,
        drain_handles: Vec<u64>,
        channel: u64,
        counters: SenderCounters,
        shutdown: Option<u64>,
        backend_name: String,
        suppress_bye_on_rebuild: Option<u64>,
        stop_signaling_on_rebuild: Option<u64>,
        disarm_escalation_on_rebuild: Option<u64>,
    ) -> (s: Self)
        ensures
            s == (SenderSession {
                stop_flag,
                drain_handles,
                channel,
                counters,
                shutdown,
                suppress_bye_on_rebuild,
                stop_signaling_on_rebuild,
                disarm_escalation_on_rebuild,
                backend_name,
            }),
    {
        SenderSession {
            stop_flag,
            drain_handles,
            channel,
            counters,
            shutdown,
            suppress_bye_on_rebuild,
            stop_signaling_on_rebuild,
            disarm_escalation_on_rebuild,
            backend_name,
        }
    }

    /// The session that `bundle` becomes.
    pub fn from_bundle(bundle: SenderBundle, stop_flag: u64, channel: u64) -> (s: Self)
        ensures
            s == session_of(bundle, stop_flag, channel),
    {
        SenderSession::new(
            stop_flag,
            bundle.drain_handles,
            channel,
            SenderCounters::zero(),
            bundle.shutdown,
            bundle.backend_name,
            bundle.suppress_bye_on_rebuild,
            bundle.stop_signaling_on_rebuild,
            bundle.disarm_escalation_on_rebuild,
        )
    }

    /// The encoder backend of this session.
    pub fn backend_name(&self) -> (s: &str)
        ensures
            s@ == self.backend_name@,
    {
        self.backend_name.as_str()
    }
}

impl SenderBridge<()> {
    /// A bridge without a session, for a program that builds the pipelines itself.
    pub fn new() -> (b: Self)
        ensures
            b == (SenderBridge {
                session: None,
                builder: (),
                current_args: None,
                restart_cache: None,
                supervisor_signal_tx: None,
                media_watchdog_fires: 0,
                flags_issued: 0,
            }),
    {
        SenderBridge::new_with_builder(())
    }
}

impl Default for SenderBridge<()> {
    fn default() -> (b: Self)
        ensures
            b == (SenderBridge {
                session: None,
                builder: (),
                current_args: None,
                restart_cache: None,
                supervisor_signal_tx: None,
                media_watchdog_fires: 0,
                flags_issued: 0,
            }),
    {
        SenderBridge::new()
    }
}

impl<B> SenderBridge<B> {
    /// A bridge without a session, whose pipelines `builder` makes.
    pub fn new_with_builder(builder: B) -> (b: Self)
        ensures
            b == (SenderBridge {
                session: None,
                builder,
                current_args: None,
                restart_cache: None,
                supervisor_signal_tx: None,
                media_watchdog_fires: 0,
                flags_issued: 0,
            }),
    {
        SenderBridge::new_with_builder_and_arcs(builder, None, None, None)
    }

    /// The same, with a supervisor's signal channel already in place.
    pub fn new_with_builder_and_sup_tx(builder: B, supervisor_signal_tx: Option<u64>) -> (b: Self)
        ensures
            b == (SenderBridge {
                session: None,
                builder,
                current_args: None,
                restart_cache: None,
                supervisor_signal_tx,
                media_watchdog_fires: 0,
                flags_issued: 0,
            }),
    {
        SenderBridge::new_with_builder_and_arcs(builder, None, None, supervisor_signal_tx)
    }

    /// The same, with a session and its restart parameters already in place.
    pub fn new_with_builder_and_arcs(
        builder: B,
        session: Option<SenderSession>,
        restart_cache: Option<RestartCache>,
        supervisor_signal_tx: Option<u64>,
    ) -> (b: Self)
        ensures
            b == (SenderBridge {
                session,
                builder,
                current_args: None,
                restart_cache,
                supervisor_signal_tx,
                media_watchdog_fires: 0,
                flags_issued: match session {
                    Some(s) => flags::one_more(s.stop_flag),
                    None => 0,
                },
            }),
    {
        let flags_issued: u64 = match &session {
            Some(s) => issue_one(s.stop_flag),
            None => 0,
        };
        SenderBridge {
            session,
            builder,
            current_args: None,
            restart_cache,
            supervisor_signal_tx,
            media_watchdog_fires: 0,
            flags_issued,
        }
    }

    /// The stop flag of the session is one that the bridge has handed out. The arguments and the
    /// restart parameters are there together and agree, and they are ones that a start accepts.
    pub open spec fn wf(self) -> bool {
        &&& self.session matches Some(session) ==> flags::is_issued(
            session.stop_flag,
            self.flags_issued,
        )
        &&& match (self.current_args, self.restart_cache) {
            (Some(args), Some(cache)) => {
                &&& args.udp_port == cache.udp_port
                &&& args.service_name@ == cache.service_name@
                &&& accepts_port(cache.udp_port)
                &&& validation::is_service_name(cache.service_name@)
            },
            (None, None) => true,
            _ => false,
        }
    }
}

/// A sender may use this port: any but the privileged ones, and 0 for a port of the system's
/// choice.
pub open spec fn accepts_port(port: u16) -> bool {
    port == 0 || port >= validation::FIRST_UNPRIVILEGED_PORT
}

/// Why a start is refused before anything is built.
pub enum StartFault {
    Port(u16),
    Name { value: Seq<char>, reason: Seq<char> },
    Running(SenderArgs),
}

/// The service name that a start resolves to.
pub open spec fn resolved_name(service_name: Option<String>) -> Seq<char> {
    match service_name {
        Some(name) => name@,
        None => "_screen-mirror._tcp.local."@,
    }
}

/// The port that a start resolves to.
pub open spec fn resolved_port(udp_port: Option<u16>) -> u16 {
    match udp_port {
        Some(port) => port,
        None => 0,
    }
}

/// The first thing that is wrong with the arguments of a start: the port, then the name.
pub open spec fn args_fault(udp_port: Option<u16>, service_name: Option<String>) -> Option<
    StartFault,
> {
    if udp_port matches Some(port) && !accepts_port(port) {
        Some(StartFault::Port(udp_port->0))
    } else if service_name matches Some(name) && validation::name_fault(name@) is Some {
        Some(
            StartFault::Name {
                value: service_name->0@,
                reason: validation::name_fault(service_name->0@)->0,
            },
        )
    } else {
        None
    }
}

/// The first thing that stands against a start: bad arguments, then a session that is active.
pub open spec fn start_fault(
    current_args: Option<SenderArgs>,
    udp_port: Option<u16>,
    service_name: Option<String>,
) -> Option<StartFault> {
    match args_fault(udp_port, service_name) {
        Some(fault) => Some(fault),
        None => match current_args {
            Some(args) => Some(StartFault::Running(args)),
            None => None,
        },
    }
}

/// The error that reports a fault.
pub open spec fn reports(e: StartSenderError, fault: StartFault) -> bool {
    match fault {
        StartFault::Port(port) => e == (StartSenderError::InvalidPort {
            value: port,
            reason: crate::errors::PortRejectReason::Privileged,
        }),
        StartFault::Name { value, reason } => e matches StartSenderError::InvalidServiceName {
            value: v,
            reason: r,
        } && v@ == value && r@ == reason,
        StartFault::Running(args) => e == (StartSenderError::AlreadyRunning {
            udp_port: args.udp_port,
            service_name: args.service_name,
        }),
    }
}

/// The error that reports a failed build.
pub open spec fn reports_build(e: StartSenderError, failure: BundleError) -> bool {
    match failure {
        BundleError::PortInUse(port) => e == (StartSenderError::PortInUse { port }),
        BundleError::NoLocalNic => e matches StartSenderError::BundleBuildFailed(s) && s@
            == failure.text(),
        BundleError::Other(s) => e == StartSenderError::BundleBuildFailed(s),
    }
}

/// A start that has been let through: what to build, and the session's nonce.
#[derive(Debug)]
pub struct SenderStart {
    pub request: SenderBuildRequest,
    pub session_nonce: u64,
}

impl<B> SenderBridge<B> {
    /// The bridge once a start has been let through: the supervisor of an earlier session is
    /// forgotten, a new connection episode begins, and a stop flag has been handed out.
    pub open spec fn cleared_for_start(self) -> SenderBridge<B> {
        SenderBridge {
            supervisor_signal_tx: None,
            media_watchdog_fires: 0,
            flags_issued: flags::one_more(self.flags_issued),
            ..self
        }
    }

    /// The bridge once the pipeline of a start is there.
    pub open spec fn started(self, start: SenderStart, bundle: SenderBundle) -> SenderBridge<B> {
        SenderBridge {
            session: Some(
                session_of(bundle, start.request.stop_flag, start.request.channel),
            ),
            current_args: Some(
                SenderArgs {
                    udp_port: start.request.udp_port,
                    service_name: start.request.service_name,
                },
            ),
            restart_cache: Some(
                RestartCache {
                    udp_port: start.request.udp_port,
                    service_name: start.request.service_name,
                    channel: start.request.channel,
                    session_nonce: start.session_nonce,
                },
            ),
            ..self
        }
    }
}

impl SenderStart {
    /// What a start asks for: the resolved arguments, a cold generation, the next stop flag, and a
    /// nonce that was drawn for it.
    pub open spec fn asks_for(
        self,
        flags_issued: u64,
        channel: u64,
        udp_port: u16,
        service_name: Seq<char>,
    ) -> bool {
        &&& self.request.udp_port == udp_port
        &&& self.request.service_name@ == service_name
        &&& self.request.stop_flag == flags_issued
        &&& self.request.channel == channel
        &&& self.request.attempt == 1
        &&& self.request.arm_media_watchdog == false
        &&& nonce::is_draw(self.session_nonce)
    }
}

/// First part of a start: checks the arguments, the port before the name, and fills in what was
/// left open.
pub fn plan_sender_start(udp_port: Option<u16>, service_name: Option<String>) -> (r: Result<
    SenderArgs,
    StartSenderError,
>)
    ensures
        match args_fault(udp_port, service_name) {
            Some(fault) => r matches Err(e) && reports(e, fault),
            None => r matches Ok(args) && args.udp_port == resolved_port(udp_port)
                && args.service_name@ == resolved_name(service_name),
        },
{
    if let Some(port) = udp_port {
        match validate_udp_port_for_sender(port) {
            Ok(()) => {},
            Err(e) => {
                return Err(e);
            },
        }
    }
    if let Some(name) = &service_name {
        match validate_service_name_for_sender(name.as_str()) {
            Ok(()) => {},
            Err(e) => {
                return Err(e);
            },
        }
    }
    let port: u16 = match udp_port {
        Some(port) => port,
        None => 0,
    };
    let name = match service_name {
        Some(name) => name,
        None => "_screen-mirror._tcp.local.".to_string(),
    };
    Ok(SenderArgs { udp_port: port, service_name: name })
}

/// Second part of a start: checks that no session is active, and says what to build. A refusal
/// changes nothing.
pub fn begin_sender_start<B>(bridge: &mut SenderBridge<B>, channel: u64, args: SenderArgs) -> (r:
    Result<SenderStart, StartSenderError>)
    ensures
        match old(bridge).current_args {
            Some(active) => r matches Err(e) && reports(e, StartFault::Running(active))
                && *final(bridge) == *old(bridge),
            None => r matches Ok(start) && start.asks_for(
                old(bridge).flags_issued,
                channel,
                args.udp_port,
                args.service_name@,
            ) && *final(bridge) == old(bridge).cleared_for_start(),
        },
{
    if let Some(active) = &bridge.current_args {
        return Err(
            StartSenderError::AlreadyRunning {
                udp_port: active.udp_port,
                service_name: active.service_name.clone(),
            },
        );
    }
    let nonce: u64 = draw();
    bridge.supervisor_signal_tx = None;
    bridge.media_watchdog_fires = 0;
    let stop_flag: u64 = bridge.issue_flag();
    Ok(
        SenderStart {
            request: SenderBuildRequest {
                udp_port: args.udp_port,
                service_name: args.service_name,
                stop_flag,
                channel,
                attempt: 1,
                arm_media_watchdog: false,
            },
            session_nonce: nonce,
        },
    )
}

impl<B> SenderBridge<B> {
    /// The bridge once a stop flag other than `taken` has been handed out.
    pub open spec fn with_flag_apart_from(self, taken: u64) -> SenderBridge<B> {
        SenderBridge {
            flags_issued: flags::including(
                self.flags_issued,
                flags::apart_from(self.flags_issued, taken),
            ),
            ..self
        }
    }

    /// Hands out a stop flag that is not `taken`, which another generation has.
    pub fn issue_flag_apart_from(&mut self, taken: u64) -> (flag: u64)
        ensures
            flag == flags::apart_from(old(self).flags_issued, taken),
            *final(self) == old(self).with_flag_apart_from(taken),
    {
        let (flag, issued) = issue_apart(self.flags_issued, taken);
        self.flags_issued = issued;
        flag
    }

    /// Hands out the next stop flag.
    pub fn issue_flag(&mut self) -> (flag: u64)
        ensures
            flag == old(self).flags_issued,
            *final(self) == (SenderBridge {
                flags_issued: flags::one_more(old(self).flags_issued),
                ..*old(self)
            }),
    {
        let flag: u64 = self.flags_issued;
        self.flags_issued = issue_one(flag);
        flag
    }

    /// Counts a fire of the media watchdog, and says how many in a row came before it.
    pub fn count_fire(&mut self) -> (before: u8)
        ensures
            before == old(self).media_watchdog_fires,
            *final(self) == (SenderBridge {
                media_watchdog_fires: sender_drain::one_more(old(self).media_watchdog_fires),
                ..*old(self)
            }),
    {
        let before: u8 = self.media_watchdog_fires;
        self.media_watchdog_fires = before.wrapping_add(1);
        before
    }

    /// Ends the run of fires.
    pub fn clear_fires(&mut self)
        ensures
            *final(self) == (SenderBridge { media_watchdog_fires: 0, ..*old(self) }),
    {
        self.media_watchdog_fires = 0;
    }

    /// Counts a keyframe request, if there is a session to count it for.
    pub fn count_keyframe_request(&mut self)
        ensures
            *final(self) == (SenderBridge {
                session: match old(self).session {
                    Some(session) => Some(
                        SenderSession {
                            counters: session.counters.with_keyframe_request(),
                            ..session
                        },
                    ),
                    None => None,
                },
                ..*old(self)
            }),
    {
        if let Some(mut session) = self.session.take() {
            session.counters.count_keyframe_request();
            self.session = Some(session);
        }
    }
}

/// The error that reports a failed build.
pub fn start_error(failure: BundleError) -> (e: StartSenderError)
    ensures
        reports_build(e, failure),
{
    match failure {
        BundleError::PortInUse(port) => StartSenderError::PortInUse { port },
        BundleError::NoLocalNic => StartSenderError::BundleBuildFailed(
            BundleError::NoLocalNic.message(),
        ),
        BundleError::Other(s) => StartSenderError::BundleBuildFailed(s),
    }
}

/// Last part of a start: installs the pipeline that was built. What else has come to be in the
/// bridge in the meantime stays, such as the supervisor that the pipeline has registered.
pub fn finish_sender_start<B>(
    bridge: &mut SenderBridge<B>,
    start: SenderStart,
    bundle: SenderBundle,
)
    ensures
        *final(bridge) == old(bridge).started(start, bundle),
{
    let SenderStart { request, session_nonce } = start;
    bridge.session = Some(
        SenderSession::from_bundle(bundle, request.stop_flag, request.channel),
    );
    bridge.current_args = Some(
        SenderArgs { udp_port: request.udp_port, service_name: request.service_name.clone() },
    );
    bridge.restart_cache = Some(
        RestartCache {
            udp_port: request.udp_port,
            service_name: request.service_name,
            channel: request.channel,
            session_nonce,
        },
    );
}

/// What the commands of a sender need of the surrounding program. The bridge is shared with the
/// threads of the session: a command takes hold of it for a moment at a time, and never while a
/// pipeline is built or taken down.
pub trait SenderHost<B>: Sized {
    /// Takes hold of the bridge; nobody else has it until it is given back.
    fn lock(self) -> (r: (Self, SenderBridge<B>));

    /// Gives the bridge back.
    fn unlock(self, bridge: SenderBridge<B>) -> (after: Self);

    /// Takes one step.
    fn perform(self, step: SenderStep) -> (after: Self);

    /// Has the builder make a pipeline.
    fn build(self, builder: B, request: SenderBuildRequest) -> (r: (
        Self,
        Result<SenderBundle, BundleError>,
    ));
}

/// A call to the host of a sender.
pub enum SenderCall<B> {
    Lock(SenderBridge<B>),
    Unlock(SenderBridge<B>),
    Perform(SenderStep),
    Build { builder: B, request: SenderBuildRequest, built: Result<SenderBundle, BundleError> },
}

impl<B, H: SenderHost<B>> HostCall<H> for SenderCall<B> {
    open spec fn made(self, before: H, after: H) -> bool {
        match self {
            SenderCall::Lock(bridge) => call_ensures(H::lock, (before,), (after, bridge)),
            SenderCall::Unlock(bridge) => call_ensures(H::unlock, (before, bridge), after),
            SenderCall::Perform(step) => call_ensures(H::perform, (before, step), after),
            SenderCall::Build { builder, request, built } => call_ensures(
                H::build,
                (before, builder, request),
                (after, built),
            ),
        }
    }
}

/// What goes on in a start whose arguments are good: the bridge as the start finds it, what it asks
/// for, what the builder makes of that, and the bridge as it is by then.
pub struct StartRun<B> {
    pub found: SenderBridge<B>,
    pub start: SenderStart,
    pub builder: B,
    pub built: Result<SenderBundle, BundleError>,
    pub later: SenderBridge<B>,
}

impl<B: Clone> StartRun<B> {
    /// What the start asks for, and what it answers.
    pub open spec fn answers(
        self,
        channel: u64,
        udp_port: Option<u16>,
        service_name: Option<String>,
        r: Result<SenderStatusEvent, StartSenderError>,
    ) -> bool {
        match start_fault(self.found.current_args, udp_port, service_name) {
            Some(fault) => r matches Err(e) && reports(e, fault),
            None => {
                &&& self.start.asks_for(
                    self.found.flags_issued,
                    channel,
                    resolved_port(udp_port),
                    resolved_name(service_name),
                )
                &&& cloned(self.found.builder, self.builder)
                &&& match self.built {
                    Ok(_) => r == Ok::<SenderStatusEvent, StartSenderError>(
                        SenderStatusEvent::Connecting,
                    ),
                    Err(failure) => r matches Err(e) && reports_build(e, failure),
                }
            },
        }
    }

    /// The calls of the start. Bad arguments are refused before anything is called. While a session
    /// is active, the bridge is given back as it is. Otherwise the builder is asked once, while the
    /// bridge is free, and what it makes is installed in the bridge as it is by then.
    pub open spec fn calls(self, udp_port: Option<u16>, service_name: Option<String>) -> Seq<
        SenderCall<B>,
    > {
        match start_fault(self.found.current_args, udp_port, service_name) {
            Some(StartFault::Running(_)) => seq![
                SenderCall::Lock(self.found),
                SenderCall::Unlock(self.found),
            ],
            Some(_) => Seq::empty(),
            None => seq![
                SenderCall::Lock(self.found),
                SenderCall::Unlock(self.found.cleared_for_start()),
                SenderCall::Build {
                    builder: self.builder,
                    request: self.start.request,
                    built: self.built,
                },
            ] + match self.built {
                Ok(bundle) => seq![
                    SenderCall::Lock(self.later),
                    SenderCall::Unlock(self.later.started(self.start, bundle)),
                ],
                Err(_) => Seq::empty(),
            },
        }
    }
}

/// Starts a session: checks the arguments, has the builder make the pipeline, and installs it.
/// What comes back on success is to be shown in the session's channel.
pub fn start_sender_inner<B: Clone, H: SenderHost<B>>(
    host: H,
    channel: u64,
    udp_port: Option<u16>,
    service_name: Option<String>,
) -> (r: (H, Result<SenderStatusEvent, StartSenderError>))
    ensures
        exists|run: StartRun<B>|
            run.answers(channel, udp_port, service_name, r.1) && trace::leads(
                host,
                #[trigger] run.calls(udp_port, service_name),
                r.0,
            ),
        args_fault(udp_port, service_name) is Some ==> r.0 == host,
{
    let ghost nothing = Seq::<SenderCall<B>>::empty();
    let ghost mut run: StartRun<B> = arbitrary();
    let args = match plan_sender_start(udp_port, service_name) {
        Ok(args) => args,
        Err(e) => {
            assert(run.calls(udp_port, service_name) =~= nothing);
            return (host, Err(e));
        },
    };
    let (at, mut bridge) = host.lock();
    let ghost first = SenderCall::Lock(bridge);
    let ghost locked = at;
    proof {
        run.found = bridge;
        trace::lemma_called(host, nothing, host, first, at);
    }
    let begun = begin_sender_start(&mut bridge, channel, args);
    let builder = bridge.builder.clone();
    let ghost second = SenderCall::Unlock(bridge);
    let at = at.unlock(bridge);
    let ghost freed = at;
    proof {
        run.builder = builder;
        trace::lemma_called(host, nothing.push(first), locked, second, at);
    }
    let start = match begun {
        Ok(start) => start,
        Err(e) => {
            assert(run.calls(udp_port, service_name) =~= nothing.push(first).push(second));
            return (at, Err(e));
        },
    };
    let (at, built) = at.build(builder, start.request.clone());
    let ghost third = SenderCall::Build { builder: run.builder, request: start.request, built };
    let ghost so_far = nothing.push(first).push(second).push(third);
    let ghost made = at;
    proof {
        run.start = start;
        run.built = built;
        trace::lemma_called(host, nothing.push(first).push(second), freed, third, at);
    }
    let bundle = match built {
        Ok(bundle) => bundle,
        Err(failure) => {
            assert(run.calls(udp_port, service_name) =~= so_far);
            return (at, Err(start_error(failure)));
        },
    };
    let (at, mut bridge) = at.lock();
    let ghost fourth = SenderCall::Lock(bridge);
    let ghost locked = at;
    proof {
        run.later = bridge;
        trace::lemma_called(host, so_far, made, fourth, at);
    }
    finish_sender_start(&mut bridge, start, bundle);
    let ghost fifth = SenderCall::Unlock(bridge);
    let at = at.unlock(bridge);
    proof {
        trace::lemma_called(host, so_far.push(fourth), locked, fifth, at);
        assert(run.calls(udp_port, service_name) =~= so_far.push(fourth).push(fifth));
    }
    (at, Ok(SenderStatusEvent::Connecting))
}

/// A start gives back well-formed bridges, if those that it finds are well-formed and no stop flag
/// is taken back in the meantime.
pub proof fn law_start_keeps_bridges_well_formed<B: Clone>(
    run: StartRun<B>,
    channel: u64,
    udp_port: Option<u16>,
    service_name: Option<String>,
    r: Result<SenderStatusEvent, StartSenderError>,
)
    requires
        run.answers(channel, udp_port, service_name, r),
        start_fault(run.found.current_args, udp_port, service_name) is None,
        run.found.wf(),
        run.later.wf(),
        run.found.cleared_for_start().flags_issued <= run.later.flags_issued,
    ensures
        run.found.cleared_for_start().wf(),
        run.built matches Ok(bundle) ==> run.later.started(run.start, bundle).wf(),
{
    law_default_name_is_accepted();
    if service_name is Some {
        validation::law_accepted_names(service_name->0@);
    }
}

/// A start keeps what has come to be in the bridge while the pipeline was built: the supervisor that
/// the pipeline has registered, and the count of watchdog fires.
pub proof fn law_start_keeps_registrations<B>(
    later: SenderBridge<B>,
    start: SenderStart,
    bundle: SenderBundle,
)
    ensures
        later.started(start, bundle).supervisor_signal_tx == later.supervisor_signal_tx,
        later.started(start, bundle).media_watchdog_fires == later.media_watchdog_fires,
        later.started(start, bundle).flags_issued == later.flags_issued,
        later.started(start, bundle).builder == later.builder,
{
}

/// The default service name is one that a start accepts.
pub proof fn law_default_name_is_accepted()
    ensures
        validation::is_service_name("_screen-mirror._tcp.local."@),
{
    reveal_strlit("_screen-mirror._tcp.local.");
    reveal_strlit("screen-mirror");
    reveal_strlit("tcp");
    reveal_strlit(".local.");
    let service = "screen-mirror"@;
    let protocol = "tcp"@;
    assert(validation::is_name_of("_screen-mirror._tcp.local."@, service, protocol)) by {
        assert("_screen-mirror._tcp.local."@ =~= seq!['_'] + service + seq!['.', '_'] + protocol
            + ".local."@);
    }
}

/// The step for a resource, if it is there.
pub open spec fn step_if(resource: Option<u64>, step: spec_fn(u64) -> SenderStep) -> Seq<
    SenderStep,
> {
    match resource {
        Some(h) => seq![step(h)],
        None => Seq::empty(),
    }
}

/// Waiting for each of these threads, in order.
pub open spec fn joins(handles: Seq<u64>) -> Seq<SenderStep> {
    handles.map_values(|h: u64| SenderStep::JoinDrain(h))
}

/// How a session that the user stops is taken down.
pub open spec fn stop_steps(session: SenderSession, supervisor: Option<u64>) -> Seq<SenderStep> {
    step_if(supervisor, |h: u64| SenderStep::StopSupervisor(h)) + seq![
        SenderStep::RaiseStopFlag(session.stop_flag),
    ] + step_if(session.shutdown, |h: u64| SenderStep::Shutdown(h)) + joins(
        session.drain_handles@,
    ) + seq![SenderStep::ShowStopped(session.channel)]
}

/// Appends a step for each of these threads.
pub(crate) fn push_joins(steps: &mut Vec<SenderStep>, handles: &Vec<u64>)
    ensures
        final(steps)@ == old(steps)@ + joins(handles@),
{
    let ghost before = steps@;
    let mut i: usize = 0;
    while i < handles.len()
        invariant
            i <= handles.len(),
            steps@ =~= before + joins(handles@).take(i as int),
        decreases handles.len() - i,
    {
        steps.push(SenderStep::JoinDrain(handles[i]));
        i += 1;
    }
}

impl<B> SenderBridge<B> {
    /// The bridge without its session.
    pub open spec fn without_session(self) -> SenderBridge<B> {
        SenderBridge { session: None, ..self }
    }

    /// The bridge without the parameters of its session.
    pub open spec fn forgotten(self) -> SenderBridge<B> {
        SenderBridge { current_args: None, restart_cache: None, ..self }
    }

    /// The bridge after a stop, if nothing else has happened to it.
    pub open spec fn stopped(self) -> SenderBridge<B> {
        self.without_session().forgotten()
    }

    /// What a stop asks to be done.
    pub open spec fn steps_to_stop(self) -> Seq<SenderStep> {
        match self.session {
            Some(session) => stop_steps(session, self.supervisor_signal_tx),
            None => Seq::empty(),
        }
    }
}

/// Takes the session out and says how to take it down. The arguments and the restart parameters
/// stay.
pub fn stop_sender_session_internal<B>(bridge: &mut SenderBridge<B>) -> (steps: Vec<SenderStep>)
    ensures
        steps@ == old(bridge).steps_to_stop(),
        *final(bridge) == old(bridge).without_session(),
        old(bridge).wf() ==> final(bridge).wf(),
{
    let mut steps: Vec<SenderStep> = Vec::new();
    match bridge.session.take() {
        None => {},
        Some(session) => {
            if let Some(supervisor) = bridge.supervisor_signal_tx {
                steps.push(SenderStep::StopSupervisor(supervisor));
            }
            steps.push(SenderStep::RaiseStopFlag(session.stop_flag));
            if let Some(shutdown) = session.shutdown {
                steps.push(SenderStep::Shutdown(shutdown));
            }
            push_joins(&mut steps, &session.drain_handles);
            steps.push(SenderStep::ShowStopped(session.channel));
            assert(steps@ =~= stop_steps(session, old(bridge).supervisor_signal_tx));
        },
    }
    steps
}

/// Forgets the parameters of a session that is gone, so that another can be started.
pub fn forget_sender_session<B>(bridge: &mut SenderBridge<B>)
    ensures
        *final(bridge) == old(bridge).forgotten(),
        old(bridge).wf() || old(bridge).session is None ==> final(bridge).wf(),
{
    bridge.current_args = None;
    bridge.restart_cache = None;
}

/// The arguments of the last session, with which it can be started again.
pub fn plan_retry<B>(bridge: &SenderBridge<B>) -> (r: Result<SenderArgs, String>)
    ensures
        match bridge.restart_cache {
            None => r matches Err(text) && text@ == no_cached_params(),
            Some(cache) => r == Ok::<SenderArgs, String>(
                SenderArgs { udp_port: cache.udp_port, service_name: cache.service_name },
            ),
        },
{
    match &bridge.restart_cache {
        None => Err("NoCachedParams: no cached session params — start a session first".to_string()),
        Some(cache) => Ok(
            SenderArgs { udp_port: cache.udp_port, service_name: cache.service_name.clone() },
        ),
    }
}

/// The answer to a retry whose start failed.
pub fn retry_error(e: &StartSenderError) -> (text: String)
    ensures
        text@ == retry_failed(*e),
{
    let mut text = "retry_session start_sender_inner failed: ".to_string();
    let why = e.message();
    text.append(why.as_str());
    text
}

/// The calls that take these steps.
pub open spec fn step_calls<B>(steps: Seq<SenderStep>) -> Seq<SenderCall<B>> {
    steps.map_values(|step: SenderStep| SenderCall::<B>::Perform(step))
}

/// Takes these steps, in order.
fn take_steps<B, H: SenderHost<B>>(host: H, steps: &Vec<SenderStep>) -> (after: H)
    ensures
        trace::leads(host, step_calls::<B>(steps@), after),
{
    let mut at = host;
    let mut i: usize = 0;
    assert(step_calls::<B>(steps@.take(0)) =~= Seq::empty());
    while i < steps.len()
        invariant
            i <= steps.len(),
            trace::leads(host, step_calls::<B>(steps@.take(i as int)), at),
        decreases steps.len() - i,
    {
        let ghost before = at;
        at = at.perform(steps[i]);
        proof {
            let calls = step_calls::<B>(steps@.take(i as int));
            let call = SenderCall::<B>::Perform(steps@[i as int]);
            trace::lemma_called(host, calls, before, call, at);
            assert(step_calls::<B>(steps@.take(i + 1)) =~= calls.push(call));
        }
        i += 1;
    }
    assert(steps@.take(i as int) =~= steps@);
    at
}

/// The answer to a retry, by what came of its start.
pub open spec fn answers_retry(
    r: Result<SenderStatusEvent, String>,
    started: Result<SenderStatusEvent, StartSenderError>,
) -> bool {
    match started {
        Ok(event) => r == Ok::<SenderStatusEvent, String>(event),
        Err(e) => r matches Err(text) && text@ == retry_failed(e),
    }
}

/// What goes on in a stop: the bridge as the stop finds it, and as it is once the session is down.
pub struct StopRun<B> {
    pub found: SenderBridge<B>,
    pub later: SenderBridge<B>,
}

impl<B> StopRun<B> {
    /// The calls of a stop: the session is taken out, then taken down step by step while the bridge
    /// is free, and only then are its parameters forgotten, so that no start is let through before.
    pub open spec fn calls(self) -> Seq<SenderCall<B>> {
        seq![SenderCall::Lock(self.found), SenderCall::Unlock(self.found.without_session())]
            + step_calls::<B>(self.found.steps_to_stop()) + seq![
            SenderCall::Lock(self.later),
            SenderCall::Unlock(self.later.forgotten()),
        ]
    }
}

/// Stops the session, if there is one, and forgets its parameters.
pub fn stop_sender_session<B, H: SenderHost<B>>(host: H) -> (after: H)
    ensures
        exists|run: StopRun<B>| trace::leads(host, #[trigger] run.calls(), after),
{
    let ghost nothing = Seq::<SenderCall<B>>::empty();
    let (at, mut bridge) = host.lock();
    let ghost found = bridge;
    let ghost locked = at;
    let steps = stop_sender_session_internal(&mut bridge);
    let at = at.unlock(bridge);
    let ghost freed = at;
    let ghost head = seq![SenderCall::Lock(found), SenderCall::Unlock(found.without_session())];
    proof {
        trace::lemma_called(host, nothing, host, head[0], locked);
        trace::lemma_called(host, nothing.push(head[0]), locked, head[1], at);
        assert(head =~= nothing.push(head[0]).push(head[1]));
    }
    let at = take_steps::<B, H>(at, &steps);
    let ghost down = head + step_calls::<B>(steps@);
    proof {
        trace::lemma_joined(host, head, freed, step_calls::<B>(steps@), at);
    }
    let ghost taken = at;
    let (at, mut bridge) = at.lock();
    let ghost later = bridge;
    let ghost locked = at;
    forget_sender_session(&mut bridge);
    let after = at.unlock(bridge);
    proof {
        let lock = SenderCall::Lock(later);
        let unlock = SenderCall::Unlock(later.forgotten());
        trace::lemma_called(host, down, taken, lock, locked);
        trace::lemma_called(host, down.push(lock), locked, unlock, after);
        assert((StopRun { found, later }).calls() =~= down.push(lock).push(unlock));
    }
    after
}

/// What goes on in a retry: the bridge in which it looks for parameters, and, if there are some, a
/// whole stop and then a whole start.
pub struct RetryRun<B> {
    pub bridge: SenderBridge<B>,
    pub stop: StopRun<B>,
    pub start: StartRun<B>,
    pub started: Result<SenderStatusEvent, StartSenderError>,
}

impl<B: Clone> RetryRun<B> {
    /// What the retry answers: that there is nothing to retry, or what came of the start.
    pub open spec fn answers(self, channel: u64, r: Result<SenderStatusEvent, String>) -> bool {
        match self.bridge.restart_cache {
            None => r matches Err(text) && text@ == no_cached_params(),
            Some(cache) => {
                &&& self.start.answers(
                    channel,
                    Some(cache.udp_port),
                    Some(cache.service_name),
                    self.started,
                )
                &&& answers_retry(r, self.started)
            },
        }
    }

    /// The calls of the retry. Without parameters the bridge is only looked at.
    pub open spec fn calls(self) -> Seq<SenderCall<B>> {
        let look = seq![SenderCall::Lock(self.bridge), SenderCall::Unlock(self.bridge)];
        match self.bridge.restart_cache {
            None => look,
            Some(cache) => look + self.stop.calls() + self.start.calls(
                Some(cache.udp_port),
                Some(cache.service_name),
            ),
        }
    }
}

/// Starts the last session again in another channel. A session that is still active is taken down
/// first, step by step, and only then is the new one built. If nothing was ever started, the bridge
/// is only looked at.
pub fn retry_session_inner<B: Clone, H: SenderHost<B>>(host: H, channel: u64) -> (r: (
    H,
    Result<SenderStatusEvent, String>,
))
    ensures
        exists|retry: RetryRun<B>|
            retry.answers(channel, r.1) && trace::leads(host, #[trigger] retry.calls(), r.0),
{
    let ghost nothing = Seq::<SenderCall<B>>::empty();
    let ghost mut retry: RetryRun<B> = arbitrary();
    let (at, bridge) = host.lock();
    let ghost found = bridge;
    let ghost locked = at;
    let planned = plan_retry(&bridge);
    let at = at.unlock(bridge);
    let ghost looked = at;
    let ghost look = seq![SenderCall::Lock(found), SenderCall::Unlock(found)];
    proof {
        retry.bridge = found;
        trace::lemma_called(host, nothing, host, look[0], locked);
        trace::lemma_called(host, nothing.push(look[0]), locked, look[1], at);
        assert(look =~= nothing.push(look[0]).push(look[1]));
    }
    let args = match planned {
        Ok(args) => args,
        Err(text) => {
            assert(retry.calls() == look);
            return (at, Err(text));
        },
    };
    let ghost port = Some(args.udp_port);
    let ghost name = Some(args.service_name);
    let at = stop_sender_session::<B, H>(at);
    let ghost down = at;
    let (after, started) = start_sender_inner::<B, H>(
        at,
        channel,
        Some(args.udp_port),
        Some(args.service_name),
    );
    let ghost the_answer = started;
    let answer = match started {
        Ok(event) => Ok(event),
        Err(e) => Err(retry_error(&e)),
    };
    proof {
        let stop = choose|stop: StopRun<B>|
            trace::leads(looked, #[trigger] stop.calls(), down);
        let run = choose|run: StartRun<B>|
            run.answers(channel, port, name, the_answer) && trace::leads(
                down,
                #[trigger] run.calls(port, name),
                after,
            );
        trace::lemma_joined(host, look, looked, stop.calls(), down);
        trace::lemma_joined(host, look + stop.calls(), down, run.calls(port, name), after);
        retry.stop = stop;
        retry.start = run;
        retry.started = the_answer;
        assert(retry.calls() == look + stop.calls() + run.calls(port, name));
        assert(retry.answers(channel, answer));
    }
    (after, answer)
}

/// The answer to a retry when nothing was ever started.
pub open spec fn no_cached_params() -> Seq<char> {
    "NoCachedParams: no cached session params — start a session first"@
}

/// The answer to a retry whose start failed.
pub open spec fn retry_failed(e: StartSenderError) -> Seq<char> {
    "retry_session start_sender_inner failed: "@ + e.text()
}

/// What the diagnostics show; an error while there is no session.
pub fn sender_diagnostics_impl<B>(bridge: &SenderBridge<B>) -> (r: Result<SenderStats, String>)
    ensures
        match bridge.session {
            None => r matches Err(text) && text@ == "not running"@,
            Some(session) => r == Ok::<SenderStats, String>(
                SenderStats {
                    dropped_frames_encoder: session.counters.dropped_frames_encoder,
                    dropped_frames_transport: session.counters.dropped_frames_transport,
                    keyframe_requests_received: session.counters.keyframe_requests_received,
                    running: true,
                    backend_name: session.backend_name,
                },
            ),
        },
{
    match &bridge.session {
        None => Err("not running".to_string()),
        Some(session) => Ok(
            SenderStats {
                dropped_frames_encoder: session.counters.dropped_frames_encoder,
                dropped_frames_transport: session.counters.dropped_frames_transport,
                keyframe_requests_received: session.counters.keyframe_requests_received,
                running: true,
                backend_name: session.backend_name.clone(),
            },
        ),
    }
}

/// Stopping twice is stopping once: the second stop finds nothing to do and changes nothing.
pub proof fn law_stop_is_idempotent<B>(bridge: SenderBridge<B>)
    ensures
        bridge.stopped().stopped() == bridge.stopped(),
        bridge.stopped().steps_to_stop() == Seq::<SenderStep>::empty(),
{
}

/// After a stop, every start with acceptable arguments is let through.
pub proof fn law_stop_makes_way<B>(
    bridge: SenderBridge<B>,
    udp_port: Option<u16>,
    service_name: Option<String>,
)
    requires
        udp_port matches Some(port) ==> accepts_port(port),
        service_name matches Some(name) ==> validation::is_service_name(name@),
    ensures
        start_fault(bridge.stopped().current_args, udp_port, service_name) is None,
{
    if let Some(name) = service_name {
        validation::law_accepted_names(name@);
    }
}

/// While a session is active, a start with acceptable arguments is answered with the arguments of
/// that session, be they the same or not.
pub proof fn law_second_start_is_refused<B>(
    bridge: SenderBridge<B>,
    start: SenderStart,
    bundle: SenderBundle,
    udp_port: Option<u16>,
    service_name: Option<String>,
)
    requires
        udp_port matches Some(port) ==> accepts_port(port),
        service_name matches Some(name) ==> validation::is_service_name(name@),
    ensures
        start_fault(bridge.started(start, bundle).current_args, udp_port, service_name) == Some(
            StartFault::Running(
                SenderArgs {
                    udp_port: start.request.udp_port,
                    service_name: start.request.service_name,
                },
            ),
        ),
{
    if let Some(name) = service_name {
        validation::law_accepted_names(name@);
    }
}

/// A stop by the user takes none of the steps that belong to a rebuild: the peer gets its goodbye.
/// The supervisor hears of it first; the stop flag goes up before anything is shut down, threads
/// are waited for after that, and the frontend hears of it last.
pub proof fn law_genuine_stop(session: SenderSession, supervisor: Option<u64>, i: int, j: int)
    requires
        0 <= i < j < stop_steps(session, supervisor).len(),
    ensures
        !stop_steps(session, supervisor)[i].is_rebuild_only(),
        !stop_steps(session, supervisor)[j].is_rebuild_only(),
        stop_steps(session, supervisor)[j] !is StopSupervisor,
        stop_steps(session, supervisor)[j] is RaiseStopFlag ==> stop_steps(
            session,
            supervisor,
        )[i] is StopSupervisor,
        stop_steps(session, supervisor)[j] is Shutdown ==> stop_steps(
            session,
            supervisor,
        )[i] is StopSupervisor || stop_steps(session, supervisor)[i] is RaiseStopFlag,
        stop_steps(session, supervisor)[i] !is ShowStopped,
        stop_steps(session, supervisor).last() == SenderStep::ShowStopped(session.channel),
{
    let steps = stop_steps(session, supervisor);
    let a = step_if(supervisor, |h: u64| SenderStep::StopSupervisor(h));
    let b = step_if(session.shutdown, |h: u64| SenderStep::Shutdown(h));
    let c = joins(session.drain_handles@);
    assert(steps.len() == a.len() + 1 + b.len() + c.len() + 1);
    assert forall|k: int| 0 <= k < steps.len() implies #[trigger] steps[k] == (if k < a.len() {
        a[k]
    } else if k == a.len() {
        SenderStep::RaiseStopFlag(session.stop_flag)
    } else if k < a.len() + 1 + b.len() {
        b[k - a.len() - 1]
    } else if k < a.len() + 1 + b.len() + c.len() {
        SenderStep::JoinDrain(session.drain_handles@[k - a.len() - 1 - b.len()])
    } else {
        SenderStep::ShowStopped(session.channel)
    }) by {}
}

/// The parameters of a session that was started once are always good for another start: after a
/// retry's stop, only the builder can stand in its way, unless another start has come in between.
pub proof fn law_retry_passes_the_checks<B>(bridge: SenderBridge<B>, found: SenderBridge<B>)
    requires
        bridge.wf(),
        bridge.restart_cache is Some,
        found.current_args is None,
    ensures
        start_fault(
            found.current_args,
            Some(bridge.restart_cache->0.udp_port),
            Some(bridge.restart_cache->0.service_name),
        ) is None,
{
    law_stop_makes_way(
        bridge,
        Some(bridge.restart_cache->0.udp_port),
        Some(bridge.restart_cache->0.service_name),
    );
}

/// Each call of a command goes to the method of the host that it is named after, with these arguments
/// and this answer.
pub proof fn law_calls_reach_the_host<B, H: SenderHost<B>>(call: SenderCall<B>, before: H, after: H)
    requires
        HostCall::<H>::made(call, before, after),
    ensures
        call matches SenderCall::Lock(bridge) ==> call_ensures(H::lock, (before,), (after, bridge)),
        call matches SenderCall::Unlock(bridge) ==> call_ensures(
            H::unlock,
            (before, bridge),
            after,
        ),
        call matches SenderCall::Perform(step) ==> call_ensures(H::perform, (before, step), after),
        call matches SenderCall::Build { builder, request, built } ==> call_ensures(
            H::build,
            (before, builder, request),
            (after, built),
        ),
{
}

/// A start whose arguments are good and that finds no session asks the builder once, for a cold
/// generation with the port and the name that were given, or with a port of the system's choice and
/// the usual name, in the channel it was called with, under the next stop flag. Before that it
/// forgets an earlier supervisor and ends the run of watchdog fires. What the builder makes is
/// installed as it is, with counters at zero, with the arguments it was asked for and with a nonce
/// that was drawn; what else has come to be in the bridge stays. A build that failed is answered by
/// the port or the text it failed with, and changes nothing more.
pub proof fn law_what_a_start_does<B: Clone>(
    run: StartRun<B>,
    channel: u64,
    udp_port: Option<u16>,
    service_name: Option<String>,
    r: Result<SenderStatusEvent, StartSenderError>,
)
    requires
        run.answers(channel, udp_port, service_name, r),
        udp_port matches Some(port) ==> port == 0 || port >= 1024,
        service_name matches Some(name) ==> validation::is_service_name(name@),
        run.found.current_args is None,
    ensures
        ({
            let request = run.start.request;
            &&& request.udp_port == (match udp_port {
                Some(port) => port,
                None => 0,
            })
            &&& request.service_name@ == (match service_name {
                Some(name) => name@,
                None => "_screen-mirror._tcp.local."@,
            })
            &&& request.stop_flag == run.found.flags_issued
            &&& request.channel == channel
            &&& request.attempt == 1
            &&& !request.arm_media_watchdog
            &&& nonce::is_draw(run.start.session_nonce)
            &&& cloned(run.found.builder, run.builder)
            &&& match run.built {
                Ok(_) => r == Ok::<SenderStatusEvent, StartSenderError>(
                    SenderStatusEvent::Connecting,
                ),
                Err(BundleError::PortInUse(port)) => r == Err::<
                    SenderStatusEvent,
                    StartSenderError,
                >(StartSenderError::PortInUse { port }),
                Err(BundleError::NoLocalNic) => r matches Err(
                    StartSenderError::BundleBuildFailed(s),
                ) && s@ == "no local network interface available"@,
                Err(BundleError::Other(s)) => r == Err::<SenderStatusEvent, StartSenderError>(
                    StartSenderError::BundleBuildFailed(s),
                ),
            }
            &&& run.calls(udp_port, service_name) == seq![
                SenderCall::Lock(run.found),
                SenderCall::Unlock(
                    SenderBridge {
                        supervisor_signal_tx: None,
                        media_watchdog_fires: 0,
                        flags_issued: flags::one_more(run.found.flags_issued),
                        ..run.found
                    },
                ),
                SenderCall::Build { builder: run.builder, request, built: run.built },
            ] + (match run.built {
                Ok(bundle) => seq![
                    SenderCall::Lock(run.later),
                    SenderCall::Unlock(
                        SenderBridge {
                            session: Some(
                                SenderSession {
                                    stop_flag: request.stop_flag,
                                    drain_handles: bundle.drain_handles,
                                    channel: request.channel,
                                    counters: SenderCounters {
                                        dropped_frames_encoder: 0,
                                        dropped_frames_transport: 0,
                                        keyframe_requests_received: 0,
                                    },
                                    shutdown: bundle.shutdown,
                                    suppress_bye_on_rebuild: bundle.suppress_bye_on_rebuild,
                                    stop_signaling_on_rebuild: bundle.stop_signaling_on_rebuild,
                                    disarm_escalation_on_rebuild:
                                        bundle.disarm_escalation_on_rebuild,
                                    backend_name: bundle.backend_name,
                                },
                            ),
                            current_args: Some(
                                SenderArgs {
                                    udp_port: request.udp_port,
                                    service_name: request.service_name,
                                },
                            ),
                            restart_cache: Some(
                                RestartCache {
                                    udp_port: request.udp_port,
                                    service_name: request.service_name,
                                    channel: request.channel,
                                    session_nonce: run.start.session_nonce,
                                },
                            ),
                            ..run.later
                        },
                    ),
                ],
                Err(_) => Seq::empty(),
            })
        }),
{
    if let Some(name) = service_name {
        validation::law_accepted_names(name@);
    }
}

/// A start that is refused changes nothing, and calls nobody unless it has to look for a session. A
/// bad port is refused first, then a bad name, and then, if there is a session, the start itself,
/// with the arguments of that session.
pub proof fn law_what_a_refused_start_answers<B: Clone>(
    run: StartRun<B>,
    channel: u64,
    udp_port: Option<u16>,
    service_name: Option<String>,
    r: Result<SenderStatusEvent, StartSenderError>,
)
    requires
        run.answers(channel, udp_port, service_name, r),
    ensures
        ({
            let bad_port = udp_port is Some && 1 <= udp_port->0 < 1024;
            let bad_name = service_name is Some && !validation::is_service_name(service_name->0@);
            &&& bad_port ==> {
                &&& r == Err::<SenderStatusEvent, StartSenderError>(
                    StartSenderError::InvalidPort {
                        value: udp_port->0,
                        reason: crate::errors::PortRejectReason::Privileged,
                    },
                )
                &&& run.calls(udp_port, service_name) == Seq::<SenderCall<B>>::empty()
            }
            &&& !bad_port && bad_name ==> {
                &&& r matches Err(StartSenderError::InvalidServiceName { value, reason })
                &&& value@ == service_name->0@
                &&& Some(reason@) == validation::name_fault(value@)
                &&& run.calls(udp_port, service_name) == Seq::<SenderCall<B>>::empty()
            }
            &&& !bad_port && !bad_name && run.found.current_args is Some ==> {
                &&& r == Err::<SenderStatusEvent, StartSenderError>(
                    StartSenderError::AlreadyRunning {
                        udp_port: run.found.current_args->0.udp_port,
                        service_name: run.found.current_args->0.service_name,
                    },
                )
                &&& run.calls(udp_port, service_name) == seq![
                    SenderCall::Lock(run.found),
                    SenderCall::Unlock(run.found),
                ]
            }
        }),
{
    if let Some(name) = service_name {
        validation::law_accepted_names(name@);
    }
}

/// What a stop does, call for call. The session is taken out of the bridge, which is otherwise left
/// as it is. Then its supervisor is told to stop, its stop flag goes up, its pipeline is shut down,
/// each of its threads is waited for, in order, and its channel shows that it has stopped; without a
/// session there is nothing of that. Last, the arguments and the restart parameters are forgotten in
/// the bridge as it is by then, and nothing else.
pub proof fn law_what_a_stop_does<B>(run: StopRun<B>)
    ensures
        run.calls() == (seq![
            SenderCall::Lock(run.found),
            SenderCall::Unlock(SenderBridge { session: None, ..run.found }),
        ] + (match run.found.session {
            Some(session) => (match run.found.supervisor_signal_tx {
                Some(h) => seq![SenderCall::<B>::Perform(SenderStep::StopSupervisor(h))],
                None => Seq::empty(),
            }) + seq![SenderCall::<B>::Perform(SenderStep::RaiseStopFlag(session.stop_flag))] + (
            match session.shutdown {
                Some(h) => seq![SenderCall::<B>::Perform(SenderStep::Shutdown(h))],
                None => Seq::empty(),
            }) + Seq::new(
                session.drain_handles@.len(),
                |k: int|
                    SenderCall::<B>::Perform(SenderStep::JoinDrain(session.drain_handles@[k])),
            ) + seq![SenderCall::<B>::Perform(SenderStep::ShowStopped(session.channel))],
            None => Seq::empty(),
        })) + seq![
            SenderCall::Lock(run.later),
            SenderCall::Unlock(
                SenderBridge { current_args: None, restart_cache: None, ..run.later },
            ),
        ],
{
    if let Some(session) = run.found.session {
        let told: Seq<SenderCall<B>> = match run.found.supervisor_signal_tx {
            Some(h) => seq![SenderCall::<B>::Perform(SenderStep::StopSupervisor(h))],
            None => Seq::<SenderCall<B>>::empty(),
        };
        let raised = seq![SenderCall::<B>::Perform(SenderStep::RaiseStopFlag(session.stop_flag))];
        let shut: Seq<SenderCall<B>> = match session.shutdown {
            Some(h) => seq![SenderCall::<B>::Perform(SenderStep::Shutdown(h))],
            None => Seq::<SenderCall<B>>::empty(),
        };
        let joined = Seq::new(
            session.drain_handles@.len(),
            |k: int| SenderCall::<B>::Perform(SenderStep::JoinDrain(session.drain_handles@[k])),
        );
        let shown = seq![SenderCall::<B>::Perform(SenderStep::ShowStopped(session.channel))];
        assert(step_calls::<B>(run.found.steps_to_stop()) =~= told + raised + shut + joined
            + shown);
    } else {
        assert(step_calls::<B>(run.found.steps_to_stop()) =~= Seq::<SenderCall<B>>::empty());
    }
}

/// What a retry does. Without restart parameters it looks at the bridge, gives it back, and says that
/// there is nothing to retry. With some, it looks at the bridge, makes a whole stop and then a whole
/// start with their port and their name, in the channel it was called with. It answers what the start
/// answers, a failure by its text.
pub proof fn law_what_a_retry_does<B: Clone>(
    retry: RetryRun<B>,
    channel: u64,
    r: Result<SenderStatusEvent, String>,
)
    requires
        retry.answers(channel, r),
    ensures
        match retry.bridge.restart_cache {
            None => {
                &&& retry.calls() == seq![
                    SenderCall::Lock(retry.bridge),
                    SenderCall::Unlock(retry.bridge),
                ]
                &&& r matches Err(text) && text@
                    == "NoCachedParams: no cached session params — start a session first"@
            },
            Some(cache) => {
                &&& retry.calls() == seq![
                    SenderCall::Lock(retry.bridge),
                    SenderCall::Unlock(retry.bridge),
                ] + retry.stop.calls() + retry.start.calls(
                    Some(cache.udp_port),
                    Some(cache.service_name),
                )
                &&& retry.start.answers(
                    channel,
                    Some(cache.udp_port),
                    Some(cache.service_name),
                    retry.started,
                )
                &&& retry.started matches Ok(event) ==> r == Ok::<SenderStatusEvent, String>(event)
                &&& retry.started matches Err(e) ==> (r matches Err(text) && text@
                    == "retry_session start_sender_inner failed: "@ + e.text())
            },
        },
{
}

/// What the diagnostics show of a session is what the session has counted, each count under its own
/// name, and the backend it was made with. Without a session they say that nothing runs.
pub proof fn law_what_the_diagnostics_show<B>(
    bridge: &SenderBridge<B>,
    r: Result<SenderStats, String>,
    planned: Result<SenderArgs, String>,
)
    requires
        call_ensures(sender_diagnostics_impl::<B>, (bridge,), r),
        call_ensures(plan_retry::<B>, (bridge,), planned),
    ensures
        match bridge.session {
            None => r matches Err(text) && text@ == "not running"@,
            Some(session) => r matches Ok(stats) && {
                &&& stats.dropped_frames_encoder == session.counters.dropped_frames_encoder
                &&& stats.dropped_frames_transport == session.counters.dropped_frames_transport
                &&& stats.keyframe_requests_received == session.counters.keyframe_requests_received
                &&& stats.running
                &&& stats.backend_name@ == session.backend_name@
            },
        },
        planned is Ok <==> bridge.restart_cache is Some,
        planned matches Ok(args) ==> args.udp_port == bridge.restart_cache->0.udp_port
            && args.service_name@ == bridge.restart_cache->0.service_name@,
{
}

/// A new bridge has no session, no arguments, no supervisor, no watchdog fires, and has handed out no
/// stop flag; a sender takes 0 and every port that needs no privilege.
pub proof fn law_what_a_new_bridge_holds<B>(builder: B, b: SenderBridge<B>, port: u16)
    requires
        call_ensures(SenderBridge::<B>::new_with_builder, (builder,), b),
    ensures
        b.session is None,
        b.builder == builder,
        b.current_args is None,
        b.restart_cache is None,
        b.supervisor_signal_tx is None,
        b.media_watchdog_fires == 0,
        b.flags_issued == 0,
        accepts_port(port) <==> port == 0 || port >= 1024,
{
}

/// A session made of its parts has each part in its own place, and says its backend's name.
pub proof fn law_what_a_session_is_made_of(
    stop_flag: u64,
    drain_handles: Vec<u64>,
    channel: u64,
    counters: SenderCounters,
    shutdown: Option<u64>,
    backend_name: String,
    suppress_bye_on_rebuild: Option<u64>,
    stop_signaling_on_rebuild: Option<u64>,
    disarm_escalation_on_rebuild: Option<u64>,
    s: SenderSession,
    name: &str,
)
    requires
        call_ensures(
            SenderSession::new,
            (
                stop_flag,
                drain_handles,
                channel,
                counters,
                shutdown,
                backend_name,
                suppress_bye_on_rebuild,
                stop_signaling_on_rebuild,
                disarm_escalation_on_rebuild,
            ),
            s,
        ),
        call_ensures(SenderSession::backend_name, (&s,), name),
    ensures
        s.stop_flag == stop_flag,
        s.drain_handles == drain_handles,
        s.channel == channel,
        s.counters == counters,
        s.shutdown == shutdown,
        s.suppress_bye_on_rebuild == suppress_bye_on_rebuild,
        s.stop_signaling_on_rebuild == stop_signaling_on_rebuild,
        s.disarm_escalation_on_rebuild == disarm_escalation_on_rebuild,
        name@ == backend_name@,
{
}

/// A bridge that is given a session, its restart parameters and a supervisor has them, and hands out
/// the stop flags behind that session's.
pub proof fn law_what_a_given_bridge_holds<B>(
    builder: B,
    session: Option<SenderSession>,
    restart_cache: Option<RestartCache>,
    supervisor: Option<u64>,
    b: SenderBridge<B>,
    c: SenderBridge<B>,
)
    requires
        call_ensures(
            SenderBridge::<B>::new_with_builder_and_arcs,
            (builder, session, restart_cache, supervisor),
            b,
        ),
        call_ensures(SenderBridge::<B>::new_with_builder_and_sup_tx, (builder, supervisor), c),
    ensures
        b.session == session,
        b.builder == builder,
        b.current_args is None,
        b.restart_cache == restart_cache,
        b.supervisor_signal_tx == supervisor,
        b.media_watchdog_fires == 0,
        session is None ==> b.flags_issued == 0,
        session matches Some(s) && s.stop_flag < u64::MAX ==> b.flags_issued
            == session->0.stop_flag + 1,
        c.session is None,
        c.builder == builder,
        c.supervisor_signal_tx == supervisor,
        c.flags_issued == 0,
{
}

/// What the bridge counts and hands out, seen on its functions themselves. The next stop flag is the
/// number of those before it. A fire is added to those before it, in eight bits, and a connection ends
/// the run. A keyframe request is counted for the session that is there. Nothing else changes.
pub proof fn law_functions_of_the_bridge<B>()
    ensures
        forall|bridge: &mut SenderBridge<B>, flag: u64| #[trigger]
            call_ensures(SenderBridge::<B>::issue_flag, (bridge,), flag) ==> {
                &&& flag == bridge.flags_issued
                &&& bridge.flags_issued < u64::MAX ==> final(bridge).flags_issued
                    == bridge.flags_issued + 1
                &&& *final(bridge) == (SenderBridge {
                    flags_issued: final(bridge).flags_issued,
                    ..*bridge
                })
            },
        forall|bridge: &mut SenderBridge<B>, before: u8| #[trigger]
            call_ensures(SenderBridge::<B>::count_fire, (bridge,), before) ==> {
                &&& before == bridge.media_watchdog_fires
                &&& final(bridge).media_watchdog_fires == (before + 1) % 256
                &&& *final(bridge) == (SenderBridge {
                    media_watchdog_fires: final(bridge).media_watchdog_fires,
                    ..*bridge
                })
            },
        forall|bridge: &mut SenderBridge<B>| #[trigger]
            call_ensures(SenderBridge::<B>::clear_fires, (bridge,), ()) ==> *final(bridge) == (
            SenderBridge { media_watchdog_fires: 0, ..*bridge }),
        forall|bridge: &mut SenderBridge<B>| #[trigger]
            call_ensures(SenderBridge::<B>::count_keyframe_request, (bridge,), ()) ==> {
                &&& bridge.session is None ==> *final(bridge) == *bridge
                &&& bridge.session matches Some(session) ==> {
                    &&& final(bridge).session matches Some(after)
                    &&& session.counters.keyframe_requests_received < u64::MAX
                        ==> after.counters.keyframe_requests_received
                        == session.counters.keyframe_requests_received + 1
                    &&& after == (SenderSession {
                        counters: SenderCounters {
                            keyframe_requests_received: after.counters.keyframe_requests_received,
                            ..session.counters
                        },
                        ..session
                    })
                    &&& *final(bridge) == (SenderBridge { session: Some(after), ..*bridge })
                }
            },
{
}

} // verus!
