//! The coordinators that stand between a reconnect supervisor and the rest of a session.
//!
//! A coordinator runs on the drain thread that met the failure, while the supervisor runs on a
//! thread of its own. It hands the supervisor's outcomes on: to the frontend, to the signaling
//! layer, to the rebuild worker. Callbacks are kept by the surrounding program; this module knows
//! each by the number it is kept under.
use crate::events;
use crate::events::{
    dead_reason_to_str, Received, ReconnectTrigger, SenderStatus, SenderStatusEvent, SessionState,
    Role, StreamStatus, StreamStatusEvent, SupervisorOutcome, SupervisorSignal, TransportEvent,
};
use vstd::prelude::*;

verus! {

/// Room for signals to a supervisor.
pub const SIGNAL_CAPACITY: usize = 16;

/// Room for outcomes of a supervisor.
pub const OUTCOME_CAPACITY: usize = 32;

/// How long a coordinator waits between two looks at the outcomes.
pub const COORDINATOR_WAIT_NS: u64 = 50_000_000;

/// How long a supervisor waits for the peer's acknowledgement.
pub const ACK_TIMEOUT_NS: u64 = 2_000_000_000;

/// How long a supervisor waits for a rebuild.
pub const REBUILD_TIMEOUT_NS: u64 = 15_000_000_000;

/// Settings of a reconnect supervisor.
#[derive(Debug, Clone, Copy, PartialEq, Eq, Structural)]
pub struct SupervisionSettings {
    /// Where the reconnect policy is kept; without one the supervisor follows its default.
    pub policy: Option<u64>,
    pub ack_timeout_ns: u64,
    pub rebuild_timeout_ns: u64,
}

impl SupervisionSettings {
    /// The settings of a supervisor that is not told otherwise.
    pub open spec fn usual() -> SupervisionSettings {
        SupervisionSettings {
            policy: None,
            ack_timeout_ns: ACK_TIMEOUT_NS,
            rebuild_timeout_ns: REBUILD_TIMEOUT_NS,
        }
    }

    /// The settings of a supervisor that is not told otherwise.
    pub fn production() -> (s: Self)
        ensures
            s == SupervisionSettings::usual(),
    {
        SupervisionSettings {
            policy: None,
            ack_timeout_ns: ACK_TIMEOUT_NS,
            rebuild_timeout_ns: REBUILD_TIMEOUT_NS,
        }
    }
}

/// A signaling layer that has to know which supervisor is live. It keeps a copy of the
/// supervisor's signal channel, and each new supervisor brings a new one.
pub trait SignalingSupervisorRefresh: Send + Sync {
    /// Takes the signal channel of the new supervisor.
    fn set_supervisor_signal_tx(&self, tx: u64);
}

/// No signaling layer.
#[derive(Debug, Clone, Copy, PartialEq, Eq, Structural)]
pub struct NoopSignalingRefresh;

impl SignalingSupervisorRefresh for NoopSignalingRefresh {
    fn set_supervisor_signal_tx(&self, tx: u64) {
    }
}

/// The callbacks of the sender's coordinator.
#[derive(Debug, Clone, Copy, PartialEq, Eq, Structural)]
pub struct SenderCoordinatorHooks {
    pub publish_reconnect_request: Option<u64>,
    pub publish_reconnect_ack: Option<u64>,
    pub initiate_rebuild: Option<u64>,
    pub initiate_mdns_reset: Option<u64>,
    /// The attempt that the current reconnect cycle is in; a rebuilt generation stamps its offer
    /// with it.
    pub sender_attempt: u8,
}

/// The callbacks of the receiver's coordinator.
#[derive(Debug, Clone, Copy, PartialEq, Eq, Structural)]
pub struct StreamCoordinatorHooks {
    pub publish_reconnect_request: Option<u64>,
    pub publish_reconnect_ack: Option<u64>,
    pub initiate_rebuild: Option<u64>,
    pub initiate_mdns_reset: Option<u64>,
}

impl SenderCoordinatorHooks {
    /// No callbacks.
    pub open spec fn none() -> SenderCoordinatorHooks {
        SenderCoordinatorHooks {
            publish_reconnect_request: None,
            publish_reconnect_ack: None,
            initiate_rebuild: None,
            initiate_mdns_reset: None,
            sender_attempt: 1,
        }
    }

    /// No callbacks: a coordinator with these only shows the session's state.
    pub fn noop() -> (h: Self)
        ensures
            h == SenderCoordinatorHooks::none(),
    {
        SenderCoordinatorHooks {
            publish_reconnect_request: None,
            publish_reconnect_ack: None,
            initiate_rebuild: None,
            initiate_mdns_reset: None,
            sender_attempt: 1,
        }
    }
}

impl StreamCoordinatorHooks {
    /// No callbacks.
    pub open spec fn none() -> StreamCoordinatorHooks {
        StreamCoordinatorHooks {
            publish_reconnect_request: None,
            publish_reconnect_ack: None,
            initiate_rebuild: None,
            initiate_mdns_reset: None,
        }
    }

    /// No callbacks: a coordinator with these only shows the session's state.
    pub fn noop() -> (h: Self)
        ensures
            h == StreamCoordinatorHooks::none(),
    {
        StreamCoordinatorHooks {
            publish_reconnect_request: None,
            publish_reconnect_ack: None,
            initiate_rebuild: None,
            initiate_mdns_reset: None,
        }
    }
}

/// What the sender's coordinator does about one outcome.
#[derive(Debug)]
pub enum SenderCoordinatorAction {
    Show(SenderStatusEvent),
    PublishRequest { hook: u64, attempt: u8, session_nonce: u64 },
    PublishAck { hook: u64, attempt: u8, session_nonce: u64 },
    /// Tell the supervisor, if there is room.
    Signal(SupervisorSignal),
    /// Rebuild the pipeline, in this attempt of the reconnect cycle.
    Rebuild { hook: u64, attempt: u8 },
    ResetMdns { hook: u64 },
}

/// What the receiver's coordinator does about one outcome.
#[derive(Debug)]
pub enum StreamCoordinatorAction {
    Show(StreamStatusEvent),
    PublishRequest { hook: u64, attempt: u8, session_nonce: u64 },
    PublishAck { hook: u64, attempt: u8, session_nonce: u64 },
    /// Tell the supervisor, if there is room.
    Signal(SupervisorSignal),
    Rebuild { hook: u64 },
    ResetMdns { hook: u64 },
}

/// An action of a coordinator, with `S` for what is shown.
#[allow(inconsistent_fields)]
pub enum Act<S> {
    Show(S),
    PublishRequest { hook: u64, attempt: u8, session_nonce: u64 },
    PublishAck { hook: u64, attempt: u8, session_nonce: u64 },
    Signal(SupervisorSignal),
    Rebuild { hook: u64, attempt: Option<u8> },
    ResetMdns { hook: u64 },
}

impl View for SenderCoordinatorAction {
    type V = Act<SenderStatus>;

    open spec fn view(&self) -> Act<SenderStatus> {
        match *self {
            SenderCoordinatorAction::Show(event) => Act::Show(event@),
            SenderCoordinatorAction::PublishRequest { hook, attempt, session_nonce } =>
                Act::PublishRequest { hook, attempt, session_nonce },
            SenderCoordinatorAction::PublishAck { hook, attempt, session_nonce } =>
                Act::PublishAck { hook, attempt, session_nonce },
            SenderCoordinatorAction::Signal(signal) => Act::Signal(signal),
            SenderCoordinatorAction::Rebuild { hook, attempt } => Act::Rebuild {
                hook,
                attempt: Some(attempt),
            },
            SenderCoordinatorAction::ResetMdns { hook } => Act::ResetMdns { hook },
        }
    }
}

impl View for StreamCoordinatorAction {
    type V = Act<StreamStatus>;

    open spec fn view(&self) -> Act<StreamStatus> {
        match *self {
            StreamCoordinatorAction::Show(event) => Act::Show(event@),
            StreamCoordinatorAction::PublishRequest { hook, attempt, session_nonce } =>
                Act::PublishRequest { hook, attempt, session_nonce },
            StreamCoordinatorAction::PublishAck { hook, attempt, session_nonce } =>
                Act::PublishAck { hook, attempt, session_nonce },
            StreamCoordinatorAction::Signal(signal) => Act::Signal(signal),
            StreamCoordinatorAction::Rebuild { hook } => Act::Rebuild { hook, attempt: None },
            StreamCoordinatorAction::ResetMdns { hook } => Act::ResetMdns { hook },
        }
    }
}

/// The sender's coordinator.
#[derive(Debug, Clone, Copy, PartialEq, Eq, Structural)]
pub struct SenderCoordinator {
    pub hooks: SenderCoordinatorHooks,
    /// The session has been connected before this cycle.
    pub ice_connected: bool,
    /// The last thing published in this cycle was an acknowledgement of the peer's request.
    pub peer_ack_seen: bool,
}

/// Publishing an acknowledgement or a request, where a callback is there for it.
pub open spec fn published<S>(
    hook: Option<u64>,
    ack: bool,
    attempt: u8,
    session_nonce: u64,
) -> Option<Act<S>> {
    match hook {
        Some(hook) => Some(
            if ack {
                Act::PublishAck { hook, attempt, session_nonce }
            } else {
                Act::PublishRequest { hook, attempt, session_nonce }
            },
        ),
        None => None,
    }
}

/// A rebuild goes to its callback; without one the supervisor is told at once that it failed, so
/// that it does not wait.
pub open spec fn rebuilt<S>(hook: Option<u64>, attempt: Option<u8>) -> Act<S> {
    match hook {
        Some(hook) => Act::Rebuild { hook, attempt },
        None => Act::Signal(SupervisorSignal::RebuildFailed),
    }
}

/// A reset goes to its callback, if there is one.
pub open spec fn mdns_reset<S>(hook: Option<u64>) -> Option<Act<S>> {
    match hook {
        Some(hook) => Some(Act::ResetMdns { hook }),
        None => None,
    }
}

impl SenderCoordinator {
    /// A session that never connected keeps its signaling when it is the peer that asks for a
    /// rebuild.
    pub open spec fn suppresses_rebuild(self) -> bool {
        !self.ice_connected && self.peer_ack_seen
    }

    /// The coordinator after an outcome.
    pub open spec fn after(self, outcome: SupervisorOutcome) -> SenderCoordinator {
        match outcome {
            SupervisorOutcome::StateChanged(SessionState::Reconnecting { attempt, .. }) =>
                SenderCoordinator {
                hooks: SenderCoordinatorHooks { sender_attempt: attempt, ..self.hooks },
                ..self
            },
            SupervisorOutcome::PublishReconnectRequest { .. } => SenderCoordinator {
                peer_ack_seen: false,
                ..self
            },
            SupervisorOutcome::PublishReconnectAck { .. } => SenderCoordinator {
                peer_ack_seen: true,
                ..self
            },
            _ => self,
        }
    }

    /// What is done about an outcome.
    pub open spec fn reaction(self, outcome: SupervisorOutcome) -> Option<Act<SenderStatus>> {
        match outcome {
            SupervisorOutcome::StateChanged(SessionState::Reconnecting { attempt, max }) => Some(
                Act::Show(SenderStatus::Reconnecting { attempt, max }),
            ),
            SupervisorOutcome::StateChanged(SessionState::Dead { reason }) => Some(
                Act::Show(SenderStatus::Dead { reason: events::dead_text(reason) }),
            ),
            SupervisorOutcome::StateChanged(SessionState::Connected) => Some(
                Act::Show(SenderStatus::Streaming),
            ),
            SupervisorOutcome::StateChanged(SessionState::Other) => None,
            SupervisorOutcome::Dead(_) => None,
            SupervisorOutcome::PublishReconnectRequest { attempt, session_nonce } => published(
                self.hooks.publish_reconnect_request,
                false,
                attempt,
                session_nonce,
            ),
            SupervisorOutcome::PublishReconnectAck { attempt, session_nonce } => published(
                self.hooks.publish_reconnect_ack,
                true,
                attempt,
                session_nonce,
            ),
            SupervisorOutcome::InitiateRebuild => if self.suppresses_rebuild() {
                Some(Act::Signal(SupervisorSignal::RebuildFailed))
            } else {
                Some(rebuilt(self.hooks.initiate_rebuild, Some(self.hooks.sender_attempt)))
            },
            SupervisorOutcome::InitiateMdnsReset => mdns_reset(self.hooks.initiate_mdns_reset),
            SupervisorOutcome::Stopped => None,
        }
    }

    /// A coordinator at the start of a reconnect cycle.
    pub fn new(hooks: SenderCoordinatorHooks, ice_connected: bool) -> (c: Self)
        ensures
            c == (SenderCoordinator { hooks, ice_connected, peer_ack_seen: false }),
    {
        SenderCoordinator { hooks, ice_connected, peer_ack_seen: false }
    }

    /// Takes one outcome of the supervisor and says what to do about it.
    pub fn handle_supervisor_outcome(&mut self, outcome: SupervisorOutcome) -> (r: Option<
        SenderCoordinatorAction,
    >)
        ensures
            *final(self) == old(self).after(outcome),
            match r {
                Some(action) => old(self).reaction(outcome) == Some(action@),
                None => old(self).reaction(outcome) is None,
            },
    {
        match outcome {
            SupervisorOutcome::StateChanged(SessionState::Reconnecting { attempt, max }) => {
                self.hooks.sender_attempt = attempt;
                Some(SenderCoordinatorAction::Show(SenderStatusEvent::Reconnecting { attempt, max }))
            },
            SupervisorOutcome::StateChanged(SessionState::Dead { reason }) => Some(
                SenderCoordinatorAction::Show(
                    SenderStatusEvent::Dead { reason: dead_reason_to_str(reason).to_string() },
                ),
            ),
            SupervisorOutcome::StateChanged(SessionState::Connected) => Some(
                SenderCoordinatorAction::Show(SenderStatusEvent::Streaming),
            ),
            SupervisorOutcome::StateChanged(SessionState::Other) => None,
            SupervisorOutcome::Dead(_) => None,
            SupervisorOutcome::PublishReconnectRequest { attempt, session_nonce } => {
                self.peer_ack_seen = false;
                match self.hooks.publish_reconnect_request {
                    Some(hook) => Some(
                        SenderCoordinatorAction::PublishRequest { hook, attempt, session_nonce },
                    ),
                    None => None,
                }
            },
            SupervisorOutcome::PublishReconnectAck { attempt, session_nonce } => {
                self.peer_ack_seen = true;
                match self.hooks.publish_reconnect_ack {
                    Some(hook) => Some(
                        SenderCoordinatorAction::PublishAck { hook, attempt, session_nonce },
                    ),
                    None => None,
                }
            },
            SupervisorOutcome::InitiateRebuild => {
                if !self.ice_connected && self.peer_ack_seen {
                    return Some(SenderCoordinatorAction::Signal(SupervisorSignal::RebuildFailed));
                }
                match self.hooks.initiate_rebuild {
                    Some(hook) => Some(
                        SenderCoordinatorAction::Rebuild {
                            hook,
                            attempt: self.hooks.sender_attempt,
                        },
                    ),
                    None => Some(SenderCoordinatorAction::Signal(SupervisorSignal::RebuildFailed)),
                }
            },
            SupervisorOutcome::InitiateMdnsReset => match self.hooks.initiate_mdns_reset {
                Some(hook) => Some(SenderCoordinatorAction::ResetMdns { hook }),
                None => None,
            },
            SupervisorOutcome::Stopped => None,
        }
    }
}

impl StreamCoordinatorHooks {
    /// What the receiver's coordinator does about an outcome.
    pub open spec fn reaction(self, outcome: SupervisorOutcome) -> Option<Act<StreamStatus>> {
        match outcome {
            SupervisorOutcome::StateChanged(SessionState::Reconnecting { attempt, max }) => Some(
                Act::Show(StreamStatus::Reconnecting { attempt, max }),
            ),
            SupervisorOutcome::StateChanged(SessionState::Dead { reason }) => Some(
                Act::Show(StreamStatus::Dead { reason: events::dead_text(reason) }),
            ),
            SupervisorOutcome::StateChanged(SessionState::Connected) => Some(
                Act::Show(StreamStatus::Streaming),
            ),
            SupervisorOutcome::StateChanged(SessionState::Other) => None,
            SupervisorOutcome::Dead(_) => None,
            SupervisorOutcome::PublishReconnectRequest { attempt, session_nonce } => published(
                self.publish_reconnect_request,
                false,
                attempt,
                session_nonce,
            ),
            SupervisorOutcome::PublishReconnectAck { attempt, session_nonce } => published(
                self.publish_reconnect_ack,
                true,
                attempt,
                session_nonce,
            ),
            SupervisorOutcome::InitiateRebuild => Some(rebuilt(self.initiate_rebuild, None)),
            SupervisorOutcome::InitiateMdnsReset => mdns_reset(self.initiate_mdns_reset),
            SupervisorOutcome::Stopped => None,
        }
    }

    /// Takes one outcome of the supervisor and says what to do about it.
    pub fn handle_stream_supervisor_outcome(&self, outcome: SupervisorOutcome) -> (r: Option<
        StreamCoordinatorAction,
    >)
        ensures
            match r {
                Some(action) => self.reaction(outcome) == Some(action@),
                None => self.reaction(outcome) is None,
            },
    {
        match outcome {
            SupervisorOutcome::StateChanged(SessionState::Reconnecting { attempt, max }) => Some(
                StreamCoordinatorAction::Show(StreamStatusEvent::Reconnecting { attempt, max }),
            ),
            SupervisorOutcome::StateChanged(SessionState::Dead { reason }) => Some(
                StreamCoordinatorAction::Show(
                    StreamStatusEvent::Dead { reason: dead_reason_to_str(reason).to_string() },
                ),
            ),
            SupervisorOutcome::StateChanged(SessionState::Connected) => Some(
                StreamCoordinatorAction::Show(StreamStatusEvent::Streaming),
            ),
            SupervisorOutcome::StateChanged(SessionState::Other) => None,
            SupervisorOutcome::Dead(_) => None,
            SupervisorOutcome::PublishReconnectRequest { attempt, session_nonce } =>
                match self.publish_reconnect_request {
                Some(hook) => Some(
                    StreamCoordinatorAction::PublishRequest { hook, attempt, session_nonce },
                ),
                None => None,
            },
            SupervisorOutcome::PublishReconnectAck { attempt, session_nonce } =>
                match self.publish_reconnect_ack {
                Some(hook) => Some(
                    StreamCoordinatorAction::PublishAck { hook, attempt, session_nonce },
                ),
                None => None,
            },
            SupervisorOutcome::InitiateRebuild => match self.initiate_rebuild {
                Some(hook) => Some(StreamCoordinatorAction::Rebuild { hook }),
                None => Some(StreamCoordinatorAction::Signal(SupervisorSignal::RebuildFailed)),
            },
            SupervisorOutcome::InitiateMdnsReset => match self.initiate_mdns_reset {
                Some(hook) => Some(StreamCoordinatorAction::ResetMdns { hook }),
                None => None,
            },
            SupervisorOutcome::Stopped => None,
        }
    }
}

/// What a supervisor is started with.
#[derive(Debug, Clone, Copy, PartialEq, Eq, Structural)]
pub struct SupervisorStart {
    /// The side that it stands for. In a race of two reconnects the sender is the active one.
    pub role: Role,
    pub session_nonce: u64,
    pub settings: SupervisionSettings,
}

/// A step by which a coordinator is set up or taken down.
#[derive(Debug)]
pub enum CoordinatorStep {
    /// Keep the supervisor's signal channel where a stop request finds it.
    Register,
    /// Give the supervisor's signal channel to the signaling layer.
    RefreshSignaling,
    /// Tell the supervisor, if there is room.
    Signal(SupervisorSignal),
    /// Start the supervisor on a thread of its own.
    SpawnSupervisor(SupervisorStart),
    /// Forget the supervisor's signal channel.
    Unregister,
    /// Wait for the supervisor's thread.
    JoinSupervisor,
}

/// How a coordinator is set up: the new supervisor can be reached before it runs, and the failure
/// is the first thing it hears of.
pub open spec fn entry_steps(trigger: ReconnectTrigger, start: SupervisorStart) -> Seq<
    CoordinatorStep,
> {
    let failure = CoordinatorStep::Signal(SupervisorSignal::LocalFailure { trigger });
    match start.role {
        Role::Sender => seq![
            CoordinatorStep::Register,
            CoordinatorStep::RefreshSignaling,
            failure,
            CoordinatorStep::SpawnSupervisor(start),
        ],
        Role::Receiver => seq![
            CoordinatorStep::Register,
            failure,
            CoordinatorStep::SpawnSupervisor(start),
        ],
    }
}

/// How a coordinator is taken down: nobody can reach the supervisor any more, and it is told to
/// stop, in case nobody has told it yet. After that its thread can be waited for.
pub open spec fn exit_steps() -> Seq<CoordinatorStep> {
    seq![CoordinatorStep::Unregister, CoordinatorStep::Signal(SupervisorSignal::Stop)]
}

/// The steps that set a coordinator up, in order.
pub fn coordinator_entry(trigger: ReconnectTrigger, start: SupervisorStart) -> (r: Vec<
    CoordinatorStep,
>)
    ensures
        r@ == entry_steps(trigger, start),
{
    let failure = CoordinatorStep::Signal(SupervisorSignal::LocalFailure { trigger });
    match start.role {
        Role::Sender => vec![
            CoordinatorStep::Register,
            CoordinatorStep::RefreshSignaling,
            failure,
            CoordinatorStep::SpawnSupervisor(start),
        ],
        Role::Receiver => vec![
            CoordinatorStep::Register,
            failure,
            CoordinatorStep::SpawnSupervisor(start),
        ],
    }
}

/// The steps that take a coordinator down, in order, before the supervisor's thread is waited for.
pub fn coordinator_exit() -> (r: Vec<CoordinatorStep>)
    ensures
        r@ == exit_steps(),
{
    vec![CoordinatorStep::Unregister, CoordinatorStep::Signal(SupervisorSignal::Stop)]
}

/// What the sender shows of an outcome.
pub open spec fn sender_status(outcome: SupervisorOutcome) -> Option<SenderStatus> {
    match outcome {
        SupervisorOutcome::StateChanged(SessionState::Reconnecting { attempt, max }) => Some(
            SenderStatus::Reconnecting { attempt, max },
        ),
        SupervisorOutcome::StateChanged(SessionState::Dead { reason }) => Some(
            SenderStatus::Dead { reason: events::dead_text(reason) },
        ),
        SupervisorOutcome::StateChanged(SessionState::Connected) => Some(SenderStatus::Streaming),
        _ => None,
    }
}

/// What the receiver shows of an outcome.
pub open spec fn stream_status(outcome: SupervisorOutcome) -> Option<StreamStatus> {
    match outcome {
        SupervisorOutcome::StateChanged(SessionState::Reconnecting { attempt, max }) => Some(
            StreamStatus::Reconnecting { attempt, max },
        ),
        SupervisorOutcome::StateChanged(SessionState::Dead { reason }) => Some(
            StreamStatus::Dead { reason: events::dead_text(reason) },
        ),
        SupervisorOutcome::StateChanged(SessionState::Connected) => Some(StreamStatus::Streaming),
        _ => None,
    }
}

/// What the sender shows of an outcome.
pub fn sender_status_event(outcome: SupervisorOutcome) -> (r: Option<SenderStatusEvent>)
    ensures
        match r {
            Some(event) => sender_status(outcome) == Some(event@),
            None => sender_status(outcome) is None,
        },
{
    match outcome {
        SupervisorOutcome::StateChanged(SessionState::Reconnecting { attempt, max }) => Some(
            SenderStatusEvent::Reconnecting { attempt, max },
        ),
        SupervisorOutcome::StateChanged(SessionState::Dead { reason }) => Some(
            SenderStatusEvent::Dead { reason: dead_reason_to_str(reason).to_string() },
        ),
        SupervisorOutcome::StateChanged(SessionState::Connected) => Some(
            SenderStatusEvent::Streaming,
        ),
        _ => None,
    }
}

/// What the receiver shows of an outcome.
pub fn stream_status_event(outcome: SupervisorOutcome) -> (r: Option<StreamStatusEvent>)
    ensures
        match r {
            Some(event) => stream_status(outcome) == Some(event@),
            None => stream_status(outcome) is None,
        },
{
    match outcome {
        SupervisorOutcome::StateChanged(SessionState::Reconnecting { attempt, max }) => Some(
            StreamStatusEvent::Reconnecting { attempt, max },
        ),
        SupervisorOutcome::StateChanged(SessionState::Dead { reason }) => Some(
            StreamStatusEvent::Dead { reason: dead_reason_to_str(reason).to_string() },
        ),
        SupervisorOutcome::StateChanged(SessionState::Connected) => Some(
            StreamStatusEvent::Streaming,
        ),
        _ => None,
    }
}

/// What a coordinator shows of an outcome does not depend on what came before: it is the same while
/// the session is being restored and once the coordinator is leaving.
pub proof fn law_statuses_are_the_same_to_the_end(
    c: SenderCoordinator,
    hooks: StreamCoordinatorHooks,
    outcome: SupervisorOutcome,
    shown: SenderStatus,
    stream_shown: StreamStatus,
)
    ensures
        c.reaction(outcome) == Some(Act::Show(shown)) <==> sender_status(outcome) == Some(shown),
        hooks.reaction(outcome) == Some(Act::Show(stream_shown)) <==> stream_status(outcome) == Some(
            stream_shown,
        ),
{
}

/// What a look at the outcomes came back with.
#[derive(Debug, Clone, Copy, PartialEq, Eq, Structural)]
pub enum OutcomePoll {
    Outcome(SupervisorOutcome),
    Empty,
    /// The supervisor is gone, and everything it said has been read.
    Disconnected,
}

/// What a coordinator does after a look at the outcomes.
#[derive(Debug, Clone, Copy, PartialEq, Eq, Structural)]
pub enum CoordinatorNext {
    /// Handle the outcome, then look again.
    Handle(SupervisorOutcome),
    /// Wait this long for a transport event.
    Wait(u64),
    Leave,
}

/// How a coordinator goes on after a look at the outcomes. The stop flag counts only when there is
/// nothing left to handle.
pub open spec fn polled(poll: OutcomePoll, stop_flag: bool) -> CoordinatorNext {
    match poll {
        OutcomePoll::Outcome(outcome) => CoordinatorNext::Handle(outcome),
        OutcomePoll::Disconnected => CoordinatorNext::Leave,
        OutcomePoll::Empty => if stop_flag {
            CoordinatorNext::Leave
        } else {
            CoordinatorNext::Wait(COORDINATOR_WAIT_NS)
        },
    }
}

/// A coordinator goes on after a wait, whatever event it brought. Only the sender's leaves when
/// the transport is gone.
pub open spec fn goes_on(role: Role, received: Received<TransportEvent>) -> bool {
    role == Role::Receiver || received !is Disconnected
}

/// Decides how a coordinator goes on after a look at the outcomes.
pub fn coordinator_poll(poll: OutcomePoll, stop_flag: bool) -> (r: CoordinatorNext)
    ensures
        r == polled(poll, stop_flag),
{
    match poll {
        OutcomePoll::Outcome(outcome) => CoordinatorNext::Handle(outcome),
        OutcomePoll::Disconnected => CoordinatorNext::Leave,
        OutcomePoll::Empty => {
            if stop_flag {
                CoordinatorNext::Leave
            } else {
                CoordinatorNext::Wait(COORDINATOR_WAIT_NS)
            }
        },
    }
}

/// Decides whether a coordinator goes on after a wait.
pub fn coordinator_waited(role: Role, received: &Received<TransportEvent>) -> (r: bool)
    ensures
        r == goes_on(role, *received),
{
    match role {
        Role::Receiver => true,
        Role::Sender => match received {
            Received::Disconnected => false,
            Received::Timeout => true,
            Received::Event(_) => true,
        },
    }
}

/// One turn of a coordinator: what it finds, and what the wait brings if it waits.
pub struct CoordinatorTurn {
    pub poll: OutcomePoll,
    pub stop_flag: bool,
    pub received: Received<TransportEvent>,
}

/// The outcomes that a coordinator handles over a run of turns, in order, up to the one in which
/// it leaves.
pub open spec fn handled(role: Role, turns: Seq<CoordinatorTurn>) -> Seq<SupervisorOutcome>
    decreases turns.len(),
{
    if turns.len() == 0 {
        Seq::empty()
    } else {
        match polled(turns[0].poll, turns[0].stop_flag) {
            CoordinatorNext::Handle(outcome) => seq![outcome] + handled(role, turns.drop_first()),
            CoordinatorNext::Leave => Seq::empty(),
            CoordinatorNext::Wait(_) => if goes_on(role, turns[0].received) {
                handled(role, turns.drop_first())
            } else {
                Seq::empty()
            },
        }
    }
}

/// Outcomes that are there to be read are all handled, in order, before a stop request counts.
pub proof fn law_outcomes_come_before_stop(role: Role, turns: Seq<CoordinatorTurn>, n: int)
    requires
        0 <= n <= turns.len(),
        forall|i: int| 0 <= i < n ==> (#[trigger] turns[i]).poll is Outcome,
    ensures
        handled(role, turns) == Seq::new(n as nat, |i: int| turns[i].poll->Outcome_0) + handled(
            role,
            turns.skip(n),
        ),
    decreases n,
{
    if n == 0 {
        assert(turns.skip(0) =~= turns);
        assert(handled(role, turns) =~= Seq::new(
            0,
            |i: int| turns[i].poll->Outcome_0,
        ) + handled(role, turns.skip(0)));
    } else {
        let tail = turns.drop_first();
        assert(turns[0].poll is Outcome);
        assert forall|i: int| 0 <= i < n - 1 implies (#[trigger] tail[i]).poll is Outcome by {
            assert(tail[i] == turns[i + 1]);
        }
        law_outcomes_come_before_stop(role, tail, n - 1);
        assert(tail.skip(n - 1) =~= turns.skip(n));
        assert(handled(role, turns) =~= Seq::new(
            n as nat,
            |i: int| turns[i].poll->Outcome_0,
        ) + handled(role, turns.skip(n)));
    }
}

/// The sender's coordinator after a run of outcomes.
pub open spec fn after_all(
    c: SenderCoordinator,
    outcomes: Seq<SupervisorOutcome>,
) -> SenderCoordinator
    decreases outcomes.len(),
{
    if outcomes.len() == 0 {
        c
    } else {
        after_all(c, outcomes.drop_last()).after(outcomes.last())
    }
}

/// Whether a session has ever connected does not change while it is being restored.
pub proof fn law_connection_record_is_kept(
    c: SenderCoordinator,
    outcomes: Seq<SupervisorOutcome>,
)
    ensures
        after_all(c, outcomes).ice_connected == c.ice_connected,
    decreases outcomes.len(),
{
    if outcomes.len() > 0 {
        law_connection_record_is_kept(c, outcomes.drop_last());
    }
}

/// What was published last decides who asked for the rebuild.
pub proof fn law_last_publication_decides(
    c: SenderCoordinator,
    outcomes: Seq<SupervisorOutcome>,
    k: int,
)
    requires
        0 <= k < outcomes.len(),
        outcomes[k] is PublishReconnectAck || outcomes[k] is PublishReconnectRequest,
        forall|i: int|
            k < i < outcomes.len() ==> (#[trigger] outcomes[i]) !is PublishReconnectAck
                && outcomes[i] !is PublishReconnectRequest,
    ensures
        after_all(c, outcomes).peer_ack_seen == (outcomes[k] is PublishReconnectAck),
    decreases outcomes.len(),
{
    let front = outcomes.drop_last();
    if k < outcomes.len() - 1 {
        assert(outcomes.last() == outcomes[outcomes.len() - 1]);
        assert forall|i: int| k < i < front.len() implies (#[trigger] front[i])
            !is PublishReconnectAck && front[i] !is PublishReconnectRequest by {
            assert(front[i] == outcomes[i]);
        }
        law_last_publication_decides(c, front, k);
    }
}

/// A sender that has never connected does not tear itself down because the peer asks for a
/// rebuild: it tells its supervisor that the rebuild failed, and the callback is not called. If
/// it asked for the rebuild itself, or has connected before, the rebuild goes ahead.
pub proof fn law_fresh_sender_survives_peer_request(
    c: SenderCoordinator,
    outcomes: Seq<SupervisorOutcome>,
    k: int,
)
    requires
        0 <= k < outcomes.len(),
        outcomes[k] is PublishReconnectAck || outcomes[k] is PublishReconnectRequest,
        forall|i: int|
            k < i < outcomes.len() ==> (#[trigger] outcomes[i]) !is PublishReconnectAck
                && outcomes[i] !is PublishReconnectRequest,
    ensures
        after_all(c, outcomes).reaction(SupervisorOutcome::InitiateRebuild) == (if !c.ice_connected
            && outcomes[k] is PublishReconnectAck {
            Some(Act::Signal(SupervisorSignal::RebuildFailed))
        } else {
            Some(
                rebuilt::<SenderStatus>(
                    c.hooks.initiate_rebuild,
                    Some(after_all(c, outcomes).hooks.sender_attempt),
                ),
            )
        }),
{
    law_connection_record_is_kept(c, outcomes);
    law_last_publication_decides(c, outcomes, k);
    law_callbacks_are_kept(c, outcomes);
}

/// The callbacks stay as they are.
pub proof fn law_callbacks_are_kept(c: SenderCoordinator, outcomes: Seq<SupervisorOutcome>)
    ensures
        after_all(c, outcomes).hooks == (SenderCoordinatorHooks {
            sender_attempt: after_all(c, outcomes).hooks.sender_attempt,
            ..c.hooks
        }),
    decreases outcomes.len(),
{
    if outcomes.len() > 0 {
        law_callbacks_are_kept(c, outcomes.drop_last());
    }
}

/// A rebuild is asked for in the attempt that the supervisor announced last; it is the one with
/// which the rebuilt generation stamps its offer.
pub proof fn law_offer_epoch_is_latest_attempt(
    c: SenderCoordinator,
    outcomes: Seq<SupervisorOutcome>,
    k: int,
    attempt: u8,
    max: u8,
)
    requires
        0 <= k < outcomes.len(),
        outcomes[k] == SupervisorOutcome::StateChanged(SessionState::Reconnecting { attempt, max }),
        forall|i: int|
            k < i < outcomes.len() ==> !((#[trigger] outcomes[i])
                matches SupervisorOutcome::StateChanged(SessionState::Reconnecting { .. })),
    ensures
        after_all(c, outcomes).hooks.sender_attempt == attempt,
        after_all(c, outcomes).reaction(SupervisorOutcome::InitiateRebuild) matches Some(
            Act::Rebuild { attempt: asked, .. },
        ) ==> asked == Some(attempt),
    decreases outcomes.len(),
{
    let front = outcomes.drop_last();
    if k < outcomes.len() - 1 {
        assert(outcomes.last() == outcomes[outcomes.len() - 1]);
        assert forall|i: int| k < i < front.len() implies !((#[trigger] front[i])
            matches SupervisorOutcome::StateChanged(SessionState::Reconnecting { .. })) by {
            assert(front[i] == outcomes[i]);
        }
        law_offer_epoch_is_latest_attempt(c, front, k, attempt, max);
    }
}

/// What the sender's coordinator publishes is what the supervisor named: a request or an
/// acknowledgement goes through its own callback, with exactly that attempt and that nonce, whatever
/// they are and whatever came before. Without the callback nothing is done.
pub proof fn law_publications_carry_what_was_named(
    c: SenderCoordinator,
    attempt: u8,
    session_nonce: u64,
    r: Option<SenderCoordinatorAction>,
    s: Option<SenderCoordinatorAction>,
)
    requires
        is_reaction(
            c.reaction(SupervisorOutcome::PublishReconnectAck { attempt, session_nonce }),
            r,
        ),
        is_reaction(
            c.reaction(SupervisorOutcome::PublishReconnectRequest { attempt, session_nonce }),
            s,
        ),
    ensures
        r == (match c.hooks.publish_reconnect_ack {
            Some(hook) => Some(
                SenderCoordinatorAction::PublishAck { hook, attempt, session_nonce },
            ),
            None => None,
        }),
        s == (match c.hooks.publish_reconnect_request {
            Some(hook) => Some(
                SenderCoordinatorAction::PublishRequest { hook, attempt, session_nonce },
            ),
            None => None,
        }),
{
}

/// `r` is an action as `reaction` says, or none where it says none.
pub open spec fn is_reaction<S, A: View<V = Act<S>>>(reaction: Option<Act<S>>, r: Option<A>) -> bool {
    match r {
        Some(action) => reaction == Some(action@),
        None => reaction is None,
    }
}

/// The same of the receiver's coordinator: a request or an acknowledgement goes through its own
/// callback, with exactly the attempt and the nonce that the supervisor named.
pub proof fn law_stream_publications_carry_what_was_named(
    hooks: StreamCoordinatorHooks,
    attempt: u8,
    session_nonce: u64,
    r: Option<StreamCoordinatorAction>,
    s: Option<StreamCoordinatorAction>,
)
    requires
        is_reaction(
            hooks.reaction(SupervisorOutcome::PublishReconnectAck { attempt, session_nonce }),
            r,
        ),
        is_reaction(
            hooks.reaction(SupervisorOutcome::PublishReconnectRequest { attempt, session_nonce }),
            s,
        ),
    ensures
        r == (match hooks.publish_reconnect_ack {
            Some(hook) => Some(
                StreamCoordinatorAction::PublishAck { hook, attempt, session_nonce },
            ),
            None => None,
        }),
        s == (match hooks.publish_reconnect_request {
            Some(hook) => Some(
                StreamCoordinatorAction::PublishRequest { hook, attempt, session_nonce },
            ),
            None => None,
        }),
{
}

/// What the frontend is told of the session is the state that the supervisor announced, on either
/// side: the attempt and the limit that it named, the token of the reason for which it gave up, or
/// that media flows again. Of no other outcome is it told anything.
pub proof fn law_announced_state_is_shown(
    c: SenderCoordinator,
    hooks: StreamCoordinatorHooks,
    outcome: SupervisorOutcome,
    r: Option<SenderCoordinatorAction>,
    s: Option<StreamCoordinatorAction>,
)
    requires
        is_reaction(c.reaction(outcome), r),
        is_reaction(hooks.reaction(outcome), s),
    ensures
        match outcome {
            SupervisorOutcome::StateChanged(SessionState::Reconnecting { attempt, max }) => {
                &&& r == Some(
                    SenderCoordinatorAction::Show(SenderStatusEvent::Reconnecting { attempt, max }),
                )
                &&& s == Some(
                    StreamCoordinatorAction::Show(StreamStatusEvent::Reconnecting { attempt, max }),
                )
            },
            SupervisorOutcome::StateChanged(SessionState::Connected) => {
                &&& r == Some(SenderCoordinatorAction::Show(SenderStatusEvent::Streaming))
                &&& s == Some(StreamCoordinatorAction::Show(StreamStatusEvent::Streaming))
            },
            SupervisorOutcome::StateChanged(SessionState::Dead { reason }) => {
                &&& r matches Some(SenderCoordinatorAction::Show(SenderStatusEvent::Dead { reason: x }))
                    && is_token_of(x@, reason)
                &&& s matches Some(StreamCoordinatorAction::Show(StreamStatusEvent::Dead { reason: x }))
                    && is_token_of(x@, reason)
            },
            _ => !(r matches Some(SenderCoordinatorAction::Show(_))) && !(s matches Some(
                StreamCoordinatorAction::Show(_),
            )),
        },
{
    reveal_strlit("ice_failed_repeatedly");
    reveal_strlit("connection_lost_repeatedly");
    reveal_strlit("signaling_channel_dead");
    reveal_strlit("user_canceled");
    assert("ice_failed_repeatedly"@.len() == 21);
    assert("connection_lost_repeatedly"@.len() == 26);
    assert("signaling_channel_dead"@.len() == 22);
    assert("user_canceled"@.len() == 13);
    if let SupervisorOutcome::StateChanged(SessionState::Dead { reason }) = outcome {
        assert(is_token_of(events::dead_text(reason), reason));
    }
}

/// The token for the end of a session, reason by reason.
pub open spec fn is_token_of(text: Seq<char>, reason: crate::events::DeadReason) -> bool {
    &&& reason is IceFailedRepeatedly <==> text == "ice_failed_repeatedly"@
    &&& reason is ConnectionLostRepeatedly <==> text == "connection_lost_repeatedly"@
    &&& reason is SignalingChannelDead <==> text == "signaling_channel_dead"@
    &&& reason is UserCanceled <==> text == "user_canceled"@
}

/// Outcomes that are neither a state, nor something to publish, nor a rebuild, nor a reset are passed
/// over on either side, and so is a state that this layer does not know.
pub proof fn law_other_outcomes_are_passed_over(
    c: SenderCoordinator,
    hooks: StreamCoordinatorHooks,
    outcome: SupervisorOutcome,
)
    requires
        outcome is Dead || outcome is Stopped || outcome == SupervisorOutcome::StateChanged(
            SessionState::Other,
        ),
    ensures
        c.reaction(outcome) is None,
        hooks.reaction(outcome) is None,
        c.after(outcome) == c,
{
}

/// A rebuild goes through its callback; the sender's says in which attempt of the cycle. Where
/// there is no callback, or where a sender that has never connected is asked by its peer, the
/// supervisor is told at once that the rebuild failed. A reset goes through its callback, if there
/// is one.
pub proof fn law_rebuilds_and_resets_go_through_their_callbacks(
    c: SenderCoordinator,
    hooks: StreamCoordinatorHooks,
    rebuild: Option<SenderCoordinatorAction>,
    reset: Option<SenderCoordinatorAction>,
    stream_rebuild: Option<StreamCoordinatorAction>,
    stream_reset: Option<StreamCoordinatorAction>,
)
    requires
        is_reaction(c.reaction(SupervisorOutcome::InitiateRebuild), rebuild),
        is_reaction(c.reaction(SupervisorOutcome::InitiateMdnsReset), reset),
        is_reaction(hooks.reaction(SupervisorOutcome::InitiateRebuild), stream_rebuild),
        is_reaction(hooks.reaction(SupervisorOutcome::InitiateMdnsReset), stream_reset),
    ensures
        rebuild == Some(
            match c.hooks.initiate_rebuild {
                Some(hook) if c.ice_connected || !c.peer_ack_seen =>
                    SenderCoordinatorAction::Rebuild { hook, attempt: c.hooks.sender_attempt },
                _ => SenderCoordinatorAction::Signal(SupervisorSignal::RebuildFailed),
            },
        ),
        reset == (match c.hooks.initiate_mdns_reset {
            Some(hook) => Some(SenderCoordinatorAction::ResetMdns { hook }),
            None => None,
        }),
        stream_rebuild == Some(
            match hooks.initiate_rebuild {
                Some(hook) => StreamCoordinatorAction::Rebuild { hook },
                None => StreamCoordinatorAction::Signal(SupervisorSignal::RebuildFailed),
            },
        ),
        stream_reset == (match hooks.initiate_mdns_reset {
            Some(hook) => Some(StreamCoordinatorAction::ResetMdns { hook }),
            None => None,
        }),
{
}

/// What a coordinator remembers of an outcome: the attempt that was announced, and whether the last
/// thing published was an acknowledgement. Everything else about it stays.
pub proof fn law_what_a_coordinator_remembers(c: SenderCoordinator, outcome: SupervisorOutcome)
    ensures
        c.after(outcome).ice_connected == c.ice_connected,
        c.after(outcome).peer_ack_seen == (match outcome {
            SupervisorOutcome::PublishReconnectAck { .. } => true,
            SupervisorOutcome::PublishReconnectRequest { .. } => false,
            _ => c.peer_ack_seen,
        }),
        c.after(outcome).hooks.sender_attempt == (match outcome {
            SupervisorOutcome::StateChanged(SessionState::Reconnecting { attempt, .. }) => attempt,
            _ => c.hooks.sender_attempt,
        }),
        c.after(outcome).hooks.publish_reconnect_request == c.hooks.publish_reconnect_request,
        c.after(outcome).hooks.publish_reconnect_ack == c.hooks.publish_reconnect_ack,
        c.after(outcome).hooks.initiate_rebuild == c.hooks.initiate_rebuild,
        c.after(outcome).hooks.initiate_mdns_reset == c.hooks.initiate_mdns_reset,
{
}

/// Outcomes are remembered one after the other.
pub proof fn law_outcomes_are_remembered_in_order(
    c: SenderCoordinator,
    outcomes: Seq<SupervisorOutcome>,
    outcome: SupervisorOutcome,
)
    ensures
        after_all(c, Seq::empty()) == c,
        after_all(c, outcomes.push(outcome)) == after_all(c, outcomes).after(outcome),
{
    assert(outcomes.push(outcome).drop_last() =~= outcomes);
}

/// A coordinator looks at the stop flag only once there is no outcome left to handle, and at the
/// transport only while the flag is down, for a twentieth of a second at a time. It leaves when the
/// supervisor is gone or its flag is up; the sender's also when the transport is gone.
pub proof fn law_when_a_coordinator_goes_on(
    poll: OutcomePoll,
    stop_flag: bool,
    role: Role,
    received: Received<TransportEvent>,
)
    ensures
        polled(poll, stop_flag) == (match poll {
            OutcomePoll::Outcome(outcome) => CoordinatorNext::Handle(outcome),
            OutcomePoll::Disconnected => CoordinatorNext::Leave,
            OutcomePoll::Empty => if stop_flag {
                CoordinatorNext::Leave
            } else {
                CoordinatorNext::Wait(50_000_000)
            },
        }),
        goes_on(role, received) <==> !(role is Sender && received is Disconnected),
{
}

/// A supervisor is reachable before it runs, hears of the very failure that started the cycle before
/// anything else, and is started with exactly what it was to be started with. The sender's signaling
/// layer learns of it in between. When it is no longer needed, it is made unreachable and then told
/// to stop.
pub proof fn law_how_a_supervisor_is_set_up(trigger: ReconnectTrigger, start: SupervisorStart)
    ensures
        start.role is Sender ==> entry_steps(trigger, start) == seq![
            CoordinatorStep::Register,
            CoordinatorStep::RefreshSignaling,
            CoordinatorStep::Signal(SupervisorSignal::LocalFailure { trigger }),
            CoordinatorStep::SpawnSupervisor(start),
        ],
        start.role is Receiver ==> entry_steps(trigger, start) == seq![
            CoordinatorStep::Register,
            CoordinatorStep::Signal(SupervisorSignal::LocalFailure { trigger }),
            CoordinatorStep::SpawnSupervisor(start),
        ],
        exit_steps() == seq![
            CoordinatorStep::Unregister,
            CoordinatorStep::Signal(SupervisorSignal::Stop),
        ],
{
}

/// A supervisor that is not told otherwise follows its own policy, waits two seconds for an
/// acknowledgement and fifteen for a rebuild. Callbacks that nobody set are none, and the first
/// attempt is one.
pub proof fn law_defaults()
    ensures
        SupervisionSettings::usual().policy is None,
        SupervisionSettings::usual().ack_timeout_ns == 2_000_000_000,
        SupervisionSettings::usual().rebuild_timeout_ns == 15_000_000_000,
        SenderCoordinatorHooks::none().publish_reconnect_request is None,
        SenderCoordinatorHooks::none().publish_reconnect_ack is None,
        SenderCoordinatorHooks::none().initiate_rebuild is None,
        SenderCoordinatorHooks::none().initiate_mdns_reset is None,
        SenderCoordinatorHooks::none().sender_attempt == 1,
        StreamCoordinatorHooks::none().publish_reconnect_request is None,
        StreamCoordinatorHooks::none().publish_reconnect_ack is None,
        StreamCoordinatorHooks::none().initiate_rebuild is None,
        StreamCoordinatorHooks::none().initiate_mdns_reset is None,
{
}

/// The outcome of a turn in which a coordinator stays is handled after those of the turns before it.
pub proof fn law_each_outcome_is_handled_once(
    role: Role,
    turns: Seq<CoordinatorTurn>,
    turn: CoordinatorTurn,
)
    requires
        forall|i: int|
            0 <= i < turns.len() ==> (#[trigger] turns[i]).poll is Outcome || turns[i].poll is Empty
                && !turns[i].stop_flag && !(role is Sender && turns[i].received is Disconnected),
    ensures
        handled(role, turns.push(turn)) == (match turn.poll {
            OutcomePoll::Outcome(outcome) => handled(role, turns).push(outcome),
            _ => handled(role, turns),
        }),
        handled(role, Seq::empty()) == Seq::<SupervisorOutcome>::empty(),
    decreases turns.len(),
{
    let all = turns.push(turn);
    if turns.len() == 0 {
        assert(all.drop_first() =~= turns);
        assert(handled(role, turns) =~= Seq::<SupervisorOutcome>::empty());
    } else {
        let tail = turns.drop_first();
        let first = turns[0];
        assert(all[0] == first);
        assert(first.poll is Outcome || first.poll is Empty && !first.stop_flag);
        assert forall|i: int| 0 <= i < tail.len() implies (#[trigger] tail[i]).poll is Outcome
            || tail[i].poll is Empty && !tail[i].stop_flag && !(role is Sender
            && tail[i].received is Disconnected) by {
            assert(tail[i] == turns[i + 1]);
        }
        law_each_outcome_is_handled_once(role, tail, turn);
        assert(all.drop_first() =~= tail.push(turn));
    }
    assert(handled(role, all) =~= (match turn.poll {
        OutcomePoll::Outcome(outcome) => handled(role, turns).push(outcome),
        _ => handled(role, turns),
    }));
}

/// What is shown of an outcome: a state that the supervisor announces, by its numbers or its token,
/// and of no other outcome anything.
pub proof fn law_what_is_shown(outcome: SupervisorOutcome, text: Seq<char>)
    requires
        outcome matches SupervisorOutcome::StateChanged(SessionState::Dead { reason })
            ==> is_token_of(text, reason),
    ensures
        match outcome {
            SupervisorOutcome::StateChanged(SessionState::Reconnecting { attempt, max }) => {
                &&& sender_status(outcome) == Some(SenderStatus::Reconnecting { attempt, max })
                &&& stream_status(outcome) == Some(StreamStatus::Reconnecting { attempt, max })
            },
            SupervisorOutcome::StateChanged(SessionState::Connected) => {
                &&& sender_status(outcome) == Some(SenderStatus::Streaming)
                &&& stream_status(outcome) == Some(StreamStatus::Streaming)
            },
            SupervisorOutcome::StateChanged(SessionState::Dead { .. }) => {
                &&& sender_status(outcome) == Some(SenderStatus::Dead { reason: text })
                &&& stream_status(outcome) == Some(StreamStatus::Dead { reason: text })
            },
            _ => sender_status(outcome) is None && stream_status(outcome) is None,
        },
{
    reveal_strlit("ice_failed_repeatedly");
    reveal_strlit("connection_lost_repeatedly");
    reveal_strlit("signaling_channel_dead");
    reveal_strlit("user_canceled");
    assert("ice_failed_repeatedly"@.len() == 21);
    assert("connection_lost_repeatedly"@.len() == 26);
    assert("signaling_channel_dead"@.len() == 22);
    assert("user_canceled"@.len() == 13);
}

/// How much room there is: sixteen signals to a supervisor and thirty-two outcomes from it.
pub proof fn law_room()
    ensures
        SIGNAL_CAPACITY == 16,
        OUTCOME_CAPACITY == 32,
{
}

/// A coordinator starts with what it is given, and with nothing asked by the peer.
pub proof fn law_how_a_coordinator_starts(
    hooks: SenderCoordinatorHooks,
    ice_connected: bool,
    c: SenderCoordinator,
)
    requires
        call_ensures(SenderCoordinator::new, (hooks, ice_connected), c),
    ensures
        c.hooks == hooks,
        c.ice_connected == ice_connected,
        !c.peer_ack_seen,
{
}

/// What the coordinators do about a publication that the supervisor asks for, seen on the functions
/// themselves: the callback for it is handed the attempt and the nonce that the supervisor named, and
/// without one there is nothing to do.
pub proof fn law_coordinators_publish_what_was_named(attempt: u8, session_nonce: u64)
    ensures
        forall|c: &mut SenderCoordinator, r: Option<SenderCoordinatorAction>| #[trigger]
            call_ensures(
                SenderCoordinator::handle_supervisor_outcome,
                (c, SupervisorOutcome::PublishReconnectAck { attempt, session_nonce }),
                r,
            ) ==> r == (match c.hooks.publish_reconnect_ack {
                Some(hook) => Some(
                    SenderCoordinatorAction::PublishAck { hook, session_nonce, attempt },
                ),
                None => None,
            }) && final(c).peer_ack_seen,
        forall|c: &mut SenderCoordinator, r: Option<SenderCoordinatorAction>| #[trigger]
            call_ensures(
                SenderCoordinator::handle_supervisor_outcome,
                (c, SupervisorOutcome::PublishReconnectRequest { attempt, session_nonce }),
                r,
            ) ==> r == (match c.hooks.publish_reconnect_request {
                Some(hook) => Some(
                    SenderCoordinatorAction::PublishRequest { hook, session_nonce, attempt },
                ),
                None => None,
            }) && !final(c).peer_ack_seen,
        forall|hooks: &StreamCoordinatorHooks, r: Option<StreamCoordinatorAction>| #[trigger]
            call_ensures(
                StreamCoordinatorHooks::handle_stream_supervisor_outcome,
                (hooks, SupervisorOutcome::PublishReconnectAck { attempt, session_nonce }),
                r,
            ) ==> r == (match hooks.publish_reconnect_ack {
                Some(hook) => Some(
                    StreamCoordinatorAction::PublishAck { hook, session_nonce, attempt },
                ),
                None => None,
            }),
        forall|hooks: &StreamCoordinatorHooks, r: Option<StreamCoordinatorAction>| #[trigger]
            call_ensures(
                StreamCoordinatorHooks::handle_stream_supervisor_outcome,
                (hooks, SupervisorOutcome::PublishReconnectRequest { attempt, session_nonce }),
                r,
            ) ==> r == (match hooks.publish_reconnect_request {
                Some(hook) => Some(
                    StreamCoordinatorAction::PublishRequest { hook, session_nonce, attempt },
                ),
                None => None,
            }),
{
}

} // verus!
