//! Values that pass between the pipelines, the reconnect supervisor and the frontend.
use crate::errors::SignalingError;
use vstd::prelude::*;

verus! {

/// An SDP offer.
#[derive(Debug)]
pub struct SdpOffer(pub String);

/// An SDP answer.
#[derive(Debug)]
pub struct SdpAnswer(pub String);

/// An ICE candidate.
#[derive(Debug)]
pub struct IceCandidate(pub String);

/// Which end of the connection an adapter serves.
#[derive(Debug, Clone, Copy, PartialEq, Eq, Structural)]
pub enum Role {
    Sender,
    Receiver,
}

/// What started a reconnect cycle.
#[derive(Debug)]
pub enum ReconnectTrigger {
    IceFailed,
    ConnectionLost { reason: String },
    /// The peer said goodbye.
    PeerBye,
}

/// Why a session is beyond repair.
#[derive(Debug, Clone, Copy, PartialEq, Eq, Structural)]
pub enum DeadReason {
    IceFailedRepeatedly,
    ConnectionLostRepeatedly,
    SignalingChannelDead,
    UserCanceled,
}

/// State of a session as the supervisor reports it.
#[derive(Debug, Clone, Copy, PartialEq, Eq, Structural)]
pub enum SessionState {
    Connected,
    Reconnecting { attempt: u8, max: u8 },
    Dead { reason: DeadReason },
    /// A state that this layer does not react to.
    Other,
}

/// What this layer tells the reconnect supervisor.
#[derive(Debug)]
pub enum SupervisorSignal {
    LocalFailure { trigger: ReconnectTrigger },
    RebuildSucceeded,
    RebuildFailed,
    Stop,
}

/// What the reconnect supervisor tells this layer.
#[derive(Debug, Clone, Copy, PartialEq, Eq, Structural)]
pub enum SupervisorOutcome {
    StateChanged(SessionState),
    /// Follows `StateChanged(Dead)`.
    Dead(DeadReason),
    PublishReconnectRequest { attempt: u8, session_nonce: u64 },
    PublishReconnectAck { attempt: u8, session_nonce: u64 },
    InitiateRebuild,
    InitiateMdnsReset,
    Stopped,
}

/// What the media transport reports.
#[derive(Debug)]
pub enum TransportEvent {
    IceConnected,
    IceFailed,
    ConnectionLost { reason: String },
    KeyframeRequested,
    /// An event that this layer does not react to.
    Other,
}

/// What the signaling adapter reports.
#[derive(Debug)]
pub enum SignalingEvent {
    PeerFound { host: String, port: u16 },
    OfferReceived(SdpOffer),
    AnswerReceived(SdpAnswer),
    CandidateReceived(IceCandidate),
    Closed,
    Error(SignalingError),
    /// An event that this layer does not react to.
    Other,
}

/// What a wait on an event channel came back with.
#[derive(Debug)]
pub enum Received<E> {
    Event(E),
    /// Nothing arrived in time.
    Timeout,
    /// The other end of the channel is gone.
    Disconnected,
}

/// Status the sender shows in the frontend.
#[derive(Debug)]
pub enum SenderStatusEvent {
    Connecting,
    Streaming,
    PeerLost,
    Stopped,
    Reconnecting { attempt: u8, max: u8 },
    Dead { reason: String },
    Button { label: String },
    Error { message: String },
}

/// Status the receiver shows in the frontend.
#[derive(Debug)]
pub enum StreamStatusEvent {
    Reconnecting { attempt: u8, max: u8 },
    Dead { reason: String },
    Streaming,
}

/// A `SenderStatusEvent` by the characters of its texts.
pub enum SenderStatus {
    Connecting,
    Streaming,
    PeerLost,
    Stopped,
    Reconnecting { attempt: u8, max: u8 },
    Dead { reason: Seq<char> },
    Button { label: Seq<char> },
    Error { message: Seq<char> },
}

/// A `StreamStatusEvent` by the characters of its texts.
pub enum StreamStatus {
    Reconnecting { attempt: u8, max: u8 },
    Dead { reason: Seq<char> },
    Streaming,
}

impl View for SenderStatusEvent {
    type V = SenderStatus;

    open spec fn view(&self) -> SenderStatus {
        match *self {
            SenderStatusEvent::Connecting => SenderStatus::Connecting,
            SenderStatusEvent::Streaming => SenderStatus::Streaming,
            SenderStatusEvent::PeerLost => SenderStatus::PeerLost,
            SenderStatusEvent::Stopped => SenderStatus::Stopped,
            SenderStatusEvent::Reconnecting { attempt, max } => SenderStatus::Reconnecting {
                attempt,
                max,
            },
            SenderStatusEvent::Dead { reason } => SenderStatus::Dead { reason: reason@ },
            SenderStatusEvent::Button { label } => SenderStatus::Button { label: label@ },
            SenderStatusEvent::Error { message } => SenderStatus::Error { message: message@ },
        }
    }
}

impl View for StreamStatusEvent {
    type V = StreamStatus;

    open spec fn view(&self) -> StreamStatus {
        match *self {
            StreamStatusEvent::Reconnecting { attempt, max } => StreamStatus::Reconnecting {
                attempt,
                max,
            },
            StreamStatusEvent::Dead { reason } => StreamStatus::Dead { reason: reason@ },
            StreamStatusEvent::Streaming => StreamStatus::Streaming,
        }
    }
}

/// A run of status events, each by the characters of its texts.
pub open spec fn statuses(events: Seq<SenderStatusEvent>) -> Seq<SenderStatus> {
    events.map_values(|e: SenderStatusEvent| e@)
}

/// The token that the frontend gets for the end of a session.
pub open spec fn dead_text(reason: DeadReason) -> Seq<char> {
    match reason {
        DeadReason::IceFailedRepeatedly => "ice_failed_repeatedly"@,
        DeadReason::ConnectionLostRepeatedly => "connection_lost_repeatedly"@,
        DeadReason::SignalingChannelDead => "signaling_channel_dead"@,
        DeadReason::UserCanceled => "user_canceled"@,
    }
}

/// The token that the frontend gets for the end of a session.
pub fn dead_reason_to_str(reason: DeadReason) -> (s: &'static str)
    ensures
        s@ == dead_text(reason),
{
    match reason {
        DeadReason::IceFailedRepeatedly => "ice_failed_repeatedly",
        DeadReason::ConnectionLostRepeatedly => "connection_lost_repeatedly",
        DeadReason::SignalingChannelDead => "signaling_channel_dead",
        DeadReason::UserCanceled => "user_canceled",
    }
}

/// A status stands for itself: the same kind of status, with the same numbers and the characters of
/// the same texts.
pub proof fn law_statuses_stand_for_themselves(sent: SenderStatusEvent, received: StreamStatusEvent)
    ensures
        sent@ is Connecting <==> sent is Connecting,
        sent@ is Streaming <==> sent is Streaming,
        sent@ is PeerLost <==> sent is PeerLost,
        sent@ is Stopped <==> sent is Stopped,
        forall|attempt: u8, max: u8|
            sent@ == (SenderStatus::Reconnecting { attempt, max }) <==> sent == (
            SenderStatusEvent::Reconnecting { attempt, max }),
        sent@ is Dead <==> sent is Dead,
        sent matches SenderStatusEvent::Dead { reason } ==> sent@ == (SenderStatus::Dead {
            reason: reason@,
        }),
        sent matches SenderStatusEvent::Button { label } ==> sent@ == (SenderStatus::Button {
            label: label@,
        }),
        sent matches SenderStatusEvent::Error { message } ==> sent@ == (SenderStatus::Error {
            message: message@,
        }),
        forall|attempt: u8, max: u8|
            received@ == (StreamStatus::Reconnecting { attempt, max }) <==> received == (
            StreamStatusEvent::Reconnecting { attempt, max }),
        received matches StreamStatusEvent::Dead { reason } ==> received@ == (StreamStatus::Dead {
            reason: reason@,
        }),
        received@ is Streaming <==> received is Streaming,
{
}

/// A run of statuses stands for its events, one for one.
pub proof fn law_runs_of_statuses(events: Seq<SenderStatusEvent>, i: int)
    requires
        0 <= i < events.len(),
    ensures
        statuses(events).len() == events.len(),
        statuses(events)[i] == events[i]@,
{
}

/// Each end of a session has its own token.
pub proof fn law_tokens(reason: DeadReason)
    ensures
        dead_text(reason) == (match reason {
            DeadReason::IceFailedRepeatedly => "ice_failed_repeatedly"@,
            DeadReason::ConnectionLostRepeatedly => "connection_lost_repeatedly"@,
            DeadReason::SignalingChannelDead => "signaling_channel_dead"@,
            DeadReason::UserCanceled => "user_canceled"@,
        }),
{
}

} // verus!
