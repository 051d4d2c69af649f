//! The loops that drain the receiver's signaling and transport events: what they do with an event,
//! and how they run on a host that has the threads and the channels.
//!
//! A drain takes at most as many turns as a `u64` can count, which is more than a machine lives
//! through.
use crate::coordinator::{StreamCoordinatorAction, StreamCoordinatorHooks, SupervisionSettings};
use crate::events::{
    IceCandidate, Received, ReconnectTrigger, SdpAnswer, SdpOffer, SignalingEvent,
    SupervisorSignal, TransportEvent,
};
use crate::nonce;
use crate::nonce::draw;
use crate::sender_drain;
use crate::sender_drain::{drain_wait, DrainNext, DRAIN_WAIT_NS};
use crate::supervision;
use crate::supervision::{
    enter_stream_supervisor_mode, CoordinatorHost, StreamSupervisionStart,
};
use crate::trace;
use crate::trace::HostCall;
use crate::turns;
use crate::turns::Turn;
use vstd::prelude::*;

verus! {

broadcast use trace::lemma_no_call;

/// What the receiver's signaling drain does with one event.
#[derive(Debug)]
pub enum StreamSignalingStep {
    /// Wait for the next event.
    Continue,
    /// Give the offer to the receiver, and report with `offer_applied`.
    ApplyOffer(SdpOffer),
    /// Publish the answer, and wait for the next event whatever comes of it.
    PublishAnswer(SdpAnswer),
    /// Give the candidate to the receiver, and wait for the next event whatever comes of it.
    AddCandidate(IceCandidate),
    /// Send the signal to the supervisor, if there is room, and leave the loop.
    SignalAndExit(SupervisorSignal),
    /// Leave the loop.
    Exit,
}

/// How the receiver's signaling drain reacts. `supervisor_armed` says that a supervisor listens.
pub open spec fn signaling_step(
    received: Received<SignalingEvent>,
    supervisor_armed: bool,
) -> StreamSignalingStep {
    match received {
        Received::Timeout => StreamSignalingStep::Continue,
        Received::Disconnected => StreamSignalingStep::Exit,
        Received::Event(SignalingEvent::OfferReceived(offer)) => StreamSignalingStep::ApplyOffer(
            offer,
        ),
        Received::Event(
            SignalingEvent::CandidateReceived(candidate),
        ) => StreamSignalingStep::AddCandidate(candidate),
        Received::Event(SignalingEvent::Closed) => if supervisor_armed {
            StreamSignalingStep::SignalAndExit(
                SupervisorSignal::LocalFailure { trigger: ReconnectTrigger::PeerBye },
            )
        } else {
            StreamSignalingStep::Exit
        },
        Received::Event(_) => StreamSignalingStep::Continue,
    }
}

/// One event of the receiver's signaling drain. A peer that says goodbye is reported to the
/// supervisor, if one listens, and ends the drain either way.
pub fn stream_signaling_event(received: Received<SignalingEvent>, supervisor_armed: bool) -> (r:
    StreamSignalingStep)
    ensures
        r == signaling_step(received, supervisor_armed),
{
    match received {
        Received::Timeout => StreamSignalingStep::Continue,
        Received::Disconnected => StreamSignalingStep::Exit,
        Received::Event(event) => match event {
            SignalingEvent::PeerFound { .. } => StreamSignalingStep::Continue,
            SignalingEvent::OfferReceived(offer) => StreamSignalingStep::ApplyOffer(offer),
            SignalingEvent::AnswerReceived(_) => StreamSignalingStep::Continue,
            SignalingEvent::CandidateReceived(candidate) => StreamSignalingStep::AddCandidate(
                candidate,
            ),
            SignalingEvent::Closed => {
                if supervisor_armed {
                    StreamSignalingStep::SignalAndExit(
                        SupervisorSignal::LocalFailure { trigger: ReconnectTrigger::PeerBye },
                    )
                } else {
                    StreamSignalingStep::Exit
                }
            },
            SignalingEvent::Error(_) => StreamSignalingStep::Continue,
            SignalingEvent::Other => StreamSignalingStep::Continue,
        },
    }
}

/// What follows the receiver's answer to an offer: it is published; a failure is passed over.
pub open spec fn answer_step(answer: Result<SdpAnswer, String>) -> StreamSignalingStep {
    match answer {
        Ok(answer) => StreamSignalingStep::PublishAnswer(answer),
        Err(_) => StreamSignalingStep::Continue,
    }
}

/// Takes the receiver's answer to an offer.
pub fn offer_applied(answer: Result<SdpAnswer, String>) -> (r: StreamSignalingStep)
    ensures
        r == answer_step(answer),
{
    match answer {
        Ok(answer) => StreamSignalingStep::PublishAnswer(answer),
        Err(_) => StreamSignalingStep::Continue,
    }
}

/// One event of the receiver's transport drain with a supervisor: a failure hands over to it.
/// The same events move the sender's drain in the same way.
pub fn stream_transport_event(received: Received<TransportEvent>) -> (r: DrainNext)
    ensures
        r == sender_drain::next_after(received),
{
    match received {
        Received::Event(TransportEvent::IceFailed) => DrainNext::EnterSupervisor(
            ReconnectTrigger::IceFailed,
        ),
        Received::Event(TransportEvent::ConnectionLost { reason }) => DrainNext::EnterSupervisor(
            ReconnectTrigger::ConnectionLost { reason },
        ),
        Received::Event(_) => DrainNext::Continue,
        Received::Timeout => DrainNext::Continue,
        Received::Disconnected => DrainNext::Exit,
    }
}

/// One event of the receiver's transport drain without a supervisor, which only takes events out
/// of the channel.
pub fn absorb_transport_event(received: &Received<TransportEvent>) -> (r: DrainNext)
    ensures
        r == (if *received is Disconnected {
            DrainNext::Exit
        } else {
            DrainNext::Continue
        }),
{
    match received {
        Received::Disconnected => DrainNext::Exit,
        Received::Event(_) => DrainNext::Continue,
        Received::Timeout => DrainNext::Continue,
    }
}

/// A goodbye of the peer always ends the receiver's signaling drain, and wakes the supervisor
/// whenever one listens; nothing else wakes it.
pub proof fn law_goodbye_wakes_the_supervisor(
    received: Received<SignalingEvent>,
    supervisor_armed: bool,
)
    ensures
        signaling_step(received, supervisor_armed) is SignalAndExit <==> received
            == Received::<SignalingEvent>::Event(SignalingEvent::Closed) && supervisor_armed,
        received == Received::<SignalingEvent>::Event(SignalingEvent::Closed) ==> signaling_step(
            received,
            supervisor_armed,
        ) is SignalAndExit || signaling_step(received, supervisor_armed) is Exit,
{
}

/// What the receiver's signaling drain needs of the surrounding program. A failure comes with its
/// text.
pub trait StreamSignalingHost: Sized {
    /// Has the generation's stop flag been raised?
    fn stop_requested(self) -> (r: (Self, bool));

    /// Waits for a signaling event, but no longer than this.
    fn receive(self, wait_ns: u64) -> (r: (Self, Received<SignalingEvent>));

    fn apply_remote_offer(self, offer: SdpOffer) -> (r: (Self, Result<SdpAnswer, String>));

    fn add_remote_candidate(self, cand: IceCandidate) -> (r: (Self, Result<(), String>));

    fn publish_local_answer(self, answer: SdpAnswer) -> (r: (Self, Result<(), String>));

    /// Does a supervisor listen?
    fn supervisor_armed(self) -> (r: (Self, bool));

    /// Tells the supervisor, if there is one and it has room.
    fn signal(self, signal: SupervisorSignal) -> (after: Self);
}

/// A call to the host of the receiver's signaling drain.
#[allow(inconsistent_fields)]
pub enum StreamSignalingCall {
    StopRequested(bool),
    Receive { wait_ns: u64, received: Received<SignalingEvent> },
    SupervisorArmed(bool),
    ApplyOffer { offer: SdpOffer, answer: Result<SdpAnswer, String> },
    AddCandidate { candidate: IceCandidate, result: Result<(), String> },
    PublishAnswer { answer: SdpAnswer, result: Result<(), String> },
    Signal(SupervisorSignal),
}

impl<H: StreamSignalingHost> HostCall<H> for StreamSignalingCall {
    open spec fn made(self, before: H, after: H) -> bool {
        match self {
            StreamSignalingCall::StopRequested(stop) => call_ensures(
                H::stop_requested,
                (before,),
                (after, stop),
            ),
            StreamSignalingCall::Receive { wait_ns, received } => call_ensures(
                H::receive,
                (before, wait_ns),
                (after, received),
            ),
            StreamSignalingCall::SupervisorArmed(armed) => call_ensures(
                H::supervisor_armed,
                (before,),
                (after, armed),
            ),
            StreamSignalingCall::ApplyOffer { offer, answer } => call_ensures(
                H::apply_remote_offer,
                (before, offer),
                (after, answer),
            ),
            StreamSignalingCall::AddCandidate { candidate, result } => call_ensures(
                H::add_remote_candidate,
                (before, candidate),
                (after, result),
            ),
            StreamSignalingCall::PublishAnswer { answer, result } => call_ensures(
                H::publish_local_answer,
                (before, answer),
                (after, result),
            ),
            StreamSignalingCall::Signal(signal) => call_ensures(H::signal, (before, signal), after),
        }
    }
}

/// One turn of the receiver's signaling drain, with what it reads when the peer says goodbye, and
/// what the transport and the signaling say to what they are given.
pub struct StreamSignalingTurn {
    pub stop_flag: bool,
    pub received: Received<SignalingEvent>,
    pub supervisor_armed: bool,
    pub answer: Result<SdpAnswer, String>,
    pub result: Result<(), String>,
}

impl StreamSignalingTurn {
    /// What the drain does in this turn.
    pub open spec fn step(self) -> StreamSignalingStep {
        if self.stop_flag {
            StreamSignalingStep::Exit
        } else {
            signaling_step(self.received, self.supervisor_armed)
        }
    }

    /// The drain leaves its loop in this turn.
    pub open spec fn leaves(self) -> bool {
        self.step() is Exit || self.step() is SignalAndExit
    }

    /// The calls by which the drain learns what the turn brings. Whether a supervisor listens is
    /// read only when the peer says goodbye.
    pub open spec fn reading_calls(self) -> Seq<StreamSignalingCall> {
        let read = seq![StreamSignalingCall::StopRequested(self.stop_flag)];
        if self.stop_flag {
            read
        } else {
            let got = read.push(
                StreamSignalingCall::Receive { wait_ns: DRAIN_WAIT_NS, received: self.received },
            );
            if self.received == Received::<SignalingEvent>::Event(SignalingEvent::Closed) {
                got.push(StreamSignalingCall::SupervisorArmed(self.supervisor_armed))
            } else {
                got
            }
        }
    }
}

/// The calls that carry out a step, with what comes back where something is asked for. An offer
/// that the transport takes has its answer published.
pub open spec fn step_calls(
    step: StreamSignalingStep,
    answer: Result<SdpAnswer, String>,
    result: Result<(), String>,
) -> Seq<StreamSignalingCall> {
    match step {
        StreamSignalingStep::Continue => Seq::empty(),
        StreamSignalingStep::Exit => Seq::empty(),
        StreamSignalingStep::ApplyOffer(offer) => {
            let applied = seq![StreamSignalingCall::ApplyOffer { offer, answer }];
            match answer {
                Ok(answer) => applied.push(StreamSignalingCall::PublishAnswer { answer, result }),
                Err(_) => applied,
            }
        },
        StreamSignalingStep::PublishAnswer(answer) => seq![
            StreamSignalingCall::PublishAnswer { answer, result },
        ],
        StreamSignalingStep::AddCandidate(candidate) => seq![
            StreamSignalingCall::AddCandidate { candidate, result },
        ],
        StreamSignalingStep::SignalAndExit(signal) => seq![StreamSignalingCall::Signal(signal)],
    }
}

/// The calls of the receiver's signaling drain over a run of turns.
pub open spec fn signaling_calls(turns: Seq<StreamSignalingTurn>) -> Seq<StreamSignalingCall>
    decreases turns.len(),
{
    if turns.len() == 0 {
        Seq::empty()
    } else {
        let turn = turns.last();
        signaling_calls(turns.drop_last()) + turn.reading_calls() + step_calls(
            turn.step(),
            turn.answer,
            turn.result,
        )
    }
}

/// The turns of the receiver's signaling drain, from the first to the one in which it leaves.
pub open spec fn is_signaling_run(turns: Seq<StreamSignalingTurn>) -> bool {
    turns::is_row(turns, |turn: StreamSignalingTurn| turn.leaves())
}

/// Reads what one turn of the drain brings: the stop flag, the event, and for a goodbye whether a
/// supervisor listens.
fn read_on<H: StreamSignalingHost>(host: H) -> (r: (H, bool, Received<SignalingEvent>, bool))
    ensures
        forall|turn: StreamSignalingTurn|
            turn.stop_flag == r.1 && turn.received == r.2 && turn.supervisor_armed == r.3
                ==> trace::leads(host, #[trigger] turn.reading_calls(), r.0),
{
    let ghost first = host;
    let ghost mut calls = Seq::<StreamSignalingCall>::empty();
    let (host, stop_flag) = host.stop_requested();
    proof {
        let call = StreamSignalingCall::StopRequested(stop_flag);
        trace::lemma_called(first, calls, first, call, host);
        calls = calls.push(call);
    }
    let wait: u64 = match drain_wait(stop_flag) {
        Some(wait) => wait,
        None => {
            assert forall|turn: StreamSignalingTurn| turn.stop_flag implies #[trigger]
                turn.reading_calls() == calls by {
                assert(turn.reading_calls() =~= calls);
            }
            return (host, stop_flag, Received::Timeout, false);
        },
    };
    let ghost before = host;
    let (host, received) = host.receive(wait);
    proof {
        let call = StreamSignalingCall::Receive { wait_ns: wait, received };
        trace::lemma_called(first, calls, before, call, host);
        calls = calls.push(call);
    }
    let mut at = host;
    let mut armed = false;
    match &received {
        Received::Event(SignalingEvent::Closed) => {
            let ghost before = at;
            let (next, answer) = at.supervisor_armed();
            at = next;
            armed = answer;
            proof {
                let call = StreamSignalingCall::SupervisorArmed(answer);
                trace::lemma_called(first, calls, before, call, at);
                calls = calls.push(call);
            }
        },
        _ => {},
    }
    assert forall|turn: StreamSignalingTurn|
        turn.stop_flag == stop_flag && turn.received == received && turn.supervisor_armed
            == armed implies #[trigger] turn.reading_calls() == calls by {
        assert(turn.reading_calls() =~= calls);
    }
    (at, stop_flag, received, armed)
}

/// Publishes an answer.
fn publish_on<H: StreamSignalingHost>(host: H, answer: SdpAnswer) -> (r: (H, Result<(), String>))
    ensures
        trace::leads(
            host,
            seq![StreamSignalingCall::PublishAnswer { answer, result: r.1 }],
            r.0,
        ),
{
    let ghost first = host;
    let ghost given = answer;
    let ghost nothing = Seq::<StreamSignalingCall>::empty();
    let (after, result) = host.publish_local_answer(answer);
    proof {
        let call = StreamSignalingCall::PublishAnswer { answer: given, result };
        trace::lemma_called(first, nothing, first, call, after);
        assert(seq![call] =~= nothing.push(call));
    }
    (after, result)
}

/// Carries out a step on a host.
fn step_on<H: StreamSignalingHost>(host: H, step: StreamSignalingStep) -> (after: H)
    ensures
        exists|answer: Result<SdpAnswer, String>, result: Result<(), String>|
            trace::leads(host, #[trigger] step_calls(step, answer, result), after),
{
    let ghost first = host;
    let ghost asked = step;
    let ghost nothing = Seq::<StreamSignalingCall>::empty();
    let ghost no_answer: Result<SdpAnswer, String> = arbitrary();
    let ghost no_result: Result<(), String> = arbitrary();
    assert(trace::leads(first, nothing, first));
    match step {
        StreamSignalingStep::Continue => {
            assert(step_calls(asked, no_answer, no_result) == nothing);
            host
        },
        StreamSignalingStep::Exit => {
            assert(step_calls(asked, no_answer, no_result) == nothing);
            host
        },
        StreamSignalingStep::ApplyOffer(offer) => {
            let ghost given = offer;
            let (mid, answer) = host.apply_remote_offer(offer);
            let ghost outcome = answer;
            let ghost call = StreamSignalingCall::ApplyOffer { offer: given, answer };
            proof {
                trace::lemma_called(first, nothing, first, call, mid);
                assert(seq![call] =~= nothing.push(call));
            }
            match offer_applied(answer) {
                StreamSignalingStep::PublishAnswer(answer) => {
                    let ghost published = answer;
                    let (after, result) = publish_on(mid, answer);
                    proof {
                        let more = StreamSignalingCall::PublishAnswer { answer: published, result };
                        trace::lemma_joined(first, seq![call], mid, seq![more], after);
                        assert(step_calls(asked, outcome, result) =~= seq![call] + seq![more]);
                    }
                    after
                },
                _ => {
                    assert(step_calls(asked, outcome, no_result) == seq![call]);
                    mid
                },
            }
        },
        StreamSignalingStep::PublishAnswer(answer) => {
            let (after, result) = publish_on(host, answer);
            assert(trace::leads(first, step_calls(asked, no_answer, result), after));
            after
        },
        StreamSignalingStep::AddCandidate(candidate) => {
            let ghost given = candidate;
            let (after, result) = host.add_remote_candidate(candidate);
            proof {
                let call = StreamSignalingCall::AddCandidate { candidate: given, result };
                trace::lemma_called(first, nothing, first, call, after);
                assert(step_calls(asked, no_answer, result) =~= nothing.push(call));
            }
            after
        },
        StreamSignalingStep::SignalAndExit(signal) => {
            let ghost call = StreamSignalingCall::Signal(signal);
            let after = host.signal(signal);
            proof {
                trace::lemma_called(first, nothing, first, call, after);
                assert(step_calls(asked, no_answer, no_result) =~= nothing.push(call));
            }
            after
        },
    }
}

/// Does the drain leave its loop with this step?
fn is_last(step: &StreamSignalingStep) -> (r: bool)
    ensures
        r == (*step is Exit || *step is SignalAndExit),
{
    match step {
        StreamSignalingStep::Exit => true,
        StreamSignalingStep::SignalAndExit(_) => true,
        _ => false,
    }
}

/// Drains the receiver's signaling events, until it is stopped, the channel is gone, or the peer
/// has said goodbye.
pub fn run_signaling_drain<H: StreamSignalingHost>(host: H) -> (after: H)
    ensures
        exists|turns: Seq<StreamSignalingTurn>|
            is_signaling_run(turns) && trace::leads(host, #[trigger] signaling_calls(turns), after),
{
    let mut at = host;
    let mut turns_left: u64 = u64::MAX;
    let ghost mut turns: Seq<StreamSignalingTurn> = Seq::empty();
    while turns_left > 0
        invariant
            turns.len() + turns_left == u64::MAX,
            forall|i: int| 0 <= i < turns.len() ==> !(#[trigger] turns[i]).leaves(),
            trace::leads(host, signaling_calls(turns), at),
        decreases turns_left,
    {
        turns_left = turns_left - 1;
        let ghost before = at;
        let (read, stop_flag, received, supervisor_armed) = read_on(at);
        let ghost got = received;
        let step = if stop_flag {
            StreamSignalingStep::Exit
        } else {
            stream_signaling_event(received, supervisor_armed)
        };
        let ghost the_step = step;
        let last = is_last(&step);
        at = step_on(read, step);
        proof {
            let (answer, result) = choose|
                answer: Result<SdpAnswer, String>,
                result: Result<(), String>,
            |
                trace::leads(read, #[trigger] step_calls(the_step, answer, result), at);
            let turn = StreamSignalingTurn {
                stop_flag,
                received: got,
                supervisor_armed,
                answer,
                result,
            };
            let calls = signaling_calls(turns);
            let reading = turn.reading_calls();
            let doing = step_calls(turn.step(), answer, result);
            trace::lemma_joined(host, calls, before, reading, read);
            trace::lemma_joined(host, calls + reading, read, doing, at);
            assert(turns.push(turn).drop_last() =~= turns);
            turns = turns.push(turn);
            assert(signaling_calls(turns) == calls + reading + doing);
        }
        if last {
            assert(is_signaling_run(turns));
            return at;
        }
    }
    assert(is_signaling_run(turns));
    at
}

/// A call to the host of a receiver's transport drain. The drain runs on the host of the coordinator
/// to which it hands over: the stop flag and the transport events are the same.
pub enum StreamDrainCall {
    StopRequested(bool),
    Receive { wait_ns: u64, received: Received<TransportEvent> },
    /// Not one call, but all that the receiver's coordinator makes from its set-up to the end.
    Supervise(StreamSupervisionStart),
}

impl<H: CoordinatorHost<Action = StreamCoordinatorAction>> HostCall<H> for StreamDrainCall {
    open spec fn made(self, before: H, after: H) -> bool {
        match self {
            StreamDrainCall::StopRequested(stop) => call_ensures(
                H::stop_requested,
                (before,),
                (after, stop),
            ),
            StreamDrainCall::Receive { wait_ns, received } => call_ensures(
                H::receive,
                (before, wait_ns),
                (after, received),
            ),
            StreamDrainCall::Supervise(start) => supervision::is_stream_supervised(
                before,
                start,
                after,
            ),
        }
    }
}

/// The calls by which a transport drain learns what a turn brings.
pub open spec fn reading_calls(turn: Turn<TransportEvent>) -> Seq<StreamDrainCall> {
    let read = seq![StreamDrainCall::StopRequested(turn.stop_flag)];
    if turn.stop_flag {
        read
    } else {
        read.push(StreamDrainCall::Receive { wait_ns: DRAIN_WAIT_NS, received: turn.received })
    }
}

/// The calls of a transport drain over a run of turns, in none of which it asks for anything.
pub open spec fn absorbing_calls(turns: Seq<Turn<TransportEvent>>) -> Seq<StreamDrainCall>
    decreases turns.len(),
{
    if turns.len() == 0 {
        Seq::empty()
    } else {
        absorbing_calls(turns.drop_last()) + reading_calls(turns.last())
    }
}

/// The turns of a transport drain that only takes events out of the channel.
pub open spec fn is_absorbing_run(turns: Seq<Turn<TransportEvent>>) -> bool {
    turns::is_row(turns, |turn: Turn<TransportEvent>| sender_drain::leaves_unsupervised(turn))
}

/// Reads what one turn of a transport drain brings: the stop flag and the event.
fn read_transport_on<H: CoordinatorHost<Action = StreamCoordinatorAction>>(host: H) -> (r: (
    H,
    bool,
    Received<TransportEvent>,
))
    ensures
        trace::leads(host, reading_calls((Turn { stop_flag: r.1, received: r.2 })), r.0),
        r.1 ==> r.2 is Timeout,
{
    let ghost first = host;
    let ghost mut calls = Seq::<StreamDrainCall>::empty();
    let (host, stop_flag) = host.stop_requested();
    proof {
        let call = StreamDrainCall::StopRequested(stop_flag);
        trace::lemma_called(first, calls, first, call, host);
        calls = calls.push(call);
    }
    let wait: u64 = match drain_wait(stop_flag) {
        Some(wait) => wait,
        None => {
            assert(reading_calls(Turn { stop_flag, received: Received::Timeout }) =~= calls);
            return (host, stop_flag, Received::Timeout);
        },
    };
    let ghost before = host;
    let (host, received) = host.receive(wait);
    proof {
        let call = StreamDrainCall::Receive { wait_ns: wait, received };
        trace::lemma_called(first, calls, before, call, host);
        assert(reading_calls(Turn { stop_flag, received }) =~= calls.push(call));
    }
    (host, stop_flag, received)
}

/// A drain without a supervisor, which only takes events out of the channel, until it is stopped
/// or the transport is gone.
pub fn run_transport_event_drain<H: CoordinatorHost<Action = StreamCoordinatorAction>>(
    host: H,
) -> (after: H)
    ensures
        exists|turns: Seq<Turn<TransportEvent>>|
            is_absorbing_run(turns) && trace::leads(host, #[trigger] absorbing_calls(turns), after),
{
    let mut at = host;
    let mut turns_left: u64 = u64::MAX;
    let ghost mut turns: Seq<Turn<TransportEvent>> = Seq::empty();
    while turns_left > 0
        invariant
            turns.len() + turns_left == u64::MAX,
            forall|i: int|
                0 <= i < turns.len() ==> !sender_drain::leaves_unsupervised(#[trigger] turns[i]),
            trace::leads(host, absorbing_calls(turns), at),
        decreases turns_left,
    {
        turns_left = turns_left - 1;
        let ghost before = at;
        let (next, stop_flag, received) = read_transport_on(at);
        at = next;
        proof {
            let turn = Turn { stop_flag, received };
            trace::lemma_joined(host, absorbing_calls(turns), before, reading_calls(turn), at);
            assert(turns.push(turn).drop_last() =~= turns);
            turns = turns.push(turn);
            assert(trace::leads(host, absorbing_calls(turns), at));
        }
        if stop_flag {
            assert(is_absorbing_run(turns));
            return at;
        }
        match absorb_transport_event(&received) {
            DrainNext::Continue => {},
            _ => {
                assert(is_absorbing_run(turns));
                return at;
            },
        }
    }
    assert(is_absorbing_run(turns));
    at
}

/// How a supervised drain goes on after a turn.
pub open spec fn turn_next(turn: Turn<TransportEvent>) -> DrainNext {
    if turn.stop_flag {
        DrainNext::Exit
    } else {
        sender_drain::next_after(turn.received)
    }
}

/// The turns of a supervised drain, from the first to the one in which it leaves.
pub open spec fn is_supervised_run(turns: Seq<Turn<TransportEvent>>) -> bool {
    turns::is_row(turns, |turn: Turn<TransportEvent>| turn_next(turn) !is Continue)
}

/// The calls of a supervised drain over a run of turns: a failure of the transport in the last one
/// is handed over to a supervisor.
pub open spec fn supervised_calls(
    settings: SupervisionSettings,
    hooks: StreamCoordinatorHooks,
    session_nonce: u64,
    turns: Seq<Turn<TransportEvent>>,
) -> Seq<StreamDrainCall> {
    absorbing_calls(turns) + match turn_next(turns.last()) {
        DrainNext::EnterSupervisor(trigger) => seq![
            StreamDrainCall::Supervise(
                StreamSupervisionStart { trigger, session_nonce, settings, hooks },
            ),
        ],
        _ => Seq::empty(),
    }
}

/// The receiver's transport drain: hands over to a supervisor when the connection fails.
pub fn run_stream_transport_event_drain_with_supervisor_custom_and_hooks<
    H: CoordinatorHost<Action = StreamCoordinatorAction>,
>(
    host: H,
    settings: SupervisionSettings,
    hooks: StreamCoordinatorHooks,
) -> (after: H)
    ensures
        exists|session_nonce: u64, turns: Seq<Turn<TransportEvent>>|
            nonce::is_draw(session_nonce) && is_supervised_run(turns) && trace::leads(
                host,
                #[trigger] supervised_calls(settings, hooks, session_nonce, turns),
                after,
            ),
{
    let session_nonce: u64 = draw();
    let mut at = host;
    let mut turns_left: u64 = u64::MAX;
    let ghost mut turns: Seq<Turn<TransportEvent>> = Seq::empty();
    while turns_left > 0
        invariant
            turns.len() + turns_left == u64::MAX,
            nonce::is_draw(session_nonce),
            forall|i: int| 0 <= i < turns.len() ==> turn_next(#[trigger] turns[i]) is Continue,
            trace::leads(host, absorbing_calls(turns), at),
        decreases turns_left,
    {
        turns_left = turns_left - 1;
        let ghost before = at;
        let (next, stop_flag, received) = read_transport_on(at);
        at = next;
        proof {
            let turn = Turn { stop_flag, received };
            trace::lemma_joined(host, absorbing_calls(turns), before, reading_calls(turn), at);
            assert(turns.push(turn).drop_last() =~= turns);
            turns = turns.push(turn);
        }
        let next = if stop_flag {
            DrainNext::Exit
        } else {
            stream_transport_event(received)
        };
        match next {
            DrainNext::Continue => {},
            DrainNext::Exit => {
                proof {
                    assert(is_supervised_run(turns));
                    assert(supervised_calls(settings, hooks, session_nonce, turns)
                        =~= absorbing_calls(turns));
                }
                return at;
            },
            DrainNext::EnterSupervisor(trigger) => {
                let start = StreamSupervisionStart { trigger, session_nonce, settings, hooks };
                let ghost call = StreamDrainCall::Supervise(start);
                let ghost before = at;
                let after = enter_stream_supervisor_mode(at, start);
                proof {
                    trace::lemma_called(host, absorbing_calls(turns), before, call, after);
                    assert(is_supervised_run(turns));
                    assert(supervised_calls(settings, hooks, session_nonce, turns)
                        =~= absorbing_calls(turns).push(call));
                }
                return after;
            },
        }
    }
    proof {
        assert(turns.last() == turns[turns.len() - 1]);
        assert(is_supervised_run(turns));
        assert(supervised_calls(settings, hooks, session_nonce, turns) =~= absorbing_calls(turns));
    }
    at
}

/// The same without callbacks.
pub fn run_stream_transport_event_drain_with_supervisor_custom<
    H: CoordinatorHost<Action = StreamCoordinatorAction>,
>(
    host: H,
    settings: SupervisionSettings,
) -> (after: H)
    ensures
        exists|session_nonce: u64, turns: Seq<Turn<TransportEvent>>|
            nonce::is_draw(session_nonce) && is_supervised_run(turns) && trace::leads(
                host,
                #[trigger] supervised_calls(
                    settings,
                    StreamCoordinatorHooks::none(),
                    session_nonce,
                    turns,
                ),
                after,
            ),
{
    run_stream_transport_event_drain_with_supervisor_custom_and_hooks(
        host,
        settings,
        StreamCoordinatorHooks::noop(),
    )
}

/// The same with the usual supervisor.
pub fn run_stream_transport_event_drain_with_supervisor<
    H: CoordinatorHost<Action = StreamCoordinatorAction>,
>(host: H) -> (after: H)
    ensures
        exists|session_nonce: u64, turns: Seq<Turn<TransportEvent>>|
            nonce::is_draw(session_nonce) && is_supervised_run(turns) && trace::leads(
                host,
                #[trigger] supervised_calls(
                    SupervisionSettings::usual(),
                    StreamCoordinatorHooks::none(),
                    session_nonce,
                    turns,
                ),
                after,
            ),
{
    run_stream_transport_event_drain_with_supervisor_custom(host, SupervisionSettings::production())
}

/// A failure of the transport starts a reconnect: a turn of the receiver's supervised drain that is
/// not stopped and hears of a failed or lost connection is the last one, and the last thing that the
/// drain does is to hand over to a supervisor, with that very failure, with the reason that came
/// with it, and with the settings, the callbacks and the nonce of the drain.
pub proof fn law_failure_is_handed_over(
    settings: SupervisionSettings,
    hooks: StreamCoordinatorHooks,
    session_nonce: u64,
    turns: Seq<Turn<TransportEvent>>,
    i: int,
)
    requires
        is_supervised_run(turns),
        0 <= i < turns.len(),
        !turns[i].stop_flag,
        turns[i].received matches Received::Event(e) && (e is IceFailed || e is ConnectionLost),
    ensures
        i == turns.len() - 1,
        supervised_calls(settings, hooks, session_nonce, turns).len() > 0,
        supervised_calls(settings, hooks, session_nonce, turns).last()
            matches StreamDrainCall::Supervise(start) && {
            &&& start.session_nonce == session_nonce
            &&& start.settings == settings
            &&& start.hooks == hooks
            &&& turns[i].received == Received::<TransportEvent>::Event(TransportEvent::IceFailed)
                ==> start.trigger == ReconnectTrigger::IceFailed
            &&& turns[i].received matches Received::Event(TransportEvent::ConnectionLost { reason })
                ==> start.trigger == (ReconnectTrigger::ConnectionLost { reason })
        },
{
    assert(turn_next(turns[i]) !is Continue);
}

/// Nothing but a failure of the transport starts a reconnect: if the receiver's supervised drain
/// hands over to a supervisor, it does so once, as the last thing it does, in a turn that was not
/// stopped and heard of a failed or lost connection.
pub proof fn law_only_a_failure_is_handed_over(
    settings: SupervisionSettings,
    hooks: StreamCoordinatorHooks,
    session_nonce: u64,
    turns: Seq<Turn<TransportEvent>>,
    k: int,
)
    requires
        turns.len() > 0,
        0 <= k < supervised_calls(settings, hooks, session_nonce, turns).len(),
        supervised_calls(settings, hooks, session_nonce, turns)[k] is Supervise,
    ensures
        k == supervised_calls(settings, hooks, session_nonce, turns).len() - 1,
        !turns.last().stop_flag,
        turns.last().received matches Received::Event(e) && (e is IceFailed || e is ConnectionLost),
{
    lemma_absorbing_supervises_nothing(turns);
    let calls = absorbing_calls(turns);
    if k < calls.len() {
        assert(calls[k] !is Supervise);
    }
}

/// Reading events hands nothing over.
proof fn lemma_absorbing_supervises_nothing(turns: Seq<Turn<TransportEvent>>)
    ensures
        forall|k: int|
            0 <= k < absorbing_calls(turns).len() ==> (#[trigger] absorbing_calls(turns)[k])
                !is Supervise,
    decreases turns.len(),
{
    if turns.len() > 0 {
        let front = absorbing_calls(turns.drop_last());
        lemma_absorbing_supervises_nothing(turns.drop_last());
        assert forall|k: int| 0 <= k < absorbing_calls(turns).len() implies (
        #[trigger] absorbing_calls(turns)[k]) !is Supervise by {
            if k < front.len() {
                assert(absorbing_calls(turns)[k] == front[k]);
            }
        }
    }
}

/// When a receiver's transport drain leaves: a supervised one when it is stopped, when the transport
/// is gone or when the connection fails; one without a supervisor only when it is stopped or the
/// transport is gone, whatever it hears of. Up to then both go on.
pub proof fn law_when_a_transport_drain_leaves(turns: Seq<Turn<TransportEvent>>, i: int)
    requires
        0 <= i < turns.len(),
    ensures
        ({
            let gone = turns[i].stop_flag || turns[i].received is Disconnected;
            let failed = turns[i].received matches Received::Event(e) && (e is IceFailed
                || e is ConnectionLost);
            &&& is_supervised_run(turns) && i < turns.len() - 1 ==> !gone && !failed
            &&& is_supervised_run(turns) && i == turns.len() - 1 < u64::MAX - 1 ==> gone || failed
            &&& is_absorbing_run(turns) && i < turns.len() - 1 ==> !gone
            &&& is_absorbing_run(turns) && i == turns.len() - 1 < u64::MAX - 1 ==> gone
        }),
{
    if i < turns.len() - 1 {
        if is_supervised_run(turns) {
            assert(turn_next(turns[i]) is Continue);
        }
        if is_absorbing_run(turns) {
            assert(!sender_drain::leaves_unsupervised(turns[i]));
        }
    }
}

/// What a transport drain reads: in each turn the stop flag, and if that is down, whatever comes
/// within half a second. Turn follows turn, and nothing else is called; a supervised drain that has
/// not met a failure calls the same.
pub proof fn law_what_a_transport_drain_reads(
    turns: Seq<Turn<TransportEvent>>,
    turn: Turn<TransportEvent>,
    settings: SupervisionSettings,
    hooks: StreamCoordinatorHooks,
    session_nonce: u64,
)
    ensures
        absorbing_calls(Seq::empty()) == Seq::<StreamDrainCall>::empty(),
        absorbing_calls(turns.push(turn)) == absorbing_calls(turns) + (if turn.stop_flag {
            seq![StreamDrainCall::StopRequested(true)]
        } else {
            seq![
                StreamDrainCall::StopRequested(false),
                StreamDrainCall::Receive { wait_ns: 500_000_000, received: turn.received },
            ]
        }),
        turn.stop_flag || !(turn.received matches Received::Event(e) && (e is IceFailed
            || e is ConnectionLost)) ==> supervised_calls(
            settings,
            hooks,
            session_nonce,
            turns.push(turn),
        ) == absorbing_calls(turns.push(turn)),
        !turn.stop_flag && (turn.received matches Received::Event(e) && (e is IceFailed
            || e is ConnectionLost)) ==> supervised_calls(
            settings,
            hooks,
            session_nonce,
            turns.push(turn),
        ).drop_last() == absorbing_calls(turns.push(turn)),
{
    let all = turns.push(turn);
    assert(all.drop_last() =~= turns);
    assert(reading_calls(turn) =~= (if turn.stop_flag {
        seq![StreamDrainCall::StopRequested(true)]
    } else {
        seq![
            StreamDrainCall::StopRequested(false),
            StreamDrainCall::Receive { wait_ns: 500_000_000, received: turn.received },
        ]
    }));
    let calls = supervised_calls(settings, hooks, session_nonce, all);
    if turn.stop_flag || !(turn.received matches Received::Event(e) && (e is IceFailed
        || e is ConnectionLost)) {
        assert(calls =~= absorbing_calls(all));
    } else {
        assert(calls.drop_last() =~= absorbing_calls(all));
    }
}

/// What the receiver's signaling drain does with what it hears, event by event. An offer goes to
/// the receiver as it is, and the answer that the receiver makes of it is published as it is; one
/// that the receiver refuses is passed over. A candidate goes to the receiver as it is. When the
/// peer says goodbye, it is looked up whether a supervisor listens, and only then is it told of the
/// goodbye. Everything else is passed over. The stop flag is read first, and an event is waited for
/// half a second.
pub proof fn law_what_the_signaling_drain_does(
    turns: Seq<StreamSignalingTurn>,
    turn: StreamSignalingTurn,
)
    ensures
        signaling_calls(Seq::empty()) == Seq::<StreamSignalingCall>::empty(),
        signaling_calls(turns.push(turn)) == signaling_calls(turns) + (if turn.stop_flag {
            seq![StreamSignalingCall::StopRequested(true)]
        } else {
            seq![
                StreamSignalingCall::StopRequested(false),
                StreamSignalingCall::Receive { wait_ns: 500_000_000, received: turn.received },
            ] + (match turn.received {
                Received::Event(SignalingEvent::OfferReceived(offer)) => match turn.answer {
                    Ok(answer) => seq![
                        StreamSignalingCall::ApplyOffer { offer, answer: Ok(answer) },
                        StreamSignalingCall::PublishAnswer { answer, result: turn.result },
                    ],
                    Err(why) => seq![StreamSignalingCall::ApplyOffer { offer, answer: Err(why) }],
                },
                Received::Event(SignalingEvent::CandidateReceived(candidate)) => seq![
                    StreamSignalingCall::AddCandidate { candidate, result: turn.result },
                ],
                Received::Event(SignalingEvent::Closed) => if turn.supervisor_armed {
                    seq![
                        StreamSignalingCall::SupervisorArmed(true),
                        StreamSignalingCall::Signal(
                            SupervisorSignal::LocalFailure { trigger: ReconnectTrigger::PeerBye },
                        ),
                    ]
                } else {
                    seq![StreamSignalingCall::SupervisorArmed(false)]
                },
                _ => Seq::empty(),
            })
        }),
{
    let all = turns.push(turn);
    assert(all.drop_last() =~= turns);
    let here = turn.reading_calls() + step_calls(turn.step(), turn.answer, turn.result);
    assert(signaling_calls(all) =~= signaling_calls(turns) + here);
    if turn.stop_flag {
        assert(here =~= seq![StreamSignalingCall::StopRequested(true)]);
    } else {
        assert(here =~= seq![
            StreamSignalingCall::StopRequested(false),
            StreamSignalingCall::Receive { wait_ns: 500_000_000, received: turn.received },
        ] + (match turn.received {
            Received::Event(SignalingEvent::OfferReceived(offer)) => match turn.answer {
                Ok(answer) => seq![
                    StreamSignalingCall::ApplyOffer { offer, answer: Ok(answer) },
                    StreamSignalingCall::PublishAnswer { answer, result: turn.result },
                ],
                Err(why) => seq![StreamSignalingCall::ApplyOffer { offer, answer: Err(why) }],
            },
            Received::Event(SignalingEvent::CandidateReceived(candidate)) => seq![
                StreamSignalingCall::AddCandidate { candidate, result: turn.result },
            ],
            Received::Event(SignalingEvent::Closed) => if turn.supervisor_armed {
                seq![
                    StreamSignalingCall::SupervisorArmed(true),
                    StreamSignalingCall::Signal(
                        SupervisorSignal::LocalFailure { trigger: ReconnectTrigger::PeerBye },
                    ),
                ]
            } else {
                seq![StreamSignalingCall::SupervisorArmed(false)]
            },
            _ => Seq::empty(),
        }));
    }
}

/// The receiver's signaling drain leaves when it is stopped, when the signaling is gone, or when the
/// peer has said goodbye, and goes on up to then.
pub proof fn law_when_the_signaling_drain_leaves(turns: Seq<StreamSignalingTurn>, i: int)
    requires
        is_signaling_run(turns),
        0 <= i < turns.len(),
    ensures
        ({
            let gone = turns[i].stop_flag || turns[i].received is Disconnected || turns[i].received
                == Received::<SignalingEvent>::Event(SignalingEvent::Closed);
            &&& i < turns.len() - 1 ==> !gone
            &&& i == turns.len() - 1 < u64::MAX - 1 ==> gone
        }),
{
    if i < turns.len() - 1 {
        assert(!turns[i].leaves());
    } else if turns.len() < u64::MAX {
        assert(turns[i].leaves());
    }
}

/// What a row of calls says was asked of the host was asked of it, with what went in and what came
/// back.
pub proof fn law_calls_reach_the_host<H: CoordinatorHost<Action = StreamCoordinatorAction>>(
    call: StreamDrainCall,
    before: H,
    after: H,
)
    requires
        call.made(before, after),
    ensures
        call matches StreamDrainCall::StopRequested(stop) ==> call_ensures(
            H::stop_requested,
            (before,),
            (after, stop),
        ),
        call matches StreamDrainCall::Receive { wait_ns, received } ==> call_ensures(
            H::receive,
            (before, wait_ns),
            (after, received),
        ),
        call matches StreamDrainCall::Supervise(start) ==> supervision::is_stream_supervised(
            before,
            start,
            after,
        ),
{
}

/// The same of the signaling drain.
pub proof fn law_signaling_calls_reach_the_host<H: StreamSignalingHost>(
    call: StreamSignalingCall,
    before: H,
    after: H,
)
    requires
        call.made(before, after),
    ensures
        call matches StreamSignalingCall::StopRequested(stop) ==> call_ensures(
            H::stop_requested,
            (before,),
            (after, stop),
        ),
        call matches StreamSignalingCall::Receive { wait_ns, received } ==> call_ensures(
            H::receive,
            (before, wait_ns),
            (after, received),
        ),
        call matches StreamSignalingCall::SupervisorArmed(armed) ==> call_ensures(
            H::supervisor_armed,
            (before,),
            (after, armed),
        ),
        call matches StreamSignalingCall::ApplyOffer { offer, answer } ==> call_ensures(
            H::apply_remote_offer,
            (before, offer),
            (after, answer),
        ),
        call matches StreamSignalingCall::AddCandidate { candidate, result } ==> call_ensures(
            H::add_remote_candidate,
            (before, candidate),
            (after, result),
        ),
        call matches StreamSignalingCall::PublishAnswer { answer, result } ==> call_ensures(
            H::publish_local_answer,
            (before, answer),
            (after, result),
        ),
        call matches StreamSignalingCall::Signal(signal) ==> call_ensures(
            H::signal,
            (before, signal),
            after,
        ),
{
}

/// A drain that only absorbs events ends when the transport is gone and never else. One that is
/// supervised hands a failure over under its own name, with its reason. An answer that the transport
/// made is published as it is; without one there is nothing to publish.
pub proof fn law_what_single_events_lead_to(
    received: Received<TransportEvent>,
    absorbed: DrainNext,
    next: DrainNext,
    answer: Result<SdpAnswer, String>,
    step: StreamSignalingStep,
)
    requires
        call_ensures(absorb_transport_event, (&received,), absorbed),
        call_ensures(stream_transport_event, (received,), next),
        call_ensures(offer_applied, (answer,), step),
    ensures
        received is Disconnected ==> absorbed is Exit && next is Exit,
        received !is Disconnected ==> absorbed is Continue,
        received matches Received::Event(TransportEvent::IceFailed) ==> next
            == DrainNext::EnterSupervisor(ReconnectTrigger::IceFailed),
        received matches Received::Event(TransportEvent::ConnectionLost { reason }) ==> next
            == DrainNext::EnterSupervisor(ReconnectTrigger::ConnectionLost { reason }),
        next is EnterSupervisor ==> (received matches Received::Event(event) && (event is IceFailed
            || event is ConnectionLost)),
        answer matches Ok(made) ==> step == StreamSignalingStep::PublishAnswer(made),
        answer is Err ==> step is Continue,
{
}

} // verus!
