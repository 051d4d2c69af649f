//! The sender's signaling drain: what it does with an event, and how it runs on a host that has
//! the threads and the channels.
//!
//! A drain takes at most as many turns as a `u64` can count, which is more than a machine lives
//! through.
use crate::events::{
    IceCandidate, Received, SdpAnswer, SenderStatus, SenderStatusEvent, SignalingEvent,
    SupervisorSignal,
};
use crate::sender_drain::{drain_wait, DRAIN_WAIT_NS};
use crate::trace;
use crate::trace::HostCall;
use crate::turns;
use vstd::prelude::*;

verus! {

broadcast use trace::lemma_no_call;

/// What the sender's signaling drain does with one event.
#[derive(Debug)]
pub enum SenderSignalingStep {
    /// Wait for the next event.
    Continue,
    /// Show a status and wait for the next event.
    Show(SenderStatusEvent),
    /// Give the answer to the transport, report back with `answer_applied`, and go on.
    ApplyAnswer(SdpAnswer),
    /// Give the candidate to the transport and go on, whatever comes of it.
    AddCandidate(IceCandidate),
    /// Send the signal to the supervisor and go on, whether or not there is room for it.
    Signal(SupervisorSignal),
    /// Show a status and leave the loop.
    ShowAndExit(SenderStatusEvent),
    /// Leave the loop.
    Exit,
}

/// How the sender's signaling drain reacts. `escalation_disarmed` is set once a rebuild has
/// superseded this generation; `supervisor_armed` says that a supervisor listens.
pub open spec fn signaling_step(
    received: Received<SignalingEvent>,
    escalation_disarmed: bool,
    supervisor_armed: bool,
) -> SenderSignalingStep {
    match received {
        Received::Timeout => SenderSignalingStep::Continue,
        Received::Disconnected => SenderSignalingStep::Exit,
        Received::Event(SignalingEvent::PeerFound { .. }) => SenderSignalingStep::Show(
            SenderStatusEvent::Connecting,
        ),
        Received::Event(SignalingEvent::AnswerReceived(answer)) => SenderSignalingStep::ApplyAnswer(
            answer,
        ),
        Received::Event(
            SignalingEvent::CandidateReceived(candidate),
        ) => SenderSignalingStep::AddCandidate(candidate),
        Received::Event(SignalingEvent::OfferReceived(_)) => SenderSignalingStep::Continue,
        Received::Event(SignalingEvent::Closed) => SenderSignalingStep::ShowAndExit(
            SenderStatusEvent::PeerLost,
        ),
        Received::Event(SignalingEvent::Error(_)) => if supervisor_armed && !escalation_disarmed {
            SenderSignalingStep::Signal(SupervisorSignal::RebuildFailed)
        } else {
            SenderSignalingStep::Continue
        },
        Received::Event(SignalingEvent::Other) => SenderSignalingStep::Continue,
    }
}

/// One event of the sender's signaling drain.
pub fn sender_signaling_event(
    received: Received<SignalingEvent>,
    escalation_disarmed: bool,
    supervisor_armed: bool,
) -> (r: SenderSignalingStep)
    ensures
        r == signaling_step(received, escalation_disarmed, supervisor_armed),
{
    match received {
        Received::Timeout => SenderSignalingStep::Continue,
        Received::Disconnected => SenderSignalingStep::Exit,
        Received::Event(event) => match event {
            SignalingEvent::PeerFound { .. } => SenderSignalingStep::Show(
                SenderStatusEvent::Connecting,
            ),
            SignalingEvent::AnswerReceived(answer) => SenderSignalingStep::ApplyAnswer(answer),
            SignalingEvent::CandidateReceived(candidate) => SenderSignalingStep::AddCandidate(
                candidate,
            ),
            SignalingEvent::OfferReceived(_) => SenderSignalingStep::Continue,
            SignalingEvent::Closed => SenderSignalingStep::ShowAndExit(SenderStatusEvent::PeerLost),
            SignalingEvent::Error(_) => {
                if escalation_disarmed {
                    return SenderSignalingStep::Continue;
                }
                if supervisor_armed {
                    SenderSignalingStep::Signal(SupervisorSignal::RebuildFailed)
                } else {
                    SenderSignalingStep::Continue
                }
            },
            SignalingEvent::Other => SenderSignalingStep::Continue,
        },
    }
}

/// What is shown after the transport was given an answer. A failure comes with its text.
pub fn answer_applied(result: Result<(), String>) -> (r: Option<SenderStatusEvent>)
    ensures
        match result {
            Ok(()) => r is None,
            Err(text) => r matches Some(event) && event@ == answer_failure(text@),
        },
{
    match result {
        Ok(()) => None,
        Err(text) => {
            let mut message = "apply_remote_answer failed: ".to_string();
            message.append(text.as_str());
            Some(SenderStatusEvent::Error { message })
        },
    }
}

/// A generation that a rebuild has superseded never reports a failed rebuild, whatever its
/// signaling drain still finds in its channel. One that has not reports every signaling error as
/// soon as a supervisor listens.
pub proof fn law_only_the_live_generation_escalates(
    received: Received<SignalingEvent>,
    escalation_disarmed: bool,
    supervisor_armed: bool,
)
    ensures
        signaling_step(received, escalation_disarmed, supervisor_armed) is Signal <==> {
            &&& received matches Received::Event(SignalingEvent::Error(_))
            &&& supervisor_armed
            &&& !escalation_disarmed
        },
{
}

/// What the sender's signaling drain needs of the transport. A failure comes with its text.
pub trait SignalingSenderOps: Sized {
    fn apply_remote_answer(self, ans: SdpAnswer) -> (r: (Self, Result<(), String>));

    fn add_remote_candidate(self, c: IceCandidate) -> (r: (Self, Result<(), String>));
}

/// What the sender's signaling drain needs of the surrounding program.
pub trait SenderSignalingHost: SignalingSenderOps {
    /// Has the generation's stop flag been raised?
    fn stop_requested(self) -> (r: (Self, bool));

    /// Waits for a signaling event, but no longer than this.
    fn receive(self, wait_ns: u64) -> (r: (Self, Received<SignalingEvent>));

    /// Shows a status in the session's channel.
    fn show(self, event: SenderStatusEvent) -> (after: Self);

    /// Has a rebuild superseded this generation?
    fn escalation_disarmed(self) -> (r: (Self, bool));

    /// Does a supervisor listen?
    fn supervisor_armed(self) -> (r: (Self, bool));

    /// Tells the supervisor, if there is one and it has room.
    fn signal(self, signal: SupervisorSignal) -> (after: Self);
}

/// A call to the host of the sender's signaling drain.
pub enum SenderSignalingCall {
    StopRequested(bool),
    Receive { wait_ns: u64, received: Received<SignalingEvent> },
    Show(SenderStatus),
    EscalationDisarmed(bool),
    SupervisorArmed(bool),
    ApplyAnswer { answer: SdpAnswer, result: Result<(), String> },
    AddCandidate { candidate: IceCandidate, result: Result<(), String> },
    Signal(SupervisorSignal),
}

impl<H: SenderSignalingHost> HostCall<H> for SenderSignalingCall {
    open spec fn made(self, before: H, after: H) -> bool {
        match self {
            SenderSignalingCall::StopRequested(stop) => call_ensures(
                H::stop_requested,
                (before,),
                (after, stop),
            ),
            SenderSignalingCall::Receive { wait_ns, received } => call_ensures(
                H::receive,
                (before, wait_ns),
                (after, received),
            ),
            SenderSignalingCall::Show(status) => exists|event: SenderStatusEvent|
                event@ == status && #[trigger] call_ensures(H::show, (before, event), after),
            SenderSignalingCall::EscalationDisarmed(disarmed) => call_ensures(
                H::escalation_disarmed,
                (before,),
                (after, disarmed),
            ),
            SenderSignalingCall::SupervisorArmed(armed) => call_ensures(
                H::supervisor_armed,
                (before,),
                (after, armed),
            ),
            SenderSignalingCall::ApplyAnswer { answer, result } => call_ensures(
                H::apply_remote_answer,
                (before, answer),
                (after, result),
            ),
            SenderSignalingCall::AddCandidate { candidate, result } => call_ensures(
                H::add_remote_candidate,
                (before, candidate),
                (after, result),
            ),
            SenderSignalingCall::Signal(signal) => call_ensures(H::signal, (before, signal), after),
        }
    }
}

/// One turn of the sender's signaling drain, with what it reads when it meets an error, and what
/// the transport says to what it is given.
pub struct SignalingTurn {
    pub stop_flag: bool,
    pub received: Received<SignalingEvent>,
    pub escalation_disarmed: bool,
    pub supervisor_armed: bool,
    pub result: Result<(), String>,
}

/// The status for an answer that the transport refused.
pub open spec fn answer_failure(text: Seq<char>) -> SenderStatus {
    SenderStatus::Error { message: "apply_remote_answer failed: "@ + text }
}

impl SignalingTurn {
    /// What the drain does in this turn.
    pub open spec fn step(self) -> SenderSignalingStep {
        if self.stop_flag {
            SenderSignalingStep::Exit
        } else {
            signaling_step(self.received, self.escalation_disarmed, self.supervisor_armed)
        }
    }

    /// The drain leaves its loop in this turn.
    pub open spec fn leaves(self) -> bool {
        self.step() is Exit || self.step() is ShowAndExit
    }

    /// The calls by which the drain learns what the turn brings. Whether anybody is to be told of
    /// an error is read only when there is one, and whether a supervisor listens only where the
    /// generation still counts.
    pub open spec fn reading_calls(self) -> Seq<SenderSignalingCall> {
        let read = seq![SenderSignalingCall::StopRequested(self.stop_flag)];
        if self.stop_flag {
            read
        } else {
            let got = read.push(
                SenderSignalingCall::Receive { wait_ns: DRAIN_WAIT_NS, received: self.received },
            );
            if self.received matches Received::Event(SignalingEvent::Error(_)) {
                let asked = got.push(
                    SenderSignalingCall::EscalationDisarmed(self.escalation_disarmed),
                );
                if self.escalation_disarmed {
                    asked
                } else {
                    asked.push(SenderSignalingCall::SupervisorArmed(self.supervisor_armed))
                }
            } else {
                got
            }
        }
    }
}

/// The calls that carry out a step, with what the transport says if it is asked.
pub open spec fn step_calls(step: SenderSignalingStep, result: Result<(), String>) -> Seq<
    SenderSignalingCall,
> {
    match step {
        SenderSignalingStep::Continue => Seq::empty(),
        SenderSignalingStep::Exit => Seq::empty(),
        SenderSignalingStep::Show(event) => seq![SenderSignalingCall::Show(event@)],
        SenderSignalingStep::ShowAndExit(event) => seq![SenderSignalingCall::Show(event@)],
        SenderSignalingStep::ApplyAnswer(answer) => {
            let applied = seq![SenderSignalingCall::ApplyAnswer { answer, result }];
            match result {
                Ok(()) => applied,
                Err(text) => applied.push(SenderSignalingCall::Show(answer_failure(text@))),
            }
        },
        SenderSignalingStep::AddCandidate(candidate) => seq![
            SenderSignalingCall::AddCandidate { candidate, result },
        ],
        SenderSignalingStep::Signal(signal) => seq![SenderSignalingCall::Signal(signal)],
    }
}

/// The calls of the sender's signaling drain over a run of turns.
pub open spec fn signaling_calls(turns: Seq<SignalingTurn>) -> Seq<SenderSignalingCall>
    decreases turns.len(),
{
    if turns.len() == 0 {
        Seq::empty()
    } else {
        let turn = turns.last();
        signaling_calls(turns.drop_last()) + turn.reading_calls() + step_calls(
            turn.step(),
            turn.result,
        )
    }
}

/// The turns of the sender's signaling drain, from the first to the one in which it leaves.
pub open spec fn is_signaling_run(turns: Seq<SignalingTurn>) -> bool {
    turns::is_row(turns, |turn: SignalingTurn| turn.leaves())
}

/// Reads what one turn of the drain brings: the stop flag, the event, and for an error whether
/// the generation is superseded and whether a supervisor listens.
fn read_on<H: SenderSignalingHost>(host: H) -> (r: (
    H,
    bool,
    Received<SignalingEvent>,
    bool,
    bool,
))
    ensures
        forall|result: Result<(), String>| #[trigger]
            trace::leads(host, turn_of(r.1, r.2, r.3, r.4, result).reading_calls(), r.0),
{
    let ghost first = host;
    let ghost mut calls = Seq::<SenderSignalingCall>::empty();
    let (host, stop_flag) = host.stop_requested();
    proof {
        let call = SenderSignalingCall::StopRequested(stop_flag);
        trace::lemma_called(first, calls, first, call, host);
        calls = calls.push(call);
    }
    let wait: u64 = match drain_wait(stop_flag) {
        Some(wait) => wait,
        None => {
            assert forall|result: Result<(), String>| #[trigger]
                turn_of(stop_flag, Received::Timeout, false, false, result).reading_calls()
                    == calls by {
                assert(turn_of(stop_flag, Received::Timeout, false, false, result).reading_calls()
                    =~= calls);
            }
            return (host, stop_flag, Received::Timeout, false, false);
        },
    };
    let ghost before = host;
    let (host, received) = host.receive(wait);
    proof {
        let call = SenderSignalingCall::Receive { wait_ns: wait, received };
        trace::lemma_called(first, calls, before, call, host);
        calls = calls.push(call);
    }
    let mut at = host;
    let mut disarmed = false;
    let mut armed = false;
    match &received {
        Received::Event(SignalingEvent::Error(_)) => {
            let ghost before = at;
            let (next, answer) = at.escalation_disarmed();
            at = next;
            disarmed = answer;
            proof {
                let call = SenderSignalingCall::EscalationDisarmed(answer);
                trace::lemma_called(first, calls, before, call, at);
                calls = calls.push(call);
            }
            if !disarmed {
                let ghost before = at;
                let (next, answer) = at.supervisor_armed();
                at = next;
                armed = answer;
                proof {
                    let call = SenderSignalingCall::SupervisorArmed(answer);
                    trace::lemma_called(first, calls, before, call, at);
                    calls = calls.push(call);
                }
            }
        },
        _ => {},
    }
    assert forall|result: Result<(), String>| #[trigger]
        turn_of(stop_flag, received, disarmed, armed, result).reading_calls() == calls by {
        assert(turn_of(stop_flag, received, disarmed, armed, result).reading_calls() =~= calls);
    }
    (at, stop_flag, received, disarmed, armed)
}

/// The turn with these readings.
spec fn turn_of(
    stop_flag: bool,
    received: Received<SignalingEvent>,
    escalation_disarmed: bool,
    supervisor_armed: bool,
    result: Result<(), String>,
) -> SignalingTurn {
    SignalingTurn { stop_flag, received, escalation_disarmed, supervisor_armed, result }
}

/// Shows a status.
fn show_on<H: SenderSignalingHost>(host: H, event: SenderStatusEvent) -> (after: H)
    ensures
        trace::leads(host, seq![SenderSignalingCall::Show(event@)], after),
{
    let ghost first = host;
    let ghost nothing = Seq::<SenderSignalingCall>::empty();
    let ghost call = SenderSignalingCall::Show(event@);
    let after = host.show(event);
    proof {
        trace::lemma_called(first, nothing, first, call, after);
        assert(seq![call] =~= nothing.push(call));
    }
    after
}

/// Carries out a step: what the transport said, if it was asked.
fn step_on<H: SenderSignalingHost>(host: H, step: SenderSignalingStep) -> (r: (
    H,
    Result<(), String>,
))
    ensures
        trace::leads(host, step_calls(step, r.1), r.0),
{
    let ghost first = host;
    let ghost nothing = Seq::<SenderSignalingCall>::empty();
    assert(trace::leads(first, nothing, first));
    match step {
        SenderSignalingStep::Continue => (host, Ok(())),
        SenderSignalingStep::Exit => (host, Ok(())),
        SenderSignalingStep::Show(event) => (show_on(host, event), Ok(())),
        SenderSignalingStep::ShowAndExit(event) => (show_on(host, event), Ok(())),
        SenderSignalingStep::ApplyAnswer(answer) => {
            let ghost given = answer;
            let (mid, result) = host.apply_remote_answer(answer);
            let ghost call = SenderSignalingCall::ApplyAnswer { answer: given, result };
            proof {
                trace::lemma_called(first, nothing, first, call, mid);
                assert(seq![call] =~= nothing.push(call));
            }
            match result {
                Ok(_) => (mid, result),
                Err(text) => {
                    let ghost refused = text@;
                    let why = text.clone();
                    let mut after = mid;
                    if let Some(event) = answer_applied(Err(why)) {
                        let ghost shown = SenderSignalingCall::Show(event@);
                        after = show_on(after, event);
                        proof {
                            trace::lemma_joined(first, seq![call], mid, seq![shown], after);
                            assert(seq![call] + seq![shown] =~= seq![call].push(shown));
                            assert(shown == SenderSignalingCall::Show(answer_failure(refused)));
                        }
                    }
                    (after, Err(text))
                },
            }
        },
        SenderSignalingStep::AddCandidate(candidate) => {
            let ghost given = candidate;
            let (after, result) = host.add_remote_candidate(candidate);
            proof {
                let call = SenderSignalingCall::AddCandidate { candidate: given, result };
                trace::lemma_called(first, nothing, first, call, after);
                assert(seq![call] =~= nothing.push(call));
            }
            (after, result)
        },
        SenderSignalingStep::Signal(signal) => {
            let ghost call = SenderSignalingCall::Signal(signal);
            let after = host.signal(signal);
            proof {
                trace::lemma_called(first, nothing, first, call, after);
                assert(seq![call] =~= nothing.push(call));
            }
            (after, Ok(()))
        },
    }
}

/// Does the drain leave its loop with this step?
fn is_last(step: &SenderSignalingStep) -> (r: bool)
    ensures
        r == (*step is Exit || *step is ShowAndExit),
{
    match step {
        SenderSignalingStep::Exit => true,
        SenderSignalingStep::ShowAndExit(_) => true,
        _ => false,
    }
}

/// Drains the sender's signaling events, until it is stopped, the channel is gone, or the peer has
/// closed the connection.
pub fn run_sender_signaling_drain<H: SenderSignalingHost>(host: H) -> (after: H)
    ensures
        exists|turns: Seq<SignalingTurn>|
            is_signaling_run(turns) && trace::leads(host, #[trigger] signaling_calls(turns), after),
{
    let mut at = host;
    let mut turns_left: u64 = u64::MAX;
    let ghost mut turns: Seq<SignalingTurn> = Seq::empty();
    while turns_left > 0
        invariant
            turns.len() + turns_left == u64::MAX,
            forall|i: int| 0 <= i < turns.len() ==> !(#[trigger] turns[i]).leaves(),
            trace::leads(host, signaling_calls(turns), at),
        decreases turns_left,
    {
        turns_left = turns_left - 1;
        let ghost before = at;
        let (read, stop_flag, received, disarmed, armed) = read_on(at);
        let ghost got = received;
        let step = if stop_flag {
            SenderSignalingStep::Exit
        } else {
            sender_signaling_event(received, disarmed, armed)
        };
        let last = is_last(&step);
        let (next, result) = step_on(read, step);
        at = next;
        proof {
            let turn = turn_of(stop_flag, got, disarmed, armed, result);
            let calls = signaling_calls(turns);
            let reading = turn.reading_calls();
            let doing = step_calls(turn.step(), turn.result);
            trace::lemma_joined(host, calls, before, reading, read);
            trace::lemma_joined(host, calls + reading, read, doing, at);
            assert(turns.push(turn).drop_last() =~= turns);
            turns = turns.push(turn);
            assert(signaling_calls(turns) == calls + reading + doing);
        }
        if last {
            assert(is_signaling_run(turns));
            return at;
        }
    }
    assert(is_signaling_run(turns));
    at
}

/// Each call of the drain goes to the method of the host that it is named after, with these arguments
/// and this answer.
pub proof fn law_calls_reach_the_host<H: SenderSignalingHost>(
    call: SenderSignalingCall,
    before: H,
    after: H,
)
    requires
        HostCall::<H>::made(call, before, after),
    ensures
        call matches SenderSignalingCall::StopRequested(stop) ==> call_ensures(
            H::stop_requested,
            (before,),
            (after, stop),
        ),
        call matches SenderSignalingCall::Receive { wait_ns, received } ==> call_ensures(
            H::receive,
            (before, wait_ns),
            (after, received),
        ),
        call matches SenderSignalingCall::Show(status) ==> (exists|event: SenderStatusEvent|
            event@ == status && #[trigger] call_ensures(H::show, (before, event), after)),
        call matches SenderSignalingCall::EscalationDisarmed(disarmed) ==> call_ensures(
            H::escalation_disarmed,
            (before,),
            (after, disarmed),
        ),
        call matches SenderSignalingCall::SupervisorArmed(armed) ==> call_ensures(
            H::supervisor_armed,
            (before,),
            (after, armed),
        ),
        call matches SenderSignalingCall::ApplyAnswer { answer, result } ==> call_ensures(
            H::apply_remote_answer,
            (before, answer),
            (after, result),
        ),
        call matches SenderSignalingCall::AddCandidate { candidate, result } ==> call_ensures(
            H::add_remote_candidate,
            (before, candidate),
            (after, result),
        ),
        call matches SenderSignalingCall::Signal(signal) ==> call_ensures(
            H::signal,
            (before, signal),
            after,
        ),
{
}

/// One turn more of the sender's signaling drain. The stop flag is read, and while it is down an event
/// is waited for, for half a second. A peer that was found is shown as connecting; an answer goes to
/// the transport as it is, and a refusal is shown with its text; a candidate goes to the transport as
/// it is; a connection that was closed is shown as a lost peer. An error is passed over if the
/// generation has been superseded or nobody listens; otherwise the supervisor hears that the rebuild
/// failed. Nothing else is done about anything.
pub proof fn law_what_a_turn_does(turns: Seq<SignalingTurn>, turn: SignalingTurn)
    ensures
        signaling_calls(Seq::empty()) == Seq::<SenderSignalingCall>::empty(),
        turn.stop_flag ==> signaling_calls(turns.push(turn)) == signaling_calls(turns) + seq![
            SenderSignalingCall::StopRequested(true),
        ],
        !turn.stop_flag ==> signaling_calls(turns.push(turn)) == signaling_calls(turns) + seq![
            SenderSignalingCall::StopRequested(false),
            SenderSignalingCall::Receive { wait_ns: 500_000_000, received: turn.received },
        ] + (match turn.received {
            Received::Event(SignalingEvent::PeerFound { .. }) => seq![
                SenderSignalingCall::Show(SenderStatus::Connecting),
            ],
            Received::Event(SignalingEvent::AnswerReceived(answer)) => match turn.result {
                Ok(()) => seq![SenderSignalingCall::ApplyAnswer { answer, result: turn.result }],
                Err(text) => seq![
                    SenderSignalingCall::ApplyAnswer { answer, result: turn.result },
                    SenderSignalingCall::Show(
                        SenderStatus::Error { message: "apply_remote_answer failed: "@ + text@ },
                    ),
                ],
            },
            Received::Event(SignalingEvent::CandidateReceived(candidate)) => seq![
                SenderSignalingCall::AddCandidate { candidate, result: turn.result },
            ],
            Received::Event(SignalingEvent::Closed) => seq![
                SenderSignalingCall::Show(SenderStatus::PeerLost),
            ],
            Received::Event(SignalingEvent::Error(_)) => if turn.escalation_disarmed {
                seq![SenderSignalingCall::EscalationDisarmed(true)]
            } else if !turn.supervisor_armed {
                seq![
                    SenderSignalingCall::EscalationDisarmed(false),
                    SenderSignalingCall::SupervisorArmed(false),
                ]
            } else {
                seq![
                    SenderSignalingCall::EscalationDisarmed(false),
                    SenderSignalingCall::SupervisorArmed(true),
                    SenderSignalingCall::Signal(SupervisorSignal::RebuildFailed),
                ]
            },
            _ => Seq::empty(),
        }),
{
    assert(turns.push(turn).drop_last() =~= turns);
    if !turn.stop_flag {
        let head = seq![
            SenderSignalingCall::StopRequested(false),
            SenderSignalingCall::Receive { wait_ns: 500_000_000, received: turn.received },
        ];
        match turn.received {
            Received::Event(SignalingEvent::Error(_)) => {},
            _ => {
                assert(turn.reading_calls() =~= head);
            },
        }
    }
}

/// The drain leaves in the first turn in which its stop flag is up, its channel is gone or the
/// connection was closed, and in no other.
pub proof fn law_when_the_drain_leaves(turns: Seq<SignalingTurn>, i: int)
    requires
        is_signaling_run(turns),
        0 <= i < turns.len(),
    ensures
        ({
            let gone = turns[i].stop_flag || turns[i].received is Disconnected || (
            turns[i].received matches Received::Event(SignalingEvent::Closed));
            &&& i < turns.len() - 1 ==> !gone
            &&& i == turns.len() - 1 < u64::MAX - 1 ==> gone
        }),
{
    let leaving = |turn: SignalingTurn| turn.leaves();
    assert(i < turns.len() - 1 ==> !leaving(turns[i]));
    assert(turns.len() < u64::MAX ==> leaving(turns.last()));
}

/// What is done about one event, seen by itself.
pub proof fn law_what_an_event_leads_to(
    received: Received<SignalingEvent>,
    escalation_disarmed: bool,
    supervisor_armed: bool,
)
    ensures
        ({
            let step = signaling_step(received, escalation_disarmed, supervisor_armed);
            match received {
                Received::Timeout => step is Continue,
                Received::Disconnected => step is Exit,
                Received::Event(SignalingEvent::PeerFound { .. }) => step
                    == SenderSignalingStep::Show(SenderStatusEvent::Connecting),
                Received::Event(SignalingEvent::AnswerReceived(answer)) => step
                    == SenderSignalingStep::ApplyAnswer(answer),
                Received::Event(SignalingEvent::CandidateReceived(candidate)) => step
                    == SenderSignalingStep::AddCandidate(candidate),
                Received::Event(SignalingEvent::Closed) => step == SenderSignalingStep::ShowAndExit(
                    SenderStatusEvent::PeerLost,
                ),
                Received::Event(SignalingEvent::Error(_)) => if supervisor_armed
                    && !escalation_disarmed {
                    step == SenderSignalingStep::Signal(SupervisorSignal::RebuildFailed)
                } else {
                    step is Continue
                },
                _ => step is Continue,
            }
        }),
{
}

/// An answer that the transport took shows nothing; one that it refused is shown as an error, with
/// what the transport said.
pub proof fn law_what_is_shown_of_an_answer(
    result: Result<(), String>,
    r: Option<SenderStatusEvent>,
)
    requires
        call_ensures(answer_applied, (result,), r),
    ensures
        result is Ok ==> r is None,
        result matches Err(text) ==> (r matches Some(SenderStatusEvent::Error { message })
            && message@ == "apply_remote_answer failed: "@ + text@),
{
}

} // verus!
