//! The coordinators as they run: on a host that has the supervisor, the channels and the callbacks.
//!
//! A coordinator takes at most as many turns as a `u64` can count, which is more than a machine
//! lives through.
use crate::coordinator;
use crate::coordinator::{
    coordinator_entry, coordinator_exit, coordinator_poll, coordinator_waited, sender_status_event,
    stream_status_event, Act, CoordinatorNext, CoordinatorStep, CoordinatorTurn, OutcomePoll,
    SenderCoordinator, SenderCoordinatorAction, SenderCoordinatorHooks, StreamCoordinatorAction,
    StreamCoordinatorHooks, SupervisionSettings, SupervisorStart, COORDINATOR_WAIT_NS,
};
use crate::events::{
    Received, ReconnectTrigger, Role, SenderStatus, SessionState, StreamStatus, SupervisorOutcome,
    SupervisorSignal, TransportEvent,
};
use crate::trace;
use crate::trace::HostCall;
use crate::turns;
use vstd::prelude::*;

verus! {

broadcast use trace::lemma_no_call;

/// What a coordinator needs of the surrounding program.
pub trait CoordinatorHost: Sized {
    /// What the coordinator asks to be done.
    type Action;

    /// Sets the coordinator up or takes it down.
    fn set_up(self, step: CoordinatorStep) -> (after: Self);

    /// Looks at the supervisor's outcomes, without waiting.
    fn next_outcome(self) -> (r: (Self, OutcomePoll));

    /// Waits for the next outcome of the supervisor; `None` once it is gone and everything it said
    /// has been read.
    fn wait_outcome(self) -> (r: (Self, Option<SupervisorOutcome>));

    /// Has the generation's stop flag been raised?
    fn stop_requested(self) -> (r: (Self, bool));

    /// Waits for a transport event, but no longer than this.
    fn receive(self, wait_ns: u64) -> (r: (Self, Received<TransportEvent>));

    /// Does what a coordinator asks for.
    fn act(self, action: Self::Action) -> (after: Self);
}

/// A call to the host of a coordinator, with `S` for what is shown.
pub enum CoordinatorCall<S> {
    SetUp(CoordinatorStep),
    NextOutcome(OutcomePoll),
    WaitOutcome(Option<SupervisorOutcome>),
    StopRequested(bool),
    Receive { wait_ns: u64, received: Received<TransportEvent> },
    Act(Act<S>),
}

impl<S, H: CoordinatorHost> HostCall<H> for CoordinatorCall<S> where
    H::Action: View<V = Act<S>>,
 {
    open spec fn made(self, before: H, after: H) -> bool {
        match self {
            CoordinatorCall::SetUp(step) => call_ensures(H::set_up, (before, step), after),
            CoordinatorCall::NextOutcome(poll) => call_ensures(
                H::next_outcome,
                (before,),
                (after, poll),
            ),
            CoordinatorCall::WaitOutcome(outcome) => call_ensures(
                H::wait_outcome,
                (before,),
                (after, outcome),
            ),
            CoordinatorCall::StopRequested(stop) => call_ensures(
                H::stop_requested,
                (before,),
                (after, stop),
            ),
            CoordinatorCall::Receive { wait_ns, received } => call_ensures(
                H::receive,
                (before, wait_ns),
                (after, received),
            ),
            CoordinatorCall::Act(act) => exists|action: H::Action| #[trigger]
                call_ensures(H::act, (before, action), after) && action@ == act,
        }
    }
}

/// The calls that take these steps.
pub open spec fn step_calls<S>(steps: Seq<CoordinatorStep>) -> Seq<CoordinatorCall<S>> {
    steps.map_values(|step: CoordinatorStep| CoordinatorCall::<S>::SetUp(step))
}

/// A coordinator leaves its loop in this turn.
pub open spec fn leaves(role: Role, turn: CoordinatorTurn) -> bool {
    match coordinator::polled(turn.poll, turn.stop_flag) {
        CoordinatorNext::Handle(_) => false,
        CoordinatorNext::Leave => true,
        CoordinatorNext::Wait(_) => !coordinator::goes_on(role, turn.received),
    }
}

/// A coordinator leaves its loop in this turn because its stop flag has been raised.
pub open spec fn is_stopped(turn: CoordinatorTurn) -> bool {
    turn.poll is Empty && turn.stop_flag
}

/// The outcome that a turn brings, if it brings one.
pub open spec fn outcome_of(turn: CoordinatorTurn) -> Option<SupervisorOutcome> {
    match turn.poll {
        OutcomePoll::Outcome(outcome) => Some(outcome),
        _ => None,
    }
}

/// The calls by which a coordinator learns what a turn brings: the stop flag is read only when
/// there is no outcome, and the transport is waited for only when the flag is down.
pub open spec fn reading_calls<S>(turn: CoordinatorTurn) -> Seq<CoordinatorCall<S>> {
    let look = seq![CoordinatorCall::<S>::NextOutcome(turn.poll)];
    match turn.poll {
        OutcomePoll::Empty => {
            let read = look.push(CoordinatorCall::StopRequested(turn.stop_flag));
            if turn.stop_flag {
                read
            } else {
                read.push(
                    CoordinatorCall::Receive {
                        wait_ns: COORDINATOR_WAIT_NS,
                        received: turn.received,
                    },
                )
            }
        },
        _ => look,
    }
}

/// The call that does what a coordinator asks for, if it asks for something.
pub open spec fn reaction_calls<S>(reaction: Option<Act<S>>) -> Seq<CoordinatorCall<S>> {
    match reaction {
        Some(act) => seq![CoordinatorCall::Act(act)],
        None => Seq::empty(),
    }
}

/// The calls of the sender's coordinator over a run of turns: each outcome is handled before the
/// next is looked for, by the coordinator that the earlier ones have left behind.
pub open spec fn sender_calls(c: SenderCoordinator, turns: Seq<CoordinatorTurn>) -> Seq<
    CoordinatorCall<SenderStatus>,
>
    decreases turns.len(),
{
    if turns.len() == 0 {
        Seq::empty()
    } else {
        let earlier = turns.drop_last();
        let now = coordinator::after_all(c, coordinator::handled(Role::Sender, earlier));
        sender_calls(c, earlier) + reading_calls(turns.last()) + match outcome_of(turns.last()) {
            Some(outcome) => reaction_calls(now.reaction(outcome)),
            None => Seq::empty(),
        }
    }
}

/// The calls of the receiver's coordinator over a run of turns.
pub open spec fn stream_calls(hooks: StreamCoordinatorHooks, turns: Seq<CoordinatorTurn>) -> Seq<
    CoordinatorCall<StreamStatus>,
>
    decreases turns.len(),
{
    if turns.len() == 0 {
        Seq::empty()
    } else {
        stream_calls(hooks, turns.drop_last()) + reading_calls(turns.last()) + match outcome_of(
            turns.last(),
        ) {
            Some(outcome) => reaction_calls(hooks.reaction(outcome)),
            None => Seq::empty(),
        }
    }
}

/// Takes these steps, in order.
fn take_all<S, H: CoordinatorHost>(host: H, steps: Vec<CoordinatorStep>) -> (after: H) where
    H::Action: View<V = Act<S>>,

    ensures
        trace::leads(host, step_calls::<S>(steps@), after),
{
    let ghost first = host;
    let ghost all = steps@;
    let ghost mut done: int = 0;
    let mut host = host;
    let mut steps = steps;
    assert(step_calls::<S>(all.take(0)) =~= Seq::empty());
    while steps.len() > 0
        invariant
            0 <= done <= all.len(),
            steps@ == all.skip(done),
            trace::leads(first, step_calls::<S>(all.take(done)), host),
        decreases steps.len(),
    {
        let ghost before = host;
        let step = steps.remove(0);
        host = host.set_up(step);
        proof {
            assert(step == all[done]);
            let call = CoordinatorCall::<S>::SetUp(step);
            trace::lemma_called(first, step_calls::<S>(all.take(done)), before, call, host);
            assert(step_calls::<S>(all.take(done + 1)) =~= step_calls::<S>(all.take(done)).push(
                call,
            ));
            assert(steps@ =~= all.skip(done + 1));
            done = done + 1;
        }
    }
    assert(all.take(done) =~= all);
    host
}

/// Makes one turn of a coordinator: the outcome to handle, if there is one, whether the coordinator
/// stays, and whether its stop flag makes it leave.
fn turn_on<S, H: CoordinatorHost>(host: H, role: Role) -> (r: (
    H,
    Option<SupervisorOutcome>,
    bool,
    bool,
)) where H::Action: View<V = Act<S>>
    ensures
        exists|turn: CoordinatorTurn|
            {
                &&& trace::leads(host, #[trigger] reading_calls::<S>(turn), r.0)
                &&& r.1 == outcome_of(turn)
                &&& r.2 == !leaves(role, turn)
                &&& r.3 == is_stopped(turn)
            },
{
    let ghost first = host;
    let ghost mut calls = Seq::<CoordinatorCall<S>>::empty();
    let (next, poll) = host.next_outcome();
    proof {
        let call = CoordinatorCall::<S>::NextOutcome(poll);
        trace::lemma_called(first, calls, first, call, next);
        calls = calls.push(call);
    }
    let mut host = next;
    let mut stop_flag = false;
    match poll {
        OutcomePoll::Empty => {
            let ghost before = host;
            let (next, stop) = host.stop_requested();
            host = next;
            stop_flag = stop;
            proof {
                let call = CoordinatorCall::<S>::StopRequested(stop);
                trace::lemma_called(first, calls, before, call, host);
                calls = calls.push(call);
            }
        },
        _ => {},
    }
    let ghost silent = CoordinatorTurn { poll, stop_flag, received: Received::Timeout };
    match coordinator_poll(poll, stop_flag) {
        CoordinatorNext::Handle(outcome) => {
            assert(reading_calls::<S>(silent) =~= calls);
            (host, Some(outcome), true, false)
        },
        CoordinatorNext::Leave => {
            assert(reading_calls::<S>(silent) =~= calls);
            (host, None, false, stop_flag)
        },
        CoordinatorNext::Wait(wait) => {
            let ghost before = host;
            let (host, received) = host.receive(wait);
            let stays = coordinator_waited(role, &received);
            proof {
                let call = CoordinatorCall::<S>::Receive { wait_ns: wait, received };
                trace::lemma_called(first, calls, before, call, host);
                let turn = CoordinatorTurn { poll, stop_flag, received };
                assert(reading_calls::<S>(turn) =~= calls.push(call));
            }
            (host, None, stays, false)
        },
    }
}

/// One turn more in which the coordinator stays.
proof fn lemma_turn_appended(role: Role, turns: Seq<CoordinatorTurn>, turn: CoordinatorTurn)
    requires
        forall|i: int| 0 <= i < turns.len() ==> !leaves(role, #[trigger] turns[i]),
    ensures
        coordinator::handled(role, turns.push(turn)) == match outcome_of(turn) {
            Some(outcome) => coordinator::handled(role, turns).push(outcome),
            None => coordinator::handled(role, turns),
        },
    decreases turns.len(),
{
    let all = turns.push(turn);
    if turns.len() == 0 {
        assert(all.drop_first() =~= turns);
        assert(coordinator::handled(role, turns) =~= Seq::<SupervisorOutcome>::empty());
    } else {
        let tail = turns.drop_first();
        assert(!leaves(role, turns[0]));
        assert forall|i: int| 0 <= i < tail.len() implies !leaves(role, #[trigger] tail[i]) by {
            assert(tail[i] == turns[i + 1]);
        }
        lemma_turn_appended(role, tail, turn);
        assert(all.drop_first() =~= tail.push(turn));
    }
    assert(coordinator::handled(role, all) =~= match outcome_of(turn) {
        Some(outcome) => coordinator::handled(role, turns).push(outcome),
        None => coordinator::handled(role, turns),
    });
}

/// The coordinator after one outcome more.
proof fn lemma_after_push(
    c: SenderCoordinator,
    outcomes: Seq<SupervisorOutcome>,
    outcome: SupervisorOutcome,
)
    ensures
        coordinator::after_all(c, outcomes.push(outcome)) == coordinator::after_all(
            c,
            outcomes,
        ).after(outcome),
{
    assert(outcomes.push(outcome).drop_last() =~= outcomes);
}

/// What a supervisor and the sender's coordinator are started with.
#[derive(Debug)]
pub struct SupervisionStart {
    pub trigger: ReconnectTrigger,
    pub session_nonce: u64,
    pub settings: SupervisionSettings,
    pub hooks: SenderCoordinatorHooks,
    /// The session has been connected before.
    pub ice_connected: bool,
}

/// What a supervisor and the receiver's coordinator are started with.
#[derive(Debug)]
pub struct StreamSupervisionStart {
    pub trigger: ReconnectTrigger,
    pub session_nonce: u64,
    pub settings: SupervisionSettings,
    pub hooks: StreamCoordinatorHooks,
}

impl SupervisionStart {
    /// What the supervisor itself is started with.
    pub open spec fn supervisor(self) -> SupervisorStart {
        SupervisorStart {
            role: Role::Sender,
            session_nonce: self.session_nonce,
            settings: self.settings,
        }
    }

    /// The coordinator at its start.
    pub open spec fn coordinator(self) -> SenderCoordinator {
        SenderCoordinator {
            hooks: self.hooks,
            ice_connected: self.ice_connected,
            peer_ack_seen: false,
        }
    }
}

impl StreamSupervisionStart {
    /// What the supervisor itself is started with.
    pub open spec fn supervisor(self) -> SupervisorStart {
        SupervisorStart {
            role: Role::Receiver,
            session_nonce: self.session_nonce,
            settings: self.settings,
        }
    }
}

/// What a supervisor still says once its coordinator is leaving, and whether it then goes.
pub struct Farewell {
    pub outcomes: Seq<SupervisorOutcome>,
    pub gone: bool,
}

/// The supervisor is heard out.
pub open spec fn is_farewell(farewell: Farewell) -> bool {
    farewell.gone || farewell.outcomes.len() == u64::MAX
}

/// The calls by which outcomes are waited for and shown, as far as there is something to show.
/// Nothing else is done about them any more.
pub open spec fn heard_calls<S>(
    outcomes: Seq<SupervisorOutcome>,
    status: spec_fn(SupervisorOutcome) -> Option<S>,
) -> Seq<CoordinatorCall<S>>
    decreases outcomes.len(),
{
    if outcomes.len() == 0 {
        Seq::empty()
    } else {
        heard_calls(outcomes.drop_last(), status).push(
            CoordinatorCall::WaitOutcome(Some(outcomes.last())),
        ) + reaction_calls(
            match status(outcomes.last()) {
                Some(shown) => Some(Act::Show(shown)),
                None => None,
            },
        )
    }
}

/// The calls by which a supervisor is heard out.
pub open spec fn farewell_calls<S>(
    farewell: Farewell,
    status: spec_fn(SupervisorOutcome) -> Option<S>,
) -> Seq<CoordinatorCall<S>> {
    heard_calls(farewell.outcomes, status) + if farewell.gone {
        seq![CoordinatorCall::WaitOutcome(None)]
    } else {
        Seq::empty()
    }
}

/// How the sender shows outcomes.
pub open spec fn sender_shows() -> spec_fn(SupervisorOutcome) -> Option<SenderStatus> {
    |outcome: SupervisorOutcome| coordinator::sender_status(outcome)
}

/// How the receiver shows outcomes.
pub open spec fn stream_shows() -> spec_fn(SupervisorOutcome) -> Option<StreamStatus> {
    |outcome: SupervisorOutcome| coordinator::stream_status(outcome)
}

/// The calls by which a coordinator is taken down after these turns. If its stop flag made it leave,
/// the supervisor is heard out first: a session that was restored is shown as restored, even if the
/// flag went up before the supervisor came to say so.
pub open spec fn leaving_calls<S>(
    turns: Seq<CoordinatorTurn>,
    farewell: Farewell,
    status: spec_fn(SupervisorOutcome) -> Option<S>,
) -> Seq<CoordinatorCall<S>> {
    step_calls::<S>(coordinator::exit_steps()) + if turns.len() > 0 && is_stopped(turns.last()) {
        farewell_calls(farewell, status)
    } else {
        Seq::empty()
    } + seq![CoordinatorCall::SetUp(CoordinatorStep::JoinSupervisor)]
}

/// The calls of the sender's coordinator, which goes through these turns: it is set up, takes every
/// outcome that it finds, does what `SenderCoordinator::reaction` says about each, and is taken
/// down.
pub open spec fn sender_supervision(
    start: SupervisionStart,
    turns: Seq<CoordinatorTurn>,
    farewell: Farewell,
) -> Seq<CoordinatorCall<SenderStatus>> {
    step_calls::<SenderStatus>(coordinator::entry_steps(start.trigger, start.supervisor()))
        + sender_calls(start.coordinator(), turns) + leaving_calls(turns, farewell, sender_shows())
}

/// The calls of the receiver's coordinator, which goes through these turns: it is set up, takes
/// every outcome that it finds, does what `StreamCoordinatorHooks::reaction` says about each, and is
/// taken down.
pub open spec fn stream_supervision(
    start: StreamSupervisionStart,
    turns: Seq<CoordinatorTurn>,
    farewell: Farewell,
) -> Seq<CoordinatorCall<StreamStatus>> {
    step_calls::<StreamStatus>(coordinator::entry_steps(start.trigger, start.supervisor()))
        + stream_calls(start.hooks, turns) + leaving_calls(turns, farewell, stream_shows())
}

/// The turns of a coordinator, from the first to the one in which it leaves.
pub open spec fn is_coordination(role: Role, turns: Seq<CoordinatorTurn>) -> bool {
    turns::is_row(turns, |turn: CoordinatorTurn| leaves(role, turn))
}

/// The sender's coordinator runs on the host from its set-up to the end, and makes of it `after`.
pub open spec fn is_supervised<H: CoordinatorHost<Action = SenderCoordinatorAction>>(
    host: H,
    start: SupervisionStart,
    after: H,
) -> bool {
    exists|turns: Seq<CoordinatorTurn>, farewell: Farewell|
        is_coordination(Role::Sender, turns) && is_farewell(farewell) && trace::leads(
            host,
            #[trigger] sender_supervision(start, turns, farewell),
            after,
        )
}

/// The receiver's coordinator runs on the host from its set-up to the end, and makes of it `after`.
pub open spec fn is_stream_supervised<H: CoordinatorHost<Action = StreamCoordinatorAction>>(
    host: H,
    start: StreamSupervisionStart,
    after: H,
) -> bool {
    exists|turns: Seq<CoordinatorTurn>, farewell: Farewell|
        is_coordination(Role::Receiver, turns) && is_farewell(farewell) && trace::leads(
            host,
            #[trigger] stream_supervision(start, turns, farewell),
            after,
        )
}

/// Waits for the next outcome and has it shown, if there is something to show.
fn hear_sender<H: CoordinatorHost<Action = SenderCoordinatorAction>>(host: H) -> (r: (
    H,
    Option<SupervisorOutcome>,
))
    ensures
        trace::leads(host, heard_one(r.1, sender_shows()), r.0),
{
    let ghost first = host;
    let ghost nothing = Seq::<CoordinatorCall<SenderStatus>>::empty();
    let (at, outcome) = host.wait_outcome();
    let ghost waited = CoordinatorCall::<SenderStatus>::WaitOutcome(outcome);
    let ghost all = heard_one(outcome, sender_shows());
    proof {
        trace::lemma_called(first, nothing, first, waited, at);
    }
    if let Some(outcome) = outcome {
        if let Some(event) = sender_status_event(outcome) {
            let ghost mid = at;
            let action = SenderCoordinatorAction::Show(event);
            let ghost call = CoordinatorCall::Act(action@);
            let after = at.act(action);
            proof {
                trace::lemma_called(first, nothing.push(waited), mid, call, after);
                assert(all =~= nothing.push(waited).push(call));
            }
            return (after, Some(outcome));
        }
    }
    assert(all =~= nothing.push(waited));
    (at, outcome)
}

/// Waits for the next outcome and has it shown, if there is something to show.
fn hear_stream<H: CoordinatorHost<Action = StreamCoordinatorAction>>(host: H) -> (r: (
    H,
    Option<SupervisorOutcome>,
))
    ensures
        trace::leads(host, heard_one(r.1, stream_shows()), r.0),
{
    let ghost first = host;
    let ghost nothing = Seq::<CoordinatorCall<StreamStatus>>::empty();
    let (at, outcome) = host.wait_outcome();
    let ghost waited = CoordinatorCall::<StreamStatus>::WaitOutcome(outcome);
    let ghost all = heard_one(outcome, stream_shows());
    proof {
        trace::lemma_called(first, nothing, first, waited, at);
    }
    if let Some(outcome) = outcome {
        if let Some(event) = stream_status_event(outcome) {
            let ghost mid = at;
            let action = StreamCoordinatorAction::Show(event);
            let ghost call = CoordinatorCall::Act(action@);
            let after = at.act(action);
            proof {
                trace::lemma_called(first, nothing.push(waited), mid, call, after);
                assert(all =~= nothing.push(waited).push(call));
            }
            return (after, Some(outcome));
        }
    }
    assert(all =~= nothing.push(waited));
    (at, outcome)
}

/// The calls by which one outcome is waited for and shown.
spec fn heard_one<S>(
    outcome: Option<SupervisorOutcome>,
    status: spec_fn(SupervisorOutcome) -> Option<S>,
) -> Seq<CoordinatorCall<S>> {
    seq![CoordinatorCall::<S>::WaitOutcome(outcome)] + match outcome {
        Some(said) => reaction_calls(
            match status(said) {
                Some(shown) => Some(Act::Show(shown)),
                None => None,
            },
        ),
        None => Seq::empty(),
    }
}

/// One outcome more is heard.
proof fn lemma_heard<S, H: CoordinatorHost>(
    host: H,
    outcomes: Seq<SupervisorOutcome>,
    mid: H,
    outcome: Option<SupervisorOutcome>,
    after: H,
    status: spec_fn(SupervisorOutcome) -> Option<S>,
) where H::Action: View<V = Act<S>>
    requires
        trace::leads(host, heard_calls(outcomes, status), mid),
        trace::leads(mid, heard_one(outcome, status), after),
    ensures
        match outcome {
            Some(said) => trace::leads(host, heard_calls(outcomes.push(said), status), after),
            None => trace::leads(
                host,
                farewell_calls((Farewell { outcomes, gone: true }), status),
                after,
            ),
        },
{
    let calls = heard_calls(outcomes, status);
    trace::lemma_joined(host, calls, mid, heard_one(outcome, status), after);
    match outcome {
        Some(said) => {
            assert(outcomes.push(said).drop_last() =~= outcomes);
            assert(heard_calls(outcomes.push(said), status) =~= calls + heard_one(outcome, status));
        },
        None => {
            assert(farewell_calls(Farewell { outcomes, gone: true }, status) =~= calls + heard_one(
                outcome,
                status,
            ));
        },
    }
}

/// Hears the sender's supervisor out.
fn part_from_sender<H: CoordinatorHost<Action = SenderCoordinatorAction>>(host: H) -> (r: (
    H,
    Ghost<Farewell>,
))
    ensures
        is_farewell(r.1@),
        trace::leads(host, farewell_calls(r.1@, sender_shows()), r.0),
{
    let mut at = host;
    let mut left: u64 = u64::MAX;
    let ghost mut outcomes: Seq<SupervisorOutcome> = Seq::empty();
    assert(heard_calls(outcomes, sender_shows()) =~= Seq::empty());
    while left > 0
        invariant
            outcomes.len() + left == u64::MAX,
            trace::leads(host, heard_calls(outcomes, sender_shows()), at),
        decreases left,
    {
        left = left - 1;
        let ghost before = at;
        let (next, outcome) = hear_sender(at);
        at = next;
        proof {
            lemma_heard(host, outcomes, before, outcome, at, sender_shows());
        }
        match outcome {
            Some(said) => {
                proof {
                    outcomes = outcomes.push(said);
                }
            },
            None => {
                return (at, Ghost(Farewell { outcomes, gone: true }));
            },
        }
    }
    let ghost farewell = Farewell { outcomes, gone: false };
    assert(farewell_calls(farewell, sender_shows()) =~= heard_calls(outcomes, sender_shows()));
    (at, Ghost(farewell))
}

/// Hears the receiver's supervisor out.
fn part_from_stream<H: CoordinatorHost<Action = StreamCoordinatorAction>>(host: H) -> (r: (
    H,
    Ghost<Farewell>,
))
    ensures
        is_farewell(r.1@),
        trace::leads(host, farewell_calls(r.1@, stream_shows()), r.0),
{
    let mut at = host;
    let mut left: u64 = u64::MAX;
    let ghost mut outcomes: Seq<SupervisorOutcome> = Seq::empty();
    assert(heard_calls(outcomes, stream_shows()) =~= Seq::empty());
    while left > 0
        invariant
            outcomes.len() + left == u64::MAX,
            trace::leads(host, heard_calls(outcomes, stream_shows()), at),
        decreases left,
    {
        left = left - 1;
        let ghost before = at;
        let (next, outcome) = hear_stream(at);
        at = next;
        proof {
            lemma_heard(host, outcomes, before, outcome, at, stream_shows());
        }
        match outcome {
            Some(said) => {
                proof {
                    outcomes = outcomes.push(said);
                }
            },
            None => {
                return (at, Ghost(Farewell { outcomes, gone: true }));
            },
        }
    }
    let ghost farewell = Farewell { outcomes, gone: false };
    assert(farewell_calls(farewell, stream_shows()) =~= heard_calls(outcomes, stream_shows()));
    (at, Ghost(farewell))
}

/// Takes the sender's coordinator down.
fn leave_sender<H: CoordinatorHost<Action = SenderCoordinatorAction>>(host: H, stopped: bool) -> (r:
    (H, Ghost<Farewell>))
    ensures
        is_farewell(r.1@),
        forall|turns: Seq<CoordinatorTurn>|
            stopped == (turns.len() > 0 && is_stopped(turns.last())) ==> trace::leads(
                host,
                #[trigger] leaving_calls(turns, r.1@, sender_shows()),
                r.0,
            ),
{
    let ghost first = step_calls::<SenderStatus>(coordinator::exit_steps());
    let ghost mut calls = first;
    let ghost mut farewell = Farewell { outcomes: Seq::empty(), gone: true };
    let mut at = take_all::<SenderStatus, H>(host, coordinator_exit());
    if stopped {
        let ghost before = at;
        let (next, heard) = part_from_sender(at);
        at = next;
        proof {
            farewell = heard@;
            let more = farewell_calls(farewell, sender_shows());
            trace::lemma_joined(host, calls, before, more, at);
            calls = calls + more;
        }
    }
    let ghost before = at;
    let ghost last = CoordinatorCall::<SenderStatus>::SetUp(CoordinatorStep::JoinSupervisor);
    let after = at.set_up(CoordinatorStep::JoinSupervisor);
    proof {
        trace::lemma_called(host, calls, before, last, after);
        assert forall|turns: Seq<CoordinatorTurn>|
            stopped == (turns.len() > 0 && is_stopped(turns.last())) implies trace::leads(
            host,
            #[trigger] leaving_calls(turns, farewell, sender_shows()),
            after,
        ) by {
            assert(leaving_calls(turns, farewell, sender_shows()) =~= calls.push(last));
        }
    }
    (after, Ghost(farewell))
}

/// Takes the receiver's coordinator down.
fn leave_stream<H: CoordinatorHost<Action = StreamCoordinatorAction>>(host: H, stopped: bool) -> (r:
    (H, Ghost<Farewell>))
    ensures
        is_farewell(r.1@),
        forall|turns: Seq<CoordinatorTurn>|
            stopped == (turns.len() > 0 && is_stopped(turns.last())) ==> trace::leads(
                host,
                #[trigger] leaving_calls(turns, r.1@, stream_shows()),
                r.0,
            ),
{
    let ghost first = step_calls::<StreamStatus>(coordinator::exit_steps());
    let ghost mut calls = first;
    let ghost mut farewell = Farewell { outcomes: Seq::empty(), gone: true };
    let mut at = take_all::<StreamStatus, H>(host, coordinator_exit());
    if stopped {
        let ghost before = at;
        let (next, heard) = part_from_stream(at);
        at = next;
        proof {
            farewell = heard@;
            let more = farewell_calls(farewell, stream_shows());
            trace::lemma_joined(host, calls, before, more, at);
            calls = calls + more;
        }
    }
    let ghost before = at;
    let ghost last = CoordinatorCall::<StreamStatus>::SetUp(CoordinatorStep::JoinSupervisor);
    let after = at.set_up(CoordinatorStep::JoinSupervisor);
    proof {
        trace::lemma_called(host, calls, before, last, after);
        assert forall|turns: Seq<CoordinatorTurn>|
            stopped == (turns.len() > 0 && is_stopped(turns.last())) implies trace::leads(
            host,
            #[trigger] leaving_calls(turns, farewell, stream_shows()),
            after,
        ) by {
            assert(leaving_calls(turns, farewell, stream_shows()) =~= calls.push(last));
        }
    }
    (after, Ghost(farewell))
}

/// Runs the sender's coordinator on a host, from a failure of the transport until the supervisor is
/// done.
pub fn enter_supervisor_mode<H: CoordinatorHost<Action = SenderCoordinatorAction>>(
    host: H,
    start: SupervisionStart,
) -> (after: H)
    ensures
        is_supervised(host, start, after),
{
    let ghost begun = host;
    let ghost the_start = start;
    let ghost entry = coordinator::entry_steps(start.trigger, start.supervisor());
    let SupervisionStart { trigger, session_nonce, settings, hooks, ice_connected } = start;
    let supervisor = SupervisorStart { role: Role::Sender, session_nonce, settings };
    let mut host = take_all::<SenderStatus, H>(host, coordinator_entry(trigger, supervisor));
    let ghost set_up = host;
    let mut coordinator = SenderCoordinator::new(hooks, ice_connected);
    let ghost first = coordinator;
    let mut turns_left: u64 = u64::MAX;
    let mut stays = true;
    let mut stopped = false;
    let ghost mut turns: Seq<CoordinatorTurn> = Seq::empty();
    while stays && turns_left > 0
        invariant
            turns.len() + turns_left == u64::MAX,
            stays ==> forall|i: int|
                0 <= i < turns.len() ==> !leaves(Role::Sender, #[trigger] turns[i]),
            !stays ==> is_coordination(Role::Sender, turns),
            stopped == (turns.len() > 0 && is_stopped(turns.last())),
            stopped ==> !stays,
            coordinator == coordinator::after_all(
                first,
                coordinator::handled(Role::Sender, turns),
            ),
            trace::leads(set_up, sender_calls(first, turns), host),
        decreases turns_left,
    {
        turns_left = turns_left - 1;
        let ghost before = host;
        let ghost calls = sender_calls(first, turns);
        let (next, outcome, goes_on, by_flag) = turn_on::<SenderStatus, H>(host, Role::Sender);
        host = next;
        let ghost turn = choose|turn: CoordinatorTurn|
            {
                &&& trace::leads(before, #[trigger] reading_calls::<SenderStatus>(turn), next)
                &&& outcome == outcome_of(turn)
                &&& goes_on == !leaves(Role::Sender, turn)
                &&& by_flag == is_stopped(turn)
            };
        let ghost read = calls + reading_calls::<SenderStatus>(turn);
        let ghost all = turns.push(turn);
        proof {
            trace::lemma_joined(
                set_up,
                calls,
                before,
                reading_calls::<SenderStatus>(turn),
                host,
            );
            lemma_turn_appended(Role::Sender, turns, turn);
            assert(all.drop_last() =~= turns);
        }
        stays = goes_on;
        stopped = by_flag;
        match outcome {
            Some(outcome) => {
                proof {
                    lemma_after_push(
                        first,
                        coordinator::handled(Role::Sender, turns),
                        outcome,
                    );
                }
                let reaction = coordinator.handle_supervisor_outcome(outcome);
                match reaction {
                    Some(action) => {
                        let ghost mid = host;
                        host = host.act(action);
                        proof {
                            let call = CoordinatorCall::Act(action@);
                            trace::lemma_called(set_up, read, mid, call, host);
                            assert(sender_calls(first, all) =~= read.push(call));
                        }
                    },
                    None => {
                        assert(sender_calls(first, all) =~= read);
                    },
                }
            },
            None => {
                assert(sender_calls(first, all) =~= read);
            },
        }
        proof {
            turns = all;
        }
    }
    let ghost done = host;
    let (after, farewell) = leave_sender(host, stopped);
    proof {
        let one = step_calls::<SenderStatus>(entry);
        let two = sender_calls(first, turns);
        let three = leaving_calls(turns, farewell@, sender_shows());
        trace::lemma_joined(begun, one, set_up, two, done);
        trace::lemma_joined(begun, one + two, done, three, after);
        assert(sender_supervision(the_start, turns, farewell@) == one + two + three);
    }
    after
}

/// Runs the receiver's coordinator on a host, from a failure of the transport until the supervisor
/// is done.
pub fn enter_stream_supervisor_mode<H: CoordinatorHost<Action = StreamCoordinatorAction>>(
    host: H,
    start: StreamSupervisionStart,
) -> (after: H)
    ensures
        is_stream_supervised(host, start, after),
{
    let ghost begun = host;
    let ghost the_start = start;
    let ghost entry = coordinator::entry_steps(start.trigger, start.supervisor());
    let StreamSupervisionStart { trigger, session_nonce, settings, hooks } = start;
    let supervisor = SupervisorStart { role: Role::Receiver, session_nonce, settings };
    let mut host = take_all::<StreamStatus, H>(host, coordinator_entry(trigger, supervisor));
    let ghost set_up = host;
    let mut turns_left: u64 = u64::MAX;
    let mut stays = true;
    let mut stopped = false;
    let ghost mut turns: Seq<CoordinatorTurn> = Seq::empty();
    while stays && turns_left > 0
        invariant
            turns.len() + turns_left == u64::MAX,
            stays ==> forall|i: int|
                0 <= i < turns.len() ==> !leaves(Role::Receiver, #[trigger] turns[i]),
            !stays ==> is_coordination(Role::Receiver, turns),
            stopped == (turns.len() > 0 && is_stopped(turns.last())),
            stopped ==> !stays,
            trace::leads(set_up, stream_calls(hooks, turns), host),
        decreases turns_left,
    {
        turns_left = turns_left - 1;
        let ghost before = host;
        let ghost calls = stream_calls(hooks, turns);
        let (next, outcome, goes_on, by_flag) = turn_on::<StreamStatus, H>(host, Role::Receiver);
        host = next;
        let ghost turn = choose|turn: CoordinatorTurn|
            {
                &&& trace::leads(before, #[trigger] reading_calls::<StreamStatus>(turn), next)
                &&& outcome == outcome_of(turn)
                &&& goes_on == !leaves(Role::Receiver, turn)
                &&& by_flag == is_stopped(turn)
            };
        let ghost read = calls + reading_calls::<StreamStatus>(turn);
        let ghost all = turns.push(turn);
        proof {
            trace::lemma_joined(
                set_up,
                calls,
                before,
                reading_calls::<StreamStatus>(turn),
                host,
            );
            assert(all.drop_last() =~= turns);
        }
        stays = goes_on;
        stopped = by_flag;
        match outcome {
            Some(outcome) => {
                let reaction = hooks.handle_stream_supervisor_outcome(outcome);
                match reaction {
                    Some(action) => {
                        let ghost mid = host;
                        host = host.act(action);
                        proof {
                            let call = CoordinatorCall::Act(action@);
                            trace::lemma_called(set_up, read, mid, call, host);
                            assert(stream_calls(hooks, all) =~= read.push(call));
                        }
                    },
                    None => {
                        assert(stream_calls(hooks, all) =~= read);
                    },
                }
            },
            None => {
                assert(stream_calls(hooks, all) =~= read);
            },
        }
        proof {
            turns = all;
        }
    }
    let ghost done = host;
    let (after, farewell) = leave_stream(host, stopped);
    proof {
        let one = step_calls::<StreamStatus>(entry);
        let two = stream_calls(hooks, turns);
        let three = leaving_calls(turns, farewell@, stream_shows());
        trace::lemma_joined(begun, one, set_up, two, done);
        trace::lemma_joined(begun, one + two, done, three, after);
        assert(stream_supervision(the_start, turns, farewell@) == one + two + three);
    }
    after
}

/// A status that is among those of the outcomes is among the calls.
proof fn lemma_shown_in_heard<S>(
    outcomes: Seq<SupervisorOutcome>,
    status: spec_fn(SupervisorOutcome) -> Option<S>,
    k: int,
    shown: S,
)
    requires
        0 <= k < outcomes.len(),
        status(outcomes[k]) == Some(shown),
    ensures
        heard_calls(outcomes, status).contains(CoordinatorCall::Act(Act::Show(shown))),
    decreases outcomes.len(),
{
    let call = CoordinatorCall::Act(Act::Show(shown));
    let all = heard_calls(outcomes, status);
    let front = heard_calls(outcomes.drop_last(), status);
    if k < outcomes.len() - 1 {
        lemma_shown_in_heard(outcomes.drop_last(), status, k, shown);
        let i = choose|i: int| 0 <= i < front.len() && front[i] == call;
        assert(all[i] == call);
    } else {
        assert(all.last() == call);
    }
}

/// A coordinator that leaves because its stop flag went up still shows everything that the
/// supervisor has to say: if the session was restored, the frontend hears of it.
pub proof fn law_restored_session_is_shown(
    start: SupervisionStart,
    stream_start: StreamSupervisionStart,
    turns: Seq<CoordinatorTurn>,
    farewell: Farewell,
    k: int,
)
    requires
        turns.len() > 0,
        is_stopped(turns.last()),
        0 <= k < farewell.outcomes.len(),
        farewell.outcomes[k] == SupervisorOutcome::StateChanged(SessionState::Connected),
    ensures
        sender_supervision(start, turns, farewell).contains(
            CoordinatorCall::Act(Act::Show(SenderStatus::Streaming)),
        ),
        stream_supervision(stream_start, turns, farewell).contains(
            CoordinatorCall::Act(Act::Show(StreamStatus::Streaming)),
        ),
{
    let sent = CoordinatorCall::Act(Act::Show(SenderStatus::Streaming));
    let received = CoordinatorCall::Act(Act::Show(StreamStatus::Streaming));
    let heard = heard_calls(farewell.outcomes, sender_shows());
    let stream_heard = heard_calls(farewell.outcomes, stream_shows());
    lemma_shown_in_heard(farewell.outcomes, sender_shows(), k, SenderStatus::Streaming);
    lemma_shown_in_heard(farewell.outcomes, stream_shows(), k, StreamStatus::Streaming);
    let i = choose|i: int| 0 <= i < heard.len() && heard[i] == sent;
    let j = choose|j: int| 0 <= j < stream_heard.len() && stream_heard[j] == received;
    let head = step_calls::<SenderStatus>(
        coordinator::entry_steps(start.trigger, start.supervisor()),
    ) + sender_calls(start.coordinator(), turns) + step_calls::<SenderStatus>(
        coordinator::exit_steps(),
    );
    let stream_head = step_calls::<StreamStatus>(
        coordinator::entry_steps(stream_start.trigger, stream_start.supervisor()),
    ) + stream_calls(stream_start.hooks, turns) + step_calls::<StreamStatus>(
        coordinator::exit_steps(),
    );
    assert(sender_supervision(start, turns, farewell)[head.len() + i] == sent);
    assert(stream_supervision(stream_start, turns, farewell)[stream_head.len() + j] == received);
}

/// Each call of a coordinator goes to the method of the host that it is named after, with these
/// arguments and this answer; an action goes there as what it stands for.
pub proof fn law_calls_reach_the_host<S, H: CoordinatorHost>(
    call: CoordinatorCall<S>,
    before: H,
    after: H,
) where
    H::Action: View<V = Act<S>>,
    requires
        HostCall::<H>::made(call, before, after),
    ensures
        call matches CoordinatorCall::SetUp(step) ==> call_ensures(
            H::set_up,
            (before, step),
            after,
        ),
        call matches CoordinatorCall::NextOutcome(poll) ==> call_ensures(
            H::next_outcome,
            (before,),
            (after, poll),
        ),
        call matches CoordinatorCall::WaitOutcome(outcome) ==> call_ensures(
            H::wait_outcome,
            (before,),
            (after, outcome),
        ),
        call matches CoordinatorCall::StopRequested(stop) ==> call_ensures(
            H::stop_requested,
            (before,),
            (after, stop),
        ),
        call matches CoordinatorCall::Receive { wait_ns, received } ==> call_ensures(
            H::receive,
            (before, wait_ns),
            (after, received),
        ),
        call matches CoordinatorCall::Act(act) ==> (exists|action: H::Action| #[trigger]
            call_ensures(H::act, (before, action), after) && action@ == act),
{
}

/// The sender's coordinator from its set-up to its end. The supervisor is made reachable, the
/// signaling layer learns of it, it hears of the very failure that was handed over, and it is started
/// as a sender's, with the nonce and the settings that came with the failure. The coordinator goes
/// through its turns with the callbacks and the record of the connection that came with it, and with
/// nothing asked by the peer yet. Then the supervisor is made unreachable and told to stop; it is
/// heard out if the stop flag ended the turns; and its thread is waited for.
pub proof fn law_how_the_sender_is_supervised(
    start: SupervisionStart,
    turns: Seq<CoordinatorTurn>,
    farewell: Farewell,
)
    ensures
        sender_supervision(start, turns, farewell) == seq![
            CoordinatorCall::<SenderStatus>::SetUp(CoordinatorStep::Register),
            CoordinatorCall::<SenderStatus>::SetUp(CoordinatorStep::RefreshSignaling),
            CoordinatorCall::<SenderStatus>::SetUp(
                CoordinatorStep::Signal(SupervisorSignal::LocalFailure { trigger: start.trigger }),
            ),
            CoordinatorCall::<SenderStatus>::SetUp(
                CoordinatorStep::SpawnSupervisor(
                    SupervisorStart {
                        role: Role::Sender,
                        session_nonce: start.session_nonce,
                        settings: start.settings,
                    },
                ),
            ),
        ] + sender_calls(
            SenderCoordinator {
                hooks: start.hooks,
                ice_connected: start.ice_connected,
                peer_ack_seen: false,
            },
            turns,
        ) + (seq![
            CoordinatorCall::<SenderStatus>::SetUp(CoordinatorStep::Unregister),
            CoordinatorCall::<SenderStatus>::SetUp(CoordinatorStep::Signal(SupervisorSignal::Stop)),
        ] + (if turns.len() > 0 && turns.last().poll is Empty && turns.last().stop_flag {
            farewell_calls(farewell, sender_shows())
        } else {
            Seq::empty()
        }) + seq![CoordinatorCall::<SenderStatus>::SetUp(CoordinatorStep::JoinSupervisor)]),
{
    let entry = seq![
        CoordinatorCall::<SenderStatus>::SetUp(CoordinatorStep::Register),
        CoordinatorCall::<SenderStatus>::SetUp(CoordinatorStep::RefreshSignaling),
        CoordinatorCall::<SenderStatus>::SetUp(
            CoordinatorStep::Signal(SupervisorSignal::LocalFailure { trigger: start.trigger }),
        ),
        CoordinatorCall::<SenderStatus>::SetUp(
            CoordinatorStep::SpawnSupervisor(
                SupervisorStart {
                    role: Role::Sender,
                    session_nonce: start.session_nonce,
                    settings: start.settings,
                },
            ),
        ),
    ];
    let exit = seq![
        CoordinatorCall::<SenderStatus>::SetUp(CoordinatorStep::Unregister),
        CoordinatorCall::<SenderStatus>::SetUp(CoordinatorStep::Signal(SupervisorSignal::Stop)),
    ];
    assert(step_calls::<SenderStatus>(
        coordinator::entry_steps(start.trigger, start.supervisor()),
    ) =~= entry);
    assert(step_calls::<SenderStatus>(coordinator::exit_steps()) =~= exit);
}

/// The receiver's coordinator from its set-up to its end: like the sender's, but the signaling layer
/// is left alone, and the supervisor is started as a receiver's.
pub proof fn law_how_the_receiver_is_supervised(
    start: StreamSupervisionStart,
    turns: Seq<CoordinatorTurn>,
    farewell: Farewell,
)
    ensures
        stream_supervision(start, turns, farewell) == seq![
            CoordinatorCall::<StreamStatus>::SetUp(CoordinatorStep::Register),
            CoordinatorCall::<StreamStatus>::SetUp(
                CoordinatorStep::Signal(SupervisorSignal::LocalFailure { trigger: start.trigger }),
            ),
            CoordinatorCall::<StreamStatus>::SetUp(
                CoordinatorStep::SpawnSupervisor(
                    SupervisorStart {
                        role: Role::Receiver,
                        session_nonce: start.session_nonce,
                        settings: start.settings,
                    },
                ),
            ),
        ] + stream_calls(start.hooks, turns) + (seq![
            CoordinatorCall::<StreamStatus>::SetUp(CoordinatorStep::Unregister),
            CoordinatorCall::<StreamStatus>::SetUp(CoordinatorStep::Signal(SupervisorSignal::Stop)),
        ] + (if turns.len() > 0 && turns.last().poll is Empty && turns.last().stop_flag {
            farewell_calls(farewell, stream_shows())
        } else {
            Seq::empty()
        }) + seq![CoordinatorCall::<StreamStatus>::SetUp(CoordinatorStep::JoinSupervisor)]),
{
    let entry = seq![
        CoordinatorCall::<StreamStatus>::SetUp(CoordinatorStep::Register),
        CoordinatorCall::<StreamStatus>::SetUp(
            CoordinatorStep::Signal(SupervisorSignal::LocalFailure { trigger: start.trigger }),
        ),
        CoordinatorCall::<StreamStatus>::SetUp(
            CoordinatorStep::SpawnSupervisor(
                SupervisorStart {
                    role: Role::Receiver,
                    session_nonce: start.session_nonce,
                    settings: start.settings,
                },
            ),
        ),
    ];
    let exit = seq![
        CoordinatorCall::<StreamStatus>::SetUp(CoordinatorStep::Unregister),
        CoordinatorCall::<StreamStatus>::SetUp(CoordinatorStep::Signal(SupervisorSignal::Stop)),
    ];
    assert(step_calls::<StreamStatus>(
        coordinator::entry_steps(start.trigger, start.supervisor()),
    ) =~= entry);
    assert(step_calls::<StreamStatus>(coordinator::exit_steps()) =~= exit);
}

/// One turn more of the sender's coordinator. An outcome that is there is handled at once, by what
/// the coordinator remembers of the outcomes before it. Only without one is the stop flag read, and
/// only while that is down is the transport waited for, for a twentieth of a second.
pub proof fn law_what_a_turn_of_the_sender_does(
    c: SenderCoordinator,
    turns: Seq<CoordinatorTurn>,
    turn: CoordinatorTurn,
)
    ensures
        sender_calls(c, Seq::empty()) == Seq::<CoordinatorCall<SenderStatus>>::empty(),
        sender_calls(c, turns.push(turn)) == sender_calls(c, turns) + (match turn.poll {
            OutcomePoll::Outcome(outcome) => seq![
                CoordinatorCall::<SenderStatus>::NextOutcome(OutcomePoll::Outcome(outcome)),
            ] + (match coordinator::after_all(
                c,
                coordinator::handled(Role::Sender, turns),
            ).reaction(outcome) {
                Some(act) => seq![CoordinatorCall::Act(act)],
                None => Seq::empty(),
            }),
            OutcomePoll::Disconnected => seq![
                CoordinatorCall::<SenderStatus>::NextOutcome(OutcomePoll::Disconnected),
            ],
            OutcomePoll::Empty => seq![
                CoordinatorCall::<SenderStatus>::NextOutcome(OutcomePoll::Empty),
                CoordinatorCall::<SenderStatus>::StopRequested(turn.stop_flag),
            ] + (if turn.stop_flag {
                Seq::empty()
            } else {
                seq![
                    CoordinatorCall::<SenderStatus>::Receive {
                        wait_ns: 50_000_000,
                        received: turn.received,
                    },
                ]
            }),
        }),
{
    assert(turns.push(turn).drop_last() =~= turns);
}

/// One turn more of the receiver's coordinator, which goes like the sender's but remembers nothing.
pub proof fn law_what_a_turn_of_the_receiver_does(
    hooks: StreamCoordinatorHooks,
    turns: Seq<CoordinatorTurn>,
    turn: CoordinatorTurn,
)
    ensures
        stream_calls(hooks, Seq::empty()) == Seq::<CoordinatorCall<StreamStatus>>::empty(),
        stream_calls(hooks, turns.push(turn)) == stream_calls(hooks, turns) + (match turn.poll {
            OutcomePoll::Outcome(outcome) => seq![
                CoordinatorCall::<StreamStatus>::NextOutcome(OutcomePoll::Outcome(outcome)),
            ] + (match hooks.reaction(outcome) {
                Some(act) => seq![CoordinatorCall::Act(act)],
                None => Seq::empty(),
            }),
            OutcomePoll::Disconnected => seq![
                CoordinatorCall::<StreamStatus>::NextOutcome(OutcomePoll::Disconnected),
            ],
            OutcomePoll::Empty => seq![
                CoordinatorCall::<StreamStatus>::NextOutcome(OutcomePoll::Empty),
                CoordinatorCall::<StreamStatus>::StopRequested(turn.stop_flag),
            ] + (if turn.stop_flag {
                Seq::empty()
            } else {
                seq![
                    CoordinatorCall::<StreamStatus>::Receive {
                        wait_ns: 50_000_000,
                        received: turn.received,
                    },
                ]
            }),
        }),
{
    assert(turns.push(turn).drop_last() =~= turns);
}

/// When a coordinator leaves its loop: when its supervisor is gone, or when there is no outcome and
/// its stop flag is up; the sender's also when there is no outcome and the transport is gone.
pub proof fn law_when_a_coordinator_leaves(role: Role, turns: Seq<CoordinatorTurn>, i: int)
    requires
        is_coordination(role, turns),
        0 <= i < turns.len(),
    ensures
        ({
            let gone = match turns[i].poll {
                OutcomePoll::Outcome(_) => false,
                OutcomePoll::Disconnected => true,
                OutcomePoll::Empty => turns[i].stop_flag || (role is Sender
                    && turns[i].received is Disconnected),
            };
            &&& i < turns.len() - 1 ==> !gone
            &&& i == turns.len() - 1 < u64::MAX - 1 ==> gone
        }),
{
    let leaving = |turn: CoordinatorTurn| leaves(role, turn);
    assert(i < turns.len() - 1 ==> !leaving(turns[i]));
    assert(turns.len() < u64::MAX ==> leaving(turns.last()));
}

/// The receiver's coordinator runs on when the transport is gone: it leaves only when its supervisor
/// is gone, or when there is no outcome and its stop flag is up. What it did from its set-up to its
/// end is the work of such turns, and of a supervisor that was heard out.
pub proof fn law_receiver_outlives_its_transport<
    H: CoordinatorHost<Action = StreamCoordinatorAction>,
>(host: H, start: StreamSupervisionStart, after: H)
    requires
        is_stream_supervised(host, start, after),
    ensures
        exists|turns: Seq<CoordinatorTurn>, farewell: Farewell|
            {
                &&& trace::leads(host, #[trigger] stream_supervision(start, turns, farewell), after)
                &&& forall|i: int|
                    0 <= i < turns.len() - 1 ==> !((#[trigger] turns[i]).poll is Disconnected || (
                    turns[i].poll is Empty && turns[i].stop_flag))
                &&& turns.len() == u64::MAX || turns.len() > 0 && (turns.last().poll is Disconnected
                    || (turns.last().poll is Empty && turns.last().stop_flag))
                &&& farewell.gone || farewell.outcomes.len() == u64::MAX
            },
{
    let (turns, farewell) = choose|turns: Seq<CoordinatorTurn>, farewell: Farewell|
        is_coordination(Role::Receiver, turns) && is_farewell(farewell) && trace::leads(
            host,
            #[trigger] stream_supervision(start, turns, farewell),
            after,
        );
    assert forall|i: int| 0 <= i < turns.len() - 1 implies !((#[trigger] turns[i]).poll is Disconnected
        || (turns[i].poll is Empty && turns[i].stop_flag)) by {
        law_when_a_coordinator_leaves(Role::Receiver, turns, i);
    }
    if 0 < turns.len() < u64::MAX {
        law_when_a_coordinator_leaves(Role::Receiver, turns, turns.len() - 1);
    }
    assert(trace::leads(host, stream_supervision(start, turns, farewell), after));
}

/// The sender's coordinator leaves when its supervisor is gone, or when there is no outcome and its
/// stop flag is up or the transport is gone. What it did from its set-up to its end is the work of
/// such turns, and of a supervisor that was heard out.
pub proof fn law_sender_leaves_with_its_transport<
    H: CoordinatorHost<Action = SenderCoordinatorAction>,
>(host: H, start: SupervisionStart, after: H)
    requires
        is_supervised(host, start, after),
    ensures
        exists|turns: Seq<CoordinatorTurn>, farewell: Farewell|
            {
                &&& trace::leads(host, #[trigger] sender_supervision(start, turns, farewell), after)
                &&& forall|i: int|
                    0 <= i < turns.len() - 1 ==> !((#[trigger] turns[i]).poll is Disconnected || (
                    turns[i].poll is Empty && (turns[i].stop_flag
                        || turns[i].received is Disconnected)))
                &&& turns.len() == u64::MAX || turns.len() > 0 && (turns.last().poll is Disconnected
                    || (turns.last().poll is Empty && (turns.last().stop_flag
                    || turns.last().received is Disconnected)))
                &&& farewell.gone || farewell.outcomes.len() == u64::MAX
            },
{
    let (turns, farewell) = choose|turns: Seq<CoordinatorTurn>, farewell: Farewell|
        is_coordination(Role::Sender, turns) && is_farewell(farewell) && trace::leads(
            host,
            #[trigger] sender_supervision(start, turns, farewell),
            after,
        );
    assert forall|i: int| 0 <= i < turns.len() - 1 implies !((#[trigger] turns[i]).poll is Disconnected
        || (turns[i].poll is Empty && (turns[i].stop_flag || turns[i].received is Disconnected))) by {
        law_when_a_coordinator_leaves(Role::Sender, turns, i);
    }
    if 0 < turns.len() < u64::MAX {
        law_when_a_coordinator_leaves(Role::Sender, turns, turns.len() - 1);
    }
    assert(trace::leads(host, sender_supervision(start, turns, farewell), after));
}

/// A supervisor is heard out, outcome by outcome, until it is gone. Each outcome that stands for a
/// status is shown before the next is waited for, and nothing else is done about any of them.
pub proof fn law_how_a_supervisor_is_heard_out<S>(
    outcomes: Seq<SupervisorOutcome>,
    outcome: SupervisorOutcome,
    status: spec_fn(SupervisorOutcome) -> Option<S>,
)
    ensures
        heard_calls(Seq::empty(), status) == Seq::<CoordinatorCall<S>>::empty(),
        heard_calls(outcomes.push(outcome), status) == heard_calls(outcomes, status) + seq![
            CoordinatorCall::<S>::WaitOutcome(Some(outcome)),
        ] + (match status(outcome) {
            Some(shown) => seq![CoordinatorCall::Act(Act::Show(shown))],
            None => Seq::empty(),
        }),
        farewell_calls((Farewell { outcomes, gone: true }), status) == heard_calls(
            outcomes,
            status,
        ) + seq![CoordinatorCall::<S>::WaitOutcome(None)],
        is_farewell((Farewell { outcomes, gone: false })) ==> outcomes.len() == u64::MAX,
        sender_shows()(outcome) == coordinator::sender_status(outcome),
        stream_shows()(outcome) == coordinator::stream_status(outcome),
{
    assert(outcomes.push(outcome).drop_last() =~= outcomes);
}

} // verus!
