//! The sender's transport drains as they run: turn by turn on a host that has the threads, the
//! channels and the clock.
//!
//! A drain takes at most as many turns as a `u64` can count, which is more than a machine lives
//! through.
use crate::coordinator::{SenderCoordinatorAction, SenderCoordinatorHooks, SupervisionSettings};
use crate::events;
use crate::events::{
    Received, ReconnectTrigger, SenderStatus, SenderStatusEvent, TransportEvent,
};
use crate::nonce;
use crate::nonce::draw;
use crate::sender_drain;
use crate::sender_drain::{
    asks_for_keyframe, drain_wait, is_connection, peer_unreachable_event,
    unsupervised_transport_event, DrainEnd, DrainNext, DrainPoll, DrainRun, DrainTurn,
    SenderTransportDrain, DRAIN_WAIT_NS,
};
use crate::supervision;
use crate::supervision::{enter_supervisor_mode, CoordinatorHost, SupervisionStart};
use crate::trace;
use crate::trace::HostCall;
use crate::turns;
use crate::turns::Turn;
use vstd::prelude::*;

verus! {

broadcast use trace::lemma_no_call;

/// What the sender's transport drains need of the surrounding program. The stop flag and the
/// transport events are those that the coordinator goes on with when the drain hands over to it.
pub trait SenderDrainHost: CoordinatorHost<Action = SenderCoordinatorAction> {
    /// The time.
    fn now(self) -> (r: (Self, u64));

    /// Shows a status in the session's channel.
    fn show(self, event: SenderStatusEvent) -> (after: Self);

    /// Counts a fire of the media watchdog, and says how many in a row came before it.
    fn count_fire(self) -> (r: (Self, u8));

    /// Ends the run of fires.
    fn clear_fires(self) -> (after: Self);

    /// Counts a keyframe request.
    fn count_keyframe_request(self) -> (after: Self);
}

/// A call to the host of a transport drain.
pub enum SenderDrainCall {
    StopRequested(bool),
    Now(u64),
    Receive { wait_ns: u64, received: Received<TransportEvent> },
    Show(SenderStatus),
    CountFire { before: u8 },
    ClearFires,
    CountKeyframeRequest,
    /// Not one call, but all that the sender's coordinator makes from its set-up to the end.
    Supervise(SupervisionStart),
}

impl<H: SenderDrainHost> HostCall<H> for SenderDrainCall {
    open spec fn made(self, before: H, after: H) -> bool {
        match self {
            SenderDrainCall::StopRequested(stop) => call_ensures(
                H::stop_requested,
                (before,),
                (after, stop),
            ),
            SenderDrainCall::Now(t) => call_ensures(H::now, (before,), (after, t)),
            SenderDrainCall::Receive { wait_ns, received } => call_ensures(
                H::receive,
                (before, wait_ns),
                (after, received),
            ),
            SenderDrainCall::Show(status) => exists|event: SenderStatusEvent|
                event@ == status && #[trigger] call_ensures(H::show, (before, event), after),
            SenderDrainCall::CountFire { before: n } => call_ensures(
                H::count_fire,
                (before,),
                (after, n),
            ),
            SenderDrainCall::ClearFires => call_ensures(H::clear_fires, (before,), after),
            SenderDrainCall::CountKeyframeRequest => call_ensures(
                H::count_keyframe_request,
                (before,),
                after,
            ),
            SenderDrainCall::Supervise(start) => supervision::is_supervised(before, start, after),
        }
    }
}

/// What a supervised drain counts, and what it tells its supervisor.
#[derive(Debug, Clone, Copy, PartialEq, Eq, Structural)]
pub struct DrainSetup {
    /// The drain has a media watchdog and keeps its fires; one without counts keyframe requests.
    pub watched: bool,
    pub settings: SupervisionSettings,
    pub hooks: SenderCoordinatorHooks,
}

impl DrainSetup {
    /// How the supervisor is started. A drain that keeps no record of the connection vouches for
    /// it, so that nothing is held back.
    pub open spec fn start(
        self,
        trigger: ReconnectTrigger,
        session_nonce: u64,
        connected: bool,
    ) -> SupervisionStart {
        SupervisionStart {
            trigger,
            session_nonce,
            settings: self.settings,
            hooks: self.hooks,
            ice_connected: connected || !self.watched,
        }
    }

    /// How the supervisor is started.
    fn supervision(
        &self,
        trigger: ReconnectTrigger,
        session_nonce: u64,
        connected: bool,
    ) -> (start: SupervisionStart)
        ensures
            start == self.start(trigger, session_nonce, connected),
    {
        SupervisionStart {
            trigger,
            session_nonce,
            settings: self.settings,
            hooks: self.hooks,
            ice_connected: connected || !self.watched,
        }
    }
}

/// The calls that show these statuses.
pub open spec fn show_calls(shown: Seq<SenderStatus>) -> Seq<SenderDrainCall> {
    shown.map_values(|status: SenderStatus| SenderDrainCall::Show(status))
}

/// The calls by which a drain looks at the stop flag, the clock and the watchdog.
pub open spec fn look_calls(drain: SenderTransportDrain, fires: u8, turn: DrainTurn) -> Seq<
    SenderDrainCall,
> {
    let read = seq![SenderDrainCall::StopRequested(turn.stop_flag)];
    if turn.stop_flag {
        read
    } else if drain.expired(turn.now) {
        read.push(SenderDrainCall::Now(turn.now)).push(SenderDrainCall::CountFire { before: fires })
    } else {
        read.push(SenderDrainCall::Now(turn.now))
    }
}

impl DrainSetup {
    /// The calls by which an event is counted: a watched drain ends the run of fires on a
    /// connection, and any other counts keyframe requests.
    pub open spec fn count_calls(self, received: Received<TransportEvent>) -> Seq<SenderDrainCall> {
        if self.watched && received == Received::<TransportEvent>::Event(
            TransportEvent::IceConnected,
        ) {
            seq![SenderDrainCall::ClearFires]
        } else if !self.watched && sender_drain::is_keyframe_request(received) {
            seq![SenderDrainCall::CountKeyframeRequest]
        } else {
            Seq::empty()
        }
    }

    /// The calls by which a drain waits for an event, and counts it.
    pub open spec fn wait_calls(self, drain: SenderTransportDrain, turn: DrainTurn) -> Seq<
        SenderDrainCall,
    > {
        seq![
            SenderDrainCall::Now(turn.waits_from),
            SenderDrainCall::Receive {
                wait_ns: drain.wait_at(turn.waits_from),
                received: turn.received,
            },
        ] + self.count_calls(turn.received)
    }

    /// The call that hands over to the supervisor.
    pub open spec fn handover_calls(
        self,
        trigger: ReconnectTrigger,
        nonce: u64,
        drain: SenderTransportDrain,
    ) -> Seq<SenderDrainCall> {
        seq![SenderDrainCall::Supervise(self.start(trigger, nonce, drain.ice_connected))]
    }

    /// The calls of one turn: the watchdog is looked at before the wait, and a fire leaves no time
    /// for one. What an event means is counted, then shown, and a failure is handed over last.
    pub open spec fn turn_calls(
        self,
        nonce: u64,
        drain: SenderTransportDrain,
        fires: u8,
        turn: DrainTurn,
    ) -> Seq<SenderDrainCall> {
        let look = look_calls(drain, fires, turn);
        if turn.stop_flag {
            look
        } else if drain.expired(turn.now) {
            look + match drain.polled(false, turn.now, fires).0 {
                DrainPoll::EnterSupervisor(trigger) => self.handover_calls(trigger, nonce, drain),
                _ => show_calls(seq![sender_drain::unreachable_status()]),
            }
        } else {
            look + self.wait_calls(drain, turn) + show_calls(
                sender_drain::shown_after(turn.received),
            ) + match sender_drain::next_after(turn.received) {
                DrainNext::EnterSupervisor(trigger) => self.handover_calls(trigger, nonce, drain),
                _ => Seq::empty(),
            }
        }
    }

    /// The calls of a drain over a run of turns, up to the one in which it leaves its loop.
    pub open spec fn calls(
        self,
        nonce: u64,
        drain: SenderTransportDrain,
        fires: u8,
        turns: Seq<DrainTurn>,
    ) -> Seq<SenderDrainCall>
        decreases turns.len(),
    {
        if turns.len() == 0 {
            Seq::empty()
        } else {
            self.turn_calls(nonce, drain, fires, turns[0]) + if goes_on(drain, turns[0]) {
                self.calls(
                    nonce,
                    drain.after(turns[0].received),
                    sender_drain::fires_after(turns[0].received, fires),
                    turns.drop_first(),
                )
            } else {
                Seq::empty()
            }
        }
    }
}

/// The drain takes another turn after this one.
pub open spec fn goes_on(drain: SenderTransportDrain, turn: DrainTurn) -> bool {
    !turn.stop_flag && !drain.expired(turn.now) && sender_drain::next_after(
        turn.received,
    ) is Continue
}

/// The statuses that a row of calls shows, in order.
pub open spec fn shown_by(calls: Seq<SenderDrainCall>) -> Seq<SenderStatus>
    decreases calls.len(),
{
    if calls.len() == 0 {
        Seq::empty()
    } else {
        match calls.last() {
            SenderDrainCall::Show(status) => shown_by(calls.drop_last()).push(status),
            _ => shown_by(calls.drop_last()),
        }
    }
}

/// What two rows of calls show, one after the other.
proof fn lemma_shown_joined(first: Seq<SenderDrainCall>, second: Seq<SenderDrainCall>)
    ensures
        shown_by(first + second) == shown_by(first) + shown_by(second),
    decreases second.len(),
{
    if second.len() == 0 {
        assert(first + second =~= first);
        assert(shown_by(first) + shown_by(second) =~= shown_by(first));
    } else {
        lemma_shown_joined(first, second.drop_last());
        assert((first + second).drop_last() =~= first + second.drop_last());
        assert((first + second).last() == second.last());
        assert(shown_by(first + second) =~= shown_by(first) + shown_by(second));
    }
}

/// Calls that show these statuses show these statuses.
proof fn lemma_show_calls(shown: Seq<SenderStatus>)
    ensures
        shown_by(show_calls(shown)) == shown,
    decreases shown.len(),
{
    if shown.len() > 0 {
        lemma_show_calls(shown.drop_last());
        assert(show_calls(shown).drop_last() =~= show_calls(shown.drop_last()));
        assert(shown_by(show_calls(shown)) =~= shown);
    } else {
        assert(shown_by(show_calls(shown)) =~= shown);
    }
}

/// What one turn shows.
proof fn lemma_shown_in_turn(
    setup: DrainSetup,
    nonce: u64,
    drain: SenderTransportDrain,
    fires: u8,
    turn: DrainTurn,
)
    ensures
        shown_by(setup.turn_calls(nonce, drain, fires, turn)) == (if turn.stop_flag {
            Seq::empty()
        } else if drain.expired(turn.now) {
            match drain.polled(false, turn.now, fires).0 {
                DrainPoll::PeerUnreachable => seq![sender_drain::unreachable_status()],
                _ => Seq::empty(),
            }
        } else {
            sender_drain::shown_after(turn.received)
        }),
{
    reveal_with_fuel(shown_by, 4);
    let all = setup.turn_calls(nonce, drain, fires, turn);
    let look = look_calls(drain, fires, turn);
    assert(shown_by(look) =~= Seq::empty());
    if !turn.stop_flag && drain.expired(turn.now) {
        match drain.polled(false, turn.now, fires).0 {
            DrainPoll::EnterSupervisor(trigger) => {
                let rest = setup.handover_calls(trigger, nonce, drain);
                lemma_shown_joined(look, rest);
                assert(shown_by(rest) =~= Seq::empty());
                assert(shown_by(all) =~= Seq::empty());
            },
            _ => {
                let shown = seq![sender_drain::unreachable_status()];
                lemma_show_calls(shown);
                lemma_shown_joined(look, show_calls(shown));
                assert(shown_by(all) =~= shown);
            },
        }
    } else if !turn.stop_flag {
        let wait = setup.wait_calls(drain, turn);
        let shown = show_calls(sender_drain::shown_after(turn.received));
        let rest = match sender_drain::next_after(turn.received) {
            DrainNext::EnterSupervisor(trigger) => setup.handover_calls(trigger, nonce, drain),
            _ => Seq::empty(),
        };
        assert(shown_by(wait) =~= Seq::empty());
        assert(shown_by(rest) =~= Seq::empty());
        lemma_show_calls(sender_drain::shown_after(turn.received));
        lemma_shown_joined(look, wait);
        lemma_shown_joined(look + wait, shown);
        lemma_shown_joined(look + wait + shown, rest);
        assert(shown_by(all) =~= sender_drain::shown_after(turn.received));
    }
}

/// The failure that one turn hands over to the supervisor, if it does.
spec fn handed_over(drain: SenderTransportDrain, fires: u8, turn: DrainTurn) -> Option<
    ReconnectTrigger,
> {
    if turn.stop_flag {
        None
    } else if drain.expired(turn.now) {
        match drain.polled(false, turn.now, fires).0 {
            DrainPoll::EnterSupervisor(trigger) => Some(trigger),
            _ => None,
        }
    } else {
        match sender_drain::next_after(turn.received) {
            DrainNext::EnterSupervisor(trigger) => Some(trigger),
            _ => None,
        }
    }
}

/// Where one turn hands over to the supervisor.
proof fn lemma_handed_over(
    setup: DrainSetup,
    nonce: u64,
    drain: SenderTransportDrain,
    fires: u8,
    turn: DrainTurn,
)
    ensures
        ({
            let calls = setup.turn_calls(nonce, drain, fires, turn);
            match handed_over(drain, fires, turn) {
                Some(trigger) => calls.len() > 0 && calls.last() == SenderDrainCall::Supervise(
                    setup.start(trigger, nonce, drain.ice_connected),
                ),
                None => forall|i: int| 0 <= i < calls.len() ==> (#[trigger] calls[i]) !is Supervise,
            }
        }),
{
    let calls = setup.turn_calls(nonce, drain, fires, turn);
    if let Some(trigger) = handed_over(drain, fires, turn) {
        assert(calls.last() == setup.handover_calls(trigger, nonce, drain).last());
    }
}

/// What the calls of a drain show is what `drain_run` says, and the last of them hands over to the
/// supervisor exactly where `drain_run` says so.
pub proof fn law_calls_follow_the_run(
    setup: DrainSetup,
    nonce: u64,
    drain: SenderTransportDrain,
    fires: u8,
    turns: Seq<DrainTurn>,
)
    ensures
        shown_by(setup.calls(nonce, drain, fires, turns)) == sender_drain::drain_run(
            drain,
            fires,
            turns,
        ).shown,
        ({
            let calls = setup.calls(nonce, drain, fires, turns);
            let run = sender_drain::drain_run(drain, fires, turns);
            match run.end {
                DrainEnd::Supervised(trigger) => calls.len() > 0 && calls.last()
                    == SenderDrainCall::Supervise(setup.start(trigger, nonce, run.connected)),
                _ => forall|i: int| 0 <= i < calls.len() ==> (#[trigger] calls[i]) !is Supervise,
            }
        }),
    decreases turns.len(),
{
    let calls = setup.calls(nonce, drain, fires, turns);
    let run = sender_drain::drain_run(drain, fires, turns);
    if turns.len() > 0 {
        let turn = turns[0];
        let here = setup.turn_calls(nonce, drain, fires, turn);
        lemma_shown_in_turn(setup, nonce, drain, fires, turn);
        lemma_handed_over(setup, nonce, drain, fires, turn);
        if goes_on(drain, turn) {
            let next = drain.after(turn.received);
            let m = sender_drain::fires_after(turn.received, fires);
            let rest = setup.calls(nonce, next, m, turns.drop_first());
            law_calls_follow_the_run(setup, nonce, next, m, turns.drop_first());
            lemma_shown_joined(here, rest);
            assert(calls == here + rest);
            if run.end !is Supervised {
                assert forall|i: int| 0 <= i < calls.len() implies (#[trigger] calls[i])
                    !is Supervise by {
                    if i < here.len() {
                        assert(calls[i] == here[i]);
                    } else {
                        assert(calls[i] == rest[i - here.len()]);
                    }
                }
            } else {
                assert(calls.last() == rest.last());
            }
        } else {
            assert(calls =~= here);
        }
    } else {
        assert(shown_by(calls) =~= run.shown);
    }
}

/// Shows these events, in order.
fn show_all<H: SenderDrainHost>(host: H, events: Vec<SenderStatusEvent>) -> (after: H)
    ensures
        trace::leads(host, show_calls(events::statuses(events@)), after),
{
    let ghost first = host;
    let ghost all = events@;
    let ghost mut done: int = 0;
    let mut host = host;
    let mut events = events;
    assert(show_calls(events::statuses(all.take(0))) =~= Seq::empty());
    while events.len() > 0
        invariant
            0 <= done <= all.len(),
            events@ == all.skip(done),
            trace::leads(first, show_calls(events::statuses(all.take(done))), host),
        decreases events.len(),
    {
        let ghost before = host;
        let event = events.remove(0);
        host = host.show(event);
        proof {
            assert(event == all[done]);
            let calls = show_calls(events::statuses(all.take(done)));
            let call = SenderDrainCall::Show(event@);
            trace::lemma_called(first, calls, before, call, host);
            assert(show_calls(events::statuses(all.take(done + 1))) =~= calls.push(call));
            assert(events@ =~= all.skip(done + 1));
            done = done + 1;
        }
    }
    assert(all.take(done) =~= all);
    host
}

/// The fire count of a drain that started with `fires`: a connection has ended the run.
spec fn streak(drain: SenderTransportDrain, fires: u8) -> u8 {
    if drain.ice_connected {
        0
    } else {
        fires
    }
}

/// After these turns the drain `first` has made these calls and goes on as `drain`.
#[verifier::opaque]
spec fn continues_as(
    setup: DrainSetup,
    nonce: u64,
    first: SenderTransportDrain,
    turns: Seq<DrainTurn>,
    calls: Seq<SenderDrainCall>,
    drain: SenderTransportDrain,
) -> bool {
    forall|fires: u8, rest: Seq<DrainTurn>|
        {
            &&& #[trigger] setup.calls(nonce, first, fires, turns + rest) == calls + setup.calls(
                nonce,
                drain,
                streak(drain, fires),
                rest,
            )
            &&& sender_drain::drain_run(first, fires, turns + rest).end == sender_drain::drain_run(
                drain,
                streak(drain, fires),
                rest,
            ).end
        }
}

/// A drain goes on as itself.
proof fn lemma_starts(setup: DrainSetup, nonce: u64, first: SenderTransportDrain)
    requires
        !first.ice_connected,
    ensures
        continues_as(setup, nonce, first, Seq::empty(), Seq::empty(), first),
{
    reveal(continues_as);
    assert forall|fires: u8, rest: Seq<DrainTurn>|
        {
            &&& #[trigger] setup.calls(nonce, first, fires, Seq::empty() + rest) == Seq::empty()
                + setup.calls(nonce, first, streak(first, fires), rest)
            &&& sender_drain::drain_run(first, fires, Seq::empty() + rest).end
                == sender_drain::drain_run(first, streak(first, fires), rest).end
        } by {
        assert(Seq::<DrainTurn>::empty() + rest =~= rest);
        let calls = setup.calls(nonce, first, fires, rest);
        assert(Seq::<SenderDrainCall>::empty() + calls =~= calls);
    }
}

/// One turn more in which the drain goes on.
proof fn lemma_goes_on(
    setup: DrainSetup,
    nonce: u64,
    first: SenderTransportDrain,
    turns: Seq<DrainTurn>,
    calls: Seq<SenderDrainCall>,
    drain: SenderTransportDrain,
    turn: DrainTurn,
)
    requires
        continues_as(setup, nonce, first, turns, calls, drain),
        goes_on(drain, turn),
    ensures
        continues_as(
            setup,
            nonce,
            first,
            turns.push(turn),
            calls + setup.turn_calls(nonce, drain, 0, turn),
            drain.after(turn.received),
        ),
{
    reveal(continues_as);
    let next = drain.after(turn.received);
    let here = setup.turn_calls(nonce, drain, 0, turn);
    assert forall|fires: u8, rest: Seq<DrainTurn>|
        {
            &&& #[trigger] setup.calls(nonce, first, fires, turns.push(turn) + rest) == calls + here
                + setup.calls(nonce, next, streak(next, fires), rest)
            &&& sender_drain::drain_run(first, fires, turns.push(turn) + rest).end
                == sender_drain::drain_run(next, streak(next, fires), rest).end
        } by {
        let tail = seq![turn] + rest;
        assert(turns.push(turn) + rest =~= turns + tail);
        assert(tail.drop_first() =~= rest);
        assert(setup.turn_calls(nonce, drain, streak(drain, fires), turn) == here);
        let more = setup.calls(nonce, next, streak(next, fires), rest);
        assert(setup.calls(nonce, drain, streak(drain, fires), tail) == here + more);
        assert(calls + (here + more) =~= calls + here + more);
        assert(setup.calls(nonce, first, fires, turns + tail) == calls + setup.calls(
            nonce,
            drain,
            streak(drain, fires),
            tail,
        ));
    }
}

/// The turn in which the drain leaves its loop.
proof fn lemma_leaves(
    setup: DrainSetup,
    nonce: u64,
    first: SenderTransportDrain,
    turns: Seq<DrainTurn>,
    calls: Seq<SenderDrainCall>,
    drain: SenderTransportDrain,
    fires: u8,
    turn: DrainTurn,
)
    requires
        continues_as(setup, nonce, first, turns, calls, drain),
        drain.watchdog_deadline is Some ==> !drain.ice_connected,
        !goes_on(drain, turn),
    ensures
        setup.calls(nonce, first, fires, turns.push(turn)) == calls + setup.turn_calls(
            nonce,
            drain,
            fires,
            turn,
        ),
        sender_drain::drain_run(first, fires, turns.push(turn)).end !is Running,
{
    reveal(continues_as);
    let last = seq![turn];
    assert(turns.push(turn) =~= turns + last);
    assert(setup.calls(nonce, first, fires, turns + last) == calls + setup.calls(
        nonce,
        drain,
        streak(drain, fires),
        last,
    ));
    assert(setup.calls(nonce, drain, streak(drain, fires), last) =~= setup.turn_calls(
        nonce,
        drain,
        fires,
        turn,
    ));
}

/// What comes of a supervised drain on a host: it goes through turns as the host gives them, up to
/// the one in which it leaves its loop, and makes the calls of these turns and no others. The nonce
/// was drawn for it.
pub open spec fn is_drained<H: SenderDrainHost>(
    host: H,
    setup: DrainSetup,
    nonce: u64,
    drain: SenderTransportDrain,
    fires: u8,
    turns: Seq<DrainTurn>,
    after: H,
) -> bool {
    &&& nonce::is_draw(nonce)
    &&& trace::leads(host, setup.calls(nonce, drain, fires, turns), after)
    &&& sender_drain::drain_run(drain, fires, turns).end is Running ==> turns.len() == u64::MAX
}

/// Looks at the stop flag, the clock and the watchdog: the flag, the time, and how many fires came
/// before one that is due.
fn look_on<H: SenderDrainHost>(host: H, drain: &SenderTransportDrain) -> (r: (H, bool, u64, u8))
    ensures
        trace::leads(host, look_calls(*drain, r.3, quiet_turn(r.1, r.2)), r.0),
{
    let ghost first = host;
    let ghost mut calls = Seq::<SenderDrainCall>::empty();
    let (next, stop_flag) = host.stop_requested();
    proof {
        let call = SenderDrainCall::StopRequested(stop_flag);
        trace::lemma_called(first, calls, first, call, next);
        calls = calls.push(call);
    }
    if stop_flag {
        assert(look_calls(*drain, 0, quiet_turn(stop_flag, 0)) =~= calls);
        return (next, stop_flag, 0, 0);
    }
    let ghost before = next;
    let (next, now) = next.now();
    proof {
        let call = SenderDrainCall::Now(now);
        trace::lemma_called(first, calls, before, call, next);
        calls = calls.push(call);
    }
    if !drain.is_due(now) {
        assert(look_calls(*drain, 0, quiet_turn(stop_flag, now)) =~= calls);
        return (next, stop_flag, now, 0);
    }
    let ghost before = next;
    let (next, fires) = next.count_fire();
    proof {
        let call = SenderDrainCall::CountFire { before: fires };
        trace::lemma_called(first, calls, before, call, next);
        assert(look_calls(*drain, fires, quiet_turn(stop_flag, now)) =~= calls.push(call));
    }
    (next, stop_flag, now, fires)
}

/// A turn in which the drain does not come to wait.
spec fn quiet_turn(stop_flag: bool, now: u64) -> DrainTurn {
    DrainTurn { stop_flag, now, waits_from: 0, received: Received::Timeout }
}

/// Waits for an event and counts it: when the wait began, and what it brought.
fn wait_on<H: SenderDrainHost>(host: H, setup: &DrainSetup, drain: &SenderTransportDrain) -> (r: (
    H,
    u64,
    Received<TransportEvent>,
))
    ensures
        forall|turn: DrainTurn|
            turn.waits_from == r.1 && turn.received == r.2 ==> trace::leads(
                host,
                #[trigger] setup.wait_calls(*drain, turn),
                r.0,
            ),
{
    let ghost first = host;
    let ghost mut calls = Seq::<SenderDrainCall>::empty();
    let (next, later) = host.now();
    proof {
        let call = SenderDrainCall::Now(later);
        trace::lemma_called(first, calls, first, call, next);
        calls = calls.push(call);
    }
    let ghost before = next;
    let wait: u64 = drain.wait_ns(later);
    let (next, received) = next.receive(wait);
    proof {
        let call = SenderDrainCall::Receive { wait_ns: wait, received };
        trace::lemma_called(first, calls, before, call, next);
        calls = calls.push(call);
    }
    let mut host = next;
    if setup.watched {
        if is_connection(&received) {
            let ghost before = host;
            host = host.clear_fires();
            proof {
                trace::lemma_called(first, calls, before, SenderDrainCall::ClearFires, host);
                calls = calls.push(SenderDrainCall::ClearFires);
            }
        }
    } else {
        if asks_for_keyframe(&received) {
            let ghost before = host;
            host = host.count_keyframe_request();
            proof {
                let call = SenderDrainCall::CountKeyframeRequest;
                trace::lemma_called(first, calls, before, call, host);
                calls = calls.push(call);
            }
        }
    }
    assert forall|turn: DrainTurn|
        turn.waits_from == later && turn.received == received implies trace::leads(
        first,
        #[trigger] setup.wait_calls(*drain, turn),
        host,
    ) by {
        assert(setup.wait_calls(*drain, turn) =~= calls);
    }
    (host, later, received)
}

/// Hands over to the supervisor.
fn hand_over<H: SenderDrainHost>(
    host: H,
    setup: &DrainSetup,
    trigger: ReconnectTrigger,
    nonce: u64,
    drain: &SenderTransportDrain,
) -> (after: H)
    ensures
        trace::leads(host, setup.handover_calls(trigger, nonce, *drain), after),
{
    let ghost first = host;
    let ghost nothing = Seq::<SenderDrainCall>::empty();
    let start = setup.supervision(trigger, nonce, drain.ice_connected);
    let ghost call = SenderDrainCall::Supervise(start);
    let after = enter_supervisor_mode(host, start);
    proof {
        trace::lemma_called(first, nothing, first, call, after);
        assert(setup.handover_calls(trigger, nonce, *drain) =~= nothing.push(call));
    }
    after
}

/// Runs a supervised drain on a host.
fn drain_on<H: SenderDrainHost>(host: H, setup: DrainSetup, first: SenderTransportDrain) -> (after:
    H)
    requires
        !first.ice_connected,
    ensures
        exists|nonce: u64, fires: u8, turns: Seq<DrainTurn>| #[trigger]
            is_drained(host, setup, nonce, first, fires, turns, after),
{
    let nonce: u64 = draw();
    let mut at = host;
    let mut drain = first;
    let mut turns_left: u64 = u64::MAX;
    let ghost mut turns: Seq<DrainTurn> = Seq::empty();
    let ghost mut calls: Seq<SenderDrainCall> = Seq::empty();
    proof {
        lemma_starts(setup, nonce, first);
    }
    while turns_left > 0
        invariant
            turns.len() + turns_left == u64::MAX,
            nonce::is_draw(nonce),
            drain.watchdog_deadline is Some ==> !drain.ice_connected,
            continues_as(setup, nonce, first, turns, calls, drain),
            trace::leads(host, calls, at),
        decreases turns_left,
    {
        turns_left = turns_left - 1;
        let ghost before = at;
        let (next, stop_flag, now, n) = look_on(at, &drain);
        at = next;
        let ghost silent = quiet_turn(stop_flag, now);
        let ghost look = look_calls(drain, n, silent);
        proof {
            trace::lemma_joined(host, calls, before, look, at);
        }
        let ghost looked = at;
        let mut fires: u8 = n;
        match drain.poll(stop_flag, now, &mut fires) {
            DrainPoll::Exit => {
                proof {
                    lemma_leaves(setup, nonce, first, turns, calls, drain, n, silent);
                    assert(is_drained(host, setup, nonce, first, n, turns.push(silent), at));
                }
                return at;
            },
            DrainPoll::PeerUnreachable => {
                let event = peer_unreachable_event();
                let ghost shown = seq![event@];
                let event = vec![event];
                assert(events::statuses(event@) =~= shown);
                let after = show_all(at, event);
                proof {
                    trace::lemma_joined(host, calls + look, looked, show_calls(shown), after);
                    lemma_leaves(setup, nonce, first, turns, calls, drain, n, silent);
                    assert(calls + (look + show_calls(shown)) =~= calls + look + show_calls(shown));
                    assert(is_drained(host, setup, nonce, first, n, turns.push(silent), after));
                }
                return after;
            },
            DrainPoll::EnterSupervisor(trigger) => {
                let ghost rest = setup.handover_calls(trigger, nonce, drain);
                let after = hand_over(at, &setup, trigger, nonce, &drain);
                proof {
                    trace::lemma_joined(host, calls + look, looked, rest, after);
                    lemma_leaves(setup, nonce, first, turns, calls, drain, n, silent);
                    assert(calls + (look + rest) =~= calls + look + rest);
                    assert(is_drained(host, setup, nonce, first, n, turns.push(silent), after));
                }
                return after;
            },
            DrainPoll::Receive => {},
        }
        let (next, later, received) = wait_on(at, &setup, &drain);
        at = next;
        let ghost turn = DrainTurn { stop_flag, now, waits_from: later, received };
        let ghost wait = setup.wait_calls(drain, turn);
        let ghost drained = drain;
        let ghost waited = at;
        let step = drain.receive(received, &mut fires);
        let ghost shown = show_calls(events::statuses(step.emit@));
        at = show_all(at, step.emit);
        let ghost more = calls + (look + wait + shown);
        proof {
            assert(look_calls(drained, n, turn) == look);
            trace::lemma_joined(host, calls + look, looked, wait, waited);
            trace::lemma_joined(host, calls + look + wait, waited, shown, at);
            assert(more =~= calls + look + wait + shown);
        }
        match step.next {
            DrainNext::Continue => {
                proof {
                    assert(setup.turn_calls(nonce, drained, 0, turn) =~= look + wait + shown);
                    lemma_goes_on(setup, nonce, first, turns, calls, drained, turn);
                    turns = turns.push(turn);
                    calls = more;
                }
            },
            DrainNext::Exit => {
                proof {
                    assert(setup.turn_calls(nonce, drained, 0, turn) =~= look + wait + shown);
                    lemma_leaves(setup, nonce, first, turns, calls, drained, 0, turn);
                    assert(is_drained(host, setup, nonce, first, 0, turns.push(turn), at));
                }
                return at;
            },
            DrainNext::EnterSupervisor(trigger) => {
                let ghost before = at;
                let ghost rest = setup.handover_calls(trigger, nonce, drain);
                let after = hand_over(at, &setup, trigger, nonce, &drain);
                proof {
                    trace::lemma_joined(host, more, before, rest, after);
                    assert(setup.turn_calls(nonce, drained, 0, turn) =~= look + wait + shown
                        + rest);
                    lemma_leaves(setup, nonce, first, turns, calls, drained, 0, turn);
                    assert(more + rest =~= calls + (look + wait + shown + rest));
                    assert(is_drained(host, setup, nonce, first, 0, turns.push(turn), after));
                }
                return after;
            },
        }
    }
    proof {
        reveal(continues_as);
        assert(turns + Seq::<DrainTurn>::empty() =~= turns);
        assert(setup.calls(nonce, first, 0, turns + Seq::<DrainTurn>::empty()) =~= calls);
        assert(is_drained(host, setup, nonce, first, 0, turns, at));
    }
    at
}

/// The longest-lived drain of a generation: watches for media if the generation comes out of a
/// rebuild, shows when media flows, and hands over to a supervisor when it stops.
pub fn run_sender_transport_event_drain_with_supervisor_custom_and_hooks<H: SenderDrainHost>(
    host: H,
    settings: SupervisionSettings,
    hooks: SenderCoordinatorHooks,
    media_watchdog_timeout: Option<u64>,
    media_watchdog_max_fires: Option<u8>,
    arm_media_watchdog: bool,
) -> (after: H)
    ensures
        exists|entry: H, now: u64, nonce: u64, fires: u8, turns: Seq<DrainTurn>|
            call_ensures(H::now, (host,), (entry, now)) && #[trigger] is_drained(
                entry,
                (DrainSetup { watched: true, settings, hooks }),
                nonce,
                SenderTransportDrain::entered(
                    now as int,
                    media_watchdog_timeout,
                    media_watchdog_max_fires,
                    arm_media_watchdog,
                ),
                fires,
                turns,
                after,
            ),
{
    let (host, now) = host.now();
    let drain = SenderTransportDrain::enter(
        now,
        media_watchdog_timeout,
        media_watchdog_max_fires,
        arm_media_watchdog,
    );
    drain_on(host, DrainSetup { watched: true, settings, hooks }, drain)
}

/// The same without a watchdog and without callbacks.
pub fn run_sender_transport_event_drain_with_supervisor_custom<H: SenderDrainHost>(
    host: H,
    settings: SupervisionSettings,
) -> (after: H)
    ensures
        exists|entry: H, now: u64, nonce: u64, fires: u8, turns: Seq<DrainTurn>|
            call_ensures(H::now, (host,), (entry, now)) && #[trigger] is_drained(
                entry,
                (DrainSetup { watched: true, settings, hooks: SenderCoordinatorHooks::none() }),
                nonce,
                SenderTransportDrain::entered(now as int, None, None, false),
                fires,
                turns,
                after,
            ),
{
    run_sender_transport_event_drain_with_supervisor_custom_and_hooks(
        host,
        settings,
        SenderCoordinatorHooks::noop(),
        None,
        None,
        false,
    )
}

/// A drain with the usual supervisor, without a watchdog and without callbacks, which counts
/// keyframe requests.
pub fn run_sender_transport_event_drain_with_supervisor<H: SenderDrainHost>(host: H) -> (after: H)
    ensures
        exists|nonce: u64, fires: u8, turns: Seq<DrainTurn>| #[trigger]
            is_drained(
                host,
                (DrainSetup {
                    watched: false,
                    settings: SupervisionSettings::usual(),
                    hooks: SenderCoordinatorHooks::none(),
                }),
                nonce,
                SenderTransportDrain::entered(0, None, None, false),
                fires,
                turns,
                after,
            ),
{
    let setup = DrainSetup {
        watched: false,
        settings: SupervisionSettings::production(),
        hooks: SenderCoordinatorHooks::noop(),
    };
    drain_on(host, setup, SenderTransportDrain::enter(0, None, None, false))
}

/// The calls of one turn of the drain without a supervisor.
pub open spec fn unsupervised_turn_calls(turn: Turn<TransportEvent>) -> Seq<SenderDrainCall> {
    let read = seq![SenderDrainCall::StopRequested(turn.stop_flag)];
    if turn.stop_flag {
        read
    } else {
        read.push(
            SenderDrainCall::Receive { wait_ns: DRAIN_WAIT_NS, received: turn.received },
        ) + if sender_drain::is_keyframe_request(turn.received) {
            seq![SenderDrainCall::CountKeyframeRequest]
        } else {
            Seq::empty()
        } + show_calls(sender_drain::shown_unsupervised(turn.received))
    }
}

/// The calls of the drain without a supervisor over a run of turns.
pub open spec fn unsupervised_calls(turns: Seq<Turn<TransportEvent>>) -> Seq<SenderDrainCall>
    decreases turns.len(),
{
    if turns.len() == 0 {
        Seq::empty()
    } else {
        unsupervised_calls(turns.drop_last()) + unsupervised_turn_calls(turns.last())
    }
}

/// The turns of a drain without a supervisor, from the first to the one in which it leaves.
pub open spec fn is_unsupervised_run(turns: Seq<Turn<TransportEvent>>) -> bool {
    turns::is_row(turns, |turn: Turn<TransportEvent>| sender_drain::leaves_unsupervised(turn))
}

/// A drain without a supervisor: a failure is shown, with a button to restart, and the drain goes
/// on until it is stopped or the transport is gone.
pub fn run_sender_transport_event_drain<H: SenderDrainHost>(host: H) -> (after: H)
    ensures
        exists|turns: Seq<Turn<TransportEvent>>|
            is_unsupervised_run(turns) && trace::leads(
                host,
                #[trigger] unsupervised_calls(turns),
                after,
            ),
{
    let mut at = host;
    let mut turns_left: u64 = u64::MAX;
    let ghost mut turns: Seq<Turn<TransportEvent>> = Seq::empty();
    while turns_left > 0
        invariant
            turns.len() + turns_left == u64::MAX,
            forall|i: int|
                0 <= i < turns.len() ==> !sender_drain::leaves_unsupervised(#[trigger] turns[i]),
            trace::leads(host, unsupervised_calls(turns), at),
        decreases turns_left,
    {
        turns_left = turns_left - 1;
        let ghost mut more = unsupervised_calls(turns);
        let ghost before = at;
        let (next, stop_flag) = at.stop_requested();
        at = next;
        proof {
            let call = SenderDrainCall::StopRequested(stop_flag);
            trace::lemma_called(host, more, before, call, at);
            more = more.push(call);
        }
        let wait: u64 = match drain_wait(stop_flag) {
            Some(wait) => wait,
            None => {
                proof {
                    let turn = Turn { stop_flag, received: Received::Timeout };
                    assert(turns.push(turn).drop_last() =~= turns);
                    assert(unsupervised_calls(turns.push(turn)) =~= more);
                    assert(is_unsupervised_run(turns.push(turn)));
                }
                return at;
            },
        };
        let ghost before = at;
        let (next, received) = at.receive(wait);
        at = next;
        proof {
            let call = SenderDrainCall::Receive { wait_ns: wait, received };
            trace::lemma_called(host, more, before, call, at);
            more = more.push(call);
        }
        if asks_for_keyframe(&received) {
            let ghost before = at;
            at = at.count_keyframe_request();
            proof {
                let call = SenderDrainCall::CountKeyframeRequest;
                trace::lemma_called(host, more, before, call, at);
                more = more.push(call);
            }
        }
        let step = unsupervised_transport_event(&received);
        let ghost shown = events::statuses(step.emit@);
        let ghost before = at;
        at = show_all(at, step.emit);
        proof {
            trace::lemma_joined(host, more, before, show_calls(shown), at);
            let turn = Turn { stop_flag, received };
            assert(turns.push(turn).drop_last() =~= turns);
            assert(unsupervised_calls(turns.push(turn)) =~= more + show_calls(shown));
            turns = turns.push(turn);
        }
        match step.next {
            DrainNext::Continue => {},
            _ => {
                assert(is_unsupervised_run(turns));
                return at;
            },
        }
    }
    assert(is_unsupervised_run(turns));
    at
}

/// Each call of the drain goes to the method of the host that it is named after, with these arguments
/// and this answer.
pub proof fn law_calls_reach_the_host<H: SenderDrainHost>(
    call: SenderDrainCall,
    before: H,
    after: H,
)
    requires
        HostCall::<H>::made(call, before, after),
    ensures
        call matches SenderDrainCall::StopRequested(stop) ==> call_ensures(
            H::stop_requested,
            (before,),
            (after, stop),
        ),
        call matches SenderDrainCall::Now(t) ==> call_ensures(H::now, (before,), (after, t)),
        call matches SenderDrainCall::Receive { wait_ns, received } ==> call_ensures(
            H::receive,
            (before, wait_ns),
            (after, received),
        ),
        call matches SenderDrainCall::Show(status) ==> (exists|event: SenderStatusEvent|
            event@ == status && #[trigger] call_ensures(H::show, (before, event), after)),
        call matches SenderDrainCall::CountFire { before: n } ==> call_ensures(
            H::count_fire,
            (before,),
            (after, n),
        ),
        call matches SenderDrainCall::ClearFires ==> call_ensures(H::clear_fires, (before,), after),
        call matches SenderDrainCall::CountKeyframeRequest ==> call_ensures(
            H::count_keyframe_request,
            (before,),
            after,
        ),
        call matches SenderDrainCall::Supervise(start) ==> supervision::is_supervised(before, start, after),
{
}

/// What a supervised drain does, turn by turn. It looks at its stop flag and leaves if that is up. It
/// reads the clock; if its watchdog's time has come, that is counted, and either the peer is shown as
/// unreachable or the failure is handed over, and the drain leaves. Otherwise it reads the clock
/// again and waits. A connection ends the run of fires, where there is a watchdog, and is shown; a
/// keyframe request is counted, where there is none; a failure is handed over under its own name,
/// with the nonce, the settings and the callbacks of this drain, and with the record of whether it
/// ever connected, for which a drain without a watchdog vouches. After a failure, and once the
/// transport is gone, there is nothing more; otherwise the next turn follows.
pub proof fn law_what_a_turn_does(
    setup: DrainSetup,
    nonce: u64,
    drain: SenderTransportDrain,
    fires: u8,
    turns: Seq<DrainTurn>,
)
    requires
        turns.len() > 0,
    ensures
        ({
            let calls = setup.calls(nonce, drain, fires, turns);
            let turn = turns[0];
            let rest = turns.drop_first();
            let looked = seq![
                SenderDrainCall::StopRequested(false),
                SenderDrainCall::Now(turn.now),
            ];
            let waited = looked + seq![
                SenderDrainCall::Now(turn.waits_from),
                SenderDrainCall::Receive {
                    wait_ns: drain.wait_at(turn.waits_from),
                    received: turn.received,
                },
            ];
            let connected = drain.ice_connected || !setup.watched;
            let fired = drain.watchdog_deadline is Some && turn.now >= drain.watchdog_deadline->0;
            &&& turn.stop_flag ==> calls == seq![SenderDrainCall::StopRequested(true)]
            &&& !turn.stop_flag && fired ==> calls == looked + seq![
                SenderDrainCall::CountFire { before: fires },
                if drain.max_fires is Some && (fires + 1) % 256 >= drain.max_fires->0 {
                    SenderDrainCall::Show(SenderStatus::Dead { reason: "peer_unreachable"@ })
                } else {
                    SenderDrainCall::Supervise(
                        SupervisionStart {
                            trigger: ReconnectTrigger::IceFailed,
                            session_nonce: nonce,
                            settings: setup.settings,
                            hooks: setup.hooks,
                            ice_connected: connected,
                        },
                    )
                },
            ]
            &&& !turn.stop_flag && !fired ==> calls == waited + (match turn.received {
                Received::Event(TransportEvent::IceConnected) => (if setup.watched {
                    seq![SenderDrainCall::ClearFires]
                } else {
                    Seq::empty()
                }) + seq![
                    SenderDrainCall::Show(SenderStatus::Streaming),
                    SenderDrainCall::Show(SenderStatus::Button { label: "Stop streaming"@ }),
                ] + setup.calls(
                    nonce,
                    SenderTransportDrain {
                        ice_connected: true,
                        watchdog_deadline: None,
                        max_fires: drain.max_fires,
                    },
                    0,
                    rest,
                ),
                Received::Event(TransportEvent::IceFailed) => seq![
                    SenderDrainCall::Supervise(
                        SupervisionStart {
                            trigger: ReconnectTrigger::IceFailed,
                            session_nonce: nonce,
                            settings: setup.settings,
                            hooks: setup.hooks,
                            ice_connected: connected,
                        },
                    ),
                ],
                Received::Event(TransportEvent::ConnectionLost { reason }) => seq![
                    SenderDrainCall::Supervise(
                        SupervisionStart {
                            trigger: ReconnectTrigger::ConnectionLost { reason },
                            session_nonce: nonce,
                            settings: setup.settings,
                            hooks: setup.hooks,
                            ice_connected: connected,
                        },
                    ),
                ],
                Received::Event(TransportEvent::KeyframeRequested) => (if setup.watched {
                    Seq::empty()
                } else {
                    seq![SenderDrainCall::CountKeyframeRequest]
                }) + setup.calls(nonce, drain, fires, rest),
                Received::Event(TransportEvent::Other) => setup.calls(nonce, drain, fires, rest),
                Received::Timeout => setup.calls(nonce, drain, fires, rest),
                Received::Disconnected => Seq::empty(),
            })
        }),
{
    let calls = setup.calls(nonce, drain, fires, turns);
    let turn = turns[0];
    let rest = turns.drop_first();
    let looked = seq![SenderDrainCall::StopRequested(false), SenderDrainCall::Now(turn.now)];
    let waited = looked + seq![
        SenderDrainCall::Now(turn.waits_from),
        SenderDrainCall::Receive {
            wait_ns: drain.wait_at(turn.waits_from),
            received: turn.received,
        },
    ];
    if turn.stop_flag {
        assert(calls =~= seq![SenderDrainCall::StopRequested(true)]);
    } else if drain.expired(turn.now) {
        assert(look_calls(drain, fires, turn) =~= looked.push(
            SenderDrainCall::CountFire { before: fires },
        ));
        let shown = seq![sender_drain::unreachable_status()];
        assert(show_calls(shown) =~= seq![SenderDrainCall::Show(shown[0])]);
    } else {
        assert(look_calls(drain, fires, turn) =~= looked);
        assert(looked + setup.wait_calls(drain, turn) =~= waited + setup.count_calls(turn.received));
        let shown = sender_drain::shown_after(turn.received);
        if let Received::Event(TransportEvent::IceConnected) = turn.received {
            assert(show_calls(shown) =~= seq![
                SenderDrainCall::Show(SenderStatus::Streaming),
                SenderDrainCall::Show(SenderStatus::Button { label: "Stop streaming"@ }),
            ]);
        } else {
            assert(show_calls(shown) =~= Seq::empty());
        }
    }
}

/// One turn more of the drain without a supervisor: the stop flag is read, and while it is down, an
/// event is waited for, for half a second. A keyframe request is counted. A connection is shown, with
/// the button to stop, and a failure, with the button to restart.
pub proof fn law_what_a_turn_without_a_supervisor_does(
    turns: Seq<Turn<TransportEvent>>,
    turn: Turn<TransportEvent>,
)
    ensures
        unsupervised_calls(Seq::empty()) == Seq::<SenderDrainCall>::empty(),
        turn.stop_flag ==> unsupervised_calls(turns.push(turn)) == unsupervised_calls(turns)
            + seq![SenderDrainCall::StopRequested(true)],
        !turn.stop_flag ==> unsupervised_calls(turns.push(turn)) == unsupervised_calls(turns)
            + seq![
            SenderDrainCall::StopRequested(false),
            SenderDrainCall::Receive { wait_ns: 500_000_000, received: turn.received },
        ] + (match turn.received {
            Received::Event(TransportEvent::IceConnected) => seq![
                SenderDrainCall::Show(SenderStatus::Streaming),
                SenderDrainCall::Show(SenderStatus::Button { label: "Stop streaming"@ }),
            ],
            Received::Event(TransportEvent::IceFailed) => seq![
                SenderDrainCall::Show(SenderStatus::PeerLost),
                SenderDrainCall::Show(SenderStatus::Button { label: "Restart"@ }),
            ],
            Received::Event(TransportEvent::ConnectionLost { .. }) => seq![
                SenderDrainCall::Show(SenderStatus::PeerLost),
                SenderDrainCall::Show(SenderStatus::Button { label: "Restart"@ }),
            ],
            Received::Event(TransportEvent::KeyframeRequested) => seq![
                SenderDrainCall::CountKeyframeRequest,
            ],
            _ => Seq::empty(),
        }),
{
    assert(turns.push(turn).drop_last() =~= turns);
    let shown = show_calls(sender_drain::shown_unsupervised(turn.received));
    match turn.received {
        Received::Event(TransportEvent::IceConnected) => {
            assert(shown =~= seq![
                SenderDrainCall::Show(SenderStatus::Streaming),
                SenderDrainCall::Show(SenderStatus::Button { label: "Stop streaming"@ }),
            ]);
        },
        Received::Event(TransportEvent::IceFailed) => {
            assert(shown =~= seq![
                SenderDrainCall::Show(SenderStatus::PeerLost),
                SenderDrainCall::Show(SenderStatus::Button { label: "Restart"@ }),
            ]);
        },
        Received::Event(TransportEvent::ConnectionLost { .. }) => {
            assert(shown =~= seq![
                SenderDrainCall::Show(SenderStatus::PeerLost),
                SenderDrainCall::Show(SenderStatus::Button { label: "Restart"@ }),
            ]);
        },
        _ => {
            assert(shown =~= Seq::empty());
        },
    }
}

/// A drain without a supervisor leaves in the first turn in which its stop flag is up or its transport
/// is gone, and in no other.
pub proof fn law_when_a_drain_without_a_supervisor_leaves(
    turns: Seq<Turn<TransportEvent>>,
    i: int,
)
    requires
        is_unsupervised_run(turns),
        0 <= i < turns.len(),
    ensures
        i < turns.len() - 1 ==> !turns[i].stop_flag && turns[i].received !is Disconnected,
        i == turns.len() - 1 < u64::MAX - 1 ==> turns[i].stop_flag
            || turns[i].received is Disconnected,
{
    let leaving = |turn: Turn<TransportEvent>| sender_drain::leaves_unsupervised(turn);
    assert(i < turns.len() - 1 ==> !leaving(turns[i]));
    assert(turns.len() < u64::MAX ==> leaving(turns.last()));
}

/// How the drains hand over when nothing was set: a supervisor with the usual settings, and no
/// callbacks. A drain that keeps no record of the connection says that there was one.
pub proof fn law_what_is_handed_over(
    setup: DrainSetup,
    trigger: ReconnectTrigger,
    nonce: u64,
    connected: bool,
)
    ensures
        ({
            let start = setup.start(trigger, nonce, connected);
            &&& start.trigger == trigger
            &&& start.session_nonce == nonce
            &&& start.settings == setup.settings
            &&& start.hooks == setup.hooks
            &&& start.ice_connected <==> connected || !setup.watched
        }),
{
}

/// Which drain each of the supervised ones is. The full one has a watchdog, armed if it is to be, with
/// the time and the limit it is given, and hands over with the settings and the callbacks it is given.
/// The custom one has a watchdog that is never armed, and no callbacks. The plain one has none, counts
/// keyframe requests, and hands over with the usual settings and no callbacks.
pub proof fn law_which_drain_runs<H: SenderDrainHost>(
    host: H,
    settings: SupervisionSettings,
    hooks: SenderCoordinatorHooks,
    timeout: Option<u64>,
    max_fires: Option<u8>,
    arm: bool,
    full: H,
    custom: H,
    plain: H,
)
    requires
        call_ensures(
            run_sender_transport_event_drain_with_supervisor_custom_and_hooks::<H>,
            (host, settings, hooks, timeout, max_fires, arm),
            full,
        ),
        call_ensures(
            run_sender_transport_event_drain_with_supervisor_custom::<H>,
            (host, settings),
            custom,
        ),
        call_ensures(run_sender_transport_event_drain_with_supervisor::<H>, (host,), plain),
    ensures
        exists|
            setup: DrainSetup,
            entry: H,
            drain: SenderTransportDrain,
            nonce: u64,
            fires: u8,
            turns: Seq<DrainTurn>,
        |
            {
                &&& #[trigger] is_drained(entry, setup, nonce, drain, fires, turns, full)
                &&& setup == (DrainSetup { watched: true, settings, hooks })
                &&& !drain.ice_connected && drain.max_fires == max_fires
                &&& !arm || timeout is None ==> drain.watchdog_deadline is None
                &&& exists|now: u64| #[trigger]
                    call_ensures(H::now, (host,), (entry, now)) && (arm && timeout is Some && now
                        + timeout->0 <= u64::MAX ==> drain.watchdog_deadline is Some
                        && drain.watchdog_deadline->0 == now + timeout->0)
            },
        exists|
            setup: DrainSetup,
            entry: H,
            drain: SenderTransportDrain,
            nonce: u64,
            fires: u8,
            turns: Seq<DrainTurn>,
        |
            {
                &&& #[trigger] is_drained(entry, setup, nonce, drain, fires, turns, custom)
                &&& setup.watched && setup.settings == settings
                &&& setup.hooks.initiate_rebuild is None && setup.hooks.initiate_mdns_reset is None
                &&& setup.hooks.publish_reconnect_ack is None
                &&& setup.hooks.publish_reconnect_request is None
                &&& !drain.ice_connected && drain.watchdog_deadline is None
            },
        exists|
            setup: DrainSetup,
            drain: SenderTransportDrain,
            nonce: u64,
            fires: u8,
            turns: Seq<DrainTurn>,
        |
            {
                &&& #[trigger] is_drained(host, setup, nonce, drain, fires, turns, plain)
                &&& !setup.watched
                &&& setup.settings.policy is None
                &&& setup.settings.ack_timeout_ns == 2_000_000_000
                &&& setup.settings.rebuild_timeout_ns == 15_000_000_000
                &&& setup.hooks.initiate_rebuild is None && setup.hooks.initiate_mdns_reset is None
                &&& setup.hooks.publish_reconnect_ack is None
                &&& setup.hooks.publish_reconnect_request is None
                &&& !drain.ice_connected && drain.watchdog_deadline is None
            },
{
}

/// A turn that brings a supervised drain nothing to leave for: no stop, no failure, a transport that
/// is there, and, where there is a watchdog, time left.
spec fn is_passed(drain: SenderTransportDrain, turn: DrainTurn) -> bool {
    &&& !turn.stop_flag
    &&& turn.received !is Disconnected
    &&& !(turn.received matches Received::Event(e) && (e is IceFailed || e is ConnectionLost))
    &&& drain.watchdog_deadline matches Some(deadline) ==> turn.now < deadline
}

/// A drain that only meets turns like these goes on.
proof fn lemma_passed_turns(drain: SenderTransportDrain, fires: u8, turns: Seq<DrainTurn>)
    requires
        forall|i: int| 0 <= i < turns.len() ==> is_passed(drain, #[trigger] turns[i]),
    ensures
        sender_drain::drain_run(drain, fires, turns).end is Running,
    decreases turns.len(),
{
    if turns.len() > 0 {
        let turn = turns[0];
        let rest = turns.drop_first();
        let next = drain.after(turn.received);
        assert(is_passed(drain, turn));
        assert forall|i: int| 0 <= i < rest.len() implies is_passed(next, #[trigger] rest[i]) by {
            assert(rest[i] == turns[i + 1]);
        }
        lemma_passed_turns(next, sender_drain::fires_after(turn.received, fires), rest);
    }
}

/// A supervised drain does not leave of itself: unless it has gone through as many turns as can be
/// counted, one of its turns brought a stop, a failure, the end of the transport, or the watchdog's
/// deadline. The nonce it may have handed over was drawn, and it made the calls of its turns.
pub proof fn law_why_a_supervised_drain_leaves<H: SenderDrainHost>(
    host: H,
    setup: DrainSetup,
    nonce: u64,
    drain: SenderTransportDrain,
    fires: u8,
    turns: Seq<DrainTurn>,
    after: H,
)
    requires
        is_drained(host, setup, nonce, drain, fires, turns, after),
    ensures
        nonce::is_draw(nonce),
        trace::leads(host, setup.calls(nonce, drain, fires, turns), after),
        turns.len() == u64::MAX || exists|i: int|
            0 <= i < turns.len() && ((#[trigger] turns[i]).stop_flag
                || turns[i].received is Disconnected || (turns[i].received matches Received::Event(e)
                && (e is IceFailed || e is ConnectionLost)) || (drain.watchdog_deadline is Some
                && turns[i].now >= drain.watchdog_deadline->0)),
{
    if turns.len() != u64::MAX {
        if forall|i: int| 0 <= i < turns.len() ==> is_passed(drain, #[trigger] turns[i]) {
            lemma_passed_turns(drain, fires, turns);
        } else {
            let i = choose|i: int| 0 <= i < turns.len() && !is_passed(drain, #[trigger] turns[i]);
            assert(turns[i].stop_flag || turns[i].received is Disconnected || (
            turns[i].received matches Received::Event(e) && (e is IceFailed || e is ConnectionLost))
                || (drain.watchdog_deadline is Some && turns[i].now
                >= drain.watchdog_deadline->0));
        }
    }
}

} // verus!
