//! The loop that drains the sender's transport events, one turn at a time.
//!
//! The surrounding program owns the threads, the channels and the clock. Each turn it asks what to
//! do next, does it, and hands back what came of it. Times are nanoseconds on one monotonic clock.
use crate::channel;
use crate::channel::next_count;
use crate::events;
use crate::events::{
    Received, ReconnectTrigger, SenderStatus, SenderStatusEvent, TransportEvent,
};
use crate::turns::Turn;
use vstd::prelude::*;

verus! {

/// Longest wait for an event.
pub const DRAIN_WAIT_NS: u64 = 500_000_000;

/// Shortest wait for an event while the media watchdog is armed.
pub const MIN_WATCHDOG_WAIT_NS: u64 = 50_000_000;

/// How long a rebuilt generation may take to connect.
pub const MEDIA_WATCHDOG_TIMEOUT_NS: u64 = 6_000_000_000;

/// How often the media watchdog may fire in a row before the peer counts as unreachable.
pub const MEDIA_WATCHDOG_MAX_FIRES: u8 = 10;

/// Counters of the sender that the diagnostics show.
#[derive(Debug, Clone, Copy, PartialEq, Eq, Structural, Default)]
pub struct SenderCounters {
    pub dropped_frames_encoder: u64,
    pub dropped_frames_transport: u64,
    pub keyframe_requests_received: u64,
}

impl SenderCounters {
    /// All counters at zero.
    pub fn zero() -> (c: Self)
        ensures
            c.dropped_frames_encoder == 0,
            c.dropped_frames_transport == 0,
            c.keyframe_requests_received == 0,
    {
        SenderCounters {
            dropped_frames_encoder: 0,
            dropped_frames_transport: 0,
            keyframe_requests_received: 0,
        }
    }

    /// The counters after one more keyframe request.
    pub open spec fn with_keyframe_request(self) -> SenderCounters {
        SenderCounters {
            keyframe_requests_received: channel::count_up(self.keyframe_requests_received),
            ..self
        }
    }

    /// Counts a keyframe request, and says how many there have been.
    pub fn count_keyframe_request(&mut self) -> (n: u64)
        ensures
            *final(self) == old(self).with_keyframe_request(),
            n == final(self).keyframe_requests_received,
    {
        self.keyframe_requests_received = next_count(self.keyframe_requests_received);
        self.keyframe_requests_received
    }
}

/// The steady-state transport drain of one sender generation.
#[derive(Debug, Clone, Copy, PartialEq, Eq, Structural)]
pub struct SenderTransportDrain {
    /// ICE has connected at some time in this generation.
    pub ice_connected: bool,
    /// When the media watchdog fires, if it is armed.
    pub watchdog_deadline: Option<u64>,
    /// How many fires in a row end the episode; without a limit it goes on for ever.
    pub max_fires: Option<u8>,
}

/// What a drain does before it waits.
#[derive(Debug)]
pub enum DrainPoll {
    /// Leave the loop.
    Exit,
    /// Show that the peer is unreachable, then leave the loop.
    PeerUnreachable,
    /// Hand over to the supervisor coordinator, then leave the loop.
    EnterSupervisor(ReconnectTrigger),
    /// Wait for an event.
    Receive,
}

/// What a drain does after an event.
#[derive(Debug)]
pub enum DrainNext {
    Continue,
    Exit,
    /// Hand over to the supervisor coordinator, then leave the loop.
    EnterSupervisor(ReconnectTrigger),
}

/// The answer to one event: what to show, in order, and how to go on.
#[derive(Debug)]
pub struct DrainStep {
    pub emit: Vec<SenderStatusEvent>,
    pub next: DrainNext,
}

/// What the frontend shows once media can flow.
pub open spec fn connected_statuses() -> Seq<SenderStatus> {
    seq![SenderStatus::Streaming, SenderStatus::Button { label: "Stop streaming"@ }]
}

/// What the frontend shows when the connection is gone and nothing tries to restore it.
pub open spec fn lost_statuses() -> Seq<SenderStatus> {
    seq![SenderStatus::PeerLost, SenderStatus::Button { label: "Restart"@ }]
}

/// The last word on a peer that never came back.
pub open spec fn unreachable_status() -> SenderStatus {
    SenderStatus::Dead { reason: "peer_unreachable"@ }
}

/// `n`, but at least `low` and at most `high`.
pub open spec fn between(n: int, low: int, high: int) -> int {
    if n < low {
        low
    } else if n > high {
        high
    } else {
        n
    }
}

impl SenderTransportDrain {
    /// A drain that starts at `now`. Only a generation that comes out of a rebuild arms the
    /// watchdog; a cold connect may wait as long as it takes. A deadline that the clock never
    /// reaches is none.
    pub open spec fn entered(
        now: int,
        timeout: Option<u64>,
        max_fires: Option<u8>,
        arm: bool,
    ) -> SenderTransportDrain {
        SenderTransportDrain {
            ice_connected: false,
            watchdog_deadline: match timeout {
                Some(t) if arm && now + t <= u64::MAX => Some((now + t) as u64),
                _ => None,
            },
            max_fires,
        }
    }

    /// The watchdog is armed and its time is up.
    pub open spec fn expired(self, now: u64) -> bool {
        self.watchdog_deadline matches Some(deadline) && now >= deadline
    }

    /// What happens before a wait, and the fire count after it.
    pub open spec fn polled(self, stop_flag: bool, now: u64, fires: u8) -> (DrainPoll, u8) {
        if stop_flag {
            (DrainPoll::Exit, fires)
        } else if self.expired(now) {
            let n = one_more(fires);
            if self.max_fires matches Some(cap) && n >= cap {
                (DrainPoll::PeerUnreachable, n)
            } else {
                (DrainPoll::EnterSupervisor(ReconnectTrigger::IceFailed), n)
            }
        } else {
            (DrainPoll::Receive, fires)
        }
    }

    /// How long the drain waits for its next event.
    pub open spec fn wait_at(self, now: u64) -> u64 {
        match self.watchdog_deadline {
            Some(deadline) => between(
                deadline - now,
                MIN_WATCHDOG_WAIT_NS as int,
                DRAIN_WAIT_NS as int,
            ) as u64,
            None => DRAIN_WAIT_NS,
        }
    }

    /// The drain after an event.
    pub open spec fn after(self, received: Received<TransportEvent>) -> SenderTransportDrain {
        match received {
            Received::Event(TransportEvent::IceConnected) => SenderTransportDrain {
                ice_connected: true,
                watchdog_deadline: None,
                max_fires: self.max_fires,
            },
            _ => self,
        }
    }
}

/// The fire count after one more fire. The counter wraps around.
pub open spec fn one_more(fires: u8) -> u8 {
    if fires == u8::MAX {
        0
    } else {
        (fires + 1) as u8
    }
}

/// The fire count after an event: a connection ends the run of fires.
pub open spec fn fires_after(received: Received<TransportEvent>, fires: u8) -> u8 {
    match received {
        Received::Event(TransportEvent::IceConnected) => 0,
        _ => fires,
    }
}

/// How a supervised drain goes on after an event.
pub open spec fn next_after(received: Received<TransportEvent>) -> DrainNext {
    match received {
        Received::Event(TransportEvent::IceFailed) => DrainNext::EnterSupervisor(
            ReconnectTrigger::IceFailed,
        ),
        Received::Event(TransportEvent::ConnectionLost { reason }) => DrainNext::EnterSupervisor(
            ReconnectTrigger::ConnectionLost { reason },
        ),
        Received::Disconnected => DrainNext::Exit,
        _ => DrainNext::Continue,
    }
}

/// What a supervised drain shows after an event.
pub open spec fn shown_after(received: Received<TransportEvent>) -> Seq<SenderStatus> {
    match received {
        Received::Event(TransportEvent::IceConnected) => connected_statuses(),
        _ => Seq::empty(),
    }
}

/// The events shown once media can flow.
fn connected_events() -> (r: Vec<SenderStatusEvent>)
    ensures
        events::statuses(r@) == connected_statuses(),
{
    let r = vec![
        SenderStatusEvent::Streaming,
        SenderStatusEvent::Button { label: "Stop streaming".to_string() },
    ];
    assert(events::statuses(r@) =~= connected_statuses());
    r
}

/// The event that reports a peer as unreachable.
pub fn peer_unreachable_event() -> (r: SenderStatusEvent)
    ensures
        r@ == unreachable_status(),
{
    SenderStatusEvent::Dead { reason: "peer_unreachable".to_string() }
}

impl SenderTransportDrain {
    /// Starts the drain at `now`.
    pub fn enter(now: u64, timeout: Option<u64>, max_fires: Option<u8>, arm: bool) -> (d: Self)
        ensures
            d == SenderTransportDrain::entered(now as int, timeout, max_fires, arm),
    {
        let watchdog_deadline: Option<u64> = if arm {
            match timeout {
                Some(t) => now.checked_add(t),
                None => None,
            }
        } else {
            None
        };
        SenderTransportDrain { ice_connected: false, watchdog_deadline, max_fires }
    }

    /// Is the watchdog armed, and is its time up?
    pub fn is_due(&self, now: u64) -> (r: bool)
        ensures
            r == self.expired(now),
    {
        match self.watchdog_deadline {
            Some(deadline) => now >= deadline,
            None => false,
        }
    }

    /// Decides what to do before the next wait. `fires` counts the watchdog's fires in a row,
    /// over all generations of one connection episode.
    pub fn poll(&self, stop_flag: bool, now: u64, fires: &mut u8) -> (r: DrainPoll)
        ensures
            (r, *final(fires)) == self.polled(stop_flag, now, *old(fires)),
    {
        if stop_flag {
            return DrainPoll::Exit;
        }
        if let Some(deadline) = self.watchdog_deadline {
            if now >= deadline {
                *fires = fires.wrapping_add(1);
                if let Some(cap) = self.max_fires {
                    if *fires >= cap {
                        return DrainPoll::PeerUnreachable;
                    }
                }
                return DrainPoll::EnterSupervisor(ReconnectTrigger::IceFailed);
            }
        }
        DrainPoll::Receive
    }

    /// How long to wait for the next event.
    pub fn wait_ns(&self, now: u64) -> (r: u64)
        ensures
            r == self.wait_at(now),
    {
        match self.watchdog_deadline {
            Some(deadline) => {
                let left: u64 = deadline.saturating_sub(now);
                if left > DRAIN_WAIT_NS {
                    DRAIN_WAIT_NS
                } else if left < MIN_WATCHDOG_WAIT_NS {
                    MIN_WATCHDOG_WAIT_NS
                } else {
                    left
                }
            },
            None => DRAIN_WAIT_NS,
        }
    }

    /// Takes the outcome of a wait.
    pub fn receive(&mut self, received: Received<TransportEvent>, fires: &mut u8) -> (r: DrainStep)
        ensures
            *final(self) == old(self).after(received),
            *final(fires) == fires_after(received, *old(fires)),
            r.next == next_after(received),
            events::statuses(r.emit@) == shown_after(received),
    {
        match received {
            Received::Event(TransportEvent::IceConnected) => {
                self.ice_connected = true;
                self.watchdog_deadline = None;
                *fires = 0;
                DrainStep { emit: connected_events(), next: DrainNext::Continue }
            },
            Received::Event(TransportEvent::IceFailed) => quiet(
                DrainNext::EnterSupervisor(ReconnectTrigger::IceFailed),
            ),
            Received::Event(TransportEvent::ConnectionLost { reason }) => quiet(
                DrainNext::EnterSupervisor(ReconnectTrigger::ConnectionLost { reason }),
            ),
            Received::Event(_) => quiet(DrainNext::Continue),
            Received::Timeout => quiet(DrainNext::Continue),
            Received::Disconnected => quiet(DrainNext::Exit),
        }
    }
}

/// A step that shows nothing.
fn quiet(next: DrainNext) -> (r: DrainStep)
    ensures
        r.next == next,
        events::statuses(r.emit@) == Seq::<SenderStatus>::empty(),
{
    let emit: Vec<SenderStatusEvent> = Vec::new();
    assert(events::statuses(emit@) =~= Seq::<SenderStatus>::empty());
    DrainStep { emit, next }
}

/// The peer asks for a keyframe.
pub open spec fn is_keyframe_request(received: Received<TransportEvent>) -> bool {
    received == Received::<TransportEvent>::Event(TransportEvent::KeyframeRequested)
}

/// Has ICE connected?
pub fn is_connection(received: &Received<TransportEvent>) -> (r: bool)
    ensures
        r == (*received == Received::<TransportEvent>::Event(TransportEvent::IceConnected)),
{
    match received {
        Received::Event(TransportEvent::IceConnected) => true,
        _ => false,
    }
}

/// Does the peer ask for a keyframe?
pub fn asks_for_keyframe(received: &Received<TransportEvent>) -> (r: bool)
    ensures
        r == is_keyframe_request(*received),
{
    match received {
        Received::Event(TransportEvent::KeyframeRequested) => true,
        _ => false,
    }
}

/// What a drain without a supervisor shows after an event.
pub open spec fn shown_unsupervised(received: Received<TransportEvent>) -> Seq<SenderStatus> {
    match received {
        Received::Event(TransportEvent::IceConnected) => connected_statuses(),
        Received::Event(TransportEvent::IceFailed) => lost_statuses(),
        Received::Event(TransportEvent::ConnectionLost { .. }) => lost_statuses(),
        _ => Seq::empty(),
    }
}

/// One event of the drain without a supervisor: a failure is shown, with a button to restart, and
/// the drain goes on.
pub fn unsupervised_transport_event(received: &Received<TransportEvent>) -> (r: DrainStep)
    ensures
        r.next == (if *received is Disconnected {
            DrainNext::Exit
        } else {
            DrainNext::Continue
        }),
        events::statuses(r.emit@) == shown_unsupervised(*received),
{
    match received {
        Received::Event(TransportEvent::IceConnected) => DrainStep {
            emit: connected_events(),
            next: DrainNext::Continue,
        },
        Received::Event(TransportEvent::IceFailed) => DrainStep {
            emit: lost_events(),
            next: DrainNext::Continue,
        },
        Received::Event(TransportEvent::ConnectionLost { .. }) => DrainStep {
            emit: lost_events(),
            next: DrainNext::Continue,
        },
        Received::Event(TransportEvent::KeyframeRequested) => quiet(DrainNext::Continue),
        Received::Event(TransportEvent::Other) => quiet(DrainNext::Continue),
        Received::Timeout => quiet(DrainNext::Continue),
        Received::Disconnected => quiet(DrainNext::Exit),
    }
}

/// The events shown when the connection is gone and nothing tries to restore it.
fn lost_events() -> (r: Vec<SenderStatusEvent>)
    ensures
        events::statuses(r@) == lost_statuses(),
{
    let r = vec![
        SenderStatusEvent::PeerLost,
        SenderStatusEvent::Button { label: "Restart".to_string() },
    ];
    assert(events::statuses(r@) =~= lost_statuses());
    r
}

/// How long a drain without a watchdog waits for its next event; `None` once it is to stop.
pub fn drain_wait(stop_flag: bool) -> (r: Option<u64>)
    ensures
        r == (if stop_flag {
            None
        } else {
            Some(DRAIN_WAIT_NS)
        }),
{
    if stop_flag {
        None
    } else {
        Some(DRAIN_WAIT_NS)
    }
}

/// A drain leaves when it is stopped or its channel is gone.
pub open spec fn leaves_unsupervised(turn: Turn<TransportEvent>) -> bool {
    turn.stop_flag || turn.received is Disconnected
}

/// One turn of the transport drain: what it reads before the wait, and what the wait brings.
pub struct DrainTurn {
    pub stop_flag: bool,
    pub now: u64,
    /// When it starts to wait, if it does.
    pub waits_from: u64,
    pub received: Received<TransportEvent>,
}

/// How a drain ended.
pub enum DrainEnd {
    /// It has not: there are no more turns.
    Running,
    Exited,
    Unreachable,
    Supervised(ReconnectTrigger),
}

/// What a drain did over a run of turns.
#[verifier::ext_equal]
pub struct DrainRun {
    pub end: DrainEnd,
    pub fires: u8,
    pub shown: Seq<SenderStatus>,
    /// ICE had connected by then.
    pub connected: bool,
}

/// The drain over a run of turns, up to the one in which it leaves its loop.
pub open spec fn drain_run(drain: SenderTransportDrain, fires: u8, turns: Seq<DrainTurn>) -> DrainRun
    decreases turns.len(),
{
    if turns.len() == 0 {
        DrainRun {
            end: DrainEnd::Running,
            fires,
            shown: Seq::empty(),
            connected: drain.ice_connected,
        }
    } else {
        let turn = turns[0];
        let (poll, n) = drain.polled(turn.stop_flag, turn.now, fires);
        let connected = drain.ice_connected;
        match poll {
            DrainPoll::Exit => DrainRun {
                end: DrainEnd::Exited,
                fires: n,
                shown: Seq::empty(),
                connected,
            },
            DrainPoll::PeerUnreachable => DrainRun {
                end: DrainEnd::Unreachable,
                fires: n,
                shown: seq![unreachable_status()],
                connected,
            },
            DrainPoll::EnterSupervisor(trigger) => DrainRun {
                end: DrainEnd::Supervised(trigger),
                fires: n,
                shown: Seq::empty(),
                connected,
            },
            DrainPoll::Receive => {
                let m = fires_after(turn.received, n);
                let shown = shown_after(turn.received);
                match next_after(turn.received) {
                    DrainNext::Exit => DrainRun {
                        end: DrainEnd::Exited,
                        fires: m,
                        shown,
                        connected,
                    },
                    DrainNext::EnterSupervisor(trigger) => DrainRun {
                        end: DrainEnd::Supervised(trigger),
                        fires: m,
                        shown,
                        connected,
                    },
                    DrainNext::Continue => after_showing(
                        shown,
                        drain_run(drain.after(turn.received), m, turns.drop_first()),
                    ),
                }
            },
        }
    }
}

/// A run before which something was shown.
pub open spec fn after_showing(shown: Seq<SenderStatus>, rest: DrainRun) -> DrainRun {
    DrainRun { shown: shown + rest.shown, ..rest }
}

/// A drain whose watchdog is not armed (a cold connect, or one that has connected) never declares
/// the peer unreachable and never counts a fire. It goes to the supervisor only on a failure that
/// the transport reported.
pub proof fn law_unarmed_drain_never_fires(
    drain: SenderTransportDrain,
    fires: u8,
    turns: Seq<DrainTurn>,
)
    requires
        drain.watchdog_deadline is None,
    ensures
        drain_run(drain, fires, turns).end !is Unreachable,
        !drain_run(drain, fires, turns).shown.contains(unreachable_status()),
        drain_run(drain, fires, turns).fires == fires || drain_run(drain, fires, turns).fires == 0,
        drain_run(drain, fires, turns).end matches DrainEnd::Supervised(trigger) ==> exists|i: int|
            0 <= i < turns.len() && next_after(#[trigger] turns[i].received)
                == DrainNext::EnterSupervisor(trigger),
    decreases turns.len(),
{
    if turns.len() > 0 {
        let turn = turns[0];
        let m = fires_after(turn.received, fires);
        let tail = turns.drop_first();
        let run = drain_run(drain, fires, turns);
        if !turn.stop_flag {
            let rest = drain_run(drain.after(turn.received), m, tail);
            law_unarmed_drain_never_fires(drain.after(turn.received), m, tail);
            assert(!shown_after(turn.received).contains(unreachable_status()));
            if next_after(turn.received) is Continue {
                assert forall|k: int| 0 <= k < run.shown.len() implies run.shown[k]
                    != unreachable_status() by {
                    let head = shown_after(turn.received);
                    if k < head.len() {
                        assert(run.shown[k] == head[k]);
                    } else {
                        assert(run.shown[k] == rest.shown[k - head.len()]);
                        assert(rest.shown.contains(rest.shown[k - head.len()]));
                    }
                }
                if let DrainEnd::Supervised(trigger) = rest.end {
                    let i = choose|i: int|
                        0 <= i < tail.len() && next_after(#[trigger] tail[i].received)
                            == DrainNext::EnterSupervisor(trigger);
                    assert(turns[i + 1].received == tail[i].received);
                }
            } else {
                assert(next_after(turns[0].received) == next_after(turn.received));
            }
        }
    }
}

/// A drain shows the peer as unreachable at most once, as the last thing it shows, and exactly
/// when that is how it ends. It then has not handed over to the supervisor.
pub proof fn law_one_verdict(drain: SenderTransportDrain, fires: u8, turns: Seq<DrainTurn>)
    ensures
        ({
            let run = drain_run(drain, fires, turns);
            &&& run.end is Unreachable <==> run.shown.contains(unreachable_status())
            &&& forall|i: int|
                0 <= i < run.shown.len() && #[trigger] run.shown[i] == unreachable_status() ==> i
                    == run.shown.len() - 1
        }),
    decreases turns.len(),
{
    if turns.len() > 0 {
        let turn = turns[0];
        let (poll, n) = drain.polled(turn.stop_flag, turn.now, fires);
        let run = drain_run(drain, fires, turns);
        if poll is PeerUnreachable {
            assert(run.shown[0] == unreachable_status());
        }
        if poll is Receive && next_after(turn.received) is Continue {
            let m = fires_after(turn.received, n);
            let head = shown_after(turn.received);
            let rest = drain_run(drain.after(turn.received), m, turns.drop_first());
            law_one_verdict(drain.after(turn.received), m, turns.drop_first());
            if rest.shown.contains(unreachable_status()) {
                let i = choose|i: int|
                    0 <= i < rest.shown.len() && rest.shown[i] == unreachable_status();
                assert(run.shown[head.len() + i] == unreachable_status());
            }
            assert forall|i: int|
                0 <= i < run.shown.len() && #[trigger] run.shown[i]
                    == unreachable_status() implies i == run.shown.len() - 1
                && rest.shown.contains(unreachable_status()) by {
                if i < head.len() {
                    assert(run.shown[i] == head[i]);
                } else {
                    assert(rest.shown[i - head.len()] == run.shown[i]);
                }
            }
        }
    }
}

/// An event that leaves a supervised drain as it was.
pub open spec fn is_uneventful(received: Received<TransportEvent>) -> bool {
    match received {
        Received::Timeout => true,
        Received::Event(TransportEvent::KeyframeRequested) => true,
        Received::Event(TransportEvent::Other) => true,
        _ => false,
    }
}

/// One generation of the sender: its drain, and the turns the drain takes.
pub struct Generation {
    pub drain: SenderTransportDrain,
    pub turns: Seq<DrainTurn>,
}

/// The generation's watchdog is armed, nobody stops it, and nothing is heard of the peer until
/// the deadline has passed.
pub open spec fn is_absent_peer(g: Generation) -> bool {
    exists|k: int| #[trigger] is_silent_until(g, k)
}

/// Nothing is heard of the peer before turn `k`, the first that lies past the deadline.
pub open spec fn is_silent_until(g: Generation, k: int) -> bool {
    &&& 0 <= k < g.turns.len()
    &&& !g.turns[k].stop_flag
    &&& g.drain.expired(g.turns[k].now)
    &&& forall|i: int|
        0 <= i < k ==> !(#[trigger] g.turns[i]).stop_flag && !g.drain.expired(g.turns[i].now)
            && is_uneventful(g.turns[i].received)
}

/// How the watchdog's `n`th fire in a row ends a generation.
pub open spec fn verdict(n: int, max_fires: Option<u8>) -> DrainEnd {
    if max_fires matches Some(cap) && n >= cap {
        DrainEnd::Unreachable
    } else {
        DrainEnd::Supervised(ReconnectTrigger::IceFailed)
    }
}

/// A generation whose peer stays away fires its watchdog exactly once. Below the limit that
/// starts a new reconnect cycle; at the limit it ends the episode.
pub proof fn law_absent_peer_fires_once(g: Generation, fires: u8)
    requires
        is_absent_peer(g),
        fires < u8::MAX,
    ensures
        drain_run(g.drain, fires, g.turns).fires == fires + 1,
        drain_run(g.drain, fires, g.turns).end == verdict(fires + 1, g.drain.max_fires),
    decreases g.turns.len(),
{
    let k = choose|k: int| #[trigger] is_silent_until(g, k);
    if k > 0 {
        let turn = g.turns[0];
        assert(is_uneventful(turn.received));
        let rest = Generation { drain: g.drain, turns: g.turns.drop_first() };
        assert(is_silent_until(rest, k - 1)) by {
            assert forall|i: int| 0 <= i < k - 1 implies !(#[trigger] rest.turns[i]).stop_flag
                && !g.drain.expired(rest.turns[i].now) && is_uneventful(
                rest.turns[i].received,
            ) by {
                assert(rest.turns[i] == g.turns[i + 1]);
            }
        }
        law_absent_peer_fires_once(rest, fires);
    }
}

/// The transport connects at turn `k`, and nothing else happens before that, in time for the
/// deadline.
pub open spec fn connects_at(g: Generation, k: int) -> bool {
    &&& 0 <= k < g.turns.len()
    &&& g.turns[k].received == Received::<TransportEvent>::Event(TransportEvent::IceConnected)
    &&& forall|i: int|
        0 <= i <= k ==> !(#[trigger] g.turns[i]).stop_flag && !g.drain.expired(g.turns[i].now) && (i
            < k ==> is_uneventful(g.turns[i].received))
}

/// A generation that connects in time shows that media flows, ends the run of fires, and never
/// declares the peer unreachable, however long it lasts.
pub proof fn law_connection_ends_the_streak(g: Generation, fires: u8, k: int)
    requires
        connects_at(g, k),
    ensures
        drain_run(g.drain, fires, g.turns).fires == 0,
        drain_run(g.drain, fires, g.turns).end !is Unreachable,
        drain_run(g.drain, fires, g.turns).shown.len() >= 2,
        drain_run(g.drain, fires, g.turns).shown.take(2) == connected_statuses(),
    decreases k,
{
    let turn = g.turns[0];
    let tail = g.turns.drop_first();
    let run = drain_run(g.drain, fires, g.turns);
    if k == 0 {
        let rest = drain_run(g.drain.after(turn.received), 0, tail);
        law_unarmed_drain_never_fires(g.drain.after(turn.received), 0, tail);
        assert(run.shown == connected_statuses() + rest.shown);
        assert(run.shown.take(2) =~= connected_statuses());
    } else {
        let rest = Generation { drain: g.drain, turns: tail };
        assert(is_uneventful(turn.received));
        assert(connects_at(rest, k - 1)) by {
            assert forall|i: int| 0 <= i <= k - 1 implies !(#[trigger] rest.turns[i]).stop_flag
                && !g.drain.expired(rest.turns[i].now) && (i < k - 1 ==> is_uneventful(
                rest.turns[i].received,
            )) by {
                assert(rest.turns[i] == g.turns[i + 1]);
            }
        }
        law_connection_ends_the_streak(rest, fires, k - 1);
        assert(run.shown =~= drain_run(rest.drain, fires, rest.turns).shown);
    }
}

/// How each of a row of generations ends, with one fire count over all of them.
pub open spec fn episode(generations: Seq<Generation>, fires: u8) -> Seq<DrainEnd>
    decreases generations.len(),
{
    if generations.len() == 0 {
        Seq::empty()
    } else {
        let run = drain_run(generations[0].drain, fires, generations[0].turns);
        seq![run.end] + episode(generations.drop_first(), run.fires)
    }
}

/// An episode whose peer never comes back takes exactly as many generations as the limit allows:
/// each but the last starts a new reconnect cycle, and the last declares the peer unreachable.
pub proof fn law_absent_peer_terminates(generations: Seq<Generation>, fires: u8, cap: u8)
    requires
        fires + generations.len() == cap,
        forall|i: int|
            0 <= i < generations.len() ==> is_absent_peer(#[trigger] generations[i])
                && generations[i].drain.max_fires == Some(cap),
    ensures
        episode(generations, fires).len() == generations.len(),
        forall|i: int|
            0 <= i < generations.len() ==> #[trigger] episode(generations, fires)[i] == (if i
                == generations.len() - 1 {
                DrainEnd::Unreachable
            } else {
                DrainEnd::Supervised(ReconnectTrigger::IceFailed)
            }),
    decreases generations.len(),
{
    if generations.len() > 0 {
        assert(is_absent_peer(generations[0]));
        law_absent_peer_fires_once(generations[0], fires);
        let run = drain_run(generations[0].drain, fires, generations[0].turns);
        let tail = generations.drop_first();
        assert forall|i: int| 0 <= i < tail.len() implies is_absent_peer(#[trigger] tail[i])
            && tail[i].drain.max_fires == Some(cap) by {
            assert(tail[i] == generations[i + 1]);
        }
        law_absent_peer_terminates(tail, run.fires, cap);
        assert forall|i: int| 0 <= i < generations.len() implies #[trigger] episode(
            generations,
            fires,
        )[i] == (if i == generations.len() - 1 {
            DrainEnd::Unreachable
        } else {
            DrainEnd::Supervised(ReconnectTrigger::IceFailed)
        }) by {
            if i > 0 {
                assert(episode(generations, fires)[i] == episode(tail, run.fires)[i - 1]);
            }
        }
    }
}

/// A drain starts unconnected. Its watchdog is armed only if it is to be and has a time to wait: then
/// it fires that long after the start, unless the clock never gets there.
pub proof fn law_how_a_drain_starts(now: u64, timeout: u64, max_fires: Option<u8>, arm: bool)
    ensures
        SenderTransportDrain::entered(now as int, Some(timeout), max_fires, arm) == (
        SenderTransportDrain {
            ice_connected: false,
            watchdog_deadline: if arm && now + timeout <= u64::MAX {
                Some((now + timeout) as u64)
            } else {
                None
            },
            max_fires,
        }),
        SenderTransportDrain::entered(now as int, None, max_fires, arm) == (SenderTransportDrain {
            ice_connected: false,
            watchdog_deadline: None,
            max_fires,
        }),
{
}

/// What the watchdog says before a wait. A stop comes first. A deadline that has come counts one
/// fire, in a counter of eight bits; at the limit the peer is unreachable, and below it, or without
/// one, there is a new reconnect cycle. Otherwise the drain waits, and nothing is counted.
pub proof fn law_what_the_watchdog_says(
    drain: SenderTransportDrain,
    stop_flag: bool,
    now: u64,
    fires: u8,
)
    ensures
        stop_flag ==> drain.polled(stop_flag, now, fires) == (DrainPoll::Exit, fires),
        !stop_flag && (drain.watchdog_deadline is None || now < drain.watchdog_deadline->0)
            ==> drain.polled(stop_flag, now, fires) == (DrainPoll::Receive, fires),
        !stop_flag && drain.watchdog_deadline is Some && now >= drain.watchdog_deadline->0 ==> {
            let (poll, n) = drain.polled(stop_flag, now, fires);
            &&& n == (fires + 1) % 256
            &&& drain.max_fires is Some && n >= drain.max_fires->0 ==> poll is PeerUnreachable
            &&& drain.max_fires is None || n < drain.max_fires->0 ==> poll
                == DrainPoll::EnterSupervisor(ReconnectTrigger::IceFailed)
        },
        drain.expired(now) <==> drain.watchdog_deadline is Some && now
            >= drain.watchdog_deadline->0,
{
}

/// How long a drain waits: half a second; with a watchdog, up to its deadline, but no longer than
/// that and no shorter than a twentieth of a second.
pub proof fn law_how_long_a_drain_waits(drain: SenderTransportDrain, now: u64)
    ensures
        drain.watchdog_deadline is None ==> drain.wait_at(now) == 500_000_000,
        drain.watchdog_deadline matches Some(deadline) ==> {
            &&& deadline - now <= 50_000_000 ==> drain.wait_at(now) == 50_000_000
            &&& deadline - now >= 500_000_000 ==> drain.wait_at(now) == 500_000_000
            &&& 50_000_000 < deadline - now < 500_000_000 ==> drain.wait_at(now) == deadline - now
        },
{
}

/// What an event means to a supervised drain. A connection is shown, with the button to stop; it
/// disarms the watchdog and ends the run of fires. A failure is handed over under its own name, with
/// its reason. A transport that is gone ends the drain. Nothing else changes anything.
pub proof fn law_what_an_event_means(
    drain: SenderTransportDrain,
    received: Received<TransportEvent>,
    fires: u8,
)
    ensures
        received matches Received::Event(TransportEvent::IceConnected) ==> {
            &&& drain.after(received) == (SenderTransportDrain {
                ice_connected: true,
                watchdog_deadline: None,
                max_fires: drain.max_fires,
            })
            &&& fires_after(received, fires) == 0
            &&& next_after(received) is Continue
            &&& shown_after(received) == seq![
                SenderStatus::Streaming,
                SenderStatus::Button { label: "Stop streaming"@ },
            ]
        },
        !(received matches Received::Event(TransportEvent::IceConnected)) ==> {
            &&& drain.after(received) == drain
            &&& fires_after(received, fires) == fires
            &&& shown_after(received) == Seq::<SenderStatus>::empty()
        },
        received matches Received::Event(TransportEvent::IceFailed) ==> next_after(received)
            == DrainNext::EnterSupervisor(ReconnectTrigger::IceFailed),
        received matches Received::Event(TransportEvent::ConnectionLost { reason }) ==> next_after(
            received,
        ) == DrainNext::EnterSupervisor(ReconnectTrigger::ConnectionLost { reason }),
        received is Disconnected ==> next_after(received) is Exit,
        received is Timeout ==> next_after(received) is Continue,
        received matches Received::Event(TransportEvent::KeyframeRequested) ==> next_after(
            received,
        ) is Continue,
        received matches Received::Event(TransportEvent::Other) ==> next_after(received) is Continue,
{
}

/// What a drain without a supervisor shows: a connection, with the button to stop, and a failure of
/// either kind, with the button to restart. A peer that never came back is shown as unreachable.
pub proof fn law_what_is_shown_unsupervised(received: Received<TransportEvent>)
    ensures
        shown_unsupervised(received) == (match received {
            Received::Event(TransportEvent::IceConnected) => seq![
                SenderStatus::Streaming,
                SenderStatus::Button { label: "Stop streaming"@ },
            ],
            Received::Event(TransportEvent::IceFailed) => seq![
                SenderStatus::PeerLost,
                SenderStatus::Button { label: "Restart"@ },
            ],
            Received::Event(TransportEvent::ConnectionLost { .. }) => seq![
                SenderStatus::PeerLost,
                SenderStatus::Button { label: "Restart"@ },
            ],
            _ => Seq::empty(),
        }),
        unreachable_status() == (SenderStatus::Dead { reason: "peer_unreachable"@ }),
        is_keyframe_request(received) <==> (received matches Received::Event(
            TransportEvent::KeyframeRequested,
        )),
{
}

/// A keyframe request adds one to its counter, which wraps around, and to no other.
pub proof fn law_keyframe_requests_are_counted(counters: SenderCounters)
    ensures
        counters.with_keyframe_request().dropped_frames_encoder == counters.dropped_frames_encoder,
        counters.with_keyframe_request().dropped_frames_transport
            == counters.dropped_frames_transport,
        counters.keyframe_requests_received < u64::MAX
            ==> counters.with_keyframe_request().keyframe_requests_received
            == counters.keyframe_requests_received + 1,
        counters.keyframe_requests_received == u64::MAX
            ==> counters.with_keyframe_request().keyframe_requests_received == 0,
{
}

/// A drain without a watchdog waits half a second at a time, and not at all once it is to stop. Only a
/// transport that is gone ends it.
pub proof fn law_how_an_unwatched_drain_goes_on(
    stop_flag: bool,
    wait: Option<u64>,
    received: &Received<TransportEvent>,
    step: DrainStep,
    connected: bool,
)
    requires
        call_ensures(drain_wait, (stop_flag,), wait),
        call_ensures(unsupervised_transport_event, (received,), step),
        call_ensures(is_connection, (received,), connected),
    ensures
        stop_flag ==> wait is None,
        !stop_flag ==> wait == Some(500_000_000u64),
        *received is Disconnected ==> step.next is Exit,
        *received !is Disconnected ==> step.next is Continue,
        connected <==> (*received matches Received::Event(TransportEvent::IceConnected)),
{
}

/// What a drain decides, seen on its functions themselves: a stop is seen first; a failure is handed
/// over under its own name; and a connection is shown, clears the fires and disarms the watchdog.
pub proof fn law_functions_of_the_drain(now: u64, reason: String)
    ensures
        forall|drain: &SenderTransportDrain, fires: &mut u8, r: DrainPoll| #[trigger]
            call_ensures(SenderTransportDrain::poll, (drain, true, now, fires), r) ==> r is Exit
                && *final(fires) == *fires,
        forall|drain: &mut SenderTransportDrain, fires: &mut u8, r: DrainStep| #[trigger]
            call_ensures(
                SenderTransportDrain::receive,
                (drain, Received::Event(TransportEvent::IceConnected), fires),
                r,
            ) ==> {
                &&& r.next is Continue
                &&& final(drain).ice_connected
                &&& final(drain).watchdog_deadline is None
                &&& *final(fires) == 0
                &&& events::statuses(r.emit@) == seq![
                    SenderStatus::Streaming,
                    SenderStatus::Button { label: "Stop streaming"@ },
                ]
            },
        forall|drain: &mut SenderTransportDrain, fires: &mut u8, r: DrainStep| #[trigger]
            call_ensures(
                SenderTransportDrain::receive,
                (drain, Received::Event(TransportEvent::ConnectionLost { reason }), fires),
                r,
            ) ==> r.next == DrainNext::EnterSupervisor(ReconnectTrigger::ConnectionLost { reason })
                && *final(drain) == *drain && *final(fires) == *fires,
        forall|drain: &mut SenderTransportDrain, fires: &mut u8, r: DrainStep| #[trigger]
            call_ensures(
                SenderTransportDrain::receive,
                (drain, Received::Event(TransportEvent::IceFailed), fires),
                r,
            ) ==> r.next == DrainNext::EnterSupervisor(ReconnectTrigger::IceFailed)
                && *final(drain) == *drain && *final(fires) == *fires,
{
}

} // verus!
