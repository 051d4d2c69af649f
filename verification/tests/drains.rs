use screen_mirror::coordinator::{
    CoordinatorStep, OutcomePoll, SenderCoordinatorAction, SenderCoordinatorHooks,
    StreamCoordinatorAction, StreamCoordinatorHooks, SupervisionSettings,
};
use screen_mirror::errors::SignalingError;
use screen_mirror::events::{
    dead_reason_to_str, DeadReason, IceCandidate, Received, ReconnectTrigger, Role, SdpAnswer,
    SdpOffer, SenderStatusEvent, SessionState, SignalingEvent, SupervisorOutcome,
    SupervisorSignal, TransportEvent,
};
use screen_mirror::mdns_reset::{reset_mdns, MdnsResetHost, MdnsResetStep};
use screen_mirror::sender_drain::{
    DrainNext, DrainPoll, SenderTransportDrain, DRAIN_WAIT_NS, MEDIA_WATCHDOG_MAX_FIRES,
    MEDIA_WATCHDOG_TIMEOUT_NS,
};
use screen_mirror::sender_signaling::{
    answer_applied, run_sender_signaling_drain, SenderSignalingHost, SignalingSenderOps,
};
use screen_mirror::sender_transport::{
    run_sender_transport_event_drain, run_sender_transport_event_drain_with_supervisor,
    run_sender_transport_event_drain_with_supervisor_custom,
    run_sender_transport_event_drain_with_supervisor_custom_and_hooks, SenderDrainHost,
};
use screen_mirror::stream_drain::{
    offer_applied, run_signaling_drain, run_stream_transport_event_drain_with_supervisor,
    run_stream_transport_event_drain_with_supervisor_custom_and_hooks, run_transport_event_drain,
    StreamSignalingHost, StreamSignalingStep,
};
use screen_mirror::supervision::CoordinatorHost;
use std::cell::{Cell, Ref, RefCell};
use std::collections::VecDeque;

const MS: u64 = 1_000_000;

/// A handover to a supervisor, which says these things and is gone.
struct Handover {
    trigger: ReconnectTrigger,
    session_nonce: u64,
    settings: SupervisionSettings,
    outcomes: VecDeque<SupervisorOutcome>,
    acts: Vec<String>,
}

/// The handovers of a drain.
struct Handovers {
    trigger: RefCell<Option<ReconnectTrigger>>,
    list: RefCell<Vec<Handover>>,
}

impl Handovers {
    fn new() -> Self {
        Handovers {
            trigger: RefCell::new(None),
            list: RefCell::new(Vec::new()),
        }
    }

    fn borrow(&self) -> Ref<'_, Vec<Handover>> {
        self.list.borrow()
    }

    fn set_up(&self, step: CoordinatorStep) {
        match step {
            CoordinatorStep::Signal(SupervisorSignal::LocalFailure { trigger }) => {
                *self.trigger.borrow_mut() = Some(trigger);
            }
            CoordinatorStep::SpawnSupervisor(start) => {
                let ack = SupervisorOutcome::PublishReconnectAck {
                    attempt: 1,
                    session_nonce: 9,
                };
                self.list.borrow_mut().push(Handover {
                    trigger: self.trigger.borrow_mut().take().expect("a failure comes first"),
                    session_nonce: start.session_nonce,
                    settings: start.settings,
                    outcomes: vec![ack, SupervisorOutcome::InitiateRebuild].into(),
                    acts: Vec::new(),
                });
            }
            _ => {}
        }
    }

    fn next_outcome(&self) -> OutcomePoll {
        match self.list.borrow_mut().last_mut().unwrap().outcomes.pop_front() {
            Some(outcome) => OutcomePoll::Outcome(outcome),
            None => OutcomePoll::Disconnected,
        }
    }

    fn act(&self, action: String) {
        self.list.borrow_mut().last_mut().unwrap().acts.push(action);
    }
}

/// A transport whose events come at set times on a simulated clock.
struct SimulatedTransport {
    clock: Cell<u64>,
    stop_at: u64,
    events: RefCell<VecDeque<(u64, TransportEvent)>>,
    ends: bool,
    fires: Cell<u8>,
    keyframes: Cell<u64>,
    shown: RefCell<Vec<String>>,
    supervised: Handovers,
    waits: RefCell<Vec<u64>>,
}

impl SimulatedTransport {
    fn new(stop_at: u64, events: Vec<(u64, TransportEvent)>) -> Self {
        SimulatedTransport {
            clock: Cell::new(0),
            stop_at,
            events: RefCell::new(events.into()),
            ends: false,
            fires: Cell::new(0),
            keyframes: Cell::new(0),
            shown: RefCell::new(Vec::new()),
            supervised: Handovers::new(),
            waits: RefCell::new(Vec::new()),
        }
    }

    fn count_shown(&self, text: &str) -> usize {
        self.shown.borrow().iter().filter(|s| s.contains(text)).count()
    }

    fn stopped(&self) -> bool {
        self.clock.get() >= self.stop_at
    }

    fn wait(&self, wait_ns: u64) -> Received<TransportEvent> {
        self.waits.borrow_mut().push(wait_ns);
        let now = self.clock.get();
        let due = match self.events.borrow().front() {
            Some((at, _)) => *at <= now + wait_ns,
            None => false,
        };
        if due {
            let (at, event) = self.events.borrow_mut().pop_front().unwrap();
            self.clock.set(at.max(now));
            return Received::Event(event);
        }
        if self.ends && self.events.borrow().is_empty() {
            return Received::Disconnected;
        }
        self.clock.set(now + wait_ns);
        Received::Timeout
    }
}

impl CoordinatorHost for &SimulatedTransport {
    type Action = SenderCoordinatorAction;

    fn set_up(self, step: CoordinatorStep) -> Self {
        self.supervised.set_up(step);
        self
    }

    fn next_outcome(self) -> (Self, OutcomePoll) {
        (self, self.supervised.next_outcome())
    }

    fn wait_outcome(self) -> (Self, Option<SupervisorOutcome>) {
        (self, None)
    }

    fn stop_requested(self) -> (Self, bool) {
        (self, self.stopped())
    }

    fn receive(self, wait_ns: u64) -> (Self, Received<TransportEvent>) {
        (self, self.wait(wait_ns))
    }

    fn act(self, action: SenderCoordinatorAction) -> Self {
        self.supervised.act(format!("{action:?}"));
        self
    }
}

impl SenderDrainHost for &SimulatedTransport {
    fn now(self) -> (Self, u64) {
        (self, self.clock.get())
    }

    fn show(self, event: SenderStatusEvent) -> Self {
        self.shown.borrow_mut().push(format!("{event:?}"));
        self
    }

    fn count_fire(self) -> (Self, u8) {
        let before = self.fires.get();
        self.fires.set(before + 1);
        (self, before)
    }

    fn clear_fires(self) -> Self {
        self.fires.set(0);
        self
    }

    fn count_keyframe_request(self) -> Self {
        self.keyframes.set(self.keyframes.get() + 1);
        self
    }
}

/// Runs a watched drain for 900 ms.
fn watched(
    timeout: Option<u64>,
    max_fires: Option<u8>,
    fires: u8,
    arm: bool,
    events: Vec<(u64, TransportEvent)>,
) -> SimulatedTransport {
    let host = SimulatedTransport::new(900 * MS, events);
    host.fires.set(fires);
    run_sender_transport_event_drain_with_supervisor_custom_and_hooks(
        &host,
        SupervisionSettings::production(),
        SenderCoordinatorHooks::noop(),
        timeout,
        max_fires,
        arm,
    );
    host
}

#[test]
fn sc_wd_s1_no_ice_connected_fires_local_failure() {
    let host = watched(Some(150 * MS), None, 0, true, vec![]);
    let supervised = host.supervised.borrow();
    assert_eq!(supervised.len(), 1);
    assert!(matches!(supervised[0].trigger, ReconnectTrigger::IceFailed));
    assert_eq!(host.fires.get(), 1);
    assert!(host.clock.get() >= 150 * MS && host.clock.get() < 250 * MS);
}

#[test]
fn sc_wd_s2_ice_connected_disarms_watchdog() {
    let host = watched(
        Some(150 * MS),
        None,
        0,
        true,
        vec![(0, TransportEvent::IceConnected)],
    );
    assert_eq!(host.supervised.borrow().len(), 0);
    assert_eq!(host.count_shown("Streaming"), 1);
    assert_eq!(host.count_shown("Stop streaming"), 1);
}

#[test]
fn sc_wd_s3_one_shot_per_drain_generation() {
    let gen1 = watched(Some(150 * MS), None, 0, true, vec![]).supervised.borrow().len();
    let gen2 = watched(Some(150 * MS), None, 0, true, vec![]).supervised.borrow().len();
    assert_eq!(gen1 + gen2, 2);
}

#[test]
fn sc_wd_cap_absent_peer_terminates_in_single_dead() {
    let first = watched(Some(150 * MS), Some(2), 0, true, vec![]);
    assert_eq!(first.supervised.borrow().len(), 1);
    assert_eq!(first.count_shown("Dead"), 0);

    let second = watched(Some(150 * MS), Some(2), first.fires.get(), true, vec![]);
    assert_eq!(second.supervised.borrow().len(), 0);
    assert_eq!(second.count_shown("Dead"), 1);
    assert_eq!(second.count_shown("peer_unreachable"), 1);
    assert_eq!(second.shown.borrow().len(), 1);
}

#[test]
fn sc_wd_m1_cold_connect_does_not_arm() {
    let host = watched(Some(150 * MS), Some(2), 0, false, vec![]);
    assert_eq!(host.supervised.borrow().len(), 0);
    assert_eq!(host.fires.get(), 0);
    assert!(host.waits.borrow().iter().all(|w| *w == DRAIN_WAIT_NS));
}

#[test]
fn sc_wd_reset_disarm_resets_cross_generation_counter() {
    let first = watched(
        Some(150 * MS),
        Some(2),
        1,
        true,
        vec![(0, TransportEvent::IceConnected)],
    );
    assert_eq!(first.fires.get(), 0);
    let second = watched(Some(150 * MS), Some(2), first.fires.get(), true, vec![]);
    assert_eq!(second.supervised.borrow().len(), 1);
    assert_eq!(second.count_shown("Dead"), 0);
}

#[test]
fn an_absent_peer_gets_as_many_generations_as_the_limit_allows() {
    let mut fires: u8 = 0;
    for generation in 1..=MEDIA_WATCHDOG_MAX_FIRES {
        let host = SimulatedTransport::new(u64::MAX / 2, vec![]);
        host.fires.set(fires);
        run_sender_transport_event_drain_with_supervisor_custom_and_hooks(
            &host,
            SupervisionSettings::production(),
            SenderCoordinatorHooks::noop(),
            Some(MEDIA_WATCHDOG_TIMEOUT_NS),
            Some(MEDIA_WATCHDOG_MAX_FIRES),
            true,
        );
        fires = host.fires.get();
        assert_eq!(fires, generation);
        let last = generation == MEDIA_WATCHDOG_MAX_FIRES;
        assert_eq!(host.supervised.borrow().len(), if last { 0 } else { 1 });
        assert_eq!(host.count_shown("peer_unreachable"), if last { 1 } else { 0 });
        assert!(host.clock.get() >= MEDIA_WATCHDOG_TIMEOUT_NS);
    }
}

#[test]
fn the_wait_shrinks_towards_the_deadline() {
    let host = watched(Some(620 * MS), None, 0, true, vec![]);
    assert_eq!(*host.waits.borrow(), vec![500 * MS, 120 * MS]);
    let host = watched(Some(530 * MS), None, 0, true, vec![]);
    assert_eq!(*host.waits.borrow(), vec![500 * MS, 50 * MS]);
}

#[test]
fn a_lost_connection_is_handed_over_with_its_reason() {
    let host = watched(
        None,
        None,
        0,
        true,
        vec![
            (0, TransportEvent::IceConnected),
            (10 * MS, TransportEvent::KeyframeRequested),
            (
                20 * MS,
                TransportEvent::ConnectionLost {
                    reason: "gone".to_string(),
                },
            ),
            (30 * MS, TransportEvent::IceConnected),
        ],
    );
    let supervised = host.supervised.borrow();
    assert_eq!(supervised.len(), 1);
    match &supervised[0].trigger {
        ReconnectTrigger::ConnectionLost { reason } => assert_eq!(reason, "gone"),
        other => panic!("expected ConnectionLost, got {other:?}"),
    }
    assert_eq!(supervised[0].settings, SupervisionSettings::production());
    assert_eq!(host.events.borrow().len(), 1);
    assert_eq!(host.keyframes.get(), 0);
}

#[test]
fn a_stopped_drain_does_nothing() {
    let host = SimulatedTransport::new(0, vec![(0, TransportEvent::IceFailed)]);
    run_sender_transport_event_drain_with_supervisor(&host);
    run_sender_transport_event_drain_with_supervisor_custom(
        &host,
        SupervisionSettings::production(),
    );
    run_sender_transport_event_drain(&host);
    assert!(host.supervised.borrow().is_empty());
    assert!(host.waits.borrow().is_empty());
    assert_eq!(host.events.borrow().len(), 1);
}

#[test]
fn a_plain_supervised_drain_counts_keyframe_requests() {
    let host = SimulatedTransport::new(
        900 * MS,
        vec![
            (0, TransportEvent::KeyframeRequested),
            (1, TransportEvent::Other),
            (2, TransportEvent::KeyframeRequested),
            (3, TransportEvent::IceFailed),
        ],
    );
    run_sender_transport_event_drain_with_supervisor(&host);
    assert_eq!(host.keyframes.get(), 2);
    let supervised = host.supervised.borrow();
    assert_eq!(supervised.len(), 1);
    assert_eq!(supervised[0].acts, vec!["Signal(RebuildFailed)"]);
    assert_eq!(supervised[0].settings.ack_timeout_ns, 2_000 * MS);
    assert_eq!(supervised[0].settings.rebuild_timeout_ns, 15_000 * MS);
}

#[test]
fn an_unsupervised_drain_shows_failures_and_goes_on() {
    let mut host = SimulatedTransport::new(
        u64::MAX,
        vec![
            (0, TransportEvent::IceConnected),
            (1, TransportEvent::IceFailed),
            (
                2,
                TransportEvent::ConnectionLost {
                    reason: "r".to_string(),
                },
            ),
            (3, TransportEvent::KeyframeRequested),
        ],
    );
    host.ends = true;
    run_sender_transport_event_drain(&host);
    assert_eq!(host.count_shown("PeerLost"), 2);
    assert_eq!(host.count_shown("Restart"), 2);
    assert_eq!(host.count_shown("Stop streaming"), 1);
    assert_eq!(host.keyframes.get(), 1);
    assert!(host.supervised.borrow().is_empty());
}

#[test]
fn a_drain_is_polled_and_fed_by_hand() {
    let mut drain = SenderTransportDrain::enter(1_000, Some(500), Some(2), true);
    let mut fires: u8 = 0;
    assert!(matches!(drain.poll(false, 1_499, &mut fires), DrainPoll::Receive));
    assert!(matches!(drain.poll(true, 1_500, &mut fires), DrainPoll::Exit));
    assert!(matches!(
        drain.poll(false, 1_500, &mut fires),
        DrainPoll::EnterSupervisor(ReconnectTrigger::IceFailed)
    ));
    assert_eq!(fires, 1);
    assert!(matches!(
        drain.poll(false, 1_500, &mut fires),
        DrainPoll::PeerUnreachable
    ));
    assert_eq!(fires, 2);
    let step = drain.receive(Received::Event(TransportEvent::IceConnected), &mut fires);
    assert_eq!(fires, 0);
    assert_eq!(step.emit.len(), 2);
    assert!(matches!(step.next, DrainNext::Continue));
    assert!(drain.ice_connected);
    assert!(matches!(
        drain.poll(false, u64::MAX, &mut fires),
        DrainPoll::Receive
    ));
    assert!(matches!(
        drain.receive(Received::Disconnected, &mut fires).next,
        DrainNext::Exit
    ));
}

/// A signaling adapter with a list of events, after which its channel is gone.
struct SimulatedSignaling {
    events: RefCell<VecDeque<SignalingEvent>>,
    disarmed: bool,
    armed: bool,
    shown: RefCell<Vec<String>>,
    signals: RefCell<Vec<SupervisorSignal>>,
    published: RefCell<Vec<String>>,
    applied: RefCell<Vec<String>>,
    fails: bool,
    answers: RefCell<Vec<String>>,
    refuses: bool,
}

impl SimulatedSignaling {
    fn new(armed: bool, disarmed: bool, events: Vec<SignalingEvent>) -> Self {
        SimulatedSignaling {
            events: RefCell::new(events.into()),
            disarmed,
            armed,
            shown: RefCell::new(Vec::new()),
            signals: RefCell::new(Vec::new()),
            published: RefCell::new(Vec::new()),
            applied: RefCell::new(Vec::new()),
            fails: false,
            answers: RefCell::new(Vec::new()),
            refuses: false,
        }
    }

    fn next(&self) -> Received<SignalingEvent> {
        match self.events.borrow_mut().pop_front() {
            Some(SignalingEvent::Other) => Received::Timeout,
            Some(event) => Received::Event(event),
            None => Received::Disconnected,
        }
    }
}

impl SenderSignalingHost for &SimulatedSignaling {
    fn stop_requested(self) -> (Self, bool) {
        (self, false)
    }

    fn receive(self, wait_ns: u64) -> (Self, Received<SignalingEvent>) {
        assert_eq!(wait_ns, 500 * MS);
        (self, self.next())
    }

    fn show(self, event: SenderStatusEvent) -> Self {
        self.shown.borrow_mut().push(format!("{event:?}"));
        self
    }

    fn escalation_disarmed(self) -> (Self, bool) {
        (self, self.disarmed)
    }

    fn supervisor_armed(self) -> (Self, bool) {
        (self, self.armed)
    }

    fn signal(self, signal: SupervisorSignal) -> Self {
        self.signals.borrow_mut().push(signal);
        self
    }
}

impl StreamSignalingHost for &SimulatedSignaling {
    fn stop_requested(self) -> (Self, bool) {
        (self, false)
    }

    fn receive(self, wait_ns: u64) -> (Self, Received<SignalingEvent>) {
        assert_eq!(wait_ns, 500 * MS);
        (self, self.next())
    }

    fn apply_remote_offer(self, offer: SdpOffer) -> (Self, Result<SdpAnswer, String>) {
        self.applied.borrow_mut().push(offer.0);
        let answer = if self.fails {
            Err("no".to_string())
        } else {
            Ok(SdpAnswer("answer".to_string()))
        };
        (self, answer)
    }

    fn add_remote_candidate(self, cand: IceCandidate) -> (Self, Result<(), String>) {
        self.applied.borrow_mut().push(cand.0);
        (self, Ok(()))
    }

    fn publish_local_answer(self, answer: SdpAnswer) -> (Self, Result<(), String>) {
        self.published.borrow_mut().push(answer.0);
        (self, Err("passed over".to_string()))
    }

    fn supervisor_armed(self) -> (Self, bool) {
        (self, self.armed)
    }

    fn signal(self, signal: SupervisorSignal) -> Self {
        self.signals.borrow_mut().push(signal);
        self
    }
}

impl SignalingSenderOps for &SimulatedSignaling {
    fn apply_remote_answer(self, ans: SdpAnswer) -> (Self, Result<(), String>) {
        self.answers.borrow_mut().push(ans.0);
        let answer = if self.refuses {
            Err("transport not running".to_string())
        } else {
            Ok(())
        };
        (self, answer)
    }

    fn add_remote_candidate(self, c: IceCandidate) -> (Self, Result<(), String>) {
        self.answers.borrow_mut().push(c.0);
        (self, Err("passed over".to_string()))
    }
}

fn nic_down() -> SignalingEvent {
    SignalingEvent::Error(SignalingError {
        text: "nic down".to_string(),
    })
}

#[test]
fn signaling_drain_error_with_armed_slot_sends_rebuild_failed() {
    let host = SimulatedSignaling::new(true, false, vec![nic_down()]);
    run_sender_signaling_drain(&host);
    let signals = host.signals.borrow();
    assert_eq!(signals.len(), 1);
    assert!(matches!(signals[0], SupervisorSignal::RebuildFailed));
}

#[test]
fn signaling_drain_error_with_none_slot_is_noop() {
    let host = SimulatedSignaling::new(false, false, vec![nic_down(), SignalingEvent::Closed]);
    run_sender_signaling_drain(&host);
    assert!(host.signals.borrow().is_empty());
    assert_eq!(*host.shown.borrow(), vec!["PeerLost"]);
}

#[test]
fn old_generation_signaling_error_during_successful_rebuild_does_not_escalate() {
    let host = SimulatedSignaling::new(true, true, vec![nic_down()]);
    run_sender_signaling_drain(&host);
    assert!(host.signals.borrow().is_empty());
}

#[test]
fn the_sender_hands_answers_and_candidates_to_the_transport() {
    let events = vec![
        SignalingEvent::PeerFound {
            host: "h".to_string(),
            port: 1,
        },
        SignalingEvent::Other,
        SignalingEvent::OfferReceived(SdpOffer("ignored".to_string())),
        SignalingEvent::AnswerReceived(SdpAnswer("a".to_string())),
        SignalingEvent::CandidateReceived(IceCandidate("c".to_string())),
        SignalingEvent::Closed,
        SignalingEvent::AnswerReceived(SdpAnswer("too late".to_string())),
    ];
    let mut host = SimulatedSignaling::new(true, false, events);
    host.refuses = true;
    run_sender_signaling_drain(&host);
    assert_eq!(*host.answers.borrow(), vec!["a", "c"]);
    let shown = host.shown.borrow();
    assert_eq!(shown.len(), 3);
    assert_eq!(shown[0], "Connecting");
    assert!(shown[1].contains("apply_remote_answer failed: transport not running"));
    assert_eq!(shown[2], "PeerLost");
    assert!(host.signals.borrow().is_empty());
}

#[test]
fn an_answer_that_was_taken_shows_nothing() {
    assert!(answer_applied(Ok(())).is_none());
    match answer_applied(Err("x".to_string())) {
        Some(SenderStatusEvent::Error { message }) => {
            assert_eq!(message, "apply_remote_answer failed: x")
        }
        other => panic!("expected an error status, got {other:?}"),
    }
}

#[test]
fn signaling_drain_offer_received_calls_apply_and_publish() {
    let host = SimulatedSignaling::new(
        false,
        false,
        vec![SignalingEvent::OfferReceived(SdpOffer("offer".to_string()))],
    );
    run_signaling_drain(&host);
    assert_eq!(*host.applied.borrow(), vec!["offer"]);
    assert_eq!(*host.published.borrow(), vec!["answer"]);
}

#[test]
fn signaling_drain_candidate_received_calls_add_remote_candidate() {
    let host = SimulatedSignaling::new(
        false,
        false,
        vec![SignalingEvent::CandidateReceived(IceCandidate("cand".to_string()))],
    );
    run_signaling_drain(&host);
    assert_eq!(*host.applied.borrow(), vec!["cand"]);
    assert!(host.published.borrow().is_empty());
}

#[test]
fn sc_a_001_run_signaling_drain_closed_forwards_local_failure_peer_bye() {
    let host = SimulatedSignaling::new(
        true,
        false,
        vec![
            SignalingEvent::Closed,
            SignalingEvent::OfferReceived(SdpOffer("late".to_string())),
        ],
    );
    run_signaling_drain(&host);
    let signals = host.signals.borrow();
    assert_eq!(signals.len(), 1);
    assert!(matches!(
        signals[0],
        SupervisorSignal::LocalFailure {
            trigger: ReconnectTrigger::PeerBye
        }
    ));
    assert!(host.applied.borrow().is_empty());
}

#[test]
fn a_goodbye_without_a_supervisor_only_ends_the_drain() {
    let host = SimulatedSignaling::new(false, false, vec![nic_down(), SignalingEvent::Closed, nic_down()]);
    run_signaling_drain(&host);
    assert!(host.signals.borrow().is_empty());
    assert_eq!(host.events.borrow().len(), 1);
}

#[test]
fn an_offer_that_fails_is_passed_over() {
    let mut host = SimulatedSignaling::new(
        true,
        false,
        vec![SignalingEvent::OfferReceived(SdpOffer("offer".to_string()))],
    );
    host.fails = true;
    run_signaling_drain(&host);
    assert!(host.published.borrow().is_empty());
    assert!(matches!(
        offer_applied(Err("x".to_string())),
        StreamSignalingStep::Continue
    ));
}

/// A receiver's transport on the same simulated clock.
struct SimulatedReceiver {
    transport: SimulatedTransport,
    supervised: Handovers,
}

impl SimulatedReceiver {
    fn new(stop_at: u64, events: Vec<(u64, TransportEvent)>) -> Self {
        SimulatedReceiver {
            transport: SimulatedTransport::new(stop_at, events),
            supervised: Handovers::new(),
        }
    }
}

impl CoordinatorHost for &SimulatedReceiver {
    type Action = StreamCoordinatorAction;

    fn set_up(self, step: CoordinatorStep) -> Self {
        self.supervised.set_up(step);
        self
    }

    fn next_outcome(self) -> (Self, OutcomePoll) {
        (self, self.supervised.next_outcome())
    }

    fn wait_outcome(self) -> (Self, Option<SupervisorOutcome>) {
        (self, None)
    }

    fn stop_requested(self) -> (Self, bool) {
        (self, self.transport.stopped())
    }

    fn receive(self, wait_ns: u64) -> (Self, Received<TransportEvent>) {
        (self, self.transport.wait(wait_ns))
    }

    fn act(self, action: StreamCoordinatorAction) -> Self {
        self.supervised.act(format!("{action:?}"));
        self
    }
}

#[test]
fn transport_event_drain_absorbs_events_without_blocking() {
    let host = SimulatedReceiver::new(
        1_000 * MS,
        vec![
            (0, TransportEvent::IceConnected),
            (0, TransportEvent::IceFailed),
            (
                0,
                TransportEvent::ConnectionLost {
                    reason: "test".to_string(),
                },
            ),
        ],
    );
    run_transport_event_drain(&host);
    assert!(host.transport.events.borrow().is_empty());
    assert!(host.supervised.borrow().is_empty());
    assert!(host.transport.clock.get() >= 1_000 * MS);
}

#[test]
fn transport_event_drain_exits_on_channel_disconnect() {
    let mut host = SimulatedReceiver::new(u64::MAX, vec![]);
    host.transport.ends = true;
    run_transport_event_drain(&host);
    run_stream_transport_event_drain_with_supervisor(&host);
    assert!(host.supervised.borrow().is_empty());
}

#[test]
fn a_failed_connection_wakes_the_receivers_supervisor() {
    let hooks = StreamCoordinatorHooks {
        initiate_rebuild: Some(4),
        ..StreamCoordinatorHooks::noop()
    };
    let host = SimulatedReceiver::new(
        u64::MAX,
        vec![(0, TransportEvent::IceConnected), (5, TransportEvent::IceFailed)],
    );
    run_stream_transport_event_drain_with_supervisor_custom_and_hooks(
        &host,
        SupervisionSettings::production(),
        hooks,
    );
    let supervised = host.supervised.borrow();
    assert_eq!(supervised.len(), 1);
    assert!(matches!(supervised[0].trigger, ReconnectTrigger::IceFailed));
    assert_eq!(supervised[0].settings, SupervisionSettings::production());
    assert_eq!(supervised[0].acts, vec!["Rebuild { hook: 4 }"]);
    assert_eq!(host.transport.clock.get(), 5);
}

#[test]
fn the_end_of_a_session_has_a_token() {
    assert_eq!(
        dead_reason_to_str(DeadReason::IceFailedRepeatedly),
        "ice_failed_repeatedly"
    );
    assert_eq!(
        dead_reason_to_str(DeadReason::ConnectionLostRepeatedly),
        "connection_lost_repeatedly"
    );
    assert_eq!(
        dead_reason_to_str(DeadReason::SignalingChannelDead),
        "signaling_channel_dead"
    );
    assert_eq!(dead_reason_to_str(DeadReason::UserCanceled), "user_canceled");
}

#[test]
fn sc_wd_prod_kill_sequence_still_fires() {
    let host = watched(Some(150 * MS), None, 0, true, vec![]);
    assert!(
        host.supervised.borrow().len() >= 1,
        "SC-WD-S5 FAIL (falsifiability gate): with NO IceConnected the drain-entry \
         watchdog MUST fire and drive a fresh Reconnecting cycle"
    );
}

#[test]
fn sc_wd_s4_no_extra_cycle_on_clean_ice_connected() {
    let host = watched(
        Some(150 * MS),
        None,
        0,
        true,
        vec![(0, TransportEvent::IceConnected)],
    );
    assert_eq!(
        host.supervised.borrow().len(),
        0,
        "SC-WD-S4 FAIL: a clean cold-connect IceConnected before the (short) \
         deadline must not trigger any cycle"
    );
}

/// A sender whose supervisor has these outcomes, and whose resets bring these events.
struct SupervisedSender {
    transport: SimulatedTransport,
    outcomes: RefCell<VecDeque<SupervisorOutcome>>,
    after_reset: SimulatedSignaling,
    resets: RefCell<Vec<MdnsResetStep>>,
}

impl SupervisedSender {
    fn new(outcomes: Vec<SupervisorOutcome>, after_reset: SimulatedSignaling) -> Self {
        SupervisedSender {
            transport: SimulatedTransport::new(1_200 * MS, vec![]),
            outcomes: RefCell::new(outcomes.into()),
            after_reset,
            resets: RefCell::new(Vec::new()),
        }
    }

    fn run(&self, max_fires: Option<u8>) {
        run_sender_transport_event_drain_with_supervisor_custom_and_hooks(
            self,
            SupervisionSettings::production(),
            SenderCoordinatorHooks {
                initiate_rebuild: Some(1),
                initiate_mdns_reset: Some(2),
                ..SenderCoordinatorHooks::noop()
            },
            Some(150 * MS),
            max_fires,
            true,
        );
    }
}

impl SenderDrainHost for &SupervisedSender {
    fn now(self) -> (Self, u64) {
        (self, self.transport.clock.get())
    }

    fn show(self, event: SenderStatusEvent) -> Self {
        (&self.transport).show(event);
        self
    }

    fn count_fire(self) -> (Self, u8) {
        (self, (&self.transport).count_fire().1)
    }

    fn clear_fires(self) -> Self {
        (&self.transport).clear_fires();
        self
    }

    fn count_keyframe_request(self) -> Self {
        (&self.transport).count_keyframe_request();
        self
    }
}

impl CoordinatorHost for &SupervisedSender {
    type Action = SenderCoordinatorAction;

    fn set_up(self, _step: CoordinatorStep) -> Self {
        self
    }

    fn next_outcome(self) -> (Self, OutcomePoll) {
        match self.outcomes.borrow_mut().pop_front() {
            Some(outcome) => (self, OutcomePoll::Outcome(outcome)),
            None => (self, OutcomePoll::Disconnected),
        }
    }

    fn wait_outcome(self) -> (Self, Option<SupervisorOutcome>) {
        (self, None)
    }

    fn stop_requested(self) -> (Self, bool) {
        (self, self.transport.stopped())
    }

    fn receive(self, wait_ns: u64) -> (Self, Received<TransportEvent>) {
        (self, self.transport.wait(wait_ns))
    }

    fn act(self, action: SenderCoordinatorAction) -> Self {
        match action {
            SenderCoordinatorAction::Show(event) => {
                self.show(event);
            }
            SenderCoordinatorAction::ResetMdns { hook } => {
                assert_eq!(hook, 2);
                reset_mdns(
                    ResetOf(self, |s: &SupervisedSender| {
                        run_sender_signaling_drain(&s.after_reset);
                    }),
                    Role::Sender,
                );
            }
            _ => {}
        }
        self
    }
}

/// A restart of signaling, whose drain runs as soon as it is started.
struct ResetOf<'a, F>(&'a SupervisedSender, F);

impl<F: Fn(&SupervisedSender)> MdnsResetHost for ResetOf<'_, F> {
    fn perform(self, step: MdnsResetStep) -> Self {
        self.0.resets.borrow_mut().push(step);
        if step == MdnsResetStep::SpawnDrain {
            (self.1)(self.0);
        }
        self
    }

    fn start_signaling(self) -> (Self, bool) {
        self.0.resets.borrow_mut().push(MdnsResetStep::StartSignaling);
        (self, true)
    }
}

fn silent() -> SimulatedSignaling {
    SimulatedSignaling::new(false, false, vec![])
}

#[test]
fn sc_wd_ra_rebuild_failed_dead_wins_no_double_dead() {
    let host = SupervisedSender::new(
        vec![
            SupervisorOutcome::StateChanged(SessionState::Reconnecting { attempt: 1, max: 3 }),
            SupervisorOutcome::InitiateRebuild,
            SupervisorOutcome::StateChanged(SessionState::Dead {
                reason: DeadReason::IceFailedRepeatedly,
            }),
            SupervisorOutcome::Dead(DeadReason::IceFailedRepeatedly),
        ],
        silent(),
    );
    host.run(Some(5));
    assert_eq!(
        host.transport.count_shown("Dead"),
        1,
        "SC-WD-RA: exactly ONE terminal Dead must be emitted per episode"
    );
    assert_eq!(
        host.transport.count_shown("peer_unreachable"),
        0,
        "SC-WD-RA: a genuine RebuildFailed-Dead must short-circuit the cap"
    );
    assert_eq!(
        host.transport.count_shown("ice_failed_repeatedly"),
        1,
        "SC-WD-RA: the sole Dead must be the supervisor's \"ice_failed_repeatedly\""
    );
}

#[test]
fn sc_srr_2_sender_reset_drains_post_reset_events() {
    let host = SupervisedSender::new(
        vec![SupervisorOutcome::InitiateMdnsReset],
        SimulatedSignaling::new(false, false, vec![SignalingEvent::Closed]),
    );
    host.run(None);
    assert_eq!(*host.after_reset.shown.borrow(), vec!["PeerLost"]);
    assert!(host.after_reset.events.borrow().is_empty());
    assert_eq!(*host.resets.borrow().last().unwrap(), MdnsResetStep::SpawnDrain);
}

fn reset_receiver(armed: bool, events: Vec<SignalingEvent>) -> SupervisedSender {
    let host = SupervisedSender::new(vec![], SimulatedSignaling::new(armed, false, events));
    reset_mdns(
        ResetOf(&host, |s: &SupervisedSender| {
            run_signaling_drain(&s.after_reset);
        }),
        Role::Receiver,
    );
    host
}

#[test]
fn sc_f_001_initiate_mdns_reset_spawns_consumer_for_new_sig_ev_rx() {
    let offer = SdpOffer("v=0\r\noffer-post-reset".to_string());
    let host = reset_receiver(false, vec![SignalingEvent::OfferReceived(offer)]);
    assert_eq!(
        *host.after_reset.applied.borrow(),
        vec!["v=0\r\noffer-post-reset"],
        "SC-F-001: apply_remote_offer must be called exactly once after reset"
    );
}

#[test]
fn sc_f_002_build_initiate_mdns_reset_hook_production_fn_spawns_consumer() {
    let offer = SdpOffer("v=0\r\noffer-post-reset-f002".to_string());
    let host = reset_receiver(
        true,
        vec![SignalingEvent::OfferReceived(offer), SignalingEvent::Closed],
    );
    assert_eq!(
        *host.after_reset.applied.borrow(),
        vec!["v=0\r\noffer-post-reset-f002"]
    );
    let signals = host.after_reset.signals.borrow();
    assert_eq!(signals.len(), 1);
    assert!(
        matches!(
            signals[0],
            SupervisorSignal::LocalFailure {
                trigger: ReconnectTrigger::PeerBye
            }
        ),
        "SC-F-002 (W-real): expected LocalFailure{{PeerBye}} but got {:?}",
        signals[0]
    );
}

#[test]
fn sc_a2_001_build_production_bundle_signaling_drain_receives_supervisor_signal_tx() {
    let mut host = SimulatedSignaling::new(true, false, vec![SignalingEvent::Closed]);
    host.fails = true;
    run_signaling_drain(&host);
    let signals = host.signals.borrow();
    assert_eq!(signals.len(), 1);
    assert!(
        matches!(
            signals[0],
            SupervisorSignal::LocalFailure {
                trigger: ReconnectTrigger::PeerBye
            }
        ),
        "SC-A2-001: expected LocalFailure{{PeerBye}} but got {:?}",
        signals[0]
    );
}

#[test]
fn a_deadline_that_the_clock_never_reaches_is_none() {
    let drain = SenderTransportDrain::enter(10, Some(u64::MAX), None, true);
    assert_eq!(drain.watchdog_deadline, None);
    assert_eq!(drain.wait_ns(u64::MAX), DRAIN_WAIT_NS);
    let drain = SenderTransportDrain::enter(10, Some(u64::MAX - 10), None, true);
    assert_eq!(drain.watchdog_deadline, Some(u64::MAX));
}

#[test]
fn the_count_of_fires_wraps_around() {
    let drain = SenderTransportDrain::enter(0, Some(1), Some(2), true);
    let mut fires: u8 = u8::MAX;
    assert!(matches!(
        drain.poll(false, 1, &mut fires),
        DrainPoll::EnterSupervisor(ReconnectTrigger::IceFailed)
    ));
    assert_eq!(fires, 0);
}

#[test]
fn a_drain_hands_its_callbacks_and_its_record_over() {
    let hooks = SenderCoordinatorHooks {
        initiate_rebuild: Some(3),
        ..SenderCoordinatorHooks::noop()
    };
    let settings = SupervisionSettings {
        policy: Some(8),
        ack_timeout_ns: 5,
        rebuild_timeout_ns: 6,
    };
    let runs = [
        (vec![(0, TransportEvent::IceFailed)], "Signal(RebuildFailed)"),
        (
            vec![(0, TransportEvent::IceConnected), (1, TransportEvent::IceFailed)],
            "Rebuild { hook: 3, attempt: 1 }",
        ),
    ];
    for (events, expected) in runs {
        let host = SimulatedTransport::new(900 * MS, events);
        run_sender_transport_event_drain_with_supervisor_custom_and_hooks(
            &host, settings, hooks, None, None, false,
        );
        let supervised = host.supervised.borrow();
        assert_eq!(supervised.len(), 1);
        assert!(matches!(supervised[0].trigger, ReconnectTrigger::IceFailed));
        assert_eq!(supervised[0].settings, settings);
        assert_eq!(supervised[0].acts, vec![expected]);
    }
}

#[test]
fn each_handover_has_a_nonce_of_its_own() {
    let nonces: Vec<u64> = (0..4)
        .map(|_| {
            let host = SimulatedTransport::new(900 * MS, vec![(0, TransportEvent::IceFailed)]);
            run_sender_transport_event_drain_with_supervisor(&host);
            let nonce = host.supervised.borrow()[0].session_nonce;
            nonce
        })
        .collect();
    assert!(nonces.iter().any(|n| *n != nonces[0]));
}
