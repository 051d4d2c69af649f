use screen_mirror::coordinator::{
    coordinator_entry, coordinator_exit, CoordinatorStep, OutcomePoll, SenderCoordinator,
    SenderCoordinatorAction, SenderCoordinatorHooks, StreamCoordinatorAction,
    StreamCoordinatorHooks, SupervisionSettings, SupervisorStart,
};
use screen_mirror::events::{
    DeadReason, Received, ReconnectTrigger, Role, SessionState, SupervisorOutcome, TransportEvent,
};
use screen_mirror::supervision::{
    enter_stream_supervisor_mode, enter_supervisor_mode, CoordinatorHost, StreamSupervisionStart,
    SupervisionStart,
};
use std::cell::{Cell, RefCell};
use std::collections::VecDeque;

/// A supervisor with a list of outcomes, after which it is gone or silent. Once it is told to stop,
/// it has some last outcomes.
struct SimulatedSupervisor {
    outcomes: RefCell<VecDeque<SupervisorOutcome>>,
    last_outcomes: RefCell<VecDeque<SupervisorOutcome>>,
    silent_after: bool,
    stop: Cell<bool>,
    transport_gone: bool,
    steps: RefCell<Vec<String>>,
    acts: RefCell<Vec<String>>,
    waits: Cell<u32>,
}

impl SimulatedSupervisor {
    fn new(outcomes: Vec<SupervisorOutcome>) -> Self {
        SimulatedSupervisor {
            outcomes: RefCell::new(outcomes.into()),
            last_outcomes: RefCell::new(VecDeque::new()),
            silent_after: false,
            stop: Cell::new(false),
            transport_gone: false,
            steps: RefCell::new(Vec::new()),
            acts: RefCell::new(Vec::new()),
            waits: Cell::new(0),
        }
    }

    fn poll(&self) -> OutcomePoll {
        match self.outcomes.borrow_mut().pop_front() {
            Some(outcome) => OutcomePoll::Outcome(outcome),
            None if self.silent_after => OutcomePoll::Empty,
            None => OutcomePoll::Disconnected,
        }
    }

    fn last(&self) -> Option<SupervisorOutcome> {
        assert_eq!(self.steps.borrow().last().unwrap(), "Signal(Stop)");
        self.last_outcomes.borrow_mut().pop_front()
    }

    fn wait(&self, wait_ns: u64) -> Received<TransportEvent> {
        assert_eq!(wait_ns, 50_000_000);
        self.waits.set(self.waits.get() + 1);
        if self.waits.get() >= 3 {
            self.stop.set(true);
        }
        if self.transport_gone {
            Received::Disconnected
        } else {
            Received::Event(TransportEvent::IceFailed)
        }
    }
}

/// A sender's coordinator under such a supervisor.
#[derive(Clone, Copy)]
struct SenderEnd<'a>(&'a SimulatedSupervisor);

/// A receiver's coordinator under such a supervisor.
#[derive(Clone, Copy)]
struct ReceiverEnd<'a>(&'a SimulatedSupervisor);

impl CoordinatorHost for SenderEnd<'_> {
    type Action = SenderCoordinatorAction;

    fn set_up(self, step: CoordinatorStep) -> Self {
        self.0.steps.borrow_mut().push(format!("{step:?}"));
        self
    }

    fn next_outcome(self) -> (Self, OutcomePoll) {
        (self, self.0.poll())
    }

    fn wait_outcome(self) -> (Self, Option<SupervisorOutcome>) {
        (self, self.0.last())
    }

    fn stop_requested(self) -> (Self, bool) {
        (self, self.0.stop.get())
    }

    fn receive(self, wait_ns: u64) -> (Self, Received<TransportEvent>) {
        (self, self.0.wait(wait_ns))
    }

    fn act(self, action: SenderCoordinatorAction) -> Self {
        self.0.acts.borrow_mut().push(format!("{action:?}"));
        self
    }
}

impl CoordinatorHost for ReceiverEnd<'_> {
    type Action = StreamCoordinatorAction;

    fn set_up(self, step: CoordinatorStep) -> Self {
        self.0.steps.borrow_mut().push(format!("{step:?}"));
        self
    }

    fn next_outcome(self) -> (Self, OutcomePoll) {
        (self, self.0.poll())
    }

    fn wait_outcome(self) -> (Self, Option<SupervisorOutcome>) {
        (self, self.0.last())
    }

    fn stop_requested(self) -> (Self, bool) {
        (self, self.0.stop.get())
    }

    fn receive(self, wait_ns: u64) -> (Self, Received<TransportEvent>) {
        (self, self.0.wait(wait_ns))
    }

    fn act(self, action: StreamCoordinatorAction) -> Self {
        self.0.acts.borrow_mut().push(format!("{action:?}"));
        self
    }
}

fn sender_hooks() -> SenderCoordinatorHooks {
    SenderCoordinatorHooks {
        publish_reconnect_request: Some(1),
        publish_reconnect_ack: Some(2),
        initiate_rebuild: Some(3),
        initiate_mdns_reset: Some(4),
        sender_attempt: 1,
    }
}

fn reconnecting(attempt: u8) -> SupervisorOutcome {
    SupervisorOutcome::StateChanged(SessionState::Reconnecting { attempt, max: 3 })
}

const CONNECTED: SupervisorOutcome = SupervisorOutcome::StateChanged(SessionState::Connected);

fn ack() -> SupervisorOutcome {
    SupervisorOutcome::PublishReconnectAck {
        attempt: 1,
        session_nonce: 9,
    }
}

fn request() -> SupervisorOutcome {
    SupervisorOutcome::PublishReconnectRequest {
        attempt: 1,
        session_nonce: 9,
    }
}

fn lead_sender(host: &SimulatedSupervisor, hooks: SenderCoordinatorHooks, connected: bool) {
    let start = SupervisionStart {
        trigger: ReconnectTrigger::IceFailed,
        session_nonce: 77,
        settings: SupervisionSettings::production(),
        hooks,
        ice_connected: connected,
    };
    enter_supervisor_mode(SenderEnd(host), start);
}

fn lead_receiver(
    host: &SimulatedSupervisor,
    trigger: ReconnectTrigger,
    hooks: StreamCoordinatorHooks,
) {
    let start = StreamSupervisionStart {
        trigger,
        session_nonce: 78,
        settings: SupervisionSettings::production(),
        hooks,
    };
    enter_stream_supervisor_mode(ReceiverEnd(host), start);
}

fn acts_of_sender(hooks: SenderCoordinatorHooks, connected: bool, outcomes: Vec<SupervisorOutcome>) -> Vec<String> {
    let host = SimulatedSupervisor::new(outcomes);
    lead_sender(&host, hooks, connected);
    host.acts.into_inner()
}

#[test]
fn sc_srr_1_peer_request_does_not_invoke_rebuild_on_fresh_sender() {
    let acts = acts_of_sender(
        sender_hooks(),
        false,
        vec![ack(), SupervisorOutcome::InitiateRebuild],
    );
    assert_eq!(
        acts,
        vec![
            "PublishAck { hook: 2, attempt: 1, session_nonce: 9 }",
            "Signal(RebuildFailed)",
        ]
    );
}

#[test]
fn a_sender_rebuilds_on_its_own_request() {
    let acts = acts_of_sender(
        sender_hooks(),
        false,
        vec![ack(), request(), SupervisorOutcome::InitiateRebuild],
    );
    assert_eq!(acts[2], "Rebuild { hook: 3, attempt: 1 }");
}

#[test]
fn a_connected_sender_rebuilds_when_the_peer_asks() {
    let acts = acts_of_sender(
        sender_hooks(),
        true,
        vec![ack(), SupervisorOutcome::InitiateRebuild],
    );
    assert_eq!(acts[1], "Rebuild { hook: 3, attempt: 1 }");
}

#[test]
fn a_rebuild_is_asked_for_in_the_latest_attempt() {
    let acts = acts_of_sender(
        sender_hooks(),
        true,
        vec![
            reconnecting(1),
            reconnecting(2),
            SupervisorOutcome::InitiateMdnsReset,
            SupervisorOutcome::InitiateRebuild,
        ],
    );
    assert_eq!(
        acts,
        vec![
            "Show(Reconnecting { attempt: 1, max: 3 })",
            "Show(Reconnecting { attempt: 2, max: 3 })",
            "ResetMdns { hook: 4 }",
            "Rebuild { hook: 3, attempt: 2 }",
        ]
    );
}

#[test]
fn without_callbacks_only_states_are_shown() {
    let acts = acts_of_sender(
        SenderCoordinatorHooks::noop(),
        true,
        vec![
            request(),
            ack(),
            SupervisorOutcome::InitiateMdnsReset,
            SupervisorOutcome::InitiateRebuild,
            SupervisorOutcome::StateChanged(SessionState::Other),
            SupervisorOutcome::StateChanged(SessionState::Dead {
                reason: DeadReason::IceFailedRepeatedly,
            }),
            SupervisorOutcome::Dead(DeadReason::IceFailedRepeatedly),
            SupervisorOutcome::Stopped,
        ],
    );
    assert_eq!(
        acts,
        vec![
            "Signal(RebuildFailed)",
            "Show(Dead { reason: \"ice_failed_repeatedly\" })",
        ]
    );
}

#[test]
fn sc_rbl_2_enter_supervisor_mode_calls_signaling_refresh_after_bridge_write() {
    let host = SimulatedSupervisor::new(vec![]);
    lead_sender(&host, sender_hooks(), true);
    assert_eq!(
        *host.steps.borrow(),
        vec![
            "Register",
            "RefreshSignaling",
            "Signal(LocalFailure { trigger: IceFailed })",
            "SpawnSupervisor(SupervisorStart { role: Sender, session_nonce: 77, settings: SupervisionSettings { \
             policy: None, ack_timeout_ns: 2000000000, rebuild_timeout_ns: 15000000000 } })",
            "Unregister",
            "Signal(Stop)",
            "JoinSupervisor",
        ]
    );
}

#[test]
fn the_receivers_coordinator_is_set_up_and_taken_down() {
    let host = SimulatedSupervisor::new(vec![]);
    lead_receiver(
        &host,
        ReconnectTrigger::ConnectionLost {
            reason: "r".to_string(),
        },
        StreamCoordinatorHooks::noop(),
    );
    assert_eq!(
        *host.steps.borrow(),
        vec![
            "Register",
            "Signal(LocalFailure { trigger: ConnectionLost { reason: \"r\" } })",
            "SpawnSupervisor(SupervisorStart { role: Receiver, session_nonce: 78, settings: SupervisionSettings { \
             policy: None, ack_timeout_ns: 2000000000, rebuild_timeout_ns: 15000000000 } })",
            "Unregister",
            "Signal(Stop)",
            "JoinSupervisor",
        ]
    );
    let start = SupervisorStart {
        role: Role::Sender,
        session_nonce: 1,
        settings: SupervisionSettings::production(),
    };
    assert_eq!(coordinator_entry(ReconnectTrigger::IceFailed, start).len(), 4);
    assert_eq!(coordinator_exit().len(), 2);
}

#[test]
fn a_restored_session_is_shown_even_if_it_is_stopped_at_once() {
    let mut host = SimulatedSupervisor::new(vec![CONNECTED]);
    host.silent_after = true;
    host.stop.set(true);
    lead_sender(&host, sender_hooks(), true);
    assert_eq!(*host.acts.borrow(), vec!["Show(Streaming)"]);
    assert_eq!(host.waits.get(), 0);
}

#[test]
fn transport_events_do_not_matter_to_a_coordinator() {
    let mut host = SimulatedSupervisor::new(vec![]);
    host.silent_after = true;
    lead_sender(&host, sender_hooks(), true);
    assert_eq!(host.waits.get(), 3);
    assert!(host.acts.borrow().is_empty());
}

#[test]
fn only_the_senders_coordinator_leaves_with_the_transport() {
    let mut host = SimulatedSupervisor::new(vec![]);
    host.silent_after = true;
    host.transport_gone = true;
    lead_sender(&host, sender_hooks(), true);
    assert_eq!(host.waits.get(), 1);

    let mut host = SimulatedSupervisor::new(vec![]);
    host.silent_after = true;
    host.transport_gone = true;
    lead_receiver(&host, ReconnectTrigger::IceFailed, StreamCoordinatorHooks::noop());
    assert_eq!(host.waits.get(), 3);
}

#[test]
fn the_receivers_coordinator_hands_outcomes_on() {
    let host = SimulatedSupervisor::new(vec![
        reconnecting(1),
        request(),
        ack(),
        SupervisorOutcome::InitiateMdnsReset,
        SupervisorOutcome::InitiateRebuild,
        CONNECTED,
        SupervisorOutcome::StateChanged(SessionState::Dead {
            reason: DeadReason::UserCanceled,
        }),
        SupervisorOutcome::Dead(DeadReason::UserCanceled),
        SupervisorOutcome::Stopped,
    ]);
    let hooks = StreamCoordinatorHooks {
        publish_reconnect_request: Some(1),
        publish_reconnect_ack: Some(2),
        initiate_rebuild: Some(3),
        initiate_mdns_reset: Some(4),
    };
    lead_receiver(&host, ReconnectTrigger::IceFailed, hooks);
    assert_eq!(
        *host.acts.borrow(),
        vec![
            "Show(Reconnecting { attempt: 1, max: 3 })",
            "PublishRequest { hook: 1, attempt: 1, session_nonce: 9 }",
            "PublishAck { hook: 2, attempt: 1, session_nonce: 9 }",
            "ResetMdns { hook: 4 }",
            "Rebuild { hook: 3 }",
            "Show(Streaming)",
            "Show(Dead { reason: \"user_canceled\" })",
        ]
    );
}

#[test]
fn a_receiver_without_a_rebuild_callback_reports_failure_at_once() {
    let host = SimulatedSupervisor::new(vec![SupervisorOutcome::InitiateRebuild]);
    lead_receiver(&host, ReconnectTrigger::IceFailed, StreamCoordinatorHooks::noop());
    assert_eq!(*host.acts.borrow(), vec!["Signal(RebuildFailed)"]);
}

#[test]
fn a_coordinator_remembers_what_was_published_last() {
    let mut c = SenderCoordinator::new(sender_hooks(), false);
    assert!(!c.peer_ack_seen);
    c.handle_supervisor_outcome(ack());
    assert!(c.peer_ack_seen);
    c.handle_supervisor_outcome(reconnecting(2));
    assert!(c.peer_ack_seen);
    assert_eq!(c.hooks.sender_attempt, 2);
    c.handle_supervisor_outcome(request());
    assert!(!c.peer_ack_seen);
    assert!(!c.ice_connected);
}

#[test]
fn a_success_that_comes_after_the_flag_is_still_shown() {
    let last = vec![
        CONNECTED,
        SupervisorOutcome::InitiateRebuild,
        request(),
        SupervisorOutcome::Stopped,
    ];

    let mut host = SimulatedSupervisor::new(vec![]);
    host.silent_after = true;
    host.stop.set(true);
    host.last_outcomes = RefCell::new(last.clone().into());
    lead_sender(&host, sender_hooks(), true);
    assert_eq!(*host.acts.borrow(), vec!["Show(Streaming)"]);
    assert!(host.last_outcomes.borrow().is_empty());
    assert_eq!(host.steps.borrow().last().unwrap(), "JoinSupervisor");

    let mut host = SimulatedSupervisor::new(vec![]);
    host.silent_after = true;
    host.stop.set(true);
    host.last_outcomes = RefCell::new(last.into());
    lead_receiver(
        &host,
        ReconnectTrigger::IceFailed,
        StreamCoordinatorHooks::noop(),
    );
    assert_eq!(*host.acts.borrow(), vec!["Show(Streaming)"]);
    assert!(host.last_outcomes.borrow().is_empty());
}

#[test]
fn a_supervisor_that_is_gone_is_not_waited_for() {
    let host = SimulatedSupervisor::new(vec![]);
    host.last_outcomes.borrow_mut().push_back(CONNECTED);
    lead_sender(&host, sender_hooks(), true);
    assert!(host.acts.borrow().is_empty());
    assert_eq!(host.last_outcomes.borrow().len(), 1);
}
