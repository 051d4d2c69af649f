use screen_mirror::errors::BundleError;
use screen_mirror::events::SupervisorSignal;
use screen_mirror::sender::{
    RestartCache, SenderBridge, SenderBuildRequest, SenderBundle, SenderSession, SenderStep,
};
use screen_mirror::sender_drain::SenderCounters;
use screen_mirror::sender_rebuild::{make_sender_rebuild_hook, SenderRebuildHost};
use screen_mirror::stream::{
    build_stream_session, BindCtx, MuxStart, ReceiverBundle, StreamBridge, StreamBuildRequest,
    StreamRestartCache, StreamSession, StreamStep,
};
use screen_mirror::stream_rebuild::{
    make_stream_rebuild_hook, probe_with_retry, StreamRebuildHost, PROBE_RETRY_SLEEP_NS,
};
use std::cell::{Cell, RefCell};

/// A sender whose stop flag goes up at a gate, by its number.
struct SenderSide {
    bridge: RefCell<Option<SenderBridge<()>>>,
    stop_at_gate: u32,
    gates: Cell<u32>,
    builds: fn(&SenderBuildRequest) -> Result<SenderBundle, BundleError>,
    requests: RefCell<Vec<SenderBuildRequest>>,
    log: RefCell<Vec<String>>,
    signals: RefCell<Vec<String>>,
    released: RefCell<Vec<u64>>,
    /// The stop flag of the old generation went up after so many signals.
    old_raised_after: Cell<Option<usize>>,
}

fn cache() -> RestartCache {
    RestartCache {
        udp_port: 0,
        service_name: "test".to_string(),
        channel: 70,
        session_nonce: 0,
    }
}

fn old_session(
    shutdown: Option<u64>,
    suppress: Option<u64>,
    stop: Option<u64>,
    disarm: Option<u64>,
) -> SenderSession {
    SenderSession::new(
        100,
        vec![50],
        70,
        SenderCounters::default(),
        shutdown,
        "sw_fake".to_string(),
        suppress,
        stop,
        disarm,
    )
}

fn plain_bundle(_: &SenderBuildRequest) -> Result<SenderBundle, BundleError> {
    Ok(SenderBundle::test_stub())
}

impl SenderSide {
    fn new(session: Option<SenderSession>, cache: Option<RestartCache>) -> Self {
        let mut bridge = SenderBridge::new_with_builder_and_arcs((), session, cache, None);
        bridge.flags_issued = 101;
        SenderSide {
            bridge: RefCell::new(Some(bridge)),
            stop_at_gate: 0,
            gates: Cell::new(0),
            builds: plain_bundle,
            requests: RefCell::new(Vec::new()),
            log: RefCell::new(Vec::new()),
            signals: RefCell::new(Vec::new()),
            released: RefCell::new(Vec::new()),
            old_raised_after: Cell::new(None),
        }
    }

    fn run(&self) {
        make_sender_rebuild_hook(100, 1, 1).run(self);
    }
}

impl SenderRebuildHost<()> for &SenderSide {
    fn stop_requested(self, flag: u64) -> (Self, bool) {
        assert_eq!(flag, 100);
        self.gates.set(self.gates.get() + 1);
        (self, self.stop_at_gate != 0 && self.gates.get() >= self.stop_at_gate)
    }

    fn lock(self) -> (Self, SenderBridge<()>) {
        (self, self.bridge.borrow_mut().take().expect("the bridge is free"))
    }

    fn unlock(self, bridge: SenderBridge<()>) -> Self {
        *self.bridge.borrow_mut() = Some(bridge);
        self
    }

    fn perform(self, step: SenderStep) -> Self {
        if step == SenderStep::RaiseStopFlag(100) {
            self.old_raised_after.set(Some(self.signals.borrow().len()));
            return self;
        }
        let what = match step {
            SenderStep::SuppressBye(_) => "suppress",
            SenderStep::DisarmEscalation(_) => "disarm",
            SenderStep::StopSignaling(_) => "stop",
            SenderStep::Shutdown(_) => "shutdown",
            SenderStep::RaiseStopFlag(_) => "raise",
            SenderStep::JoinDrain(_) => "join",
            SenderStep::StopSupervisor(_) => "supervisor",
            SenderStep::ShowStopped(_) => "stopped",
        };
        self.log.borrow_mut().push(what.to_string());
        self
    }

    fn build(self, request: SenderBuildRequest) -> (Self, Result<SenderBundle, BundleError>) {
        let built = (self.builds)(&request);
        self.requests.borrow_mut().push(request);
        (self, built)
    }

    fn release(self, generation: u64) -> Self {
        self.released.borrow_mut().push(generation);
        self
    }

    fn signal(self, signal: SupervisorSignal) -> Self {
        self.signals.borrow_mut().push(format!("{signal:?}"));
        self
    }
}

#[test]
fn rebuild_step6_calls_suppress_hook_before_shutdown() {
    let side = SenderSide::new(Some(old_session(Some(1), Some(2), None, None)), Some(cache()));
    side.run();
    assert_eq!(side.signals.borrow()[0], "RebuildSucceeded");
    assert_eq!(*side.log.borrow(), vec!["suppress", "shutdown"]);
}

#[test]
fn rebuild_step6_calls_stop_after_suppress_before_shutdown() {
    let side = SenderSide::new(
        Some(old_session(Some(1), Some(2), Some(3), None)),
        Some(cache()),
    );
    side.run();
    assert_eq!(side.signals.borrow()[0], "RebuildSucceeded");
    assert_eq!(*side.log.borrow(), vec!["suppress", "stop", "shutdown"]);
}

#[test]
fn rebuild_step6_disarms_escalation_before_stopping_signaling() {
    let side = SenderSide::new(
        Some(old_session(Some(1), Some(2), Some(3), Some(4))),
        Some(cache()),
    );
    side.run();
    assert_eq!(side.signals.borrow()[0], "RebuildSucceeded");
    assert_eq!(
        *side.log.borrow(),
        vec!["suppress", "disarm", "stop", "shutdown"]
    );
}

#[test]
fn post_swap_session_carries_new_generation_stop_and_disarm_hooks() {
    let mut side = SenderSide::new(
        Some(old_session(None, None, Some(3), Some(4))),
        Some(cache()),
    );
    side.builds = |_| {
        Ok(SenderBundle {
            stop_signaling_on_rebuild: Some(13),
            disarm_escalation_on_rebuild: Some(14),
            ..SenderBundle::test_stub()
        })
    };
    side.run();
    assert_eq!(side.signals.borrow()[0], "RebuildSucceeded");
    assert_eq!(*side.log.borrow(), vec!["disarm", "stop"]);
    let bridge = side.bridge.borrow();
    let session = bridge.as_ref().unwrap().session.as_ref().unwrap();
    assert_eq!(session.stop_signaling_on_rebuild, Some(13));
    assert_eq!(session.disarm_escalation_on_rebuild, Some(14));
    assert_eq!(session.suppress_bye_on_rebuild, None);
    assert_eq!(session.stop_flag, 101);
}

#[test]
fn sc_hwf_1_no_nic_at_rebuild_builder_returns_no_local_nic_and_worker_sends_rebuild_failed() {
    let mut side = SenderSide::new(None, Some(cache()));
    side.builds = |_| Err(BundleError::NoLocalNic);
    side.run();
    assert_eq!(*side.signals.borrow(), vec!["RebuildFailed"]);
}

#[test]
fn a_rebuild_that_works_reports_success_and_then_stop() {
    let side = SenderSide::new(Some(old_session(None, None, None, None)), Some(cache()));
    make_sender_rebuild_hook(100, 7, 2).run(&side);
    assert_eq!(*side.signals.borrow(), vec!["RebuildSucceeded", "Stop"]);
    assert_eq!(side.old_raised_after.get(), Some(2));
    assert_eq!(*side.released.borrow(), vec![100]);
    let requests = side.requests.borrow();
    assert_eq!(requests.len(), 1);
    assert_eq!(requests[0].stop_flag, 101);
    assert_eq!(requests[0].attempt, 2);
    assert!(requests[0].arm_media_watchdog);
    assert_eq!(requests[0].service_name, "test");
    assert_eq!(requests[0].channel, 70);
    assert!(side.log.borrow().is_empty());
    let bridge = side.bridge.borrow();
    let bridge = bridge.as_ref().unwrap();
    assert_eq!(bridge.flags_issued, 102);
    assert!(bridge.restart_cache.is_some());
}

#[test]
fn a_stop_at_any_gate_ends_the_rebuild_in_one_failure() {
    for gate in 1..=4u32 {
        let mut side = SenderSide::new(
            Some(old_session(Some(1), Some(2), None, None)),
            Some(cache()),
        );
        side.stop_at_gate = gate;
        side.builds = |_| {
            Ok(SenderBundle {
                shutdown: Some(9),
                drain_handles: vec![8],
                ..SenderBundle::test_stub()
            })
        };
        side.run();
        assert_eq!(*side.signals.borrow(), vec!["RebuildFailed"], "gate {gate}");
        assert_eq!(side.old_raised_after.get(), None, "gate {gate}");
        let expected: Vec<&str> = match gate {
            1 => vec![],
            2 => vec!["suppress", "shutdown"],
            3 => vec!["suppress", "shutdown", "raise"],
            _ => vec!["suppress", "shutdown", "raise", "shutdown", "join"],
        };
        assert_eq!(*side.log.borrow(), expected, "gate {gate}");
        assert_eq!(side.requests.borrow().len(), if gate > 2 { 1 } else { 0 });
        let bridge = side.bridge.borrow();
        assert_eq!(bridge.as_ref().unwrap().session.is_some(), gate == 1);
    }
}

#[test]
fn a_session_that_was_given_up_is_not_rebuilt() {
    let side = SenderSide::new(Some(old_session(Some(1), None, None, None)), None);
    side.run();
    assert_eq!(*side.signals.borrow(), vec!["RebuildFailed"]);
    assert!(side.log.borrow().is_empty());
    assert!(side.bridge.borrow().as_ref().unwrap().session.is_some());
}

#[test]
fn workers_are_named_after_their_attempt() {
    let worker = make_sender_rebuild_hook(100, 12, 3);
    assert_eq!(worker.thread_name(), "sm-rebuild-worker-sender-12");
    assert_eq!(worker.current_attempt, 3);
    assert!(matches!(
        worker.spawn_failed()[..],
        [SupervisorSignal::RebuildFailed]
    ));
    let worker = make_stream_rebuild_hook(100, 0);
    assert_eq!(worker.thread_name(), "sm-rebuild-worker-stream-0");
    assert!(matches!(
        worker.spawn_failed()[..],
        [SupervisorSignal::RebuildFailed]
    ));
}

/// A receiver whose stop flag goes up at a gate, by its number.
struct ReceiverSide {
    bridge: RefCell<Option<StreamBridge<()>>>,
    stop_at_gate: u32,
    gates: Cell<u32>,
    taken_probes: Cell<u32>,
    probes: Cell<u32>,
    slept: RefCell<Vec<u64>>,
    probe_denied: bool,
    build_fails: bool,
    mux_fails: bool,
    log: RefCell<Vec<StreamStep>>,
    signals: RefCell<Vec<String>>,
    released: RefCell<Vec<u64>>,
    built: RefCell<Vec<(u16, StreamBuildRequest)>>,
}

fn receiver_session() -> StreamSession {
    let bundle = ReceiverBundle {
        receiver: 1,
        pkt_rx: 2,
        signaling: Some(3),
        drain_handles: vec![4],
    };
    build_stream_session(70, bundle, 100, Ok(5)).unwrap()
}

impl ReceiverSide {
    fn new() -> Self {
        let cache = StreamRestartCache {
            udp_port: 7900,
            service_name: "_a._b.local.".to_string(),
            channel: 70,
            session_nonce: 6,
        };
        let mut bridge = StreamBridge::new_with_builder_and_arcs(
            (),
            Some(receiver_session()),
            Some(cache),
            None,
        );
        bridge.flags_issued = 101;
        ReceiverSide {
            bridge: RefCell::new(Some(bridge)),
            stop_at_gate: 0,
            gates: Cell::new(0),
            taken_probes: Cell::new(0),
            probes: Cell::new(0),
            slept: RefCell::new(Vec::new()),
            probe_denied: false,
            build_fails: false,
            mux_fails: false,
            log: RefCell::new(Vec::new()),
            signals: RefCell::new(Vec::new()),
            released: RefCell::new(Vec::new()),
            built: RefCell::new(Vec::new()),
        }
    }

    fn run(&self) {
        make_stream_rebuild_hook(100, 1).run(self);
    }
}

impl StreamRebuildHost<(), u16> for &ReceiverSide {
    fn stop_requested(self, flag: u64) -> (Self, bool) {
        assert_eq!(flag, 100);
        self.gates.set(self.gates.get() + 1);
        (self, self.stop_at_gate != 0 && self.gates.get() >= self.stop_at_gate)
    }

    fn lock(self) -> (Self, StreamBridge<()>) {
        (self, self.bridge.borrow_mut().take().expect("the bridge is free"))
    }

    fn unlock(self, bridge: StreamBridge<()>) -> Self {
        *self.bridge.borrow_mut() = Some(bridge);
        self
    }

    fn perform(self, step: StreamStep) -> Self {
        if step == StreamStep::RaiseStopFlag(100) {
            assert_eq!(*self.signals.borrow(), vec!["RebuildSucceeded", "Stop"]);
        }
        self.log.borrow_mut().push(step);
        self
    }

    fn probe(self, port: u16) -> (Self, Result<u16, BundleError>) {
        self.probes.set(self.probes.get() + 1);
        let answer = if self.probe_denied {
            Err(BundleError::Other("denied".to_string()))
        } else if self.probes.get() <= self.taken_probes.get() {
            Err(BundleError::PortInUse(port))
        } else {
            Ok(port)
        };
        (self, answer)
    }

    fn sleep(self, ns: u64) -> Self {
        self.slept.borrow_mut().push(ns);
        self
    }

    fn build(
        self,
        bind_ctx: BindCtx<u16>,
        request: StreamBuildRequest,
    ) -> (Self, Result<ReceiverBundle, BundleError>) {
        self.built.borrow_mut().push((bind_ctx.socket, request));
        if self.build_fails {
            return (self, Err(BundleError::Other("x".to_string())));
        }
        let answer = Ok(ReceiverBundle {
            receiver: 11,
            pkt_rx: 12,
            signaling: Some(13),
            drain_handles: vec![14],
        });
        (self, answer)
    }

    fn spawn_mux(self, mux: MuxStart) -> (Self, Result<u64, String>) {
        assert_eq!((mux.pkt_rx, mux.receiver), (12, 11));
        assert_eq!((mux.stop_flag, mux.channel), (101, 70));
        let answer = if self.mux_fails {
            Err("no threads".to_string())
        } else {
            Ok(15)
        };
        (self, answer)
    }

    fn release(self, generation: u64) -> Self {
        self.released.borrow_mut().push(generation);
        self
    }

    fn signal(self, signal: SupervisorSignal) -> Self {
        self.signals.borrow_mut().push(format!("{signal:?}"));
        self
    }
}

#[test]
fn a_receiver_is_rebuilt_on_a_fresh_socket() {
    let side = ReceiverSide::new();
    side.taken_probes.set(2);
    side.run();
    assert_eq!(*side.signals.borrow(), vec!["RebuildSucceeded", "Stop"]);
    assert_eq!(
        *side.log.borrow(),
        vec![
            StreamStep::DropReceiver(1),
            StreamStep::JoinMux(5),
            StreamStep::StopSignaling(3),
            StreamStep::RaiseStopFlag(100),
        ]
    );
    assert_eq!(side.probes.get(), 3);
    assert_eq!(*side.slept.borrow(), vec![100_000_000, 100_000_000]);
    let built = side.built.borrow();
    assert_eq!(built[0].0, 7900);
    assert_eq!(built[0].1.stop_flag, 101);
    assert_eq!(built[0].1.service_name, "_a._b.local.");
    let bridge = side.bridge.borrow();
    let session = bridge.as_ref().unwrap().session.as_ref().unwrap();
    assert_eq!(session.stop_flag, 101);
    assert_eq!(session.mux_handle, Some(15));
    assert_eq!(session.receiver, Some(11));
    assert_eq!(*side.released.borrow(), vec![100]);
}

#[test]
fn a_port_that_stays_taken_fails_the_rebuild() {
    let side = ReceiverSide::new();
    side.taken_probes.set(9);
    side.run();
    assert_eq!(*side.signals.borrow(), vec!["RebuildFailed"]);
    assert_eq!(side.probes.get(), 3);
    assert!(side.built.borrow().is_empty());
}

#[test]
fn a_receiver_that_cannot_be_built_fails_the_rebuild() {
    let mut side = ReceiverSide::new();
    side.build_fails = true;
    side.run();
    assert_eq!(*side.signals.borrow(), vec!["RebuildFailed"]);

    let mut side = ReceiverSide::new();
    side.mux_fails = true;
    side.run();
    assert_eq!(*side.signals.borrow(), vec!["RebuildFailed"]);
    assert_eq!(*side.released.borrow(), vec![100, 101]);
    assert!(side.bridge.borrow().as_ref().unwrap().session.is_none());
}

#[test]
fn a_stop_at_any_gate_ends_the_receivers_rebuild() {
    for gate in 1..=4u32 {
        let mut side = ReceiverSide::new();
        side.stop_at_gate = gate;
        side.run();
        assert_eq!(*side.signals.borrow(), vec!["RebuildFailed"], "gate {gate}");
        assert_eq!(side.built.borrow().len(), if gate > 2 { 1 } else { 0 });
        let log = side.log.borrow();
        match gate {
            1 => assert!(log.is_empty()),
            2 => assert_eq!(log.len(), 3),
            3 => assert_eq!(log[3..], [StreamStep::RaiseStopFlag(101)]),
            _ => assert_eq!(
                log[3..],
                [
                    StreamStep::RaiseStopFlag(101),
                    StreamStep::JoinMux(15),
                    StreamStep::JoinDrain(14),
                    StreamStep::StopSignaling(13),
                    StreamStep::DropReceiver(11),
                ]
            ),
        }
    }
}

#[test]
fn only_a_taken_port_is_probed_again() {
    let mut side = ReceiverSide::new();
    side.probe_denied = true;
    let (_, r) = probe_with_retry(&side, 7900);
    assert!(matches!(r, Err(BundleError::Other(_))));
    assert_eq!(side.probes.get(), 1);
    assert!(side.slept.borrow().is_empty());

    let side = ReceiverSide::new();
    side.taken_probes.set(1);
    let (_, r) = probe_with_retry(&side, 7900);
    assert!(matches!(r, Ok(7900)));
    assert_eq!(*side.slept.borrow(), vec![PROBE_RETRY_SLEEP_NS]);
}

#[test]
fn sc_ge_sender_stamps_live_attempt_on_published_offer() {
    let mut t1_8 = cache();
    t1_8.service_name = "t1-8".to_string();
    let side = SenderSide::new(None, Some(t1_8));
    let sender_attempt: u8 = 3;
    make_sender_rebuild_hook(100, 1, sender_attempt).run(&side);
    assert_eq!(side.signals.borrow()[0], "RebuildSucceeded");
    let requests = side.requests.borrow();
    assert_eq!(requests.len(), 1, "T1.8 FAIL: builder was not called");
    assert_eq!(
        requests[0].attempt, 3,
        "T1.8 FAIL: builder received attempt={:?}, expected 3 (REQ-GE-2)",
        requests[0].attempt
    );
    assert_eq!(requests[0].service_name, "t1-8");
}

#[test]
fn a_new_generation_never_gets_the_flag_of_the_old_one() {
    for issued in [100, 101, 7, u64::MAX] {
        let side = SenderSide::new(None, Some(cache()));
        side.bridge.borrow_mut().as_mut().unwrap().flags_issued = issued;
        side.run();
        let requests = side.requests.borrow();
        assert_ne!(requests[0].stop_flag, 100);
        let bridge = side.bridge.borrow();
        let bridge = bridge.as_ref().unwrap();
        assert_eq!(bridge.session.as_ref().unwrap().stop_flag, requests[0].stop_flag);
        assert!(bridge.flags_issued >= issued);
    }

    let mut bridge = StreamBridge::new_with_builder(());
    bridge.flags_issued = u64::MAX;
    assert_eq!(bridge.issue_flag_apart_from(u64::MAX), u64::MAX - 1);
    assert_eq!(bridge.issue_flag_apart_from(5), u64::MAX);
    bridge.flags_issued = 5;
    assert_eq!(bridge.issue_flag_apart_from(5), 6);
    assert_eq!(bridge.flags_issued, 7);
    assert_eq!(bridge.issue_flag_apart_from(5), 7);
}
