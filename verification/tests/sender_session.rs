use screen_mirror::coordinator::{
    NoopSignalingRefresh, SenderCoordinatorHooks, SignalingSupervisorRefresh,
};
use screen_mirror::errors::{BundleError, PortRejectReason, StartSenderError};
use screen_mirror::events::SenderStatusEvent;
use screen_mirror::sender::{
    forget_sender_session, plan_retry, plan_sender_start, retry_error, retry_session_inner,
    sender_diagnostics_impl, start_sender_inner, stop_sender_session, stop_sender_session_internal,
    RestartCache, SenderBridge, SenderBuildRequest, SenderBundle, SenderHost, SenderSession,
    SenderStep,
};
use screen_mirror::sender_drain::SenderCounters;
use std::cell::{Cell, RefCell};

const CHANNEL: u64 = 70;

type Built = Result<SenderBundle, BundleError>;

fn stub_builder(_request: SenderBuildRequest) -> Built {
    Ok(SenderBundle::test_stub())
}

/// What was done, in order.
struct Work {
    log: RefCell<Vec<String>>,
    steps: RefCell<Vec<SenderStep>>,
    /// A supervisor that a pipeline registers while it is built.
    registers: Option<u64>,
}

impl Work {
    fn new() -> Self {
        Work {
            log: RefCell::new(Vec::new()),
            steps: RefCell::new(Vec::new()),
            registers: None,
        }
    }

    fn done(&self) -> Vec<String> {
        self.log.borrow().clone()
    }
}

/// A bridge that commands take hold of, and the work that they have done.
struct Desk<'a, B> {
    bridge: RefCell<&'a mut SenderBridge<B>>,
    held: Cell<bool>,
    work: &'a Work,
}

impl<'a, B> Desk<'a, B> {
    fn new(bridge: &'a mut SenderBridge<B>, work: &'a Work) -> Self {
        Desk {
            bridge: RefCell::new(bridge),
            held: Cell::new(false),
            work,
        }
    }
}

impl<B: Clone + Fn(SenderBuildRequest) -> Built> SenderHost<B> for &Desk<'_, B> {
    fn lock(self) -> (Self, SenderBridge<B>) {
        assert!(!self.held.replace(true), "the bridge is free");
        let mut bridge = self.bridge.borrow_mut();
        let empty = SenderBridge::new_with_builder(bridge.builder.clone());
        (self, std::mem::replace(&mut **bridge, empty))
    }

    fn unlock(self, bridge: SenderBridge<B>) -> Self {
        assert!(self.held.replace(false));
        **self.bridge.borrow_mut() = bridge;
        self
    }

    fn perform(self, step: SenderStep) -> Self {
        assert!(!self.held.get(), "steps are taken while the bridge is free");
        self.work.log.borrow_mut().push(format!("{step:?}"));
        self.work.steps.borrow_mut().push(step);
        self
    }

    fn build(self, builder: B, request: SenderBuildRequest) -> (Self, Built) {
        assert!(!self.held.get(), "pipelines are built while the bridge is free");
        let mut log = self.work.log.borrow_mut();
        log.push(format!("Build({})", request.stop_flag));
        if let Some(supervisor) = self.work.registers {
            self.bridge.borrow_mut().supervisor_signal_tx = Some(supervisor);
        }
        (self, builder(request))
    }
}

fn start<B: Clone + Fn(SenderBuildRequest) -> Built>(
    bridge: &mut SenderBridge<B>,
    channel: u64,
    udp_port: Option<u16>,
    service_name: Option<String>,
) -> Result<SenderStatusEvent, StartSenderError> {
    start_with(bridge, &Work::new(), channel, udp_port, service_name)
}

fn start_with<B: Clone + Fn(SenderBuildRequest) -> Built>(
    bridge: &mut SenderBridge<B>,
    work: &Work,
    channel: u64,
    udp_port: Option<u16>,
    service_name: Option<String>,
) -> Result<SenderStatusEvent, StartSenderError> {
    start_sender_inner(&Desk::new(bridge, work), channel, udp_port, service_name).1
}

fn stop<B: Clone + Fn(SenderBuildRequest) -> Built>(
    bridge: &mut SenderBridge<B>,
) -> Vec<SenderStep> {
    let work = Work::new();
    stop_sender_session(&Desk::new(bridge, &work));
    work.steps.into_inner()
}

fn retry<B: Clone + Fn(SenderBuildRequest) -> Built>(
    bridge: &mut SenderBridge<B>,
    work: &Work,
    channel: u64,
) -> Result<SenderStatusEvent, String> {
    retry_session_inner(&Desk::new(bridge, work), channel).1
}

fn session_with(
    suppress: Option<u64>,
    stop_signaling: Option<u64>,
    disarm: Option<u64>,
) -> SenderSession {
    SenderSession::new(
        4,
        vec![31, 32],
        CHANNEL,
        SenderCounters::default(),
        Some(30),
        "sw_fake".to_string(),
        suppress,
        stop_signaling,
        disarm,
    )
}

#[test]
fn sc_s1_003_sender_bridge_accepts_pre_provisioned_supervisor_signal_tx() {
    let bridge = SenderBridge::new_with_builder_and_sup_tx(
        |_: SenderBuildRequest| -> Built { Err(BundleError::Other("test-only".to_string())) },
        Some(16),
    );
    assert!(
        bridge.supervisor_signal_tx.is_some(),
        "SC-S1-003: SenderBridge.supervisor_signal_tx must be Some after \
         new_with_builder_and_sup_tx construction — None would re-introduce the race"
    );
}

#[test]
fn req_wd_4_sender_double_start_does_not_reset_media_watchdog_fires() {
    let mut bridge = SenderBridge::new_with_builder(stub_builder);
    start(&mut bridge, CHANNEL, Some(0), None).expect("first start must succeed");
    bridge.media_watchdog_fires = 2;
    let err = start(&mut bridge, CHANNEL, Some(0), None)
        .expect_err("second start must return AlreadyRunning, not Ok(())");
    match err {
        StartSenderError::AlreadyRunning { .. } => {}
        other => panic!("expected AlreadyRunning, got {other:?}"),
    }
    assert_eq!(
        bridge.media_watchdog_fires, 2,
        "a rejected double-start (AlreadyRunning) must NOT reset the media-watchdog \
         fire counter — reset belongs AFTER the guard (sender/receiver symmetry)"
    );
    stop(&mut bridge);
}

#[test]
fn genuine_stop_does_not_call_suppress_hook() {
    let mut bridge = SenderBridge::new_with_builder(stub_builder);
    bridge.session = Some(session_with(Some(40), None, None));
    let steps = stop_sender_session_internal(&mut bridge);
    assert!(
        !steps.contains(&SenderStep::SuppressBye(40)),
        "SC-CONV-2-11 / R-5 FAIL: stop_sender_session_internal must NOT call \
         suppress_bye_on_rebuild"
    );
}

#[test]
fn genuine_stop_does_not_call_stop_signaling_on_rebuild() {
    let mut bridge = SenderBridge::new_with_builder(stub_builder);
    bridge.session = Some(session_with(None, Some(41), None));
    let steps = stop_sender_session_internal(&mut bridge);
    assert!(
        !steps.contains(&SenderStep::StopSignaling(41)),
        "SC-RFG-4 / D-RFG-5 FAIL: stop_sender_session_internal must NOT call \
         stop_signaling_on_rebuild"
    );
}

#[test]
fn new_generation_suppress_is_none() {
    let bundle = SenderBundle::test_stub();
    assert!(
        bundle.suppress_bye_on_rebuild.is_none(),
        "SC-CONV-2-11b FAIL: test_stub() must have suppress_bye_on_rebuild = None"
    );
}

#[test]
fn test_stub_stop_signaling_on_rebuild_is_none() {
    let bundle = SenderBundle::test_stub();
    assert!(
        bundle.stop_signaling_on_rebuild.is_none(),
        "SC-RFG-5 FAIL: test_stub() must have stop_signaling_on_rebuild = None"
    );
}

#[test]
fn a_user_stop_takes_the_session_down_in_order() {
    let mut bridge = SenderBridge::new_with_builder(stub_builder);
    bridge.session = Some(session_with(Some(40), Some(41), Some(42)));
    bridge.supervisor_signal_tx = Some(9);
    assert_eq!(
        stop(&mut bridge),
        vec![
            SenderStep::StopSupervisor(9),
            SenderStep::RaiseStopFlag(4),
            SenderStep::Shutdown(30),
            SenderStep::JoinDrain(31),
            SenderStep::JoinDrain(32),
            SenderStep::ShowStopped(CHANNEL),
        ]
    );
    assert!(stop(&mut bridge).is_empty());
}

#[test]
fn a_cold_start_asks_for_the_defaults() {
    let asked = RefCell::new(Vec::new());
    let mut bridge = SenderBridge::new_with_builder(|request: SenderBuildRequest| -> Built {
        asked.borrow_mut().push(request);
        Ok(SenderBundle::test_stub())
    });
    bridge.media_watchdog_fires = 7;
    bridge.supervisor_signal_tx = Some(1);
    let shown = start(&mut bridge, CHANNEL, None, None).unwrap();
    assert!(matches!(shown, SenderStatusEvent::Connecting));
    let asked = asked.borrow();
    assert_eq!(asked.len(), 1);
    assert_eq!(asked[0].udp_port, 0);
    assert_eq!(asked[0].service_name, "_screen-mirror._tcp.local.");
    assert_eq!(asked[0].channel, CHANNEL);
    assert_eq!(asked[0].stop_flag, 0);
    assert_eq!(asked[0].attempt, 1);
    assert!(!asked[0].arm_media_watchdog);
    assert_eq!(bridge.media_watchdog_fires, 0);
    assert_eq!(bridge.supervisor_signal_tx, None);
    assert_eq!(bridge.flags_issued, 1);
    let args = bridge.current_args.as_ref().unwrap();
    assert_eq!(args.udp_port, 0);
    assert_eq!(args.service_name, "_screen-mirror._tcp.local.");
    let cache = bridge.restart_cache.as_ref().unwrap();
    assert_eq!(cache.channel, CHANNEL);
    assert_eq!(bridge.session.as_ref().unwrap().backend_name(), "sw_fake");
}

#[test]
fn bad_arguments_are_refused_before_anything_is_built() {
    let mut bridge = SenderBridge::new_with_builder(|_: SenderBuildRequest| -> Built {
        panic!("must not build")
    });
    match start(&mut bridge, CHANNEL, Some(80), Some("bogus".to_string())) {
        Err(StartSenderError::InvalidPort {
            value: 80,
            reason: PortRejectReason::Privileged,
        }) => {}
        other => panic!("expected InvalidPort, got {other:?}"),
    }
    match start(&mut bridge, CHANNEL, None, Some("bogus".to_string())) {
        Err(StartSenderError::InvalidServiceName { value, reason }) => {
            assert_eq!(value, "bogus");
            assert_eq!(reason, "must end with '.local.'");
        }
        other => panic!("expected InvalidServiceName, got {other:?}"),
    }
    assert_eq!(bridge.flags_issued, 0);
}

#[test]
fn an_active_session_answers_with_its_own_arguments() {
    let mut bridge = SenderBridge::new_with_builder(stub_builder);
    start(&mut bridge, CHANNEL, Some(9000), Some("_a._b.local.".to_string())).unwrap();
    match start(&mut bridge, 71, Some(9001), None) {
        Err(StartSenderError::AlreadyRunning {
            udp_port,
            service_name,
        }) => {
            assert_eq!(udp_port, 9000);
            assert_eq!(service_name, "_a._b.local.");
        }
        other => panic!("expected AlreadyRunning, got {other:?}"),
    }
    stop(&mut bridge);
    assert!(start(&mut bridge, 71, Some(9001), None).is_ok());
}

#[test]
fn a_failed_build_leaves_no_session() {
    let failures: Vec<(fn(SenderBuildRequest) -> Built, &str)> = vec![
        (|_| Err(BundleError::PortInUse(9)), "UDP port 9 is already in use"),
        (
            |_| Err(BundleError::NoLocalNic),
            "bundle build failed: no local network interface available",
        ),
        (
            |_| Err(BundleError::Other("x".to_string())),
            "bundle build failed: x",
        ),
    ];
    for (builder, text) in failures {
        let mut bridge = SenderBridge::new_with_builder(builder);
        let err = start(&mut bridge, CHANNEL, None, None).unwrap_err();
        assert_eq!(err.message(), text);
        assert!(bridge.session.is_none());
        assert!(bridge.current_args.is_none());
        assert!(bridge.restart_cache.is_none());
    }
}

#[test]
fn a_retry_needs_a_session_that_was_started() {
    let mut bridge = SenderBridge::new_with_builder(stub_builder);
    let work = Work::new();
    let err = retry(&mut bridge, &work, CHANNEL).unwrap_err();
    assert!(work.done().is_empty());
    assert_eq!(
        err,
        "NoCachedParams: no cached session params — start a session first"
    );
}

#[test]
fn a_retry_stops_the_session_and_starts_it_again() {
    let mut bridge = SenderBridge::new_with_builder(stub_builder);
    start(&mut bridge, CHANNEL, Some(9000), Some("_a._b.local.".to_string())).unwrap();
    let work = Work::new();
    let shown = retry(&mut bridge, &work, 71).unwrap();
    assert!(matches!(shown, SenderStatusEvent::Connecting));
    assert_eq!(
        work.done(),
        vec!["RaiseStopFlag(0)", "ShowStopped(70)", "Build(1)"]
    );
    let session = bridge.session.as_ref().unwrap();
    assert_eq!(session.channel, 71);
    assert_eq!(session.stop_flag, 1);
    let args = bridge.current_args.as_ref().unwrap();
    assert_eq!((args.udp_port, args.service_name.as_str()), (9000, "_a._b.local."));
}

#[test]
fn a_retry_reports_why_it_failed() {
    let mut bridge = SenderBridge::new_with_builder_and_arcs(
        |_: SenderBuildRequest| -> Built { Err(BundleError::PortInUse(9000)) },
        None,
        Some(RestartCache {
            udp_port: 9000,
            service_name: "_a._b.local.".to_string(),
            channel: CHANNEL,
            session_nonce: 5,
        }),
        None,
    );
    let err = retry(&mut bridge, &Work::new(), 71).unwrap_err();
    assert_eq!(
        err,
        "retry_session start_sender_inner failed: UDP port 9000 is already in use"
    );
}

#[test]
fn sender_diagnostics_show_the_counters() {
    let mut bridge = SenderBridge::new_with_builder(stub_builder);
    assert_eq!(sender_diagnostics_impl(&bridge).unwrap_err(), "not running");
    let mut session = session_with(None, None, None);
    session.counters = SenderCounters {
        dropped_frames_encoder: 1,
        dropped_frames_transport: 2,
        keyframe_requests_received: 3,
    };
    assert_eq!(session.counters.count_keyframe_request(), 4);
    bridge.session = Some(session);
    let stats = sender_diagnostics_impl(&bridge).unwrap();
    assert_eq!(stats.dropped_frames_encoder, 1);
    assert_eq!(stats.dropped_frames_transport, 2);
    assert_eq!(stats.keyframe_requests_received, 4);
    assert!(stats.running);
    assert_eq!(stats.backend_name, "sw_fake");
}

#[test]
fn hooks_that_do_nothing_start_at_the_first_attempt() {
    let hooks = SenderCoordinatorHooks::noop();
    assert_eq!(hooks.sender_attempt, 1);
    assert_eq!(hooks.initiate_rebuild, None);
    NoopSignalingRefresh.set_supervisor_signal_tx(3);
}

#[test]
fn sc_rbl_1_bridge_arc_identity_builder_uses_passed_in_arc() {
    let mut bridge = SenderBridge::new_with_builder_and_sup_tx(stub_builder, None);
    let mut work = Work::new();
    work.registers = Some(16);
    start_with(&mut bridge, &work, CHANNEL, Some(0), None)
        .expect("SC-RBL-1: start_sender_inner must succeed");
    assert_eq!(
        bridge.supervisor_signal_tx,
        Some(16),
        "SC-RBL-1: bridge.supervisor_signal_tx must be Some after builder ran"
    );
    stop(&mut bridge);
}

#[test]
fn sc_rbl_3_stop_sender_session_reaches_supervisor_via_bridge_arc() {
    let mut bridge = SenderBridge::new_with_builder_and_sup_tx(stub_builder, None);
    let mut work = Work::new();
    work.registers = Some(4);
    start_with(&mut bridge, &work, CHANNEL, Some(0), None).expect("SC-RBL-3: start must succeed");
    let steps = stop(&mut bridge);
    assert_eq!(steps[0], SenderStep::StopSupervisor(4));
    assert!(bridge.session.is_none());
}

#[test]
fn a_stop_without_a_session_does_nothing() {
    let mut bridge = SenderBridge::new_with_builder_and_sup_tx(stub_builder, Some(4));
    assert!(stop(&mut bridge).is_empty());
    assert_eq!(bridge.supervisor_signal_tx, Some(4));
}

#[test]
fn arguments_are_filled_in() {
    let args = plan_sender_start(None, None).unwrap();
    assert_eq!((args.udp_port, args.service_name.as_str()), (0, "_screen-mirror._tcp.local."));
    let args = plan_sender_start(Some(1024), Some("_a._b.local.".to_string())).unwrap();
    assert_eq!((args.udp_port, args.service_name.as_str()), (1024, "_a._b.local."));
    assert!(plan_sender_start(Some(1023), None).is_err());
}

#[test]
fn a_fresh_bridge_has_no_session() {
    for bridge in [SenderBridge::new(), SenderBridge::default()] {
        assert!(bridge.session.is_none());
        assert!(bridge.current_args.is_none());
        assert!(bridge.restart_cache.is_none());
        assert_eq!(bridge.supervisor_signal_tx, None);
        assert_eq!(bridge.media_watchdog_fires, 0);
        assert_eq!(bridge.flags_issued, 0);
    }
}

#[test]
fn a_retry_is_planned_from_what_was_started() {
    let mut bridge = SenderBridge::new_with_builder(stub_builder);
    assert_eq!(
        plan_retry(&bridge).unwrap_err(),
        "NoCachedParams: no cached session params — start a session first"
    );
    start(&mut bridge, CHANNEL, Some(9000), Some("_a._b.local.".to_string())).unwrap();
    let args = plan_retry(&bridge).unwrap();
    assert_eq!((args.udp_port, args.service_name.as_str()), (9000, "_a._b.local."));
    assert_eq!(
        retry_error(&StartSenderError::PortInUse { port: 9 }),
        "retry_session start_sender_inner failed: UDP port 9 is already in use"
    );
}

#[test]
fn a_session_that_was_taken_down_is_forgotten_afterwards() {
    let mut bridge = SenderBridge::new_with_builder(stub_builder);
    start(&mut bridge, CHANNEL, None, None).unwrap();
    stop_sender_session_internal(&mut bridge);
    assert!(bridge.session.is_none());
    assert!(bridge.restart_cache.is_some());
    forget_sender_session(&mut bridge);
    assert!(bridge.restart_cache.is_none());
    assert!(bridge.current_args.is_none());
}

#[test]
fn a_start_asks_the_builder_once_and_a_refused_one_never() {
    let mut bridge = SenderBridge::new_with_builder(stub_builder);
    let work = Work::new();
    assert!(start_with(&mut bridge, &work, CHANNEL, Some(80), None).is_err());
    let bogus = Some("bogus".to_string());
    assert!(start_with(&mut bridge, &work, CHANNEL, None, bogus).is_err());
    assert!(work.done().is_empty());
    assert!(start_with(&mut bridge, &work, CHANNEL, None, None).is_ok());
    assert_eq!(work.done(), vec!["Build(0)"]);
    assert!(start_with(&mut bridge, &work, CHANNEL, None, None).is_err());
    assert_eq!(work.done(), vec!["Build(0)"]);
}

#[test]
fn fires_are_counted_and_cleared() {
    let mut bridge = SenderBridge::new_with_builder(());
    assert_eq!(bridge.count_fire(), 0);
    assert_eq!(bridge.count_fire(), 1);
    assert_eq!(bridge.media_watchdog_fires, 2);
    bridge.clear_fires();
    assert_eq!(bridge.media_watchdog_fires, 0);
    bridge.media_watchdog_fires = u8::MAX;
    assert_eq!(bridge.count_fire(), u8::MAX);
    assert_eq!(bridge.media_watchdog_fires, 0);
}

#[test]
fn keyframe_requests_count_on_the_session_and_wrap() {
    let mut bridge = SenderBridge::new_with_builder(());
    bridge.count_keyframe_request();
    assert!(bridge.session.is_none());
    let mut session = session_with(None, None, None);
    session.counters.keyframe_requests_received = u64::MAX;
    bridge.session = Some(session);
    bridge.count_keyframe_request();
    let counters = |b: &SenderBridge<()>| b.session.as_ref().unwrap().counters;
    assert_eq!(counters(&bridge).keyframe_requests_received, 0);
    bridge.count_keyframe_request();
    assert_eq!(counters(&bridge).keyframe_requests_received, 1);
}

#[test]
fn a_given_session_keeps_its_stop_flag_to_itself() {
    let mut bridge = SenderBridge::new_with_builder_and_arcs(
        stub_builder,
        Some(session_with(None, None, None)),
        None,
        None,
    );
    assert_eq!(bridge.flags_issued, 5);
    stop(&mut bridge);
    start(&mut bridge, CHANNEL, None, None).unwrap();
    assert_eq!(bridge.session.as_ref().unwrap().stop_flag, 5);
}
