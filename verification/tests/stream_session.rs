use screen_mirror::channel::{BridgeCounters, StreamStats};
use screen_mirror::errors::{BundleError, PortRejectReason, StartStreamError, TransportError};
use screen_mirror::nonce::nonzero_session_nonce;
use screen_mirror::stream::{
    admit_stream_start, attach_stream, build_stream_session, forget_stream_session,
    plan_stream_start, start_stream_inner, stop_stream_session, stop_stream_session_internal,
    stream_diagnostics, BindCtx, MuxStart, ReceiverBundle, ReceiverOps, StopFlags, StreamBridge,
    StreamBuildRequest, StreamHost, StreamSession, StreamStep, DEFAULT_UDP_PORT,
};
use std::cell::{Cell, RefCell};

const CHANNEL: u64 = 70;

type Built = Result<ReceiverBundle, BundleError>;

fn fake_bundle() -> ReceiverBundle {
    ReceiverBundle {
        receiver: 11,
        pkt_rx: 12,
        signaling: None,
        drain_handles: Vec::new(),
    }
}

fn full_bundle() -> ReceiverBundle {
    ReceiverBundle {
        receiver: 21,
        pkt_rx: 22,
        signaling: Some(23),
        drain_handles: vec![24, 25],
    }
}

fn always_built(_ctx: BindCtx<u16>, _request: StreamBuildRequest) -> Built {
    Ok(fake_bundle())
}

fn never_called(_ctx: BindCtx<u16>, _request: StreamBuildRequest) -> Built {
    panic!("builder must NOT be called when validation fails")
}

/// A bridge that commands take hold of, on a machine whose ports and threads are what the two
/// functions say.
struct Machine<'a, B, P, M> {
    bridge: RefCell<&'a mut StreamBridge<B>>,
    held: Cell<bool>,
    steps: RefCell<Vec<StreamStep>>,
    probe: P,
    spawn: M,
    /// A supervisor that a pipeline registers while it is built.
    registers: Option<u64>,
}

fn machine<B, P, M>(bridge: &mut StreamBridge<B>, probe: P, spawn: M) -> Machine<'_, B, P, M>
where
    P: Fn(u16) -> Result<u16, BundleError>,
    M: Fn(MuxStart) -> Result<u64, String>,
{
    Machine {
        bridge: RefCell::new(bridge),
        held: Cell::new(false),
        steps: RefCell::new(Vec::new()),
        probe,
        spawn,
        registers: None,
    }
}

impl<B, P, M> StreamHost<B, u16> for &Machine<'_, B, P, M>
where
    B: Clone + Fn(BindCtx<u16>, StreamBuildRequest) -> Built,
    P: Fn(u16) -> Result<u16, BundleError>,
    M: Fn(MuxStart) -> Result<u64, String>,
{
    fn lock(self) -> (Self, StreamBridge<B>) {
        assert!(!self.held.replace(true), "the bridge is free");
        let mut bridge = self.bridge.borrow_mut();
        let empty = StreamBridge::new_with_builder(bridge.builder.clone());
        (self, std::mem::replace(&mut **bridge, empty))
    }

    fn unlock(self, bridge: StreamBridge<B>) -> Self {
        assert!(self.held.replace(false));
        **self.bridge.borrow_mut() = bridge;
        self
    }

    fn perform(self, step: StreamStep) -> Self {
        assert!(!self.held.get(), "steps are taken while the bridge is free");
        self.steps.borrow_mut().push(step);
        self
    }

    fn probe(self, port: u16) -> (Self, Result<u16, BundleError>) {
        assert!(!self.held.get(), "ports are bound while the bridge is free");
        (self, (self.probe)(port))
    }

    fn build(
        self,
        builder: B,
        bind_ctx: BindCtx<u16>,
        request: StreamBuildRequest,
    ) -> (Self, Built) {
        assert!(!self.held.get(), "pipelines are built while the bridge is free");
        if let Some(supervisor) = self.registers {
            self.bridge.borrow_mut().supervisor_signal_tx = Some(supervisor);
        }
        (self, builder(bind_ctx, request))
    }

    fn spawn_mux(self, mux: MuxStart) -> (Self, Result<u64, String>) {
        (self, (self.spawn)(mux))
    }
}

fn stop<B>(bridge: &mut StreamBridge<B>) -> Vec<StreamStep>
where
    B: Clone + Fn(BindCtx<u16>, StreamBuildRequest) -> Built,
{
    let host = machine(bridge, |port| Ok(port), |_| Ok(0));
    stop_stream_session(&host);
    host.steps.into_inner()
}

/// The stop flags that are up.
struct Raised(Vec<u64>);

impl StopFlags for &Raised {
    fn is_raised(self, flag: u64) -> (Self, bool) {
        (self, self.0.contains(&flag))
    }
}

fn running<B>(bridge: &StreamBridge<B>) -> bool {
    bridge.is_running(&Raised(vec![])).1
}

fn start<B: Clone + Fn(BindCtx<u16>, StreamBuildRequest) -> Built>(
    bridge: &mut StreamBridge<B>,
    udp_port: Option<u16>,
    service_name: Option<&str>,
) -> Result<(), StartStreamError> {
    start_stream_inner(
        &machine(bridge, |port| Ok(port), |mux| Ok(mux.pkt_rx + 1000)),
        CHANNEL,
        udp_port,
        service_name.map(|s| s.to_string()),
    )
    .1
}

fn session_of(bundle: ReceiverBundle) -> StreamSession {
    build_stream_session(CHANNEL, bundle, 5, Ok(99)).expect("build_stream_session must succeed")
}

fn bridge_with_session() -> StreamBridge<fn(BindCtx<u16>, StreamBuildRequest) -> Built> {
    StreamBridge::new_with_builder_and_arcs(always_built, Some(session_of(fake_bundle())), None, None)
}

/// Receivers that count what is asked of them.
struct FakeReceivers {
    asked: RefCell<Vec<u64>>,
    answer: Cell<bool>,
    drops: u64,
}

impl FakeReceivers {
    fn new() -> Self {
        FakeReceivers {
            asked: RefCell::new(Vec::new()),
            answer: Cell::new(true),
            drops: 0,
        }
    }
}

impl ReceiverOps for &FakeReceivers {
    fn request_keyframe(self, receiver: u64) -> (Self, Result<(), TransportError>) {
        self.asked.borrow_mut().push(receiver);
        if self.answer.get() {
            (self, Ok(()))
        } else {
            (self, Err(TransportError::NotRunning))
        }
    }

    fn dropped_frames(self, _receiver: u64) -> (Self, u64) {
        (self, self.drops)
    }
}

/// A builder that remembers what it was asked for.
struct BuilderProbe {
    invocations: RefCell<Vec<(u16, String)>>,
}

impl BuilderProbe {
    fn new() -> Self {
        BuilderProbe {
            invocations: RefCell::new(Vec::new()),
        }
    }

    fn calls(&self) -> Vec<(u16, String)> {
        self.invocations.borrow().clone()
    }

    fn call_count(&self) -> usize {
        self.invocations.borrow().len()
    }

    fn build(&self, request: StreamBuildRequest, error: Option<&str>) -> Built {
        self.invocations
            .borrow_mut()
            .push((request.udp_port, request.service_name));
        match error {
            None => Ok(fake_bundle()),
            Some(msg) => Err(BundleError::Other(msg.to_string())),
        }
    }
}

#[test]
fn stream_session_holds_channel_like() {
    let session = session_of(fake_bundle());
    assert_eq!(session.channel, CHANNEL);
    let bridge = StreamBridge::new_with_builder_and_arcs((), Some(session), None, None);
    assert!(running(&bridge));
}

#[test]
fn stream_bridge_new_is_not_running() {
    let bridge = StreamBridge::new();
    assert!(!running(&bridge));
}

#[test]
fn stream_bridge_default_no_session() {
    let bridge = StreamBridge::default();
    assert!(!running(&bridge));
    assert!(bridge.session.is_none());
}

#[test]
fn stream_bridge_with_session_is_running() {
    let bridge = bridge_with_session();
    assert!(running(&bridge));
}

#[test]
fn stream_bridge_stop_flag_stops_session() {
    let mut bridge = bridge_with_session();
    assert!(running(&bridge));
    let flag = bridge.session.as_ref().unwrap().stop_flag;
    assert!(!bridge.is_running(&Raised(vec![flag])).1);
    assert!(bridge.is_running(&Raised(vec![flag + 1])).1);
}

#[test]
fn pli_fired_once_on_attach() {
    let mut bridge = bridge_with_session();
    let receivers = FakeReceivers::new();
    attach_stream(&mut bridge, &receivers, 1_000);
    let session = bridge.session.as_ref().unwrap();
    assert_eq!(
        session.counters.keyframe_requests_fired, 1,
        "PLI should have been fired exactly once"
    );
    assert_eq!(session.last_pli, Some(1_000));
    assert_eq!(*receivers.asked.borrow(), vec![11]);
}

#[test]
fn pli_rate_limited_within_2s() {
    let mut bridge = bridge_with_session();
    let receivers = FakeReceivers::new();
    let now: u64 = 5_000_000_000;
    attach_stream(&mut bridge, &receivers, now);
    attach_stream(&mut bridge, &receivers, now);
    attach_stream(&mut bridge, &receivers, now + 1_999_999_999);
    assert_eq!(
        bridge.session.as_ref().unwrap().counters.keyframe_requests_fired, 1,
        "second PLI within 2s should be rate-limited"
    );
    assert_eq!(*receivers.asked.borrow(), vec![11], "the receiver is not even asked");
    attach_stream(&mut bridge, &receivers, now + 2_000_000_000);
    assert_eq!(bridge.session.as_ref().unwrap().counters.keyframe_requests_fired, 2);
}

#[test]
fn a_refused_keyframe_request_may_be_repeated_at_once() {
    let mut bridge = bridge_with_session();
    let receivers = FakeReceivers::new();
    receivers.answer.set(false);
    attach_stream(&mut bridge, &receivers, 7);
    assert_eq!(bridge.session.as_ref().unwrap().last_pli, None);
    receivers.answer.set(true);
    attach_stream(&mut bridge, &receivers, 8);
    assert_eq!(bridge.session.as_ref().unwrap().last_pli, Some(8));
    assert_eq!(receivers.asked.borrow().len(), 2);
}

#[test]
fn attaching_without_a_session_asks_nothing() {
    let mut bridge = StreamBridge::new_with_builder(());
    let receivers = FakeReceivers::new();
    attach_stream(&mut bridge, &receivers, 7);
    assert!(receivers.asked.borrow().is_empty());
}

#[test]
fn stop_stream_is_idempotent() {
    let mut bridge = StreamBridge::new_with_builder(always_built);
    assert!(stop(&mut bridge).is_empty());
    assert!(stop(&mut bridge).is_empty());
}

#[test]
fn test_bridge_new_with_builder_stores_builder() {
    let bridge = StreamBridge::new_with_builder(never_called);
    assert!(bridge.current_args.is_none());
    let _ = bridge.builder;
}

#[test]
fn test_send_sync_compile_gate() {
    fn _s<T: Send + Sync + 'static>() {}
    _s::<StreamBridge<fn(BindCtx<u16>, StreamBuildRequest) -> Built>>();
}

#[test]
fn start_stream_wires_receiver_some_not_none() {
    let session = session_of(fake_bundle());
    assert!(
        session.receiver.is_some(),
        "start_stream must wire receiver (Some), not leave it None"
    );
}

#[test]
fn start_stream_spawns_mux_thread() {
    let session = session_of(fake_bundle());
    assert!(
        session.mux_handle.is_some(),
        "build_stream_session must spawn the mux thread"
    );
}

#[test]
fn a_session_starts_out_fresh() {
    let session = session_of(full_bundle());
    assert_eq!(session.stop_flag, 5);
    assert_eq!(session.mux_handle, Some(99));
    assert_eq!(session.receiver, Some(21));
    assert_eq!(session.signaling, Some(23));
    assert_eq!(session.drain_handles, vec![24, 25]);
    assert_eq!(session.counters, BridgeCounters::default());
    assert_eq!(session.last_pli, None);
    assert!(session.is_running(&Raised(vec![])).1);
}

#[test]
fn a_mux_thread_that_does_not_start_fails_the_session() {
    match build_stream_session(CHANNEL, fake_bundle(), 5, Err("no threads".to_string())) {
        Err(text) => assert_eq!(text, "failed to spawn mux thread: no threads"),
        Ok(session) => panic!("expected a failure, got {session:?}"),
    }
}

#[test]
fn test_start_stream_inner_exists_and_returns_ok_for_valid_args() {
    let probe = BuilderProbe::new();
    let mut bridge = StreamBridge::new_with_builder(|_: BindCtx<u16>, request: StreamBuildRequest| {
        probe.build(request, None)
    });
    let result = start(&mut bridge, Some(7901), None);
    assert!(
        result.is_ok(),
        "start_stream_inner must return Ok(()) for default args: {result:?}"
    );
    assert_eq!(probe.calls().len(), 1, "builder must be invoked exactly once");
}

#[test]
fn test_start_stream_inner_sets_session_on_success() {
    let mut bridge = StreamBridge::new_with_builder(always_built);
    start(&mut bridge, Some(7901), None).unwrap();
    assert!(
        running(&bridge),
        "bridge must be running after start_stream_inner succeeds"
    );
}

#[test]
fn test_start_stream_inner_invalid_port_zero_rejects_before_builder() {
    let mut bridge = StreamBridge::new_with_builder(never_called);
    match start(&mut bridge, Some(0), None) {
        Err(StartStreamError::InvalidPort {
            value: 0,
            reason: PortRejectReason::Zero,
        }) => {}
        other => {
            panic!("expected Err(InvalidPort {{ value: 0, reason: Zero }}), got {other:?}")
        }
    }
}

#[test]
fn test_start_stream_inner_invalid_port_privileged_rejects_before_builder() {
    let mut bridge = StreamBridge::new_with_builder(never_called);
    match start(&mut bridge, Some(80), None) {
        Err(StartStreamError::InvalidPort {
            value: 80,
            reason: PortRejectReason::Privileged,
        }) => {}
        other => panic!(
            "expected Err(InvalidPort {{ value: 80, reason: Privileged }}), got {other:?}"
        ),
    }
}

#[test]
fn test_start_stream_inner_invalid_service_name_rejects_before_builder() {
    let mut bridge = StreamBridge::new_with_builder(never_called);
    match start(&mut bridge, None, Some("bogus")) {
        Err(StartStreamError::InvalidServiceName { value, .. }) => {
            assert_eq!(value, "bogus");
        }
        other => panic!("expected Err(InvalidServiceName), got {other:?}"),
    }
}

#[test]
fn test_start_stream_inner_none_args_resolve_to_defaults_in_builder() {
    let probe = BuilderProbe::new();
    let mut bridge = StreamBridge::new_with_builder(|_: BindCtx<u16>, request: StreamBuildRequest| {
        probe.build(request, None)
    });
    start(&mut bridge, Some(7901), None).unwrap();
    assert_eq!(
        probe.calls(),
        vec![(7901, "_screen-mirror._tcp.local.".to_string())],
        "builder must receive the port passed in and the default service name"
    );
}

#[test]
fn test_start_stream_inner_custom_args_reach_builder() {
    let probe = BuilderProbe::new();
    let mut bridge = StreamBridge::new_with_builder(|_: BindCtx<u16>, request: StreamBuildRequest| {
        probe.build(request, None)
    });
    start(&mut bridge, Some(7900), Some("_my-mirror._tcp.local.")).unwrap();
    assert_eq!(
        probe.calls(),
        vec![(7900u16, "_my-mirror._tcp.local.".to_string())],
        "custom args must be passed through to the builder unchanged"
    );
}

#[test]
fn test_start_stream_inner_builder_other_error_returns_bundle_build_failed() {
    let mut bridge = StreamBridge::new_with_builder(|_: BindCtx<u16>, _: StreamBuildRequest| -> Built {
        Err(BundleError::Other(
            "some unrelated build failure".to_string(),
        ))
    });
    match start(&mut bridge, Some(7901), None) {
        Err(StartStreamError::BundleBuildFailed(msg)) => {
            assert_eq!(msg, "some unrelated build failure");
        }
        other => panic!(
            "expected Err(BundleBuildFailed(\"some unrelated build failure\")), got {other:?}"
        ),
    }
    assert!(bridge.current_args.is_none());
    assert!(!running(&bridge));
}

#[test]
fn test_current_args_set_on_successful_start_custom_args() {
    let mut bridge = StreamBridge::new_with_builder(always_built);
    start(&mut bridge, Some(7900), Some("_my-mirror._tcp.local."))
        .expect("start_stream_inner must succeed with valid args");
    assert_eq!(
        bridge.current_args,
        Some((7900u16, "_my-mirror._tcp.local.".to_string())),
        "current_args must be Some((7900, \"_my-mirror._tcp.local.\")) after successful start"
    );
}

#[test]
fn test_current_args_set_on_successful_start_default_args() {
    let mut bridge = StreamBridge::new_with_builder(always_built);
    start(&mut bridge, Some(7901), None)
        .expect("start_stream_inner must succeed with default args");
    assert_eq!(
        bridge.current_args,
        Some((7901, "_screen-mirror._tcp.local.".to_string())),
    );
}

#[test]
fn test_double_start_same_args_returns_already_running() {
    let mut bridge = StreamBridge::new_with_builder(always_built);
    start(&mut bridge, Some(7901), None).expect("first start must succeed");
    let err = start(&mut bridge, Some(7901), None)
        .expect_err("second start must return AlreadyRunning, not Ok(())");
    match err {
        StartStreamError::AlreadyRunning {
            current_port,
            current_service_name,
        } => {
            assert_eq!(
                current_port, 7901,
                "AlreadyRunning must carry the CURRENT port (picked_port)"
            );
            assert_eq!(
                current_service_name, "_screen-mirror._tcp.local.",
                "AlreadyRunning must carry the CURRENT service name"
            );
        }
        other => panic!("expected AlreadyRunning, got {other:?}"),
    }
}

#[test]
fn test_double_start_different_args_returns_already_running_with_current_args() {
    let mut bridge = StreamBridge::new_with_builder(always_built);
    start(&mut bridge, Some(7901), None).expect("first start must succeed");
    let err = start(&mut bridge, Some(7900), Some("_other-service._tcp.local."))
        .expect_err("second start must return AlreadyRunning, not Ok(())");
    match err {
        StartStreamError::AlreadyRunning {
            current_port,
            current_service_name,
        } => {
            assert_eq!(
                current_port, 7901,
                "AlreadyRunning must carry the CURRENT port (picked_port), not the new caller's port (7900)"
            );
            assert_eq!(
                current_service_name, "_screen-mirror._tcp.local.",
                "AlreadyRunning must carry the CURRENT service name, not the new caller's"
            );
        }
        other => panic!("expected AlreadyRunning, got {other:?}"),
    }
}

#[test]
fn test_stop_clears_current_args_and_second_start_succeeds() {
    let mut bridge = StreamBridge::new_with_builder(always_built);
    start(&mut bridge, Some(7901), None).expect("first start must succeed");
    stop(&mut bridge);
    assert!(
        bridge.current_args.is_none(),
        "current_args must be None after stop_stream_session, got {:?}",
        bridge.current_args
    );
    start(&mut bridge, Some(7902), Some("_other-service._tcp.local."))
        .expect("second start with different args must succeed after stop");
    assert_eq!(
        bridge.current_args,
        Some((7902, "_other-service._tcp.local.".to_string())),
        "current_args must reflect the new args after the second successful start"
    );
}

#[test]
fn test_t7_8_builder_error_returns_bundle_build_failed() {
    let probe = BuilderProbe::new();
    let mut bridge = StreamBridge::new_with_builder(|_: BindCtx<u16>, request: StreamBuildRequest| {
        probe.build(request, Some("build failed"))
    });
    let err = start(&mut bridge, Some(7901), None)
        .expect_err("T7.8: builder error must cause start_stream_inner to return Err");
    match err {
        StartStreamError::BundleBuildFailed(msg) => {
            assert_eq!(
                msg, "build failed",
                "T7.8: BundleBuildFailed must carry the builder's error string verbatim"
            );
        }
        other => panic!("T7.8: expected BundleBuildFailed(\"build failed\"), got {other:?}"),
    }
    assert_eq!(probe.call_count(), 1);
}

#[test]
fn test_t7_3_port_zero_builder_not_called() {
    let probe = BuilderProbe::new();
    let mut bridge = StreamBridge::new_with_builder(|_: BindCtx<u16>, request: StreamBuildRequest| {
        probe.build(request, None)
    });
    let err = start(&mut bridge, Some(0), None)
        .expect_err("T7.3: port=0 must return Err(InvalidPort { value: 0, reason: Zero })");
    match err {
        StartStreamError::InvalidPort {
            value: 0,
            reason: PortRejectReason::Zero,
        } => {}
        other => panic!("T7.3: expected InvalidPort(Zero), got {other:?}"),
    }
    assert_eq!(
        probe.call_count(),
        0,
        "T7.3: builder must NOT be called when port=0 is rejected by validation"
    );
}

#[test]
fn test_t7_4_privileged_port_builder_not_called() {
    let probe = BuilderProbe::new();
    let mut bridge = StreamBridge::new_with_builder(|_: BindCtx<u16>, request: StreamBuildRequest| {
        probe.build(request, None)
    });
    let err = start(&mut bridge, Some(80), None).expect_err(
        "T7.4: port=80 must return Err(InvalidPort { value: 80, reason: Privileged })",
    );
    match err {
        StartStreamError::InvalidPort {
            value: 80,
            reason: PortRejectReason::Privileged,
        } => {}
        other => panic!("T7.4: expected InvalidPort(Privileged, 80), got {other:?}"),
    }
    assert_eq!(
        probe.call_count(),
        0,
        "T7.4: builder must NOT be called when port=80 is rejected as Privileged"
    );
}

#[test]
fn test_t7_5_bogus_service_name_builder_not_called() {
    let probe = BuilderProbe::new();
    let mut bridge = StreamBridge::new_with_builder(|_: BindCtx<u16>, request: StreamBuildRequest| {
        probe.build(request, None)
    });
    let err = start(&mut bridge, None, Some("bogus"))
        .expect_err("T7.5: service_name='bogus' must return Err(InvalidServiceName { .. })");
    match err {
        StartStreamError::InvalidServiceName { value, .. } => {
            assert_eq!(
                value, "bogus",
                "T7.5: InvalidServiceName must carry the rejected value"
            );
        }
        other => panic!("T7.5: expected InvalidServiceName, got {other:?}"),
    }
    assert_eq!(
        probe.call_count(),
        0,
        "T7.5: builder must NOT be called when service_name='bogus' is rejected"
    );
}

#[test]
fn test_t7_1_default_args_builder_called_with_defaults() {
    let probe = BuilderProbe::new();
    let mut bridge = StreamBridge::new_with_builder(|_: BindCtx<u16>, request: StreamBuildRequest| {
        probe.build(request, None)
    });
    start(&mut bridge, Some(7901), None)
        .expect("T7.1: start_stream_inner with default args must return Ok(())");
    let calls = probe.calls();
    assert_eq!(calls.len(), 1);
    assert_eq!(calls[0].0, 7901);
    assert_eq!(calls[0].1, "_screen-mirror._tcp.local.");
}

#[test]
fn test_default_udp_port_resolves_to_7889_constant() {
    let default_port: u16 = None::<u16>.unwrap_or(7889);
    assert_eq!(default_port, 7889u16);
    assert_eq!(DEFAULT_UDP_PORT, 7889u16);
    assert_eq!(plan_stream_start(None, None).unwrap().udp_port, 7889u16);
}

#[test]
fn test_t7_2_custom_args_builder_called_with_custom_args() {
    let probe = BuilderProbe::new();
    let mut bridge = StreamBridge::new_with_builder(|_: BindCtx<u16>, request: StreamBuildRequest| {
        probe.build(request, None)
    });
    start(&mut bridge, Some(7900), Some("_my-mirror._tcp.local."))
        .expect("T7.2: start_stream_inner with custom args must return Ok(())");
    let calls = probe.calls();
    assert_eq!(calls.len(), 1);
    assert_eq!(calls[0].0, 7900);
    assert_eq!(calls[0].1, "_my-mirror._tcp.local.");
}

#[test]
fn test_stop_stream_session_clears_current_args() {
    let mut bridge = StreamBridge::new_with_builder(always_built);
    start(&mut bridge, Some(7901), None).expect("start must succeed to populate current_args");
    assert!(
        bridge.current_args.is_some(),
        "current_args must be Some before stop"
    );
    stop(&mut bridge);
    assert!(bridge.current_args.is_none());
    assert!(bridge.restart_cache.is_none());
}

#[test]
fn start_inner_already_running_releases_socket() {
    let mut bridge = StreamBridge::new_with_builder(always_built);
    start(&mut bridge, Some(7890), None).expect("first start must succeed");

    match start(&mut bridge, Some(0), None) {
        Err(StartStreamError::InvalidPort { .. }) => {}
        other => panic!("expected Err(InvalidPort), got {other:?}"),
    }

    // The second socket is gone by the time the refusal is there.
    let sockets = std::rc::Rc::new(());
    let bound = sockets.clone();
    let refused = admit_stream_start(
        &mut bridge,
        CHANNEL,
        plan_stream_start(Some(7901), None).unwrap(),
        bound,
    );
    assert!(matches!(
        refused,
        Err(StartStreamError::AlreadyRunning {
            current_port: 7890,
            ..
        })
    ));
    assert_eq!(std::rc::Rc::strong_count(&sockets), 1);
}

#[test]
fn start_stream_inner_port_in_use_deterministic_validate_then_steal() {
    let probe = BuilderProbe::new();
    let mut bridge = StreamBridge::new_with_builder(|_: BindCtx<u16>, request: StreamBuildRequest| {
        probe.build(request, None)
    });
    let stolen_port: u16 = 40_000;
    let result = start_stream_inner(
        &machine(
            &mut bridge,
            |port| Err(BundleError::PortInUse(port)),
            |_| Ok(1),
        ),
        CHANNEL,
        Some(stolen_port),
        None,
    )
    .1;
    match result {
        Err(StartStreamError::PortInUse { port }) if port == stolen_port => {}
        other => panic!("expected Err(PortInUse {{ port: {stolen_port} }}), got {other:?}"),
    }
    assert_eq!(
        probe.call_count(),
        0,
        "builder must not run when bind_probe fails (R4.1: bind_probe before builder)"
    );
}

#[test]
fn a_taken_port_is_reported_before_an_active_session() {
    let mut bridge = StreamBridge::new_with_builder(always_built);
    start(&mut bridge, Some(7901), None).unwrap();
    let result = start_stream_inner(
        &machine(
            &mut bridge,
            |port| Err(BundleError::PortInUse(port)),
            |_| Ok(1),
        ),
        CHANNEL,
        Some(7901),
        None,
    )
    .1;
    assert!(matches!(
        result,
        Err(StartStreamError::PortInUse { port: 7901 })
    ));
    assert!(running(&bridge));
}

#[test]
fn a_start_hands_the_socket_and_a_fresh_flag_to_the_builder() {
    let seen = RefCell::new(Vec::new());
    let mut bridge = StreamBridge::new_with_builder(|ctx: BindCtx<u16>, request: StreamBuildRequest| {
        seen.borrow_mut()
            .push((ctx.socket, request.stop_flag, request.channel));
        Ok(full_bundle())
    });
    bridge.supervisor_signal_tx = Some(3);
    let spawned = RefCell::new(Vec::new());
    start_stream_inner(
        &machine(
            &mut bridge,
            |port| Ok(port + 1),
            |mux| {
                spawned.borrow_mut().push(mux);
                Ok(77)
            },
        ),
        CHANNEL,
        Some(7901),
        None,
    )
    .1
    .unwrap();
    assert_eq!(*seen.borrow(), vec![(7902, 0, CHANNEL)]);
    assert_eq!(
        *spawned.borrow(),
        vec![MuxStart {
            pkt_rx: 22,
            receiver: 21,
            stop_flag: 0,
            channel: CHANNEL,
        }]
    );
    assert_eq!(bridge.supervisor_signal_tx, None);
    assert_eq!(bridge.flags_issued, 1);
    let cache = bridge.restart_cache.as_ref().unwrap();
    assert_eq!(cache.udp_port, 7901);
    assert_eq!(cache.channel, CHANNEL);
    assert_ne!(cache.session_nonce, 0);
    assert_eq!(bridge.session.as_ref().unwrap().mux_handle, Some(77));
}

#[test]
fn a_start_without_a_mux_thread_leaves_no_session() {
    let mut bridge = StreamBridge::new_with_builder(always_built);
    let result = start_stream_inner(
        &machine(
            &mut bridge,
            |port| Ok(port),
            |_| Err("no threads".to_string()),
        ),
        CHANNEL,
        Some(7901),
        None,
    )
    .1;
    match result {
        Err(StartStreamError::BundleBuildFailed(text)) => {
            assert_eq!(text, "failed to spawn mux thread: no threads")
        }
        other => panic!("expected BundleBuildFailed, got {other:?}"),
    }
    assert!(bridge.session.is_none());
    assert!(bridge.current_args.is_none());
}

#[test]
fn a_session_is_taken_down_in_order() {
    let mut bridge =
        StreamBridge::new_with_builder_and_arcs(always_built, Some(session_of(full_bundle())), None, Some(8));
    assert_eq!(
        stop(&mut bridge),
        vec![
            StreamStep::StopSupervisor(8),
            StreamStep::RaiseStopFlag(5),
            StreamStep::JoinMux(99),
            StreamStep::JoinDrain(24),
            StreamStep::JoinDrain(25),
            StreamStep::StopSignaling(23),
            StreamStep::DropReceiver(21),
        ]
    );
    assert!(stop(&mut bridge).is_empty());
    assert_eq!(bridge.supervisor_signal_tx, Some(8));
}

#[test]
fn an_internal_stop_keeps_the_parameters() {
    let mut bridge = StreamBridge::new_with_builder(always_built);
    start(&mut bridge, Some(7901), None).unwrap();
    stop_stream_session_internal(&mut bridge);
    assert!(bridge.session.is_none());
    assert!(bridge.current_args.is_some());
    assert!(bridge.restart_cache.is_some());
}

#[test]
fn diagnostics_show_the_counters() {
    let mut bridge = bridge_with_session();
    let session = bridge.session.as_mut().unwrap();
    session.counters = BridgeCounters {
        fragments_emitted: 10,
        init_segments_emitted: 1,
        dropped_segments: 3,
        keyframe_requests_fired: 2,
    };
    let mut receivers = FakeReceivers::new();
    receivers.drops = 6;
    assert_eq!(
        stream_diagnostics(&bridge, &receivers).1,
        StreamStats {
            fragments_emitted: 10,
            init_segments_emitted: 1,
            dropped_segments: 3,
            receiver_dropped_frames: 6,
            keyframe_requests_fired: 2,
        }
    );
    bridge.session.as_mut().unwrap().receiver = None;
    assert_eq!(
        stream_diagnostics(&bridge, &receivers).1.receiver_dropped_frames,
        0
    );
    bridge.session = None;
    assert_eq!(
        stream_diagnostics(&bridge, &receivers).1,
        StreamStats {
            fragments_emitted: 0,
            init_segments_emitted: 0,
            dropped_segments: 0,
            receiver_dropped_frames: 0,
            keyframe_requests_fired: 0,
        }
    );
}

#[test]
fn a_pre_provisioned_supervisor_is_kept() {
    let bridge = StreamBridge::new_with_builder_and_sup_tx((), Some(42));
    assert_eq!(bridge.supervisor_signal_tx, Some(42));
}

#[test]
fn receiver_nonces_are_never_zero() {
    let draws: Vec<u64> = (0..8).map(|_| nonzero_session_nonce()).collect();
    assert!(draws.iter().all(|n| *n != 0));
    assert!(draws.iter().any(|n| *n != draws[0]));
}

#[test]
fn test_bridge_new_uses_production_builder() {
    let bridge = StreamBridge::new();
    assert_eq!(bridge.builder, ());
    assert!(bridge.current_args.is_none());
    assert!(!running(&StreamBridge::default()));
}

#[test]
fn a_receiving_session_that_was_taken_down_is_forgotten_afterwards() {
    let mut bridge = bridge_with_session();
    stop_stream_session_internal(&mut bridge);
    forget_stream_session(&mut bridge);
    assert!(bridge.restart_cache.is_none());
    assert!(bridge.current_args.is_none());
}

#[test]
fn a_start_probes_and_builds_once_and_a_refused_one_does_neither() {
    let done = RefCell::new(Vec::new());
    let mut bridge = StreamBridge::new_with_builder(|_: BindCtx<u16>, _: StreamBuildRequest| {
        done.borrow_mut().push("build");
        Ok(fake_bundle())
    });
    let starts = [
        (Some(80), None, Vec::new()),
        (None, Some("bogus".to_string()), Vec::new()),
        (Some(7901), None, vec!["probe", "build", "spawn"]),
        (Some(7901), None, vec!["probe"]),
    ];
    for (udp_port, service_name, expected) in starts {
        done.borrow_mut().clear();
        let _ = start_stream_inner(
            &machine(
                &mut bridge,
                |port| {
                    done.borrow_mut().push("probe");
                    Ok(port)
                },
                |_| {
                    done.borrow_mut().push("spawn");
                    Ok(1)
                },
            ),
            CHANNEL,
            udp_port,
            service_name,
        );
        assert_eq!(*done.borrow(), expected);
    }
}

#[test]
fn the_segments_of_the_mux_thread_show_in_the_diagnostics() {
    let mut bridge = bridge_with_session();
    let receivers = FakeReceivers::new();
    attach_stream(&mut bridge, &receivers, 1_000);
    for _ in 0..2 {
        bridge.record_segments(&BridgeCounters {
            fragments_emitted: 10,
            init_segments_emitted: 1,
            dropped_segments: 3,
            keyframe_requests_fired: 1,
        });
    }
    assert_eq!(
        stream_diagnostics(&bridge, &receivers).1,
        StreamStats {
            fragments_emitted: 10,
            init_segments_emitted: 1,
            dropped_segments: 3,
            receiver_dropped_frames: 0,
            keyframe_requests_fired: 2,
        }
    );
    bridge.session = None;
    bridge.record_segments(&BridgeCounters::zero());
    assert!(bridge.session.is_none());
}

#[test]
fn the_flag_of_a_given_session_is_not_issued_again() {
    let mut bridge = StreamBridge::new_with_builder_and_arcs(
        always_built,
        Some(session_of(fake_bundle())),
        None,
        None,
    );
    assert_eq!(bridge.flags_issued, 6);
    stop(&mut bridge);
    start(&mut bridge, Some(7901), None).unwrap();
    assert_eq!(bridge.session.as_ref().unwrap().stop_flag, 6);
}

#[test]
fn a_supervisor_that_the_pipeline_registers_stays() {
    let mut bridge = StreamBridge::new_with_builder(always_built);
    let mut host = machine(&mut bridge, |port| Ok(port), |_| Ok(1));
    host.registers = Some(16);
    start_stream_inner(&host, CHANNEL, Some(7901), None).1.unwrap();
    assert_eq!(bridge.supervisor_signal_tx, Some(16));
    assert_eq!(stop(&mut bridge)[0], StreamStep::StopSupervisor(16));
}

#[test]
fn an_internal_stop_without_a_session_has_no_effect() {
    let mut bridge = StreamBridge::new_with_builder(always_built);
    start(&mut bridge, Some(7901), None).unwrap();
    bridge.session = None;
    bridge.supervisor_signal_tx = Some(3);
    assert!(stop_stream_session_internal(&mut bridge).is_empty());
    assert_eq!(bridge.supervisor_signal_tx, Some(3));
    assert!(bridge.current_args.is_some());
    assert!(bridge.restart_cache.is_some());
}
