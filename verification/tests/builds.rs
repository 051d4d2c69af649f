use screen_mirror::errors::{BundleError, SignalingError, TransportError};
use screen_mirror::events::{Role, SdpOffer};
use screen_mirror::mdns_reset::{
    build_initiate_mdns_reset_hook, mdns_restarted, reset_mdns, MdnsResetHost, MdnsResetStep,
};
use screen_mirror::sender::{SenderBuildRequest, SenderBundle};
use screen_mirror::sender_build::{
    build_production_sender_bundle, decide_candidate_or_nic_error, sender_encoder_config,
    EncoderConfig, SenderBuildAction, SenderBuildHost, SenderBuildReply, SenderCallbacks,
};
use screen_mirror::smoke::{smoke_goes_on, smoke_verdict, SmokeCall, SmokeRun};
use screen_mirror::stream::{BindCtx, StreamBuildRequest};
use screen_mirror::stream_build::{
    build_production_bundle, build_signaling_config_for_receiver, ReceiverAdapters,
    ReceiverBuildAction, ReceiverBuildHost, ReceiverBuildReply,
};
use std::cell::RefCell;

#[test]
fn test_build_signaling_config_for_receiver_threads_service_name() {
    let cfg = build_signaling_config_for_receiver(7900, "_my-mirror._tcp.local.".to_string());
    assert_eq!(
        cfg.service_name, "_my-mirror._tcp.local.",
        "service_name must be threaded into SignalingConfig::service_name"
    );
    assert_eq!(cfg.control_port, 7900);
    assert_eq!(cfg.role, Role::Receiver);
}

#[test]
fn test_build_signaling_config_for_receiver_no_default_shadowing() {
    let cfg = build_signaling_config_for_receiver(7889, "_default._tcp.local.".to_string());
    assert_eq!(
        cfg.service_name, "_default._tcp.local.",
        "the default spread must not overwrite the supplied service_name"
    );
    assert_eq!(cfg.control_port, 7889);
}

#[test]
fn test_build_production_bundle_accepts_udp_port_and_service_name() {
    let _ = build_production_bundle::<
        u16,
        Adapters<fn(ReceiverBuildAction<u16>) -> ReceiverBuildReply>,
    >;
    let request = StreamBuildRequest {
        udp_port: 7889,
        service_name: "_screen-mirror._tcp.local.".to_string(),
        stop_flag: 0,
        channel: 0,
    };
    assert_eq!(request.udp_port, 7889);
}

#[test]
fn build_video_encoder_propagates_config_dimensions_when_set() {
    let (cap_w, cap_h) = (1280u32, 720u32);
    let encoder_config = EncoderConfig {
        width: cap_w,
        height: cap_h,
        ..EncoderConfig::default()
    };
    assert_eq!(
        encoder_config.width, 1280,
        "width must survive EncoderConfig construction"
    );
    assert_eq!(
        encoder_config.height, 720,
        "height must survive EncoderConfig construction"
    );
    assert_ne!(
        encoder_config.width, 0,
        "non-zero width must not be replaced with sentinel"
    );
    assert_ne!(
        encoder_config.height, 0,
        "non-zero height must not be replaced with sentinel"
    );
}

#[test]
fn sender_encoder_config_framerate_is_60() {
    let encoder_config = sender_encoder_config(1920, 1080);
    assert_eq!(
        encoder_config.framerate, 60,
        "build site framerate must be 60 (literal — mutation guard)"
    );
    assert_eq!(
        (encoder_config.width, encoder_config.height),
        (1920, 1080),
        "helper must propagate the capture dimensions it is given"
    );
}

#[test]
fn encoder_config_default_framerate_stays_30() {
    assert_eq!(
        EncoderConfig::default().framerate,
        30,
        "domain default framerate must remain 30; production override lives at build site"
    );
}

#[test]
fn sc_hwf_1b_decide_candidate_or_nic_error_none_returns_no_local_nic_some_returns_ok() {
    let result = decide_candidate_or_nic_error::<([u8; 4], u16)>(None);
    assert!(
        matches!(result, Err(BundleError::NoLocalNic)),
        "SC-HWF-1B: decide_candidate_or_nic_error(None) must return \
         Err(BundleError::NoLocalNic); got {result:?}"
    );
    let addr = ([192u8, 168, 1, 100], 5000u16);
    let result = decide_candidate_or_nic_error(Some(addr));
    assert!(
        matches!(result, Ok(a) if a == addr),
        "SC-HWF-1B: decide_candidate_or_nic_error(Some(addr)) must return \
         Ok(addr); got {result:?}"
    );
}

/// Adapters that answer each action on the spot.
struct Adapters<F>(F);

impl<F: Fn(SenderBuildAction) -> SenderBuildReply> SenderBuildHost for Adapters<F> {
    fn perform(self, action: SenderBuildAction) -> (Self, SenderBuildReply) {
        let reply = (self.0)(action);
        (self, reply)
    }
}

impl<F: Fn(ReceiverBuildAction<u16>) -> ReceiverBuildReply> ReceiverBuildHost<u16>
    for Adapters<F>
{
    fn perform(self, action: ReceiverBuildAction<u16>) -> (Self, ReceiverBuildReply) {
        let reply = (self.0)(action);
        (self, reply)
    }
}

fn sender_request(attempt: u8) -> SenderBuildRequest {
    SenderBuildRequest {
        udp_port: 9000,
        service_name: "_a._b.local.".to_string(),
        stop_flag: 3,
        channel: 70,
        attempt,
        arm_media_watchdog: attempt > 1,
    }
}

fn good_reply(action: &SenderBuildAction) -> SenderBuildReply {
    match action {
        SenderBuildAction::NewCapture(_) => SenderBuildReply::Size(1920, 1080),
        SenderBuildAction::ShareEncoder => SenderBuildReply::Backend("hw".to_string()),
        SenderBuildAction::CreateOffer => {
            SenderBuildReply::Offer(SdpOffer("v=0\r\no=- gen2 test\r\n".to_string()))
        }
        SenderBuildAction::ResolveCandidate => {
            SenderBuildReply::Candidate(Some("10.0.0.1:9".to_string()))
        }
        SenderBuildAction::SpawnSignalingDrain { .. } => SenderBuildReply::Thread(21),
        SenderBuildAction::SpawnTransportDrain(_) => SenderBuildReply::Pipeline(SenderCallbacks {
            transport_drain: 22,
            shutdown: 23,
            suppress_bye: 24,
            stop_signaling: 25,
            disarm_escalation: 26,
        }),
        _ => SenderBuildReply::Done,
    }
}

fn name_of(debug: &str) -> String {
    debug
        .chars()
        .take_while(|c| c.is_ascii_alphanumeric())
        .collect()
}

fn build_sender(
    attempt: u8,
    fail_at: &str,
) -> (Result<SenderBundle, BundleError>, Vec<String>) {
    let log = RefCell::new(Vec::new());
    let (_, r) = build_production_sender_bundle(
        Adapters(|action: SenderBuildAction| {
            let text = format!("{action:?}");
            let fails = name_of(&text) == fail_at;
            log.borrow_mut().push(text);
            if fails {
                SenderBuildReply::Failed("broken".to_string())
            } else {
                good_reply(&action)
            }
        }),
        sender_request(attempt),
    );
    (r, log.into_inner())
}

#[test]
fn sc_ge_published_offer_carries_live_attempt_at_wire_boundary() {
    let (r, log) = build_sender(2, "");
    assert!(r.is_ok());
    let published: Vec<&String> = log.iter().filter(|s| s.starts_with("PublishOffer")).collect();
    assert_eq!(published.len(), 1);
    assert_eq!(
        published[0],
        "PublishOffer { offer: SdpOffer(\"v=0\\r\\no=- gen2 test\\r\\n\"), attempt: 2 }"
    );
}

#[test]
fn a_sender_is_built_stage_by_stage() {
    let (r, log) = build_sender(1, "");
    let bundle = r.unwrap();
    let names: Vec<String> = log.iter().map(|s| name_of(s)).collect();
    assert_eq!(
        names,
        vec![
            "NewSignaling",
            "NewCapture",
            "NewEncoder",
            "NewTransport",
            "StartSignaling",
            "StartCapture",
            "StartEncoder",
            "ShareEncoder",
            "CreateOffer",
            "StartTransport",
            "PublishOffer",
            "ResolveCandidate",
            "PublishCandidate",
            "SpawnSignalingDrain",
            "SpawnTransportDrain",
        ]
    );
    assert!(log[0].contains("control_port: 7889"));
    assert!(log[0].contains("_a._b.local."));
    assert_eq!(
        log[1],
        "NewCapture(CaptureConfig { monitor: Primary, border: AlwaysOff })"
    );
    assert!(log[2].contains("width: 1920, height: 1080, framerate: 60"));
    assert!(log[3].contains("udp_port: 9000"));
    assert!(log[14].contains("watchdog_timeout_ns: 6000000000"));
    assert!(log[14].contains("watchdog_max_fires: 10"));
    assert!(log[14].contains("arm_media_watchdog: false"));
    assert_eq!(log[13], "SpawnSignalingDrain { stop_flag: 3, channel: 70 }");
    assert!(log[14].contains("stop_flag: 3"));
    assert!(log[14].contains("channel: 70"));
    assert_eq!(bundle.drain_handles, vec![21, 22]);
    assert_eq!(bundle.shutdown, Some(23));
    assert_eq!(bundle.suppress_bye_on_rebuild, Some(24));
    assert_eq!(bundle.stop_signaling_on_rebuild, Some(25));
    assert_eq!(bundle.disarm_escalation_on_rebuild, Some(26));
    assert_eq!(bundle.backend_name, "hw");
}

#[test]
fn a_failed_stage_ends_the_build_of_a_sender() {
    let cases = [
        ("NewSignaling", 1, "broken"),
        ("StartEncoder", 7, "broken"),
        ("PublishOffer", 11, "broken"),
        ("ResolveCandidate", 12, "broken"),
        ("SpawnSignalingDrain", 14, "spawn sig drain: broken"),
        ("SpawnTransportDrain", 15, "spawn transport drain: broken"),
    ];
    for (stage, tried, text) in cases {
        let (r, log) = build_sender(1, stage);
        match r {
            Err(BundleError::Other(s)) => assert_eq!(s, text),
            other => panic!("expected Other, got {other:?}"),
        }
        assert_eq!(log.len(), tried, "{stage}");
    }
}

#[test]
fn an_unpublished_candidate_does_not_end_the_build() {
    let (r, log) = build_sender(1, "PublishCandidate");
    assert!(r.is_ok());
    assert_eq!(log.len(), 15);
}

#[test]
fn a_sender_without_an_address_is_not_built() {
    let (_, r) = build_production_sender_bundle(
        Adapters(|action: SenderBuildAction| match action {
            SenderBuildAction::ResolveCandidate => SenderBuildReply::Candidate(None),
            SenderBuildAction::PublishCandidate(_) => panic!("there is no candidate"),
            other => good_reply(&other),
        }),
        sender_request(1),
    );
    assert!(matches!(r, Err(BundleError::NoLocalNic)));
}

#[test]
fn an_answer_out_of_turn_fails_the_build() {
    let (_, r) = build_production_sender_bundle(
        Adapters(|_: SenderBuildAction| SenderBuildReply::Thread(1)),
        sender_request(1),
    );
    match r {
        Err(BundleError::Other(s)) => assert_eq!(s, "pipeline adapter answered out of turn"),
        other => panic!("expected Other, got {other:?}"),
    }
}

fn stream_request() -> StreamBuildRequest {
    StreamBuildRequest {
        udp_port: 7900,
        service_name: "_a._b.local.".to_string(),
        stop_flag: 3,
        channel: 70,
    }
}

fn good_receiver_reply(action: &ReceiverBuildAction<u16>) -> ReceiverBuildReply {
    match action {
        ReceiverBuildAction::FindCandidate => {
            ReceiverBuildReply::Candidate(Some("10.0.0.1:9".to_string()))
        }
        ReceiverBuildAction::SpawnTransportDrain { .. } => ReceiverBuildReply::Thread(21),
        ReceiverBuildAction::SpawnSignalingDrain { .. } => {
            ReceiverBuildReply::Pipeline(ReceiverAdapters {
                signaling_drain: 22,
                receiver: 23,
                pkt_rx: 24,
                signaling: 25,
            })
        }
        _ => ReceiverBuildReply::Done,
    }
}

#[test]
fn test_new_wrapper_closure_passes_port_and_name_to_build_production_bundle() {
    let log = RefCell::new(Vec::new());
    let (_, r) = build_production_bundle(
        Adapters(|action: ReceiverBuildAction<u16>| {
            let reply = good_receiver_reply(&action);
            log.borrow_mut().push(format!("{action:?}"));
            reply
        }),
        BindCtx { socket: 7902 },
        stream_request(),
    );
    let bundle = r.unwrap();
    let log = log.into_inner();
    let names: Vec<String> = log.iter().map(|s| name_of(s)).collect();
    assert_eq!(
        names,
        vec![
            "NewSignaling",
            "StartSignaling",
            "NewReceiver",
            "StartReceiver",
            "FindCandidate",
            "PublishCandidate",
            "SpawnTransportDrain",
            "SpawnSignalingDrain",
        ]
    );
    assert!(log[0].contains("_a._b.local."));
    assert!(log[0].contains("control_port: 7900"));
    assert!(log[2].contains("udp_port: 7900"));
    assert_eq!(log[3], "StartReceiver(BindCtx { socket: 7902 })");
    assert_eq!(log[6], "SpawnTransportDrain { stop_flag: 3, channel: 70 }");
    assert_eq!(log[7], "SpawnSignalingDrain { stop_flag: 3 }");
    assert_eq!(bundle.drain_handles, vec![21, 22]);
    assert_eq!(bundle.receiver, 23);
    assert_eq!(bundle.pkt_rx, 24);
    assert_eq!(bundle.signaling, Some(25));
}

#[test]
fn a_failed_stage_ends_the_build_of_a_receiver() {
    let (_, taken) = build_production_bundle(
        Adapters(|action: ReceiverBuildAction<u16>| match action {
            ReceiverBuildAction::StartReceiver(_) => {
                ReceiverBuildReply::TransportFailed(TransportError::AddrInUse { port: 7900 })
            }
            other => good_receiver_reply(&other),
        }),
        BindCtx { socket: 7902 },
        stream_request(),
    );
    assert!(matches!(taken, Err(BundleError::PortInUse(7900))));

    let (_, unsignaled) = build_production_bundle(
        Adapters(|action: ReceiverBuildAction<u16>| match action {
            ReceiverBuildAction::StartSignaling => {
                ReceiverBuildReply::SignalingFailed(SignalingError {
                    text: "no mdns".to_string(),
                })
            }
            other => good_receiver_reply(&other),
        }),
        BindCtx { socket: 7902 },
        stream_request(),
    );
    match unsignaled {
        Err(BundleError::Other(s)) => assert_eq!(s, "no mdns"),
        other => panic!("expected Other, got {other:?}"),
    }

    let (_, unspawned) = build_production_bundle(
        Adapters(|action: ReceiverBuildAction<u16>| match action {
            ReceiverBuildAction::SpawnTransportDrain { .. } => {
                ReceiverBuildReply::SpawnFailed(std::io::Error::other("no threads"))
            }
            other => good_receiver_reply(&other),
        }),
        BindCtx { socket: 7902 },
        stream_request(),
    );
    match unspawned {
        Err(BundleError::Other(s)) => assert_eq!(s, "no threads"),
        other => panic!("expected Other, got {other:?}"),
    }
}

#[test]
fn a_receiver_goes_on_without_a_published_address() {
    let (_, unpublished) = build_production_bundle(
        Adapters(|action: ReceiverBuildAction<u16>| match action {
            ReceiverBuildAction::PublishCandidate(_) => {
                ReceiverBuildReply::SignalingFailed(SignalingError {
                    text: "x".to_string(),
                })
            }
            other => good_receiver_reply(&other),
        }),
        BindCtx { socket: 7902 },
        stream_request(),
    );
    assert!(unpublished.is_ok());

    let (_, unfound) = build_production_bundle(
        Adapters(|action: ReceiverBuildAction<u16>| match action {
            ReceiverBuildAction::FindCandidate => ReceiverBuildReply::Candidate(None),
            ReceiverBuildAction::PublishCandidate(_) => panic!("there is no candidate"),
            other => good_receiver_reply(&other),
        }),
        BindCtx { socket: 7902 },
        stream_request(),
    );
    assert!(unfound.is_ok());
}

struct ResetLog {
    starts: bool,
    log: RefCell<Vec<MdnsResetStep>>,
}

impl MdnsResetHost for &ResetLog {
    fn perform(self, step: MdnsResetStep) -> Self {
        self.log.borrow_mut().push(step);
        self
    }

    fn start_signaling(self) -> (Self, bool) {
        self.log.borrow_mut().push(MdnsResetStep::StartSignaling);
        (self, self.starts)
    }
}

#[test]
fn a_reset_mutes_the_sender_before_it_stops() {
    let host = ResetLog {
        starts: true,
        log: RefCell::new(Vec::new()),
    };
    reset_mdns(&host, Role::Sender);
    assert_eq!(
        *host.log.borrow(),
        vec![
            MdnsResetStep::SuppressBye,
            MdnsResetStep::MarkSuperseded,
            MdnsResetStep::StopSignaling,
            MdnsResetStep::DropStaleRequests,
            MdnsResetStep::StartSignaling,
            MdnsResetStep::ReleaseSignaling,
            MdnsResetStep::SpawnDrain,
        ]
    );
    assert_eq!(build_initiate_mdns_reset_hook(Role::Sender).len(), 5);
}

#[test]
fn a_reset_that_does_not_start_has_nothing_to_drain() {
    let host = ResetLog {
        starts: false,
        log: RefCell::new(Vec::new()),
    };
    reset_mdns(&host, Role::Receiver);
    assert_eq!(
        *host.log.borrow(),
        vec![
            MdnsResetStep::StopSignaling,
            MdnsResetStep::StartSignaling,
            MdnsResetStep::ReleaseSignaling,
        ]
    );
    assert_eq!(
        mdns_restarted(true),
        vec![MdnsResetStep::ReleaseSignaling, MdnsResetStep::SpawnDrain]
    );
}

#[test]
fn the_smoke_test_wants_three_frames_in_ten_seconds() {
    assert!(smoke_goes_on(0, 2));
    assert!(!smoke_goes_on(0, 3));
    assert!(!smoke_goes_on(10_000_000_000, 0));
    assert_eq!(
        smoke_verdict(SmokeRun::Captured(3)).unwrap(),
        "R10.2 PASS — 3 frames captured under Tauri 2 runtime, no apartment conflict"
    );
    assert_eq!(
        smoke_verdict(SmokeRun::Captured(2)).unwrap_err(),
        "R10.2 FAIL — only 2 frames in 10s (expected >= 3)"
    );
    assert_eq!(
        smoke_verdict(SmokeRun::Failed(SmokeCall::Start, "no screen".to_string())).unwrap_err(),
        "R10.2 FAIL — start() failed: no screen"
    );
    assert_eq!(
        smoke_verdict(SmokeRun::Panicked).unwrap_err(),
        "R10.2 FAIL — capture worker thread panicked"
    );
}

#[test]
fn sc_d3_3b_production_reset_hook_suppresses_before_stop() {
    let hook = build_initiate_mdns_reset_hook(Role::Sender);
    let at = |step| hook.iter().position(|s| *s == step);
    let suppress_pos = at(MdnsResetStep::SuppressBye).expect("hook must suppress the Bye");
    let stop_pos = at(MdnsResetStep::StopSignaling).expect("hook must call sig.stop()");
    assert!(suppress_pos < stop_pos);
}

#[test]
fn sc_ho_2b_production_reset_hook_marks_superseded_before_stop() {
    let hook = build_initiate_mdns_reset_hook(Role::Sender);
    let at = |step| hook.iter().position(|s| *s == step);
    let suppress_pos =
        at(MdnsResetStep::SuppressBye).expect("hook must call suppress_outbound_bye()");
    let superseded_pos = at(MdnsResetStep::MarkSuperseded).expect("hook must mark superseded");
    let stop_pos = at(MdnsResetStep::StopSignaling).expect("hook must call sig.stop()");
    assert!(suppress_pos < stop_pos && superseded_pos < stop_pos);
}
