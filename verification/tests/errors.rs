use screen_mirror::errors::{
    BundleError, PortRejectReason, SignalingError, StartSenderError, StartStreamError,
    TransportError,
};
use screen_mirror::stream::{probe_failure, start_error};
use std::io;

#[test]
fn test_start_stream_error_display_non_empty_for_all_variants() {
    let variants: Vec<StartStreamError> = vec![
        StartStreamError::AlreadyRunning {
            current_port: 7889,
            current_service_name: "_screen-mirror._tcp.local.".to_string(),
        },
        StartStreamError::InvalidPort {
            value: 80,
            reason: PortRejectReason::Privileged,
        },
        StartStreamError::InvalidServiceName {
            value: "bogus".to_string(),
            reason: "must end with '.local.'".to_string(),
        },
        StartStreamError::PortInUse { port: 7889 },
        StartStreamError::BundleBuildFailed("some error".to_string()),
    ];
    for err in &variants {
        let display = err.message();
        assert!(!display.is_empty(), "Display must be non-empty for {err:?}");
    }
}

#[test]
fn stream_errors_show_their_texts() {
    let cases = [
        (
            StartStreamError::AlreadyRunning {
                current_port: 7889,
                current_service_name: "_screen-mirror._tcp.local.".to_string(),
            },
            "a stream session is already running on port 7889 (_screen-mirror._tcp.local.)",
        ),
        (
            StartStreamError::InvalidPort {
                value: 80,
                reason: PortRejectReason::Privileged,
            },
            "invalid udp_port 80: Privileged",
        ),
        (
            StartStreamError::InvalidPort {
                value: 0,
                reason: PortRejectReason::Zero,
            },
            "invalid udp_port 0: Zero",
        ),
        (
            StartStreamError::InvalidServiceName {
                value: "bogus".to_string(),
                reason: "must end with '.local.'".to_string(),
            },
            "invalid service_name \"bogus\": must end with '.local.'",
        ),
        (
            StartStreamError::PortInUse { port: 65535 },
            "UDP port 65535 is already in use",
        ),
        (
            StartStreamError::BundleBuildFailed("some error".to_string()),
            "bundle build failed: some error",
        ),
    ];
    for (err, text) in cases {
        assert_eq!(err.message(), text);
    }
}

#[test]
fn sender_errors_show_their_texts() {
    let cases = [
        (
            StartSenderError::AlreadyRunning {
                udp_port: 9000,
                service_name: "_a._b.local.".to_string(),
            },
            "sender already running on port 9000 (_a._b.local.)",
        ),
        (
            StartSenderError::InvalidPort {
                value: 1023,
                reason: PortRejectReason::Privileged,
            },
            "invalid udp_port 1023: Privileged",
        ),
        (
            StartSenderError::InvalidServiceName {
                value: "a\"b".to_string(),
                reason: "must end with '.local.'".to_string(),
            },
            "invalid service_name \"a\\\"b\": must end with '.local.'",
        ),
        (
            StartSenderError::PortInUse { port: 10 },
            "UDP port 10 is already in use",
        ),
        (
            StartSenderError::BundleBuildFailed("x".to_string()),
            "bundle build failed: x",
        ),
    ];
    for (err, text) in cases {
        assert_eq!(err.message(), text);
    }
}

#[test]
fn bundle_error_enum_exists_and_displays() {
    let port_err = BundleError::PortInUse(7889);
    let other_err = BundleError::Other("fail".to_string());
    assert_eq!(
        port_err.message(),
        "UDP port 7889 already in use",
        "PortInUse Display must be 'UDP port 7889 already in use'"
    );
    assert_eq!(
        other_err.message(),
        "bundle build failed: fail",
        "Other Display must be 'bundle build failed: fail'"
    );
}

#[test]
fn bundle_error_from_io_error_maps_to_other() {
    let err1 = io::Error::other("thread spawn failed");
    let be1: BundleError = err1.into();
    match be1 {
        BundleError::Other(_) => {}
        other => panic!("expected BundleError::Other(_) for Other io::Error, got {other:?}"),
    }

    let err2 = io::Error::from(io::ErrorKind::AddrInUse);
    let be2: BundleError = err2.into();
    match be2 {
        BundleError::Other(_) => {}
        other => {
            panic!("expected BundleError::Other(_) for AddrInUse io::Error, got {other:?}")
        }
    }
}

#[test]
fn the_text_of_an_io_error_is_kept_and_never_decides() {
    match BundleError::from(io::Error::other("address already in use")) {
        BundleError::Other(text) => assert_eq!(text, "address already in use"),
        other => panic!("expected Other, got {other:?}"),
    }
}

#[test]
fn bundle_error_from_signaling_error_all_collapse_to_other() {
    let cases = ["already running", "x"];
    for text in cases {
        let be: BundleError = SignalingError {
            text: text.to_string(),
        }
        .into();
        match be {
            BundleError::Other(s) => assert_eq!(s, text),
            other => panic!("expected BundleError::Other(_), got {other:?}"),
        }
    }
}

#[test]
fn bundle_error_from_transport_error_addr_in_use_maps_to_port_in_use() {
    let te = TransportError::AddrInUse { port: 7889 };
    let be: BundleError = te.into();
    match be {
        BundleError::PortInUse(7889) => {}
        other => panic!("expected BundleError::PortInUse(7889), got {other:?}"),
    }
}

#[test]
fn bundle_error_from_transport_error_other_variants_collapse_to_other() {
    let cases: Vec<(TransportError, &'static str)> = vec![
        (TransportError::AlreadyRunning, "transport already running"),
        (TransportError::NotRunning, "transport not running"),
        (
            TransportError::InvalidConfig("bad".into()),
            "invalid transport config: bad",
        ),
        (TransportError::Io("eio".into()), "transport I/O error: eio"),
        (
            TransportError::SignalingFailed("sf".into()),
            "signaling failed: sf",
        ),
        (
            TransportError::Internal("oops".into()),
            "internal transport error: oops",
        ),
    ];
    for (te, expected_display) in cases {
        let be: BundleError = te.into();
        match be {
            BundleError::Other(s) => assert_eq!(
                s, expected_display,
                "expected Other({expected_display:?}), got Other({s:?})"
            ),
            other => panic!("expected BundleError::Other({expected_display:?}), got {other:?}"),
        }
    }
}

#[test]
fn a_failed_probe_names_the_port_that_was_asked_for() {
    let taken = io::Error::from(io::ErrorKind::AddrInUse);
    assert!(matches!(
        probe_failure(7900, true, taken),
        BundleError::PortInUse(7900)
    ));
    match probe_failure(7900, false, io::Error::other("no permission")) {
        BundleError::Other(text) => assert_eq!(text, "no permission"),
        other => panic!("expected Other, got {other:?}"),
    }
}

#[test]
fn a_failed_build_is_reported_by_its_kind() {
    assert!(matches!(
        start_error(BundleError::PortInUse(9)),
        StartStreamError::PortInUse { port: 9 }
    ));
    match start_error(BundleError::NoLocalNic) {
        StartStreamError::BundleBuildFailed(text) => {
            assert_eq!(text, BundleError::NoLocalNic.message())
        }
        other => panic!("expected BundleBuildFailed, got {other:?}"),
    }
}
