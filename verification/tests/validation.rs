use screen_mirror::errors::{PortRejectReason, StartSenderError, StartStreamError};
use screen_mirror::validation::{
    validate_service_name, validate_service_name_for_sender, validate_udp_port,
    validate_udp_port_for_sender,
};

#[test]
fn test_validate_udp_port_zero() {
    let result = validate_udp_port(0);
    match result {
        Err(StartStreamError::InvalidPort {
            value: 0,
            reason: PortRejectReason::Zero,
        }) => {}
        other => {
            panic!("expected Err(InvalidPort {{ value: 0, reason: Zero }}), got {other:?}")
        }
    }
}

#[test]
fn test_validate_udp_port_privileged_lower() {
    let result = validate_udp_port(1);
    match result {
        Err(StartStreamError::InvalidPort {
            value: 1,
            reason: PortRejectReason::Privileged,
        }) => {}
        other => panic!(
            "expected Err(InvalidPort {{ value: 1, reason: Privileged }}), got {other:?}"
        ),
    }
}

#[test]
fn test_validate_udp_port_privileged_mid() {
    let result = validate_udp_port(80);
    match result {
        Err(StartStreamError::InvalidPort {
            value: 80,
            reason: PortRejectReason::Privileged,
        }) => {}
        other => panic!(
            "expected Err(InvalidPort {{ value: 80, reason: Privileged }}), got {other:?}"
        ),
    }
}

#[test]
fn test_validate_udp_port_privileged_upper() {
    let result = validate_udp_port(1023);
    match result {
        Err(StartStreamError::InvalidPort {
            value: 1023,
            reason: PortRejectReason::Privileged,
        }) => {}
        other => panic!(
            "expected Err(InvalidPort {{ value: 1023, reason: Privileged }}), got {other:?}"
        ),
    }
}

#[test]
fn test_validate_udp_port_first_valid() {
    let result = validate_udp_port(1024);
    assert!(
        result.is_ok(),
        "port 1024 is the first non-privileged port — must return Ok(()), got {result:?}"
    );
}

#[test]
fn test_validate_udp_port_default() {
    let result = validate_udp_port(7889);
    assert!(
        result.is_ok(),
        "default port 7889 must pass validation, got {result:?}"
    );
}

#[test]
fn test_validate_udp_port_max() {
    let result = validate_udp_port(65535);
    assert!(
        result.is_ok(),
        "max u16 port 65535 must pass validation, got {result:?}"
    );
}

#[test]
fn test_validate_service_name_empty_rejected() {
    let result = validate_service_name("");
    match result {
        Err(StartStreamError::InvalidServiceName { value, .. }) => {
            assert_eq!(value, "", "error must carry the rejected value");
        }
        other => panic!("expected Err(InvalidServiceName), got {other:?}"),
    }
}

#[test]
fn test_validate_service_name_bogus_rejected() {
    let result = validate_service_name("bogus");
    match result {
        Err(StartStreamError::InvalidServiceName { value, .. }) => {
            assert_eq!(value, "bogus");
        }
        other => panic!("expected Err(InvalidServiceName), got {other:?}"),
    }
}

#[test]
fn test_validate_service_name_missing_trailing_dot_rejected() {
    let result = validate_service_name("_screen-mirror._tcp.local");
    match result {
        Err(StartStreamError::InvalidServiceName { value, .. }) => {
            assert_eq!(value, "_screen-mirror._tcp.local");
        }
        other => panic!("expected Err(InvalidServiceName), got {other:?}"),
    }
}

#[test]
fn test_validate_service_name_protocol_missing_underscore_rejected() {
    let result = validate_service_name("_screen-mirror.tcp.local.");
    match result {
        Err(StartStreamError::InvalidServiceName { value, .. }) => {
            assert_eq!(value, "_screen-mirror.tcp.local.");
        }
        other => panic!("expected Err(InvalidServiceName), got {other:?}"),
    }
}

#[test]
fn test_validate_service_name_service_missing_underscore_rejected() {
    let result = validate_service_name("screen-mirror._tcp.local.");
    match result {
        Err(StartStreamError::InvalidServiceName { value, .. }) => {
            assert_eq!(value, "screen-mirror._tcp.local.");
        }
        other => panic!("expected Err(InvalidServiceName), got {other:?}"),
    }
}

#[test]
fn test_validate_service_name_double_trailing_dot_rejected() {
    let result = validate_service_name("_screen-mirror._tcp.local..");
    match result {
        Err(StartStreamError::InvalidServiceName { value, .. }) => {
            assert_eq!(value, "_screen-mirror._tcp.local..");
        }
        other => panic!("expected Err(InvalidServiceName), got {other:?}"),
    }
}

#[test]
fn test_validate_service_name_default_accepted() {
    let result = validate_service_name("_screen-mirror._tcp.local.");
    assert!(
        result.is_ok(),
        "default service name must be accepted, got {result:?}"
    );
}

#[test]
fn test_validate_service_name_custom_tcp_accepted() {
    let result = validate_service_name("_my-mirror._tcp.local.");
    assert!(
        result.is_ok(),
        "_my-mirror._tcp.local. must be accepted, got {result:?}"
    );
}

#[test]
fn test_validate_service_name_custom_udp_accepted() {
    let result = validate_service_name("_my-mirror._udp.local.");
    assert!(
        result.is_ok(),
        "_my-mirror._udp.local. must be accepted, got {result:?}"
    );
}

#[test]
fn test_validate_service_name_minimal_accepted() {
    let result = validate_service_name("_a._b.local.");
    assert!(
        result.is_ok(),
        "_a._b.local. must be accepted (minimal valid form), got {result:?}"
    );
}

fn stream_fault(name: &str) -> Option<String> {
    match validate_service_name(name) {
        Ok(()) => None,
        Err(StartStreamError::InvalidServiceName { value, reason }) => {
            assert_eq!(value, name);
            Some(reason)
        }
        Err(other) => panic!("expected InvalidServiceName, got {other:?}"),
    }
}

fn sender_fault(name: &str) -> Option<String> {
    match validate_service_name_for_sender(name) {
        Ok(()) => None,
        Err(StartSenderError::InvalidServiceName { value, reason }) => {
            assert_eq!(value, name);
            Some(reason)
        }
        Err(other) => panic!("expected InvalidServiceName, got {other:?}"),
    }
}

#[test]
fn every_way_to_misspell_a_name_is_told_apart() {
    let cases = [
        ("", "must end with '.local.'"),
        ("_a._b.local", "must end with '.local.'"),
        ("_a._b.LOCAL.", "must end with '.local.'"),
        (".local.", "must contain exactly one '.' separating service and protocol"),
        ("_ab.local.", "must contain exactly one '.' separating service and protocol"),
        ("_a._b._c.local.", "must contain exactly one '.' separating service and protocol"),
        ("a._b.local.", "service segment must start with '_'"),
        ("._b.local.", "service segment must start with '_'"),
        ("_._b.local.", "service segment must not be empty after '_'"),
        ("_a!._b.local.", "service segment may only contain [A-Za-z0-9-]"),
        ("__a._b.local.", "service segment may only contain [A-Za-z0-9-]"),
        ("_a.b.local.", "protocol segment must start with '_'"),
        ("_a..local.", "protocol segment must start with '_'"),
        ("_a._.local.", "protocol segment must not be empty after '_'"),
        ("_a._b c.local.", "protocol segment may only contain [A-Za-z0-9-]"),
    ];
    for (name, reason) in cases {
        assert_eq!(stream_fault(name).as_deref(), Some(reason), "{name:?}");
        assert_eq!(sender_fault(name).as_deref(), Some(reason), "{name:?}");
    }
}

#[test]
fn labels_may_hold_letters_digits_and_hyphens_only() {
    for name in ["_a1-B._z9-.local.", "_0._-.local.", "_-._-.local."] {
        assert_eq!(stream_fault(name), None, "{name:?}");
        assert_eq!(sender_fault(name), None, "{name:?}");
    }
    for name in ["_a b._c.local.", "_é._tcp.local.", "_a._t_p.local.", "_._tcp.local.", "_a._.local."] {
        assert!(stream_fault(name).is_some(), "{name:?}");
        assert!(sender_fault(name).is_some(), "{name:?}");
    }
}

#[test]
fn a_sender_may_leave_its_port_to_the_system() {
    assert!(validate_udp_port_for_sender(0).is_ok());
    assert!(validate_udp_port_for_sender(1024).is_ok());
    assert!(validate_udp_port_for_sender(65535).is_ok());
    for port in [1u16, 80, 1023] {
        match validate_udp_port_for_sender(port) {
            Err(StartSenderError::InvalidPort {
                value,
                reason: PortRejectReason::Privileged,
            }) => assert_eq!(value, port),
            other => panic!("expected InvalidPort for {port}, got {other:?}"),
        }
    }
}
