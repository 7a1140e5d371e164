use attack_shark_x3_manager::device::{DeviceEndpoint, DeviceId, TransportSelection};
use attack_shark_x3_manager::error::{DriverError, ManagerError, StateError, TimeSpan};
use attack_shark_x3_manager::protocol::{ProfileId, ProfileMetadata, ProtocolError, TransportKind};
use attack_shark_x3_manager::state::IdentitySetupPhase;

fn profile(value: u8) -> ProfileId {
    ProfileId::new(value).expect("profile")
}

#[test]
fn protocol_error_preserves_typed_source_and_operation() {
    let source = ProtocolError::InvalidProfile { value: 99 };
    let err = ManagerError::Protocol {
        operation: "profile metadata",
        source,
    };
    assert!(matches!(
        err,
        ManagerError::Protocol {
            operation: "profile metadata",
            ..
        }
    ));
    match err {
        ManagerError::Protocol { source, .. } => {
            assert_eq!(source, ProtocolError::InvalidProfile { value: 99 });
        }
        other => panic!("protocol error must have source, got {other:?}"),
    }
}

#[test]
fn protocol_display_hides_technical_source_but_debug_shows_it() {
    let source = ProtocolError::InvalidPollingRate { value: 999 };
    let err = ManagerError::Protocol {
        operation: "dpi state",
        source,
    };
    let display = err.message();
    assert_eq!(display, "invalid update for dpi state");
    assert!(
        !display.contains("999"),
        "Display must not leak technical source detail: {display}"
    );
    let debug = format!("{err:?}");
    assert!(
        debug.contains("InvalidPollingRate"),
        "Debug must retain source: {debug}"
    );
    assert!(debug.contains("dpi state"));
}

#[test]
fn protocol_operation_context_is_preserved() {
    let err = ManagerError::Protocol {
        operation: "dpi: merge delta",
        source: ProtocolError::InvalidStageCount { count: 0 },
    };
    if let ManagerError::Protocol { operation, source } = &err {
        assert_eq!(*operation, "dpi: merge delta");
        assert_eq!(*source, ProtocolError::InvalidStageCount { count: 0 });
    } else {
        panic!("expected Protocol variant");
    }
}

#[test]
fn invalid_update_string_variant_still_available() {
    let err = ManagerError::InvalidUpdate("custom message".to_owned());
    assert_eq!(err.message(), "invalid update: custom message");
}

#[test]
fn protocol_error_in_profile_metadata_preserves_typed_source() {
    let source = ProtocolError::InvalidProfileRange {
        current: 5,
        maximum: 1,
    };
    let err = ManagerError::Protocol {
        operation: "profile metadata",
        source,
    };
    assert_eq!(err.message(), "invalid update for profile metadata");
    match &err {
        ManagerError::Protocol { source, .. } => assert_eq!(
            *source,
            ProtocolError::InvalidProfileRange {
                current: 5,
                maximum: 1
            }
        ),
        other => panic!("typed source, got {other:?}"),
    }
    // Debug retains technical detail, Display does not leak it.
    assert!(format!("{err:?}").contains("InvalidProfileRange"));
    assert!(!err.message().contains("InvalidProfileRange"));
}

#[test]
fn profile_metadata_new_error_maps_to_protocol_variant() {
    let target = profile(1);
    let invalid_max = profile(5);
    // Valid case should succeed.
    let ok = ProfileMetadata::new(target, invalid_max);
    assert!(ok.is_ok());
    // Invalid current (0) is not constructible via ProfileId::new; use raw ProtocolError directly.
    let source = ProtocolError::InvalidProfile { value: 0 };
    let mapped = Err::<ProfileMetadata, ProtocolError>(source).map_err(|source| {
        ManagerError::Protocol {
            operation: "profile metadata",
            source,
        }
    });
    assert!(matches!(
        mapped,
        Err(ManagerError::Protocol {
            operation: "profile metadata",
            ..
        })
    ));
    if let Err(ManagerError::Protocol { operation, source }) = mapped {
        assert_eq!(operation, "profile metadata");
        assert_eq!(source, ProtocolError::InvalidProfile { value: 0 });
    }
}

#[test]
fn state_errors_name_the_path_and_the_versions() {
    assert_eq!(
        StateError::unsupported_schema(9),
        StateError::UnsupportedSchema {
            found: 9,
            expected: 4
        }
    );
    assert!(StateError::io("/state.json", "denied").message().contains("/state.json"));
    assert!(
        StateError::state_path_unavailable("no home")
            .message()
            .contains("no home")
    );
    assert!(StateError::invalid_state("odd").message().contains("odd"));
}

#[test]
fn every_error_has_a_message() {
    let device = DeviceId::new("mouse-3").unwrap();
    let endpoint = DeviceEndpoint::ble("platform", None).unwrap();
    let errors = vec![
        ManagerError::State(StateError::invalid_state("detail")),
        ManagerError::Driver(DriverError::Failed("driver".to_owned())),
        ManagerError::Driver(DriverError::Protocol(ProtocolError::InvalidProfile {
            value: 9,
        })),
        ManagerError::Ble("ble".to_owned()),
        ManagerError::UnsupportedOperation {
            operation: "read_dpi",
            transport: TransportKind::Ble,
        },
        ManagerError::ExplicitAuthorizationRequired {
            operation: "update_polling_rate",
            transport: TransportKind::Ble,
        },
        ManagerError::MissingBaseline {
            resource: "DPI",
            profile: Some(profile(2)),
        },
        ManagerError::DeviceNotFound(device.clone()),
        ManagerError::AmbiguousDevice {
            selection: TransportSelection::Auto,
            candidates: vec![device.clone()],
        },
        ManagerError::NoDevice {
            selection: TransportSelection::Auto,
        },
        ManagerError::DeviceDisconnected(device.clone()),
        ManagerError::VerificationMismatch {
            resource: "buttons",
            profile: None,
        },
        ManagerError::RefreshRestorationFailed {
            restore: "lost".to_owned(),
        },
        ManagerError::RefreshRestoreFailed {
            refresh: "read".to_owned(),
            restore: "lost".to_owned(),
        },
        ManagerError::DeviceInvolvedInSetup {
            device: device.clone(),
            phase: IdentitySetupPhase::Restore,
        },
        ManagerError::AttachmentNotAuthenticated {
            device,
            endpoint,
            detail: "foreign".to_owned(),
        },
        ManagerError::NoIdentityCeremony,
        ManagerError::TokenGeneration {
            source: getrandom::Error::UNEXPECTED,
        },
    ];
    for error in errors {
        assert!(!error.message().is_empty(), "{error:?}");
    }
}

#[test]
fn ambiguous_mice_are_listed_by_key() {
    let candidates = vec![
        DeviceId::new("mouse-1").unwrap(),
        DeviceId::new("mouse-2").unwrap(),
    ];
    let text = ManagerError::AmbiguousDevice {
        selection: TransportSelection::Auto,
        candidates,
    }
    .message();
    assert_eq!(
        text,
        "multiple connected devices match transport selection Auto: [DeviceId(\"mouse-1\"), DeviceId(\"mouse-2\")]"
    );
}

#[test]
fn timeouts_are_shown_to_the_nanosecond() {
    let device = DeviceId::new("mouse-1").unwrap();
    let busy = |seconds, nanos| {
        ManagerError::DeviceOperationBusy {
            device: device.clone(),
            operation: "read_dpi",
            timeout: TimeSpan::new(seconds, nanos),
            path: "lock".to_owned(),
        }
        .message()
    };
    assert_eq!(
        busy(5, 0),
        "device mouse-1 is busy: operation read_dpi timed out after 5s waiting for lock at lock"
    );
    assert_eq!(
        busy(1, 500_000_000),
        "device mouse-1 is busy: operation read_dpi timed out after 1.5s waiting for lock at lock"
    );
    assert_eq!(TimeSpan::new(0, 0).text(), "0ns");
    assert_eq!(TimeSpan::new(0, 50_000_000).text(), "50ms");
    assert_eq!(
        ManagerError::PowerCycleDisappearanceTimeout {
            device: device.clone(),
            timeout: TimeSpan::new(60, 0),
        }
        .message(),
        "timed out waiting for USB device mouse-1 to disconnect during the power-cycle check after 60s"
    );
    assert_eq!(
        ManagerError::PowerCycleReappearanceTimeout {
            device,
            timeout: TimeSpan::new(0, 200_000_000),
        }
        .message(),
        "timed out waiting for USB device mouse-1 to reconnect during the power-cycle check after 200ms"
    );
}
