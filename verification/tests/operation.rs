use attack_shark_x3_manager::device::{DeviceEndpoint, DeviceLocator};
use attack_shark_x3_manager::events::{bridge, Received};
use attack_shark_x3_manager::operation::{
    BaselineSource, DeviceEvent, DeviceTopologyEvent, DiscoveredEndpoint, UpdatePolicy,
    VerificationMethod,
};
use attack_shark_x3_manager::protocol::{
    BatteryEvent, ConnectionChangedEvent, InputEvent, TransportKind,
};
use attack_shark_x3_manager::topology::{is_supported_usb_device, TopologyWatch};

#[test]
fn default_update_policy_uses_transport_verification() {
    assert_eq!(
        UpdatePolicy::default().verification,
        VerificationMethod::Transport
    );
}

#[test]
fn default_update_policy_reads_live_and_allows_no_defaults() {
    assert_eq!(UpdatePolicy::default().baseline, BaselineSource::Live);
    assert!(!UpdatePolicy::default().allow_explicit_defaults);
}

#[test]
fn maps_low_level_input_events_without_losing_raw_bytes() {
    let raw_report = [0x03, 0x10, 0x50, 0x01, 0x00];
    let event = InputEvent::ConnectionChanged(ConnectionChangedEvent {
        raw_report,
        connected: false,
    });
    assert_eq!(
        DeviceEvent::from(event),
        DeviceEvent::ConnectionChanged(ConnectionChangedEvent {
            raw_report,
            connected: false,
        })
    );
}

#[test]
fn raw_discovery_carries_endpoint_without_logical_id() {
    let endpoint = DeviceEndpoint::ble("platform-123", Some("Mouse")).unwrap();
    let discovered = DiscoveredEndpoint {
        endpoint: endpoint.clone(),
        connected: true,
    };
    let text = format!("{discovered:?}");
    assert!(
        !text.contains("mouse-"),
        "raw discovery should not embed logical id"
    );
    assert!(text.contains("platform-123"));
    assert_eq!(discovered.endpoint, endpoint);
}

#[test]
fn wired_endpoint_not_used_as_stable_identity_and_ble_uses_platform_id() {
    let wired = DeviceEndpoint::usb(
        TransportKind::Wired,
        0x1d57,
        0xfa60,
        None,
        "/dev/hidraw0",
        None,
    )
    .unwrap();
    let wired2 = DeviceEndpoint::usb(
        TransportKind::Wired,
        0x1d57,
        0xfa60,
        None,
        "/dev/hidraw1",
        None,
    )
    .unwrap();
    assert_ne!(wired.locator, wired2.locator);
    assert_eq!(wired.transport, wired2.transport);
    let ble = DeviceEndpoint::ble("ble-platform-id-XYZ", None).unwrap();
    assert!(matches!(ble.locator, DeviceLocator::BlePlatformId(_)));
}

#[test]
fn lagged_variant_carries_skipped_count_and_is_observable() {
    let event = DeviceEvent::Lagged { skipped: 7 };
    assert_eq!(event, DeviceEvent::Lagged { skipped: 7 });
    assert_ne!(event, DeviceEvent::Lagged { skipped: 3 });
    assert_ne!(event, DeviceEvent::Disconnected);
    if let DeviceEvent::Lagged { skipped } = event {
        assert_eq!(skipped, 7);
    } else {
        panic!("expected Lagged");
    }
}

#[test]
fn lagged_does_not_collide_with_input_event_mapping() {
    let input = InputEvent::BatteryChanged(BatteryEvent {
        raw_report: [0x03, 0x10, 0x40, 0x01, 0x02],
        level: 2,
    });
    let mapped = DeviceEvent::from(input);
    assert!(!matches!(mapped, DeviceEvent::Lagged { .. }));
}

#[test]
fn lagged_device_event_is_distinguishable_and_bounded() {
    let a = DeviceEvent::Lagged { skipped: 1 };
    let b = DeviceEvent::Lagged { skipped: 2 };
    assert_ne!(a, b);
    // subscriber can detect loss by matching Lagged
    let detected = matches!(a, DeviceEvent::Lagged { skipped: 1 });
    assert!(detected);
    // Documented semantics: lagged reports count of dropped messages, not a delivered report.
    if let DeviceEvent::Lagged { skipped } = a {
        assert_eq!(skipped, 1);
    } else {
        panic!("expected lagged");
    }
}

#[test]
fn the_bridge_surfaces_gaps_and_ends_with_the_channel() {
    let event = InputEvent::BatteryChanged(BatteryEvent {
        raw_report: [0x03, 0x10, 0x40, 0x01, 3],
        level: 3,
    });
    assert_eq!(
        bridge(Received::Lagged(2)),
        Some(DeviceEvent::Lagged { skipped: 2 })
    );
    assert_eq!(
        bridge(Received::Event(event)),
        Some(DeviceEvent::BatteryChanged(BatteryEvent {
            raw_report: [0x03, 0x10, 0x40, 0x01, 3],
            level: 3,
        }))
    );
    assert_eq!(bridge(Received::Closed), None);
}

#[test]
fn only_mice_of_the_family_are_supported() {
    assert!(is_supported_usb_device(0x1d57, 0xfa60));
    assert!(is_supported_usb_device(0x1d57, 0xfa61));
    assert!(!is_supported_usb_device(0x1d57, 0xfa62));
    assert!(!is_supported_usb_device(0x1d58, 0xfa61));
}

#[test]
fn a_removal_is_reported_only_for_a_mouse_that_was_seen() {
    let mut watch: TopologyWatch<u8> = TopologyWatch::new();
    assert_eq!(watch.disconnected(&1), None);
    assert_eq!(watch.connected(0x1d57, 0x0001, 1), None);
    assert_eq!(watch.disconnected(&1), None);
    assert_eq!(
        watch.connected(0x1d57, 0xfa61, 1),
        Some(DeviceTopologyEvent::Connected)
    );
    assert_eq!(
        watch.connected(0x1d57, 0xfa60, 2),
        Some(DeviceTopologyEvent::Connected)
    );
    assert_eq!(
        watch.disconnected(&1),
        Some(DeviceTopologyEvent::Disconnected)
    );
    assert_eq!(watch.disconnected(&1), None);
    assert_eq!(
        watch.disconnected(&2),
        Some(DeviceTopologyEvent::Disconnected)
    );
}
