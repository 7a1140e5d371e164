use attack_shark_x3_manager::device::{
    DeviceEndpoint, DeviceId, DeviceIdentity, DeviceLocator, TransportSelection,
};
use attack_shark_x3_manager::discovery::rebind::rebind_candidates;
use attack_shark_x3_manager::error::StateError;
use attack_shark_x3_manager::operation::DiscoveredEndpoint;
use attack_shark_x3_manager::protocol::TransportKind;

#[test]
fn device_id_requires_mouse_n_format() {
    assert!(DeviceId::new("mouse-1").is_ok());
    assert!(DeviceId::new("mouse-42").is_ok());
    assert_eq!(DeviceId::from_number(7).unwrap().as_str(), "mouse-7");
    assert_eq!(DeviceId::new("mouse-7").unwrap().number(), Some(7));
    // Rejects legacy forms
    assert!(DeviceId::new("usb:1d57:fa60:path:foo").is_err());
    assert!(DeviceId::new("ble:AA").is_err());
    assert!(DeviceId::new("mouse-0").is_err());
    assert!(DeviceId::new("mouse-01").is_err());
    assert!(DeviceId::new(" mouse-1 ").is_err());
    assert!(DeviceId::new("").is_err());
    assert!(DeviceId::new("  ").is_err());
    assert!(DeviceId::new("mouse-").is_err());
    assert!(DeviceId::new("mouse-1a").is_err());
}

#[test]
fn device_ids_accept_the_whole_number_range() {
    assert_eq!(
        DeviceId::from_number(u64::MAX).unwrap().as_str(),
        "mouse-18446744073709551615"
    );
    assert!(DeviceId::new("mouse-18446744073709551615").is_ok());
    assert!(DeviceId::new("mouse-18446744073709551616").is_err());
}

#[test]
fn usb_endpoint_keeps_hid_locator_and_metadata() {
    let endpoint = DeviceEndpoint::usb(
        TransportKind::Wired,
        0x1d57,
        0xfa61,
        Some("  SN\\AbC  "),
        r"C:\\hid-path",
        Some("My Mouse"),
    )
    .expect("usb endpoint");
    assert_eq!(endpoint.transport, TransportKind::Wired);
    assert_eq!(endpoint.vendor_id, Some(0x1d57));
    assert_eq!(endpoint.product_id, Some(0xfa61));
    assert_eq!(endpoint.serial_number.as_deref(), Some("SN\\AbC"));
    assert_eq!(
        endpoint.locator,
        DeviceLocator::UsbPath(r"C:\\hid-path".to_owned())
    );
    assert_eq!(endpoint.display_name.as_deref(), Some("My Mouse"));
    assert!(endpoint.is_coherent());
}

#[test]
fn ble_endpoint_keeps_platform_locator_only() {
    let endpoint = DeviceEndpoint::ble("  AA\\BB  ", Some("Office Mouse")).expect("BLE endpoint");
    assert_eq!(endpoint.transport, TransportKind::Ble);
    assert_eq!(endpoint.vendor_id, None);
    assert_eq!(endpoint.product_id, None);
    assert_eq!(endpoint.serial_number, None);
    assert_eq!(
        endpoint.locator,
        DeviceLocator::BlePlatformId("AA\\BB".to_owned())
    );
    assert_eq!(endpoint.display_name.as_deref(), Some("Office Mouse"));
    assert!(endpoint.is_coherent());
}

#[test]
fn endpoint_transport_locator_coherence_rejected() {
    // BLE transport with USB locator is incoherent - constructed via validation.
    let mut endpoint = DeviceEndpoint::ble("platform-1", None).unwrap();
    endpoint.transport = TransportKind::Wired; // tamper
    assert!(!endpoint.is_coherent());

    let mut identity = DeviceIdentity::new(DeviceId::new("mouse-1").unwrap(), None);
    identity.upsert_endpoint(endpoint);
    assert!(identity.validate().is_err());
}

#[test]
fn blank_ids_and_selectors_are_rejected() {
    assert!(DeviceId::new("  ").is_err());
    assert!(DeviceId::new("not-mouse").is_err());
    assert!(DeviceEndpoint::ble("\t", None).is_err());
    assert!(DeviceEndpoint::usb(TransportKind::Wired, 0x1d57, 0xfa61, None, "  ", None).is_err());
    assert!(
        DeviceEndpoint::usb(
            TransportKind::Ble,
            0x1d57,
            0xfa61,
            None,
            "/dev/hidraw0",
            None,
        )
        .is_err()
    );
}

#[test]
fn blank_usb_serial_normalizes_to_none() {
    let endpoint = DeviceEndpoint::usb(
        TransportKind::Wired,
        0x1d57,
        0xfa61,
        Some("  "),
        r"\\?\hid#path",
        None,
    )
    .expect("blank serial should be treated as absent");
    assert_eq!(endpoint.serial_number, None);
}

#[test]
fn single_logical_identity_can_hold_multiple_transports() {
    let mut identity =
        DeviceIdentity::new(DeviceId::new("mouse-1").unwrap(), Some("Mouse".to_owned()));
    let wired = DeviceEndpoint::usb(
        TransportKind::Wired,
        0x1d57,
        0xfa60,
        None,
        r"\\?\hid#wired-path",
        None,
    )
    .unwrap();
    let receiver = DeviceEndpoint::usb(
        TransportKind::Receiver,
        0x1d57,
        0xfa60,
        None,
        r"\\?\hid#receiver-path",
        None,
    )
    .unwrap();
    let ble = DeviceEndpoint::ble("platform-ble-42", None).unwrap();

    identity.upsert_endpoint(wired);
    identity.upsert_endpoint(receiver);
    identity.upsert_endpoint(ble);

    assert_eq!(identity.endpoints.len(), 3);
    assert!(identity.has_endpoint(TransportKind::Wired));
    assert!(identity.has_endpoint(TransportKind::Receiver));
    assert!(identity.has_endpoint(TransportKind::Ble));
    assert!(identity.validate().is_ok());

    // Updating one transport replaces it, not duplicating.
    let wired_v2 = DeviceEndpoint::usb(
        TransportKind::Wired,
        0x1d57,
        0xfa60,
        Some("NEWSN"),
        r"\\?\hid#wired-path-v2",
        None,
    )
    .unwrap();
    identity.upsert_endpoint(wired_v2);
    assert_eq!(identity.endpoints.len(), 3);
    assert_eq!(
        identity
            .endpoint(TransportKind::Wired)
            .unwrap()
            .serial_number
            .as_deref(),
        Some("NEWSN")
    );
}

#[test]
fn selected_endpoint_prefers_wired_then_receiver_then_ble() {
    let mut identity = DeviceIdentity::new(DeviceId::new("mouse-1").unwrap(), None);
    assert!(identity.selected_endpoint().is_none());
    identity.upsert_endpoint(DeviceEndpoint::ble("platform", None).unwrap());
    assert_eq!(identity.selected_transport(), Some(TransportKind::Ble));
    identity.upsert_endpoint(
        DeviceEndpoint::usb(TransportKind::Receiver, 0x1d57, 0xfa60, None, "r", None).unwrap(),
    );
    assert_eq!(identity.selected_transport(), Some(TransportKind::Receiver));
    identity.upsert_endpoint(
        DeviceEndpoint::usb(TransportKind::Wired, 0x1d57, 0xfa61, None, "w", None).unwrap(),
    );
    assert_eq!(identity.selected_transport(), Some(TransportKind::Wired));
    identity.preferred_transport = Some(TransportKind::Ble);
    assert_eq!(identity.selected_transport(), Some(TransportKind::Ble));
}

#[test]
fn allocation_numbers_are_strictly_formatted() {
    assert!(DeviceId::from_number(0).is_err());
    assert_eq!(DeviceId::from_number(1).unwrap().as_str(), "mouse-1");
    assert_eq!(DeviceId::from_number(100).unwrap().as_str(), "mouse-100");
}

#[test]
fn a_malformed_key_is_named_in_the_error() {
    match DeviceId::new("mouse-01") {
        Err(StateError::InvalidState(detail)) => assert!(detail.contains("mouse-01"), "{detail}"),
        other => panic!("expected an invalid state, got {other:?}"),
    }
}

#[test]
fn transport_selection_defaults_to_auto() {
    assert_eq!(TransportSelection::default(), TransportSelection::Auto);
}

fn found(path: &str, product: u16, connected: bool, name: &str) -> DiscoveredEndpoint {
    DiscoveredEndpoint {
        endpoint: DeviceEndpoint::usb(
            TransportKind::Wired,
            0x1d57,
            product,
            None,
            path,
            Some(name),
        )
        .unwrap(),
        connected,
    }
}

#[test]
fn rebind_candidates_are_filtered_sorted_and_deduplicated() {
    let stored =
        DeviceEndpoint::usb(TransportKind::Wired, 0x1d57, 0xfa61, None, "/old", None).unwrap();
    let discovered = vec![
        found("/z", 0xfa61, true, "last"),
        found("/b", 0xfa61, false, "disconnected"),
        found("/a", 0xfa61, true, "first"),
        found("/a", 0xfa61, true, "shadowed"),
        found("/c", 0xfa60, true, "other model"),
        DiscoveredEndpoint {
            endpoint: DeviceEndpoint::ble("platform", None).unwrap(),
            connected: true,
        },
    ];
    let candidates = rebind_candidates(&discovered, TransportKind::Wired, &stored);
    let names: Vec<Option<&str>> = candidates
        .iter()
        .map(|endpoint| endpoint.display_name.as_deref())
        .collect();
    assert_eq!(names, vec![Some("first"), Some("last")]);
}
