use attack_shark_x3_manager::device::{DeviceEndpoint, DeviceLocator, TransportSelection};
use attack_shark_x3_manager::error::ManagerError;
use attack_shark_x3_manager::operation::{DeviceTopologyEvent, DiscoveredEndpoint};
use attack_shark_x3_manager::protocol::{ProfileId, ProfileMetadata, TransportKind};
use attack_shark_x3_manager::session::{
    ble_discoveries, open_target, plan_metadata_call, require_exact_metadata, require_usb,
    scan_transports, usb_discoveries, BleDeviceInfo, MetadataCall, MetadataStage, OpenTarget,
    SessionWrite, UsbDeviceInfo,
};
use attack_shark_x3_manager::topology::{is_supported_usb_device, TopologyWatch};

fn metadata(current: u8, maximum: u8) -> ProfileMetadata {
    ProfileMetadata::new(
        ProfileId::new(current).expect("profile"),
        ProfileId::new(maximum).expect("profile"),
    )
    .expect("metadata")
}

/// The calls that bring an obedient mouse from one metadata to another.
fn calls(from: ProfileMetadata, target: ProfileMetadata) -> Vec<MetadataCall> {
    let mut made = Vec::new();
    let mut actual = from;
    let mut stage = MetadataStage::Read;
    while let Some((call, next)) = plan_metadata_call(target, stage, actual) {
        actual = match call {
            MetadataCall::SetMaximum(maximum) => {
                ProfileMetadata::new(actual.current(), maximum).expect("always valid")
            }
            MetadataCall::Activate(current) => {
                ProfileMetadata::new(current, actual.maximum()).expect("always valid")
            }
        };
        made.push(call);
        stage = next;
    }
    assert_eq!(actual, target);
    made
}

#[test]
fn metadata_is_written_in_an_order_that_stays_valid() {
    for from_maximum in 1..=5 {
        for from_current in 1..=from_maximum {
            for maximum in 1..=5 {
                for current in 1..=maximum {
                    let made = calls(
                        metadata(from_current, from_maximum),
                        metadata(current, maximum),
                    );
                    assert!(made.len() <= 3);
                }
            }
        }
    }
    assert_eq!(calls(metadata(2, 3), metadata(2, 3)), vec![]);
    assert_eq!(
        calls(metadata(1, 2), metadata(5, 5)),
        vec![
            MetadataCall::SetMaximum(ProfileId::Five),
            MetadataCall::Activate(ProfileId::Five),
        ]
    );
    assert_eq!(
        calls(metadata(5, 5), metadata(1, 2)),
        vec![
            MetadataCall::Activate(ProfileId::One),
            MetadataCall::SetMaximum(ProfileId::Two),
        ]
    );
}

#[test]
fn an_exact_metadata_write_is_read_back_exactly() {
    let target = metadata(2, 4);
    let mismatch = || ManagerError::VerificationMismatch {
        resource: "profile metadata",
        profile: Some(ProfileId::Two),
    };
    assert_eq!(
        require_exact_metadata(target, SessionWrite::ReadbackVerified(target)),
        Ok(target)
    );
    assert_eq!(
        require_exact_metadata(target, SessionWrite::ReadbackVerified(metadata(3, 4))),
        Err(mismatch())
    );
    assert_eq!(
        require_exact_metadata(target, SessionWrite::Acknowledged),
        Err(mismatch())
    );
}

#[test]
fn what_only_usb_can_do_is_refused_elsewhere() {
    assert_eq!(require_usb(TransportKind::Receiver, "read_dpi"), Ok(()));
    assert_eq!(
        require_usb(TransportKind::Ble, "read_dpi"),
        Err(ManagerError::UnsupportedOperation {
            operation: "read_dpi",
            transport: TransportKind::Ble,
        })
    );
}

#[test]
fn a_selection_decides_which_transports_are_scanned() {
    assert_eq!(
        scan_transports(TransportSelection::Auto),
        vec![
            TransportKind::Wired,
            TransportKind::Receiver,
            TransportKind::Ble,
        ]
    );
    assert_eq!(
        scan_transports(TransportSelection::Exact(TransportKind::Ble)),
        vec![TransportKind::Ble]
    );
}

fn usb_info(path: &str) -> UsbDeviceInfo {
    UsbDeviceInfo {
        vendor_id: 0x1d57,
        product_id: 0xfa61,
        serial_number: Some("SN".to_owned()),
        path: path.to_owned(),
        product: Some(" Mouse ".to_owned()),
    }
}

#[test]
fn reported_devices_become_endpoints() {
    let found = usb_discoveries(TransportKind::Wired, &vec![usb_info("/dev/hidraw0")]).unwrap();
    assert_eq!(
        found,
        vec![DiscoveredEndpoint {
            endpoint: DeviceEndpoint::usb(
                TransportKind::Wired,
                0x1d57,
                0xfa61,
                Some("SN"),
                "/dev/hidraw0",
                Some("Mouse"),
            )
            .unwrap(),
            connected: true,
        }]
    );
    assert!(matches!(
        usb_discoveries(
            TransportKind::Wired,
            &vec![usb_info("/dev/hidraw0"), usb_info("  ")]
        ),
        Err(ManagerError::State(_))
    ));

    let radio = BleDeviceInfo {
        platform_id: "ble-1".to_owned(),
        name: None,
        connected: false,
    };
    let found = ble_discoveries(&vec![radio]).unwrap();
    assert_eq!(
        found,
        vec![DiscoveredEndpoint {
            endpoint: DeviceEndpoint::ble("ble-1", None).unwrap(),
            connected: false,
        }]
    );
}

#[test]
fn an_endpoint_is_opened_by_its_own_sort_of_locator() {
    let mut cable =
        DeviceEndpoint::usb(TransportKind::Wired, 1, 2, None, "/dev/hidraw0", None).unwrap();
    assert_eq!(
        open_target(&cable),
        Ok(OpenTarget::Usb {
            transport: TransportKind::Wired,
            path: "/dev/hidraw0".to_owned(),
        })
    );
    let mut radio = DeviceEndpoint::ble("ble-1", None).unwrap();
    assert_eq!(
        open_target(&radio),
        Ok(OpenTarget::Ble {
            platform_id: "ble-1".to_owned(),
        })
    );
    cable.locator = DeviceLocator::BlePlatformId("ble-1".to_owned());
    radio.locator = DeviceLocator::UsbPath("/dev/hidraw0".to_owned());
    assert_eq!(
        open_target(&cable),
        Err(ManagerError::InvalidUpdate(
            "USB open expected UsbPath locator for transport Wired, got BlePlatformId(\"ble-1\")"
                .to_owned()
        ))
    );
    assert_eq!(
        open_target(&radio),
        Err(ManagerError::InvalidUpdate(
            "BLE open expected BlePlatformId locator for transport Ble, got UsbPath(\"/dev/hidraw0\")"
                .to_owned()
        ))
    );
}

#[test]
fn only_mice_of_this_family_are_watched() {
    assert!(is_supported_usb_device(0x1d57, 0xfa60));
    assert!(is_supported_usb_device(0x1d57, 0xfa61));
    assert!(!is_supported_usb_device(0x1d57, 0xfa62));
    assert!(!is_supported_usb_device(0x046d, 0xfa61));

    let mut watch: TopologyWatch<u8> = TopologyWatch::new();
    assert_eq!(watch.connected(0x046d, 0xfa61, 1), None);
    assert_eq!(watch.disconnected(&1), None);
    assert_eq!(
        watch.connected(0x1d57, 0xfa61, 2),
        Some(DeviceTopologyEvent::Connected)
    );
    assert_eq!(
        watch.connected(0x1d57, 0xfa60, 3),
        Some(DeviceTopologyEvent::Connected)
    );
    assert_eq!(
        watch.disconnected(&2),
        Some(DeviceTopologyEvent::Disconnected)
    );
    assert_eq!(watch.disconnected(&2), None);
    assert_eq!(
        watch.disconnected(&3),
        Some(DeviceTopologyEvent::Disconnected)
    );
}
