use attack_shark_x3_manager::device::{
    DeviceEndpoint, DeviceId, DeviceIdentity, DeviceLocator, TransportSelection,
};
use attack_shark_x3_manager::discovery::rebind::rebind_candidates;
use attack_shark_x3_manager::discovery::scan::{current_watermark, read_endpoint_identity};
use attack_shark_x3_manager::error::{ManagerError, StateError};
use attack_shark_x3_manager::manager::DeviceManager;
use attack_shark_x3_manager::operation::{
    DiscoveredDevice, DiscoveredEndpoint, DiscoveryView, IdentityResolution, UnassociatedReason,
};
use attack_shark_x3_manager::operations::access::Authentication;
use attack_shark_x3_manager::protocol::{
    DpiState, DpiValue, LiftOffDistance, PhysicalId, PollingRate, ProfileId, ProfileMetadata,
    SensorOptions, StageIndex, TransportKind, WatermarkDecode,
};
use attack_shark_x3_manager::session::{SessionReply, SessionRequest, Step};
use attack_shark_x3_manager::state::{
    DesiredSource, DesiredState, DeviceState, IdentityMode, IdentitySetupJournal,
    IdentitySetupPhase, IdentitySetupStage, ProfileState, StateFile, Timestamp, Verification,
};

fn profile(value: u8) -> ProfileId {
    ProfileId::new(value).expect("profile")
}

fn token(byte: u8) -> PhysicalId {
    PhysicalId::from_token_bytes([byte; 16])
}

fn dpi(profile: ProfileId, value: u16) -> DpiState {
    DpiState::new(
        profile,
        vec![DpiValue { value }],
        StageIndex { value: 1 },
        SensorOptions {
            lift_off_distance: LiftOffDistance::OneMillimeter,
            ripple_control: false,
            angle_snap: false,
            motion_sync: false,
        },
        [0; 25],
    )
    .expect("image")
}

fn usb(
    transport: TransportKind,
    product: u16,
    serial: Option<&str>,
    path: &str,
    name: Option<&str>,
) -> DeviceEndpoint {
    DeviceEndpoint::usb(transport, 0x1d57, product, serial, path, name).expect("endpoint")
}

fn wired(path: &str) -> DeviceEndpoint {
    usb(TransportKind::Wired, 0xfa61, None, path, None)
}

fn wired_named(path: &str, serial: &str) -> DeviceEndpoint {
    usb(TransportKind::Wired, 0xfa61, Some(serial), path, Some(serial))
}

fn receiver(path: &str) -> DeviceEndpoint {
    usb(TransportKind::Receiver, 0xfa60, None, path, None)
}

fn ble(id: &str) -> DeviceEndpoint {
    DeviceEndpoint::ble(id, None).expect("endpoint")
}

fn manager() -> DeviceManager {
    DeviceManager::new(StateFile::new()).expect("manager")
}

fn persistent() -> DeviceManager {
    let mut manager = manager();
    manager.state.identity_mode = IdentityMode::Persistent;
    manager
}

fn insert(manager: &mut DeviceManager, endpoints: Vec<DeviceEndpoint>) -> DeviceId {
    let id = manager.state.allocate_device_id().expect("id");
    let name = endpoints[0].display_name.clone();
    let mut identity = DeviceIdentity::new(id.clone(), name);
    for endpoint in endpoints {
        identity.upsert_endpoint(endpoint);
    }
    manager
        .state
        .devices
        .insert(id.clone(), DeviceState::new(identity));
    id
}

fn insert_marked(manager: &mut DeviceManager, endpoint: DeviceEndpoint, token: PhysicalId) -> DeviceId {
    let id = insert(manager, vec![endpoint]);
    let mut device = manager.state.devices.remove(&id).expect("device");
    device.identity.physical_id = Some(token);
    manager.state.devices.insert(id.clone(), device);
    manager.state.identity_mode = IdentityMode::Persistent;
    id
}

fn device<'a>(manager: &'a DeviceManager, id: &DeviceId) -> &'a DeviceState {
    manager.state.devices.get(id).expect("device")
}

fn locator(manager: &DeviceManager, id: &DeviceId, transport: TransportKind) -> DeviceLocator {
    device(manager, id)
        .identity
        .endpoint(transport)
        .expect("stored endpoint")
        .locator
        .clone()
}

fn path(value: &str) -> DeviceLocator {
    DeviceLocator::UsbPath(value.to_owned())
}

/// What the watermark of an attached mouse reads as.
#[derive(Clone, Copy)]
enum Mark {
    Decodes(WatermarkDecode),
    Unsupported,
    Unreadable,
}

struct Attached {
    endpoint: DeviceEndpoint,
    connected: bool,
    mark: Mark,
}

fn attached(endpoint: &DeviceEndpoint, decode: WatermarkDecode) -> Attached {
    Attached {
        endpoint: endpoint.clone(),
        connected: true,
        mark: Mark::Decodes(decode),
    }
}

fn plain(endpoint: &DeviceEndpoint) -> Attached {
    attached(endpoint, WatermarkDecode::Absent)
}

fn detached(endpoint: &DeviceEndpoint) -> Attached {
    Attached {
        endpoint: endpoint.clone(),
        connected: false,
        mark: Mark::Unreadable,
    }
}

/// A machine's endpoints, with a count of the sessions that were opened and of
/// the writes that were asked for.
struct Bench {
    mice: Vec<Attached>,
    opens: usize,
    writes: usize,
}

fn is_write(request: &SessionRequest) -> bool {
    matches!(
        request,
        SessionRequest::WriteDpi { .. }
            | SessionRequest::WritePreferences { .. }
            | SessionRequest::WriteButtons { .. }
            | SessionRequest::WritePollingRate { .. }
            | SessionRequest::WriteProfileMetadata(_)
    )
}

impl Bench {
    fn new(mice: Vec<Attached>) -> Bench {
        Bench {
            mice,
            opens: 0,
            writes: 0,
        }
    }

    fn list(&self, selection: TransportSelection) -> Vec<DiscoveredEndpoint> {
        self.mice
            .iter()
            .filter(|mouse| match selection {
                TransportSelection::Auto => true,
                TransportSelection::Exact(transport) => mouse.endpoint.transport == transport,
            })
            .map(|mouse| DiscoveredEndpoint {
                endpoint: mouse.endpoint.clone(),
                connected: mouse.connected,
            })
            .collect()
    }

    fn watermark(&mut self, endpoint: &DeviceEndpoint) -> Result<WatermarkDecode, ManagerError> {
        self.opens += 1;
        let mark = self
            .mice
            .iter()
            .find(|mouse| mouse.endpoint == *endpoint)
            .expect("attached")
            .mark;
        let mut step = current_watermark();
        loop {
            match step {
                Step::Done(outcome) => return outcome,
                Step::Ask { request, next } => {
                    if is_write(&request) {
                        self.writes += 1;
                    }
                    let reply = match (mark, request) {
                        (Mark::Unsupported, _) => {
                            SessionReply::Failed(ManagerError::UnsupportedOperation {
                                operation: "read_profile_metadata",
                                transport: endpoint.transport,
                            })
                        }
                        (Mark::Unreadable, _) => {
                            SessionReply::Failed(ManagerError::MissingBaseline {
                                resource: "profile metadata",
                                profile: None,
                            })
                        }
                        (Mark::Decodes(_), SessionRequest::ReadProfileMetadata) => {
                            SessionReply::ProfileMetadata(
                                ProfileMetadata::new(profile(3), profile(5)).expect("metadata"),
                            )
                        }
                        (Mark::Decodes(watermark), SessionRequest::ReadDpi(target)) => {
                            assert_eq!(target, profile(3), "the active profile is read");
                            SessionReply::Dpi {
                                state: dpi(target, 800),
                                watermark,
                            }
                        }
                        (_, other) => panic!("unexpected request {other:?}"),
                    };
                    assert!(reply.answers(&request));
                    step = next.resume(reply);
                }
            }
        }
    }

    fn begin(
        &mut self,
        manager: &mut DeviceManager,
        selection: TransportSelection,
    ) -> Result<Vec<DiscoveredEndpoint>, ManagerError> {
        let list = self.list(selection);
        for endpoint in manager.begin_discovery(&list)? {
            let decode = read_endpoint_identity(self.watermark(&endpoint))?;
            manager.record_identity(endpoint, decode);
        }
        Ok(list)
    }

    fn discover(&mut self, manager: &mut DeviceManager, selection: TransportSelection) -> DiscoveryView {
        let list = self.begin(manager, selection).expect("readings");
        manager.discover(&list, selection)
    }

    fn list_devices(
        &mut self,
        manager: &mut DeviceManager,
        selection: TransportSelection,
    ) -> Vec<DiscoveredDevice> {
        let list = self.begin(manager, selection).expect("readings");
        manager.list_devices(&list, selection)
    }

    fn resolve(
        &mut self,
        manager: &mut DeviceManager,
        explicit: Option<&DeviceId>,
        selection: TransportSelection,
    ) -> Result<DeviceId, ManagerError> {
        let rows = self.list_devices(manager, selection);
        manager.resolve_device(&rows, explicit, selection)
    }
}

fn resolution_of(view: &DiscoveryView, at: &str) -> IdentityResolution {
    view.connections
        .iter()
        .find(|row| row.endpoint.locator == path(at))
        .expect("connection present")
        .resolution
        .clone()
}

#[test]
fn resolve_device_honors_explicit_id_and_registers_discovery() {
    let mut manager = manager();
    let first = wired_named(r"\\?\hid#explicit-a", "EXPLICIT-A");
    let second = wired_named(r"\\?\hid#explicit-b", "EXPLICIT-B");
    let id = insert(&mut manager, vec![first.clone()]);
    let mut bench = Bench::new(vec![plain(&first), plain(&second)]);

    let selected = bench
        .resolve(&mut manager, Some(&id), TransportSelection::Auto)
        .unwrap();

    assert_eq!(selected, id);
    assert_eq!(
        manager.state.devices.len(),
        1,
        "one fuzzy logical mouse owns every connection"
    );
    assert!(manager.state.devices.contains_key(&id));
    assert_eq!(
        locator(&manager, &id, TransportKind::Wired),
        path(r"\\?\hid#explicit-b"),
        "the discovered port change registers on the existing fuzzy mouse"
    );
}

#[test]
fn resolve_device_honors_connected_stored_selection() {
    let mut manager = manager();
    let endpoint = wired_named(r"\\?\hid#stored-a", "STORED-A");
    let id = insert(&mut manager, vec![endpoint.clone()]);
    manager.state.selected_device = Some(id.clone());
    let mut bench = Bench::new(vec![plain(&endpoint)]);

    assert_eq!(
        bench
            .resolve(&mut manager, None, TransportSelection::Auto)
            .unwrap(),
        id
    );
    assert_eq!(manager.state.selected_device, Some(id));
}

#[test]
fn resolve_device_selects_the_sole_connected_candidate() {
    let mut manager = manager();
    let connected = wired_named(r"\\?\hid#sole-connected", "SOLE-CONNECTED");
    let disconnected = wired_named(r"\\?\hid#sole-disconnected", "SOLE-DISCONNECTED");
    let mut bench = Bench::new(vec![plain(&connected), detached(&disconnected)]);

    let selected = bench
        .resolve(&mut manager, None, TransportSelection::Auto)
        .unwrap();
    assert_eq!(manager.selected_device(), Some(selected.clone()));
    assert!(manager.state.devices.contains_key(&selected));
    assert!(device(&manager, &selected)
        .identity
        .has_endpoint(TransportKind::Wired));
}

#[test]
fn resolve_device_reports_ambiguity_without_guessing() {
    let mut manager = manager();
    let first = wired_named(r"\\?\hid#ambig-a", "AMBIGUOUS-A");
    let second = wired_named(r"\\?\hid#ambig-b", "AMBIGUOUS-B");
    let id_a = insert_marked(&mut manager, first.clone(), token(0xaa));
    let id_b = insert_marked(&mut manager, second.clone(), token(0xbb));
    manager.state.selected_device = None;
    let mut bench = Bench::new(vec![
        attached(&first, WatermarkDecode::Valid(token(0xaa))),
        attached(&second, WatermarkDecode::Valid(token(0xbb))),
    ]);

    let error = bench
        .resolve(&mut manager, None, TransportSelection::Auto)
        .expect_err("multiple connected logical mice must be explicit");
    match error {
        ManagerError::AmbiguousDevice {
            selection,
            candidates,
        } => {
            assert_eq!(selection, TransportSelection::Auto);
            assert_eq!(candidates.len(), 2);
            assert!(candidates.contains(&id_a));
            assert!(candidates.contains(&id_b));
        }
        other => panic!("expected AmbiguousDevice, got {other:?}"),
    }
    assert_eq!(manager.selected_device(), None);
}

#[test]
fn a_cable_does_not_settle_which_of_several_mice_is_meant() {
    let mut manager = manager();
    let cabled = wired_named(r"\\?\hid#cabled", "CABLED");
    let radio = receiver(r"\\?\hid#radio");
    let id = insert_marked(&mut manager, cabled.clone(), token(0xaa));
    let other = insert_marked(&mut manager, radio.clone(), token(0xbb));
    let mut bench = Bench::new(vec![
        attached(&cabled, WatermarkDecode::Valid(token(0xaa))),
        attached(&radio, WatermarkDecode::Valid(token(0xbb))),
    ]);

    assert_eq!(
        bench.resolve(&mut manager, None, TransportSelection::Auto),
        Err(ManagerError::AmbiguousDevice {
            selection: TransportSelection::Auto,
            candidates: vec![id, other.clone()],
        })
    );
    assert_eq!(manager.selected_device(), None);

    manager.state.selected_device = Some(other.clone());
    assert_eq!(
        bench.resolve(&mut manager, None, TransportSelection::Auto),
        Ok(other),
        "a connected selection is taken"
    );
}

#[test]
fn resolve_device_reports_no_connected_device() {
    let mut manager = manager();
    let endpoint = wired_named(r"\\?\hid#none-disconnected", "NONE-DISCONNECTED");
    let mut bench = Bench::new(vec![detached(&endpoint)]);

    let error = bench
        .resolve(
            &mut manager,
            None,
            TransportSelection::Exact(TransportKind::Wired),
        )
        .expect_err("no connected candidates must be reported");
    match error {
        ManagerError::NoDevice { selection } => {
            assert_eq!(selection, TransportSelection::Exact(TransportKind::Wired));
        }
        other => panic!("expected NoDevice, got {other:?}"),
    }
    assert_eq!(manager.selected_device(), None);
}

#[test]
fn register_device_inserts_and_selects_first() {
    let mut manager = manager();
    let id = manager.state.allocate_device_id().unwrap();
    let mut identity = DeviceIdentity::new(id.clone(), Some("Test".to_owned()));
    identity.upsert_endpoint(wired(r"\\?\hid#test"));

    manager.register_device(identity.clone()).unwrap();

    assert_eq!(manager.state.selected_device, Some(id.clone()));
    assert!(manager.state.devices.contains_key(&id));
    assert_eq!(device(&manager, &id).identity, identity);
}

#[test]
fn register_device_preserves_existing_state_and_selection() {
    let mut manager = persistent();
    let first_id = manager.state.allocate_device_id().unwrap();
    let mut first = DeviceIdentity::new(first_id.clone(), None);
    first.upsert_endpoint(wired(r"\\?\hid#first"));
    first.physical_id = Some(token(0x21));
    manager.register_device(first).unwrap();

    let mut stored = manager.state.devices.remove(&first_id).unwrap();
    let mut one = ProfileState::empty();
    one.polling_rate.desired = Some(DesiredState {
        value: PollingRate::Hz500,
        source: DesiredSource::UserWrite,
        verification: Verification::not_sent(),
        updated_at: Timestamp { unix_seconds: 42 },
    });
    stored.profiles.insert(profile(1), one);
    manager.state.devices.insert(first_id.clone(), stored);

    let existing = manager.device_identity(&first_id).unwrap();
    manager.register_device(existing).unwrap();

    assert_eq!(manager.state.selected_device, Some(first_id.clone()));
    assert_eq!(
        device(&manager, &first_id)
            .profiles
            .get(profile(1))
            .unwrap()
            .polling_rate
            .desired
            .as_ref()
            .unwrap()
            .value,
        PollingRate::Hz500
    );

    let second_id = manager.state.allocate_device_id().unwrap();
    let mut second = DeviceIdentity::new(second_id, Some("Second".to_owned()));
    second.upsert_endpoint(ble("ble-device-2"));
    second.physical_id = Some(token(0x22));
    manager.register_device(second).unwrap();
    assert_eq!(manager.state.selected_device, Some(first_id));
}

#[test]
fn legacy_mode_uses_one_fuzzy_mouse_with_separate_connections() {
    let mut manager = manager();
    let cable = usb(TransportKind::Wired, 0xfa61, Some("SN-X"), "/dev/hidraw0", None);
    let dongle = usb(TransportKind::Receiver, 0xfa61, Some("SN-X"), "/dev/hidraw1", None);
    let mut bench = Bench::new(vec![plain(&dongle), plain(&cable)]);

    let view = bench.discover(&mut manager, TransportSelection::Auto);
    assert_eq!(
        view.devices.len(),
        1,
        "legacy discovery allocates exactly one fuzzy logical mouse"
    );
    let fuzzy = view.devices[0].identity.id.clone();
    assert_eq!(view.connections.len(), 2);
    for connection in &view.connections {
        assert_eq!(
            connection.resolution,
            IdentityResolution::Resolved {
                identity: fuzzy.clone()
            },
            "every separate connection resolves to the one fuzzy mouse"
        );
    }
    assert_eq!(
        view.devices[0].transports,
        vec![TransportKind::Wired, TransportKind::Receiver]
    );
    assert!(view.devices[0].connected);
}

#[test]
fn multi_transport_logical_device_aggregates_to_one_row() {
    let mut manager = manager();
    let cable = wired("/dev/hidraw0");
    let dongle = receiver("/dev/hidraw1");
    let id = insert(&mut manager, vec![cable.clone(), dongle.clone()]);
    let mut bench = Bench::new(vec![plain(&dongle), plain(&cable)]);

    let devices = bench.list_devices(&mut manager, TransportSelection::Auto);
    assert_eq!(devices.len(), 1, "one logical mouse must be one row");
    let row = &devices[0];
    assert_eq!(row.identity.id, id);
    assert!(row.connected, "connected on either transport");
    assert_eq!(
        row.transports,
        vec![TransportKind::Wired, TransportKind::Receiver]
    );
}

#[test]
fn association_does_not_overwrite_cleared_display_name() {
    let mut manager = manager();
    let endpoint = usb(
        TransportKind::Receiver,
        0xfa60,
        None,
        r"\\?\hid#named-receiver",
        Some("2.4G Wireless Device"),
    );
    let id = insert(&mut manager, vec![endpoint.clone()]);
    let mut bench = Bench::new(vec![plain(&endpoint)]);
    manager.rename_device(&id, "").unwrap();

    bench.list_devices(&mut manager, TransportSelection::Auto);
    assert!(
        device(&manager, &id).identity.display_name.is_none(),
        "a cleared name must survive discovery even when the endpoint advertises one"
    );
}

#[test]
fn forget_device_refuses_evidence_without_force() {
    let mut manager = manager();
    let id = insert(&mut manager, vec![wired("/dev/hidraw0")]);
    let mut stored = manager.state.devices.remove(&id).unwrap();
    let mut one = ProfileState::empty();
    one.dpi.desired = Some(DesiredState {
        value: dpi(profile(1), 800),
        source: DesiredSource::UserWrite,
        verification: Verification::not_sent(),
        updated_at: Timestamp { unix_seconds: 1 },
    });
    stored.profiles.insert(profile(1), one);
    manager.state.devices.insert(id.clone(), stored);

    let forgotten = manager.forget_device(&id, false).unwrap();
    assert!(!forgotten, "evidence-bearing device must be protected");
    assert!(manager.state.devices.contains_key(&id));

    let forgotten = manager.forget_device(&id, true).unwrap();
    assert!(forgotten);
    assert!(!manager.state.devices.contains_key(&id));
}

#[test]
fn forget_device_clears_selection() {
    let mut manager = manager();
    let id = insert(&mut manager, vec![wired("/dev/hidraw0")]);
    manager.state.selected_device = Some(id.clone());

    manager.forget_device(&id, false).unwrap();
    assert!(!manager.state.devices.contains_key(&id));
    assert_eq!(manager.state.selected_device, None);
}

#[test]
fn rename_device_sets_and_clears_display_name() {
    let mut manager = manager();
    let id = insert(&mut manager, vec![wired("/dev/hidraw0")]);

    manager.rename_device(&id, "  Desk Mouse  ").unwrap();
    assert_eq!(
        manager.find_device_by_name("desk mouse").unwrap(),
        id,
        "name lookup is case-insensitive and trimmed"
    );

    manager.rename_device(&id, "   ").unwrap();
    assert!(device(&manager, &id).identity.display_name.is_none());
    assert!(manager.find_device_by_name("desk mouse").is_err());
}

#[test]
fn find_device_by_name_rejects_ambiguous_names() {
    let mut manager = manager();
    let first = insert_marked(&mut manager, wired("/dev/hidraw0"), token(0x11));
    let second = insert_marked(&mut manager, wired("/dev/hidraw1"), token(0x12));
    manager.rename_device(&first, "Mouse").unwrap();
    manager.rename_device(&second, "mouse").unwrap();

    let error = manager.find_device_by_name("mouse").unwrap_err();
    assert!(matches!(error, ManagerError::AmbiguousDevice { .. }));
}

#[test]
fn preferred_transport_exact_sets_and_auto_uses_priority() {
    let mut manager = manager();
    let cable = wired("/dev/wired0");
    let dongle = receiver("/dev/receiver0");
    let radio = ble("ble-addr-1");
    let id = insert(
        &mut manager,
        vec![cable.clone(), dongle.clone(), radio.clone()],
    );
    manager.state.selected_device = Some(id.clone());

    assert_eq!(
        manager
            .device_identity(&id)
            .unwrap()
            .selected_endpoint()
            .unwrap()
            .transport,
        TransportKind::Wired
    );

    let mut bench = Bench::new(vec![plain(&dongle)]);
    bench
        .resolve(
            &mut manager,
            Some(&id),
            TransportSelection::Exact(TransportKind::Receiver),
        )
        .unwrap();
    let after = manager.device_identity(&id).unwrap();
    assert_eq!(after.preferred_transport, Some(TransportKind::Receiver));
    assert_eq!(
        after.selected_endpoint().unwrap().transport,
        TransportKind::Receiver
    );
}

#[test]
fn legacy_discovery_reads_no_watermarks_and_keeps_one_mouse_across_port_changes() {
    let mut manager = manager();
    let port_a = wired_named(r"\\?\hid#legacy-port-a", "SAME-SN");
    let port_b = wired_named(r"\\?\hid#legacy-port-b", "SAME-SN");

    let mut bench = Bench::new(vec![plain(&port_a)]);
    let first = bench.discover(&mut manager, TransportSelection::Auto);
    assert_eq!(first.mode, IdentityMode::Legacy);
    assert_eq!(
        first.devices.len(),
        1,
        "legacy discovery creates exactly one fuzzy logical mouse"
    );
    let id = first.devices[0].identity.id.clone();

    bench.mice = vec![plain(&port_b)];
    let second = bench.discover(&mut manager, TransportSelection::Auto);
    assert_eq!(
        second.devices.len(),
        1,
        "a port change never allocates another logical mouse"
    );
    assert_eq!(second.devices[0].identity.id, id);
    assert_eq!(
        second.devices[0]
            .identity
            .endpoint(TransportKind::Wired)
            .unwrap()
            .locator,
        path(r"\\?\hid#legacy-port-b"),
        "the port change updates the fuzzy mouse's available connection"
    );
    assert_eq!(bench.opens, 0, "legacy discovery must never read a watermark");
}

#[test]
fn persistent_discovery_resolves_known_token_to_its_logical_mouse() {
    let mut manager = manager();
    let endpoint = wired_named(r"\\?\hid#known-token", "KNOWN");
    let id = insert_marked(&mut manager, endpoint.clone(), token(0x11));
    let mut bench = Bench::new(vec![attached(
        &endpoint,
        WatermarkDecode::Valid(token(0x11)),
    )]);

    let view = bench.discover(&mut manager, TransportSelection::Auto);
    assert_eq!(view.mode, IdentityMode::Persistent);
    assert_eq!(view.devices.len(), 1);
    assert_eq!(view.devices[0].identity.id, id);
    assert!(view.devices[0].connected);
    assert_eq!(
        view.connections[0].resolution,
        IdentityResolution::Resolved {
            identity: id.clone()
        }
    );
    assert_eq!(
        view.devices[0].identity.physical_id,
        Some(token(0x11)),
        "the durable physical identity is preserved"
    );
}

#[test]
fn unknown_malformed_unsupported_connections_stay_unassociated() {
    let mut manager = persistent();
    let unknown = wired_named(r"\\?\hid#unassoc-unknown", "U-UNKNOWN");
    let malformed = wired_named(r"\\?\hid#unassoc-malformed", "U-MALFORMED");
    let unsupported = wired_named(r"\\?\hid#unassoc-unsupported", "U-UNSUPPORTED");
    let mut bench = Bench::new(vec![
        attached(&malformed, WatermarkDecode::Malformed),
        attached(&unknown, WatermarkDecode::Valid(token(0x42))),
        attached(
            &unsupported,
            WatermarkDecode::UnsupportedVersion { version: 0x7F },
        ),
    ]);

    let view = bench.discover(&mut manager, TransportSelection::Auto);
    assert!(
        view.devices.is_empty(),
        "unassociated connections are never persisted as logical mice"
    );
    assert_eq!(
        resolution_of(&view, r"\\?\hid#unassoc-unknown"),
        IdentityResolution::Unassociated {
            reason: UnassociatedReason::Unknown,
            physical_id: Some(token(0x42)),
        }
    );
    assert_eq!(
        resolution_of(&view, r"\\?\hid#unassoc-malformed"),
        IdentityResolution::Unassociated {
            reason: UnassociatedReason::Malformed,
            physical_id: None,
        }
    );
    assert_eq!(
        resolution_of(&view, r"\\?\hid#unassoc-unsupported"),
        IdentityResolution::Unassociated {
            reason: UnassociatedReason::Unsupported { version: 0x7F },
            physical_id: None,
        }
    );
    assert!(manager.state.devices.is_empty());
}

#[test]
fn same_token_on_wired_and_receiver_is_not_a_duplicate() {
    let mut manager = persistent();
    let cable = wired_named(r"\\?\hid#same-token-wired", "SAME-TOKEN");
    let dongle = receiver(r"\\?\hid#same-token-receiver");
    let mut bench = Bench::new(vec![
        attached(&dongle, WatermarkDecode::Valid(token(0x77))),
        attached(&cable, WatermarkDecode::Valid(token(0x77))),
    ]);

    let view = bench.discover(&mut manager, TransportSelection::Auto);
    assert!(view.devices.is_empty());
    assert_eq!(view.connections.len(), 2);
    for connection in &view.connections {
        assert_eq!(
            connection.resolution,
            IdentityResolution::Unassociated {
                reason: UnassociatedReason::Unknown,
                physical_id: Some(token(0x77)),
            },
            "the same unknown token across wired + receiver is one physical mouse, not a conflict"
        );
    }
}

#[test]
fn same_transport_duplicate_token_conflicts() {
    let mut manager = persistent();
    let first = wired_named(r"\\?\hid#duplicate-a", "DUP-TOKEN");
    let second = wired_named(r"\\?\hid#duplicate-b", "DUP-TOKEN");
    let mut bench = Bench::new(vec![
        attached(&first, WatermarkDecode::Valid(token(0x88))),
        attached(&second, WatermarkDecode::Valid(token(0x88))),
    ]);

    let view = bench.discover(&mut manager, TransportSelection::Auto);
    assert!(view.devices.is_empty());
    assert_eq!(view.connections.len(), 2);
    for connection in &view.connections {
        assert_eq!(
            connection.resolution,
            IdentityResolution::Unassociated {
                reason: UnassociatedReason::Duplicate,
                physical_id: Some(token(0x88)),
            },
            "two same-transport mice carrying one token must both be refused"
        );
    }
}

#[test]
fn open_locked_refuses_mismatched_attachment_before_any_dpi_write() {
    let mut manager = manager();
    let endpoint = wired_named(r"\\?\hid#mismatch-attach", "MISMATCH");
    let id = insert_marked(&mut manager, endpoint.clone(), token(0x91));
    let mut bench = Bench::new(vec![attached(
        &endpoint,
        WatermarkDecode::Valid(token(0x92)),
    )]);

    let plan = manager.plan_open(&id).expect("planned");
    match manager.authentication(&plan) {
        Authentication::MustRead => {
            let decode = bench.watermark(&endpoint).expect("watermark");
            match plan.authenticate(decode) {
                Err(ManagerError::AttachmentNotAuthenticated { .. }) => {}
                other => panic!(
                    "expected AttachmentNotAuthenticated for a foreign unit, got {other:?}"
                ),
            }
        }
        other => panic!("the watermark of an uncached unit must be read, got {other:?}"),
    }
    assert_eq!(
        bench.writes, 0,
        "refusal must happen before any DPI (or other) write reaches the wire"
    );
}

#[test]
fn a_reading_is_kept_while_the_mouse_stays_attached() {
    let mut manager = manager();
    let endpoint = wired_named(r"\\?\hid#kept", "KEPT");
    insert_marked(&mut manager, endpoint.clone(), token(0x11));
    let mut bench = Bench::new(vec![attached(
        &endpoint,
        WatermarkDecode::Valid(token(0x11)),
    )]);

    let first = bench.discover(&mut manager, TransportSelection::Auto);
    let second = bench.discover(&mut manager, TransportSelection::Auto);
    assert_eq!(bench.opens, 1, "the second scan reads nothing");
    assert_eq!(second.connections, first.connections);

    bench.mice = Vec::new();
    bench.discover(&mut manager, TransportSelection::Auto);
    bench.mice = vec![attached(&endpoint, WatermarkDecode::Valid(token(0x12)))];
    let view = bench.discover(&mut manager, TransportSelection::Auto);
    assert_eq!(bench.opens, 2, "a replugged mouse is read anew");
    assert_eq!(
        view.connections[0].resolution,
        IdentityResolution::Unassociated {
            reason: UnassociatedReason::Unknown,
            physical_id: Some(token(0x12)),
        }
    );
}

#[test]
fn another_serial_number_at_the_same_path_is_read_anew() {
    let mut manager = persistent();
    let first = wired_named(r"\\?\hid#port", "FIRST");
    let second = wired_named(r"\\?\hid#port", "SECOND");
    let mut bench = Bench::new(vec![attached(&first, WatermarkDecode::Valid(token(1)))]);
    bench.discover(&mut manager, TransportSelection::Auto);
    bench.mice = vec![attached(&second, WatermarkDecode::Absent)];
    let view = bench.discover(&mut manager, TransportSelection::Auto);
    assert_eq!(bench.opens, 2);
    assert_eq!(
        view.connections[0].resolution,
        IdentityResolution::Unassociated {
            reason: UnassociatedReason::Absent,
            physical_id: None,
        }
    );
}

#[test]
fn a_mouse_that_cannot_be_read_ends_the_scan() {
    let mut manager = persistent();
    let endpoint = wired_named(r"\\?\hid#unreadable", "UNREADABLE");
    let mut bench = Bench::new(vec![Attached {
        endpoint: endpoint.clone(),
        connected: true,
        mark: Mark::Unreadable,
    }]);
    assert_eq!(
        bench.begin(&mut manager, TransportSelection::Auto).err(),
        Some(ManagerError::MissingBaseline {
            resource: "profile metadata",
            profile: None,
        })
    );

    bench.mice[0].mark = Mark::Unsupported;
    let view = bench.discover(&mut manager, TransportSelection::Auto);
    assert_eq!(
        view.connections[0].resolution,
        IdentityResolution::Unassociated {
            reason: UnassociatedReason::Absent,
            physical_id: None,
        },
        "a transport without watermarks makes no claim"
    );
}

#[test]
fn reserved_tokens_are_never_adoptable() {
    let mut manager = persistent();
    let zero = wired_named(r"\\?\hid#zero", "ZERO");
    let pending = wired_named(r"\\?\hid#pending", "PENDING");
    manager.state.identity_setup = Some(IdentitySetupJournal {
        phase: IdentitySetupPhase::AddMouse,
        stage: IdentitySetupStage::Stamping,
        subjects: vec![attack_shark_x3_manager::state::IdentitySetupSubject {
            endpoint: pending.clone(),
            device_id: None,
            token: Some(token(5)),
            old_token: None,
            captured: None,
            stamp_progress: attack_shark_x3_manager::slots::ProfileMap::new(),
        }],
    });
    let mut bench = Bench::new(vec![
        attached(&pending, WatermarkDecode::Valid(token(5))),
        attached(&zero, WatermarkDecode::Valid(token(0))),
    ]);
    let view = bench.discover(&mut manager, TransportSelection::Auto);
    assert_eq!(
        resolution_of(&view, r"\\?\hid#zero"),
        IdentityResolution::Unassociated {
            reason: UnassociatedReason::Reserved,
            physical_id: Some(token(0)),
        }
    );
    assert_eq!(
        resolution_of(&view, r"\\?\hid#pending"),
        IdentityResolution::Unassociated {
            reason: UnassociatedReason::ReservedByJournal,
            physical_id: Some(token(5)),
        }
    );
}

#[test]
fn names_are_compared_in_lower_case_of_any_script() {
    let mut manager = manager();
    let id = insert(&mut manager, vec![wired("/dev/hidraw0")]);
    manager.rename_device(&id, "ÄRGER Maus").unwrap();
    assert_eq!(manager.find_device_by_name(" ärger MAUS ").unwrap(), id);
}

#[test]
fn an_unknown_name_is_quoted_in_the_report() {
    let manager = manager();
    let error = manager.find_device_by_name("Desk \"One\"").unwrap_err();
    assert!(
        error.message().contains("\"Desk \\\"One\\\"\""),
        "{}",
        error.message()
    );
}

#[test]
fn unknown_devices_are_reported_by_name() {
    let mut manager = manager();
    let id = DeviceId::new("mouse-7").unwrap();
    let missing = ManagerError::DeviceNotFound(id.clone());
    assert_eq!(manager.device_identity(&id).unwrap_err(), missing);
    assert_eq!(manager.select_device(&id).unwrap_err(), missing);
    assert_eq!(manager.rename_device(&id, "x").unwrap_err(), missing);
    assert_eq!(
        manager
            .set_preferred_transport(&id, TransportKind::Ble)
            .unwrap_err(),
        missing
    );
}

#[test]
fn device_numbers_run_out_without_reuse() {
    let mut manager = manager();
    manager.state.next_device_number = u64::MAX;
    let endpoint = wired("/dev/hidraw0");
    let list = vec![DiscoveredEndpoint {
        endpoint,
        connected: true,
    }];
    assert!(matches!(
        manager.begin_discovery(&list),
        Err(ManagerError::State(StateError::InvalidState(_)))
    ));
    assert!(manager.state.devices.is_empty());
}

#[test]
fn a_moved_mouse_is_looked_for_on_its_own_transport() {
    let stored = wired_named(r"\\?\hid#old", "SN");
    let moved = wired_named(r"\\?\hid#new", "SN");
    let other = receiver(r"\\?\hid#other");
    let found = vec![
        DiscoveredEndpoint {
            endpoint: other,
            connected: true,
        },
        DiscoveredEndpoint {
            endpoint: moved.clone(),
            connected: true,
        },
    ];
    assert_eq!(
        rebind_candidates(&found, TransportKind::Wired, &stored),
        vec![moved]
    );
    assert_eq!(
        rebind_candidates(&Vec::new(), TransportKind::Wired, &stored),
        Vec::<DeviceEndpoint>::new()
    );
}
