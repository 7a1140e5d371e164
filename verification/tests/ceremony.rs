use std::collections::BTreeMap;

use attack_shark_x3_manager::ceremony::action::CeremonyCall;
use attack_shark_x3_manager::ceremony::mint::MintStep;
use attack_shark_x3_manager::device::{
    DeviceEndpoint, DeviceId, DeviceIdentity, DeviceLocator, TransportSelection,
};
use attack_shark_x3_manager::discovery::scan::{current_watermark, read_endpoint_identity};
use attack_shark_x3_manager::error::ManagerError;
use attack_shark_x3_manager::manager::DeviceManager;
use attack_shark_x3_manager::operation::{
    DiscoveredEndpoint, DiscoveryView, IdentityCeremonyAction, IdentityCeremonyKind,
    IdentityCeremonyProgress, IdentityCeremonyStage, IdentityResolution, UnassociatedReason,
};
use attack_shark_x3_manager::protocol::{
    ButtonAssignment, ButtonsState, DpiState, DpiValue, LiftOffDistance, PhysicalId, PollingRate,
    PreferencesState, ProfileId, ProfileMetadata, ProfileSnapshot, SensorOptions, StageIndex,
    TransportKind, WatermarkDecode,
};
use attack_shark_x3_manager::refresh::{capture_all_profiles, ProfileCapture};
use attack_shark_x3_manager::session::{SessionReply, SessionRequest, SessionWrite, Step};
use attack_shark_x3_manager::slots::ProfileMap;
use attack_shark_x3_manager::state::{
    DeviceState, IdentityMode, IdentitySetupPhase, IdentitySetupStage, IdentityStampProgress,
    StateFile, Timestamp,
};

fn profile(value: u8) -> ProfileId {
    ProfileId::new(value).expect("profile")
}

fn token(byte: u8) -> PhysicalId {
    PhysicalId::from_token_bytes([byte; 16])
}

fn now() -> Timestamp {
    Timestamp { unix_seconds: 7 }
}

fn wired_named(path: &str, serial: &str) -> DeviceEndpoint {
    DeviceEndpoint::usb(
        TransportKind::Wired,
        0x1d57,
        0xfa61,
        Some(serial),
        path,
        Some(serial),
    )
    .expect("endpoint")
}

fn ble(id: &str) -> DeviceEndpoint {
    DeviceEndpoint::ble(id, None).expect("endpoint")
}

fn image(profile: ProfileId) -> ProfileSnapshot {
    ProfileSnapshot {
        target_profile: profile,
        persistent_metadata: ProfileMetadata::new(profile, ProfileId::MAX_ID).expect("metadata"),
        dpi: DpiState::new(
            profile,
            vec![DpiValue { value: 800 }],
            StageIndex { value: 1 },
            SensorOptions {
                lift_off_distance: LiftOffDistance::OneMillimeter,
                ripple_control: false,
                angle_snap: false,
                motion_sync: false,
            },
            [0; 25],
        )
        .expect("image"),
        preferences: PreferencesState::new(profile, 0, 0, 0, [0, 0, 0], 0, 0),
        buttons: ButtonsState::new(profile, [ButtonAssignment::default(); 18]),
    }
}

/// One physical mouse with five profiles.
struct Mouse {
    transport: TransportKind,
    metadata: ProfileMetadata,
    images: BTreeMap<u8, ProfileSnapshot>,
    marks: BTreeMap<u8, WatermarkDecode>,
    dpi_writes: Vec<u8>,
    /// Writes of these profiles never reach the image.
    stuck: Vec<u8>,
}

impl Mouse {
    fn marked(decode: WatermarkDecode) -> Mouse {
        let mut mouse = Mouse {
            transport: TransportKind::Wired,
            metadata: ProfileMetadata::new(profile(1), profile(5)).expect("metadata"),
            images: BTreeMap::new(),
            marks: BTreeMap::new(),
            dpi_writes: Vec::new(),
            stuck: Vec::new(),
        };
        for target in 1..=5 {
            mouse.images.insert(target, image(profile(target)));
            mouse.marks.insert(target, decode);
        }
        mouse
    }

    fn unmarked() -> Mouse {
        Mouse::marked(WatermarkDecode::Absent)
    }

    fn radio() -> Mouse {
        let mut mouse = Mouse::unmarked();
        mouse.transport = TransportKind::Ble;
        mouse
    }

    fn perform(&mut self, request: SessionRequest) -> SessionReply {
        if self.transport == TransportKind::Ble {
            return SessionReply::Failed(ManagerError::UnsupportedOperation {
                operation: "read_profile_metadata",
                transport: TransportKind::Ble,
            });
        }
        match request {
            SessionRequest::ReadProfileMetadata => SessionReply::ProfileMetadata(self.metadata),
            SessionRequest::WriteProfileMetadata(metadata) => {
                self.metadata = metadata;
                SessionReply::ProfileMetadataWritten(SessionWrite::ReadbackVerified(metadata))
            }
            SessionRequest::ReadProfile(target) => {
                let mut snapshot = self.images[&target.get()];
                snapshot.persistent_metadata = self.metadata;
                SessionReply::Profile(snapshot)
            }
            SessionRequest::ReadLivePollingRate(_) => {
                SessionReply::PollingRate(PollingRate::Hz1000)
            }
            SessionRequest::ReadDpi(target) => SessionReply::Dpi {
                state: self.images[&target.get()].dpi,
                watermark: self.marks[&target.get()],
            },
            SessionRequest::WriteDpi { state, stamp, .. } => {
                let target = state.profile.get();
                self.dpi_writes.push(target);
                let mut sent = state;
                if let Some(token) = stamp {
                    sent.preserved_tail[..16].copy_from_slice(&token.token_bytes());
                }
                if !self.stuck.contains(&target) {
                    if let Some(token) = stamp {
                        self.marks.insert(target, WatermarkDecode::Valid(token));
                    }
                    self.images.get_mut(&target).expect("profile").dpi = sent;
                }
                SessionReply::DpiWritten {
                    desired: sent,
                    write: SessionWrite::ReadbackVerified(self.images[&target].dpi),
                    watermark: self.marks[&target],
                }
            }
            other => panic!("unexpected request {other:?}"),
        }
    }

    fn watermark(&mut self) -> Result<WatermarkDecode, ManagerError> {
        let mut step = current_watermark();
        loop {
            match step {
                Step::Done(outcome) => return outcome,
                Step::Ask { request, next } => step = next.resume(self.perform(request)),
            }
        }
    }

    fn capture(&mut self) -> Result<ProfileCapture, ManagerError> {
        let mut step = capture_all_profiles(self.transport);
        loop {
            match step {
                Step::Done(outcome) => return outcome,
                Step::Ask { request, next } => step = next.resume(self.perform(request)),
            }
        }
    }

    fn decodes(&self) -> ProfileMap<WatermarkDecode> {
        let mut decodes = ProfileMap::new();
        for (target, mark) in &self.marks {
            decodes.insert(profile(*target), *mark);
        }
        decodes
    }
}

struct Bench {
    manager: DeviceManager,
    mice: Vec<(DeviceEndpoint, Mouse)>,
}

impl Bench {
    fn new(mode: IdentityMode) -> Bench {
        let mut manager = DeviceManager::new(StateFile::new()).expect("manager");
        manager.state.identity_mode = mode;
        Bench {
            manager,
            mice: Vec::new(),
        }
    }

    fn attach(&mut self, endpoint: &DeviceEndpoint, mouse: Mouse) {
        self.mice.push((endpoint.clone(), mouse));
    }

    fn mouse(&mut self, endpoint: &DeviceEndpoint) -> &mut Mouse {
        &mut self
            .mice
            .iter_mut()
            .find(|(at, _)| at == endpoint)
            .expect("attached")
            .1
    }

    fn list(&self) -> Vec<DiscoveredEndpoint> {
        self.mice
            .iter()
            .map(|(endpoint, _)| DiscoveredEndpoint {
                endpoint: endpoint.clone(),
                connected: true,
            })
            .collect()
    }

    fn insert(&mut self, endpoints: Vec<DeviceEndpoint>, token: Option<PhysicalId>) -> DeviceId {
        let id = self.manager.state.allocate_device_id().expect("id");
        let mut identity = DeviceIdentity::new(id.clone(), endpoints[0].display_name.clone());
        identity.physical_id = token;
        for endpoint in endpoints {
            identity.upsert_endpoint(endpoint);
        }
        self.manager
            .state
            .devices
            .insert(id.clone(), DeviceState::new(identity));
        id
    }

    fn act(
        &mut self,
        action: IdentityCeremonyAction,
        endpoint: Option<&DeviceEndpoint>,
        target: Option<&DeviceId>,
    ) -> Result<IdentityCeremonyProgress, ManagerError> {
        let target = target.cloned();
        let call = self
            .manager
            .identity_ceremony_action(action, endpoint.cloned())?;
        match call {
            CeremonyCall::Begin(kind) => {
                let scan = self.manager.check_begin_ceremony(kind, &target)?;
                let found = if scan { self.list() } else { Vec::new() };
                self.manager.begin_identity_ceremony(kind, target, &found)
            }
            CeremonyCall::Reconnected(presented) => {
                let reconnect = self
                    .manager
                    .ceremony_reconnected(presented.clone(), target)?;
                let decode = self.mouse(&presented).watermark()?;
                assert!(reconnect.can_answer(decode));
                let admitted = reconnect.examine(&self.manager, decode)?;
                let capture = self.mouse(&presented).capture()?;
                let decodes = self.mouse(&presented).decodes();
                admitted.record(&mut self.manager, capture, decodes, now())
            }
            CeremonyCall::Stamp => {
                assert!(self.manager.can_stamp());
                let run = self.manager.ceremony_stamp()?;
                self.stamp(run)
            }
            CeremonyCall::Adopt => {
                assert!(self.manager.can_stamp());
                let run = self.manager.ceremony_adopt()?;
                self.stamp(run)
            }
            CeremonyCall::Associate(presented) => self.manager.ceremony_associate(presented, target),
            CeremonyCall::FinalizeMigration(action) => {
                self.manager.ceremony_finalize_migration(action)
            }
            CeremonyCall::Cancel => self.manager.ceremony_cancel(),
        }
    }

    fn stamp(
        &mut self,
        run: attack_shark_x3_manager::ceremony::stamp::StampRun,
    ) -> Result<IdentityCeremonyProgress, ManagerError> {
        let at = run.endpoint.clone();
        let mut step = run.start(&mut self.manager);
        loop {
            match step {
                Step::Done(outcome) => return outcome,
                Step::Ask { request, next } => {
                    let reply = self.mouse(&at).perform(request);
                    step = next.resume(&mut self.manager, reply);
                }
            }
        }
    }

    fn begin(&mut self, kind: IdentityCeremonyKind, target: Option<&DeviceId>) -> IdentityCeremonyProgress {
        self.act(IdentityCeremonyAction::Begin(kind), None, target)
            .expect("begun")
    }

    fn reconnect(&mut self, endpoint: &DeviceEndpoint) -> IdentityCeremonyProgress {
        self.act(IdentityCeremonyAction::Reconnected, Some(endpoint), None)
            .expect("reconnected")
    }

    fn step(&mut self, action: IdentityCeremonyAction) -> IdentityCeremonyProgress {
        self.act(action, None, None).expect("step")
    }

    fn discover(&mut self) -> DiscoveryView {
        let list = self.list();
        for endpoint in self.manager.begin_discovery(&list).expect("endpoints") {
            let outcome = self.mouse(&endpoint).watermark();
            let decode = read_endpoint_identity(outcome).expect("reading");
            self.manager.record_identity(endpoint, decode);
        }
        self.manager.discover(&list, TransportSelection::Auto)
    }

    fn devices(&self) -> Vec<&DeviceState> {
        let devices = &self.manager.state.devices;
        (0..devices.len()).map(|at| devices.state_at(at)).collect()
    }
}

fn name(device: &DeviceState) -> Option<&str> {
    device.identity.display_name.as_deref()
}

#[test]
fn initial_enrollment_ceremony_completes_two_mice() {
    let mut bench = Bench::new(IdentityMode::Legacy);
    bench.insert(vec![wired_named(r"\\?\hid#legacy", "LEGACY")], None);
    let first = wired_named(r"\\?\hid#enroll-a", "ENROLL-A");
    let second = wired_named(r"\\?\hid#enroll-b", "ENROLL-B");
    bench.attach(&first, Mouse::unmarked());
    bench.attach(&second, Mouse::unmarked());

    let progress = bench.begin(IdentityCeremonyKind::InitialEnrollment, None);
    assert_eq!(progress.stage, IdentityCeremonyStage::AwaitingReconnect);

    assert_eq!(
        bench.reconnect(&first).stage,
        IdentityCeremonyStage::Stamping
    );
    assert_eq!(
        bench.step(IdentityCeremonyAction::Stamp).stage,
        IdentityCeremonyStage::AwaitingReconnect,
        "after the first mouse is stamped the ceremony awaits the second"
    );
    assert_eq!(
        bench.reconnect(&second).stage,
        IdentityCeremonyStage::Stamping
    );
    let progress = bench.step(IdentityCeremonyAction::Stamp);
    assert_eq!(
        progress.stage,
        IdentityCeremonyStage::Complete,
        "after both mice are stamped, first-time setup parks at Finalizing for the migration decision"
    );
    assert_eq!(progress.step, Some(2));

    let journal = bench
        .manager
        .state
        .identity_setup
        .as_ref()
        .expect("the journal persists awaiting the migration decision");
    assert_eq!(journal.stage, IdentitySetupStage::Finalizing);
    assert_eq!(journal.subjects.len(), 2);
    assert!(
        journal
            .subjects
            .iter()
            .all(|subject| subject.is_fully_stamped()),
        "a Finalizing journal holds only fully stamped subjects"
    );

    let progress = bench.step(IdentityCeremonyAction::AcceptMigration);
    assert_eq!(progress.stage, IdentityCeremonyStage::Complete);

    let state = &bench.manager.state;
    assert_eq!(state.identity_mode, IdentityMode::Persistent);
    assert_eq!(state.devices.len(), 2);
    assert!(state.identity_setup.is_none());
    assert!(state.validate().is_ok());
    let devices = bench.devices();
    assert!(
        devices.iter().all(|device| name(device) != Some("LEGACY")),
        "a non-matching legacy identity must not migrate to either captured mouse"
    );
    assert!(
        devices
            .iter()
            .all(|device| matches!(name(device), Some("Mouse 1") | Some("Mouse 2"))),
        "accepted enrollment with no legacy match uses fresh Mouse N names"
    );
    let tokens: Vec<PhysicalId> = devices
        .iter()
        .map(|device| {
            device
                .identity
                .physical_id
                .expect("enrolled mouse has a token")
        })
        .collect();
    assert_ne!(tokens[0], tokens[1], "each mouse mints its own token");
    for device in devices {
        assert!(
            device.profiles.contains_key(profile(1)),
            "captured profile evidence is applied to the enrolled mouse"
        );
        assert!(device.identity.physical_id.is_some());
    }
}

#[test]
fn migration_decision_is_refused_until_both_mice_are_stamped() {
    let mut bench = Bench::new(IdentityMode::Legacy);
    bench.insert(vec![wired_named(r"\\?\hid#legacy", "LEGACY")], None);
    let first = wired_named(r"\\?\hid#migrate-a", "MIGRATE-A");
    let second = wired_named(r"\\?\hid#migrate-b", "MIGRATE-B");
    bench.attach(&first, Mouse::unmarked());
    bench.attach(&second, Mouse::unmarked());

    match bench
        .act(IdentityCeremonyAction::AcceptMigration, None, None)
        .unwrap_err()
    {
        ManagerError::NoIdentityCeremony => {}
        other => panic!("expected NoIdentityCeremony, got {other:?}"),
    }

    bench.begin(IdentityCeremonyKind::InitialEnrollment, None);
    match bench
        .act(IdentityCeremonyAction::SkipMigration, None, None)
        .unwrap_err()
    {
        ManagerError::InvalidCeremonyAction { action, .. } => {
            assert_eq!(action, IdentityCeremonyAction::SkipMigration)
        }
        other => panic!("expected InvalidCeremonyAction at AwaitingCapture, got {other:?}"),
    }

    bench.reconnect(&first);
    match bench
        .act(IdentityCeremonyAction::AcceptMigration, None, None)
        .unwrap_err()
    {
        ManagerError::InvalidCeremonyAction { action, .. } => {
            assert_eq!(action, IdentityCeremonyAction::AcceptMigration)
        }
        other => panic!("expected InvalidCeremonyAction with one subject, got {other:?}"),
    }

    bench.step(IdentityCeremonyAction::Stamp);
    bench.reconnect(&second);
    match bench
        .act(IdentityCeremonyAction::AcceptMigration, None, None)
        .unwrap_err()
    {
        ManagerError::InvalidCeremonyAction { action, .. } => {
            assert_eq!(action, IdentityCeremonyAction::AcceptMigration)
        }
        other => panic!("expected InvalidCeremonyAction before stamps, got {other:?}"),
    }
    let state = &bench.manager.state;
    assert!(
        state.identity_setup.is_some(),
        "a refused migration decision leaves the journal in flight"
    );
    assert_eq!(state.devices.len(), 1, "no finalize happened on refusal");
    assert_eq!(state.identity_mode, IdentityMode::Legacy);
}

/// An enrollment of two mice, of which the first has exactly the evidence of
/// the one legacy mouse, up to the migration decision.
fn enrollment_with_a_legacy_match() -> Bench {
    let mut bench = Bench::new(IdentityMode::Legacy);
    bench.insert(vec![wired_named(r"\\?\hid#legacy", "LEGACY")], None);
    let first = wired_named(r"\\?\hid#legacy-match-a", "LEGACY-MATCH-A");
    let second = wired_named(r"\\?\hid#legacy-match-b", "LEGACY-MATCH-B");
    bench.attach(&first, Mouse::unmarked());
    bench.attach(&second, Mouse::unmarked());
    bench.begin(IdentityCeremonyKind::InitialEnrollment, None);
    bench.reconnect(&first);
    bench.step(IdentityCeremonyAction::Stamp);
    bench.reconnect(&second);
    bench.step(IdentityCeremonyAction::Stamp);

    let captured = bench.manager.state.identity_setup.as_ref().unwrap().subjects[0]
        .captured
        .expect("the first subject was captured");
    let id = DeviceId::new("mouse-1").unwrap();
    let mut legacy =
        DeviceState::new(DeviceIdentity::new(id.clone(), Some("Desk Mouse".to_owned())));
    legacy.profile_metadata = captured.profile_metadata;
    legacy.profiles = captured.profiles;
    bench.manager.state.devices.clear();
    bench.manager.state.devices.insert(id, legacy);
    bench
}

#[test]
fn accepted_migration_applies_unique_legacy_match_in_the_same_call() {
    let mut bench = enrollment_with_a_legacy_match();

    let progress = bench.step(IdentityCeremonyAction::SkipMigration);
    assert_eq!(progress.stage, IdentityCeremonyStage::Complete);
    assert!(bench.manager.state.identity_setup.is_none());
    assert!(
        bench
            .devices()
            .iter()
            .all(|device| matches!(name(device), Some("Mouse 1") | Some("Mouse 2"))),
        "skip migration must use fresh names even on a unique match"
    );
}

#[test]
fn the_name_of_a_mouse_that_matches_two_is_not_migrated() {
    let mut bench = enrollment_with_a_legacy_match();
    bench.step(IdentityCeremonyAction::AcceptMigration);
    assert!(
        bench
            .devices()
            .iter()
            .all(|device| matches!(name(device), Some("Mouse 1") | Some("Mouse 2"))),
        "both mice were captured with the same evidence"
    );
}

#[test]
fn the_name_of_a_mouse_that_matches_one_is_migrated() {
    let mut bench = Bench::new(IdentityMode::Legacy);
    bench.insert(vec![wired_named(r"\\?\hid#legacy", "LEGACY")], None);
    let first = wired_named(r"\\?\hid#unique-a", "UNIQUE-A");
    let second = wired_named(r"\\?\hid#unique-b", "UNIQUE-B");
    let mut other = Mouse::unmarked();
    other.images.get_mut(&4).unwrap().preferences.debounce = 9;
    bench.attach(&first, Mouse::unmarked());
    bench.attach(&second, other);
    bench.begin(IdentityCeremonyKind::InitialEnrollment, None);
    bench.reconnect(&first);
    bench.step(IdentityCeremonyAction::Stamp);
    bench.reconnect(&second);
    bench.step(IdentityCeremonyAction::Stamp);
    let captured = bench.manager.state.identity_setup.as_ref().unwrap().subjects[1]
        .captured
        .unwrap();
    let id = DeviceId::new("mouse-1").unwrap();
    let mut legacy = bench.manager.state.devices.remove(&id).unwrap();
    legacy.profile_metadata = captured.profile_metadata;
    legacy.profiles = captured.profiles;
    bench.manager.state.devices.insert(id, legacy);

    bench.step(IdentityCeremonyAction::AcceptMigration);
    let names: Vec<Option<&str>> = bench.devices().into_iter().map(name).collect();
    assert_eq!(names.len(), 2);
    assert!(names.contains(&Some("LEGACY")));
    assert!(names.contains(&Some("Mouse 1")));
}

#[test]
fn stamp_confirms_partially_marked_foreign_adoption() {
    let mut bench = Bench::new(IdentityMode::Persistent);
    let endpoint = wired_named(r"\\?\hid#foreign-partial", "FOREIGN-PARTIAL");
    let mut mouse = Mouse::unmarked();
    mouse.marks.insert(1, WatermarkDecode::Valid(token(0x77)));
    bench.attach(&endpoint, mouse);

    let progress = bench.begin(IdentityCeremonyKind::ForeignAdoption, None);
    assert_eq!(progress.stage, IdentityCeremonyStage::AwaitingReconnect);
    assert_eq!(
        bench.reconnect(&endpoint).stage,
        IdentityCeremonyStage::Stamping
    );
    let progress = bench.step(IdentityCeremonyAction::Stamp);
    assert_eq!(progress.stage, IdentityCeremonyStage::Complete);

    assert_eq!(
        bench.mouse(&endpoint).dpi_writes,
        vec![2, 3, 4, 5],
        "adoption confirmation stamps only profiles that do not carry the token"
    );
    assert!(bench.manager.state.identity_setup.is_none());
    assert_eq!(bench.manager.state.devices.len(), 1);
    assert_eq!(
        bench.devices()[0].identity.physical_id,
        Some(token(0x77)),
        "the foreign token is adopted, not replaced by a minted one"
    );
}

#[test]
fn interrupted_stamp_resumes_without_restamping_completed_profiles() {
    let mut bench = Bench::new(IdentityMode::Persistent);
    let existing = wired_named(r"\\?\hid#resume-existing", "EXISTING");
    let existing_id = bench.insert(vec![existing], Some(token(0x31)));
    let fresh = wired_named(r"\\?\hid#resume-new", "NEW-MOUSE");
    bench.attach(&fresh, Mouse::unmarked());

    bench.begin(IdentityCeremonyKind::AddMouse, None);
    bench.reconnect(&fresh);

    let journal = bench.manager.state.identity_setup.as_mut().unwrap();
    let subject = journal.subjects.last_mut().unwrap();
    subject.token = Some(token(0x42));
    subject
        .stamp_progress
        .insert(profile(1), IdentityStampProgress::Stamped);

    let progress = bench.step(IdentityCeremonyAction::Stamp);
    assert_eq!(progress.stage, IdentityCeremonyStage::Complete);
    assert_eq!(
        bench.mouse(&fresh).dpi_writes,
        vec![2, 3, 4, 5],
        "resume stamps only the profiles the journal left pending"
    );

    assert!(bench.manager.state.identity_setup.is_none());
    assert_eq!(bench.manager.state.devices.len(), 2);
    let devices = bench.devices();
    let added = devices
        .iter()
        .find(|device| device.identity.id != existing_id)
        .expect("the enrolled mouse was finalized");
    assert!(added.identity.physical_id.is_some());
    assert!(added.identity.has_endpoint(TransportKind::Wired));
}

#[test]
fn restore_rotates_token_replaces_capture_and_clears_old_endpoints() {
    let mut bench = Bench::new(IdentityMode::Persistent);
    let lost = wired_named(r"\\?\hid#restore-old", "OLD-UNIT");
    let id = bench.insert(vec![lost, ble("ble-restore-old")], Some(token(0x41)));
    bench.manager.state.selected_device = Some(id.clone());
    let fresh = wired_named(r"\\?\hid#restore-new", "NEW-UNIT");
    bench.attach(&fresh, Mouse::unmarked());

    let progress = bench.begin(IdentityCeremonyKind::Restore, Some(&id));
    assert_eq!(progress.stage, IdentityCeremonyStage::AwaitingReconnect);
    let progress = bench
        .act(IdentityCeremonyAction::Reconnected, Some(&fresh), Some(&id))
        .unwrap();
    assert_eq!(progress.stage, IdentityCeremonyStage::Stamping);
    let progress = bench.step(IdentityCeremonyAction::Stamp);
    assert_eq!(progress.stage, IdentityCeremonyStage::Complete);

    assert!(bench.manager.state.identity_setup.is_none());
    let device = bench.manager.state.devices.get(&id).unwrap();
    assert_eq!(
        device.identity.id, id,
        "restore keeps the same logical mouse"
    );
    assert!(
        device.identity.physical_id.is_some()
            && device.identity.physical_id != Some(token(0x41)),
        "restore rotates in a fresh token"
    );
    assert_eq!(
        device.identity.endpoints.len(),
        1,
        "the old BLE and USB endpoints are cleared"
    );
    assert!(!device.identity.has_endpoint(TransportKind::Ble));
    assert_eq!(
        device
            .identity
            .endpoint(TransportKind::Wired)
            .unwrap()
            .locator,
        DeviceLocator::UsbPath(r"\\?\hid#restore-new".to_owned())
    );
    assert!(
        device.profiles.contains_key(profile(1)),
        "the restored unit's capture replaces the durable evidence"
    );
    assert!(
        bench.mouse(&fresh).dpi_writes.len() >= 5,
        "every profile was re-stamped"
    );
}

#[test]
fn a_mouse_that_is_still_attached_is_not_restored() {
    let mut bench = Bench::new(IdentityMode::Persistent);
    let endpoint = wired_named(r"\\?\hid#alive", "ALIVE");
    let id = bench.insert(vec![endpoint.clone()], Some(token(0x41)));
    bench.attach(&endpoint, Mouse::marked(WatermarkDecode::Valid(token(0x41))));
    let outcome = bench
        .act(
            IdentityCeremonyAction::Begin(IdentityCeremonyKind::Restore),
            None,
            Some(&id),
        )
        .map(|_| ());
    assert_eq!(refusal_reason(outcome), "device-connected");
    assert!(bench.manager.state.identity_setup.is_none());

    bench.mice.clear();
    let progress = bench.begin(IdentityCeremonyKind::Restore, Some(&id));
    assert_eq!(progress.stage, IdentityCeremonyStage::AwaitingReconnect);
}

#[test]
fn foreign_adoption_preserves_the_observed_token() {
    let mut bench = Bench::new(IdentityMode::Persistent);
    let endpoint = wired_named(r"\\?\hid#foreign", "FOREIGN");
    bench.attach(
        &endpoint,
        Mouse::marked(WatermarkDecode::Valid(token(0x55))),
    );

    let progress = bench.begin(IdentityCeremonyKind::ForeignAdoption, None);
    assert_eq!(progress.stage, IdentityCeremonyStage::AwaitingReconnect);
    assert_eq!(
        bench.reconnect(&endpoint).stage,
        IdentityCeremonyStage::Complete,
        "a fully stamped foreign mouse is adopted without further input"
    );

    assert!(
        bench.mouse(&endpoint).dpi_writes.is_empty(),
        "adoption of an already-tagged mouse never re-stamps its profiles"
    );
    assert!(bench.manager.state.identity_setup.is_none());
    assert_eq!(bench.manager.state.devices.len(), 1);
    assert_eq!(
        bench.devices()[0].identity.physical_id,
        Some(token(0x55)),
        "the foreign token is adopted, not replaced by a minted one"
    );
}

#[test]
fn ble_association_is_explicit() {
    let mut bench = Bench::new(IdentityMode::Persistent);
    let cable = wired_named(r"\\?\hid#ble-mouse", "BLE-MOUSE");
    let id = bench.insert(vec![cable.clone()], Some(token(0x66)));
    let radio = ble("ble-platform-9");
    bench.attach(&radio, Mouse::radio());
    bench.attach(&cable, Mouse::marked(WatermarkDecode::Valid(token(0x66))));

    let view = bench.discover();
    let listed = view
        .connections
        .iter()
        .find(|connection| connection.endpoint.transport == TransportKind::Ble)
        .expect("the BLE connection is listed");
    assert_eq!(
        listed.resolution,
        IdentityResolution::Unassociated {
            reason: UnassociatedReason::Absent,
            physical_id: None,
        }
    );

    let progress = bench.begin(IdentityCeremonyKind::BleAssociation, Some(&id));
    assert_eq!(progress.stage, IdentityCeremonyStage::AwaitingReconnect);
    let progress = bench
        .act(IdentityCeremonyAction::Associate, Some(&radio), Some(&id))
        .unwrap();
    assert_eq!(progress.stage, IdentityCeremonyStage::Complete);

    assert!(bench.manager.state.identity_setup.is_none());
    assert_eq!(
        bench
            .manager
            .state
            .devices
            .get(&id)
            .unwrap()
            .identity
            .endpoint(TransportKind::Ble)
            .unwrap()
            .locator,
        radio.locator,
        "the associated BLE endpoint is stored on the logical mouse"
    );

    let view = bench.discover();
    let listed = view
        .connections
        .iter()
        .find(|connection| connection.endpoint.transport == TransportKind::Ble)
        .expect("the BLE connection is listed");
    assert_eq!(
        listed.resolution,
        IdentityResolution::Resolved {
            identity: id.clone()
        }
    );
}

#[test]
fn cancelling_an_untouched_ceremony_restores_the_state() {
    let mut bench = Bench::new(IdentityMode::Persistent);
    bench.insert(vec![wired_named(r"\\?\hid#one", "ONE")], Some(token(1)));
    bench.begin(IdentityCeremonyKind::AddMouse, None);
    assert!(bench.manager.identity_ceremony_progress().is_some());
    let progress = bench.step(IdentityCeremonyAction::Cancel);
    assert_eq!(progress.stage, IdentityCeremonyStage::Cancelled);
    assert!(bench.manager.state.identity_setup.is_none());
    assert_eq!(bench.manager.state.devices.len(), 1);
    assert_eq!(
        bench
            .act(IdentityCeremonyAction::Cancel, None, None)
            .unwrap_err(),
        ManagerError::NoIdentityCeremony
    );
}

#[test]
fn a_stamped_mouse_cannot_be_cancelled_away() {
    let mut bench = Bench::new(IdentityMode::Legacy);
    bench.insert(vec![wired_named(r"\\?\hid#legacy", "LEGACY")], None);
    let first = wired_named(r"\\?\hid#a", "A");
    bench.attach(&first, Mouse::unmarked());
    bench.begin(IdentityCeremonyKind::InitialEnrollment, None);
    bench.reconnect(&first);
    bench.step(IdentityCeremonyAction::Stamp);
    assert!(bench
        .act(IdentityCeremonyAction::Cancel, None, None)
        .is_err());
    assert!(bench.manager.state.identity_setup.is_some());
}

#[test]
fn only_one_ceremony_runs_at_a_time() {
    let mut bench = Bench::new(IdentityMode::Persistent);
    bench.begin(IdentityCeremonyKind::AddMouse, None);
    assert_eq!(
        bench
            .act(
                IdentityCeremonyAction::Begin(IdentityCeremonyKind::ForeignAdoption),
                None,
                None
            )
            .unwrap_err(),
        ManagerError::IdentitySetupInProgress {
            phase: IdentitySetupPhase::AddMouse
        }
    );
}

/// What presenting a mouse with the marker leads to.
fn presented(kind: IdentityCeremonyKind, decode: WatermarkDecode) -> Result<(), ManagerError> {
    let mode = if kind == IdentityCeremonyKind::InitialEnrollment {
        IdentityMode::Legacy
    } else {
        IdentityMode::Persistent
    };
    let mut bench = Bench::new(mode);
    let token = (mode == IdentityMode::Persistent).then_some(token(1));
    let known = wired_named(r"\\?\hid#known", "KNOWN");
    let id = bench.insert(vec![known], token);
    let endpoint = wired_named(r"\\?\hid#marked", "MARKED");
    bench.attach(&endpoint, Mouse::marked(decode));
    bench.begin(kind, (kind == IdentityCeremonyKind::Restore).then_some(&id));
    let outcome = bench.act(
        IdentityCeremonyAction::Reconnected,
        Some(&endpoint),
        Some(&id),
    );
    assert!(bench.mouse(&endpoint).dpi_writes.is_empty());
    outcome.map(|_| ())
}

fn refusal_reason(outcome: Result<(), ManagerError>) -> &'static str {
    match outcome {
        Err(ManagerError::IdentityCeremonyRefused { reason, .. }) => reason,
        other => panic!("expected a refusal, got {other:?}"),
    }
}

#[test]
fn an_intact_foreign_marker_is_never_overwritten() {
    let foreign = WatermarkDecode::Valid(token(9));
    assert!(matches!(
        presented(IdentityCeremonyKind::InitialEnrollment, foreign),
        Err(ManagerError::IntactIdentityMarker { .. })
    ));
    assert_eq!(
        refusal_reason(presented(IdentityCeremonyKind::AddMouse, foreign)),
        "adopt-instead"
    );
    assert_eq!(
        refusal_reason(presented(IdentityCeremonyKind::Restore, foreign)),
        "adopt-instead"
    );
    assert_eq!(presented(IdentityCeremonyKind::ForeignAdoption, foreign), Ok(()));

    let known = WatermarkDecode::Valid(token(1));
    assert_eq!(
        refusal_reason(presented(IdentityCeremonyKind::AddMouse, known)),
        "already-registered"
    );
    assert_eq!(
        refusal_reason(presented(IdentityCeremonyKind::ForeignAdoption, known)),
        "already-registered"
    );
    assert_eq!(
        presented(
            IdentityCeremonyKind::AddMouse,
            WatermarkDecode::Valid(token(0))
        ),
        Err(ManagerError::ReservedPhysicalId {
            physical_id: token(0)
        })
    );
    assert!(matches!(
        presented(
            IdentityCeremonyKind::AddMouse,
            WatermarkDecode::UnsupportedVersion { version: 9 }
        ),
        Err(ManagerError::IntactIdentityMarker { .. })
    ));
    assert_eq!(
        presented(IdentityCeremonyKind::AddMouse, WatermarkDecode::Malformed),
        Ok(())
    );
}

#[test]
fn only_usb_mice_can_be_enrolled() {
    let mut bench = Bench::new(IdentityMode::Persistent);
    let radio = ble("ble-add");
    bench.attach(&radio, Mouse::radio());
    bench.begin(IdentityCeremonyKind::AddMouse, None);
    let outcome = bench
        .act(IdentityCeremonyAction::Reconnected, Some(&radio), None)
        .map(|_| ());
    assert_eq!(refusal_reason(outcome), "requires-usb");
}

#[test]
fn a_ceremony_names_what_it_is_missing() {
    let mut bench = Bench::new(IdentityMode::Legacy);
    let id = bench.insert(vec![wired_named(r"\\?\hid#one", "ONE")], None);
    let begin = |bench: &mut Bench, kind, target: Option<&DeviceId>| {
        bench
            .act(IdentityCeremonyAction::Begin(kind), None, target)
            .map(|_| ())
    };
    assert_eq!(
        refusal_reason(begin(&mut bench, IdentityCeremonyKind::AddMouse, None)),
        "requires-persistent"
    );
    bench.manager.state.identity_mode = IdentityMode::Persistent;
    assert_eq!(
        refusal_reason(begin(&mut bench, IdentityCeremonyKind::Restore, None)),
        "requires-target"
    );
    assert_eq!(
        refusal_reason(begin(&mut bench, IdentityCeremonyKind::Restore, Some(&id))),
        "requires-physical-id"
    );
    let unknown = DeviceId::new("mouse-9").unwrap();
    assert_eq!(
        begin(&mut bench, IdentityCeremonyKind::Restore, Some(&unknown)),
        Err(ManagerError::DeviceNotFound(unknown))
    );
    assert!(bench.manager.state.identity_setup.is_none());
}

#[test]
fn a_stamp_that_does_not_stick_is_reported_and_can_be_resumed() {
    let mut bench = Bench::new(IdentityMode::Persistent);
    let endpoint = wired_named(r"\\?\hid#stuck", "STUCK");
    let mut mouse = Mouse::unmarked();
    mouse.stuck = vec![3];
    bench.attach(&endpoint, mouse);
    bench.begin(IdentityCeremonyKind::AddMouse, None);
    bench.reconnect(&endpoint);
    assert!(bench
        .act(IdentityCeremonyAction::Stamp, None, None)
        .is_err());
    let journal = bench.manager.state.identity_setup.as_ref().unwrap();
    let reserved = journal.subjects[0].token.expect("token on record");
    assert_eq!(
        journal.subjects[0].stamp_progress.get(profile(2)),
        Some(&IdentityStampProgress::Stamped)
    );
    assert_eq!(
        journal.subjects[0].stamp_progress.get(profile(3)),
        Some(&IdentityStampProgress::Captured)
    );

    bench.mouse(&endpoint).stuck.clear();
    bench.mouse(&endpoint).dpi_writes.clear();
    bench.step(IdentityCeremonyAction::Stamp);
    assert_eq!(bench.mouse(&endpoint).dpi_writes, vec![3, 4, 5]);
    assert_eq!(
        bench.devices()[0].identity.physical_id,
        Some(reserved),
        "an interrupted run keeps its token"
    );
}

#[test]
fn an_action_that_needs_an_endpoint_says_so() {
    let mut bench = Bench::new(IdentityMode::Persistent);
    for (action, text) in [
        (
            IdentityCeremonyAction::Reconnected,
            "Reconnected requires the presented endpoint",
        ),
        (
            IdentityCeremonyAction::Capture,
            "Capture requires the presented endpoint",
        ),
        (
            IdentityCeremonyAction::Associate,
            "associate requires the BLE endpoint",
        ),
    ] {
        assert_eq!(
            bench.act(action, None, None).unwrap_err(),
            ManagerError::InvalidUpdate(text.to_owned())
        );
    }
}

#[test]
fn a_draw_is_judged_before_it_becomes_a_token() {
    let mut bench = Bench::new(IdentityMode::Persistent);
    bench.insert(vec![wired_named(r"\\?\hid#one", "ONE")], Some(token(1)));
    let phase = IdentitySetupPhase::AddMouse;
    let judge = |attempt, draw| {
        bench
            .manager
            .judge_draw(phase, Some(token(2)), attempt, draw)
    };
    assert_eq!(judge(0, Ok([3; 16])), MintStep::Minted(token(3)));
    assert_eq!(judge(0, Ok([0; 16])), MintStep::Again);
    assert_eq!(judge(0, Ok([1; 16])), MintStep::Again);
    assert_eq!(judge(0, Ok([2; 16])), MintStep::Again);
    assert_eq!(
        judge(0, Err(getrandom::Error::UNEXPECTED)),
        MintStep::Failed(ManagerError::TokenGeneration {
            source: getrandom::Error::UNEXPECTED
        })
    );
}

#[test]
fn minted_tokens_differ_from_one_another() {
    let bench = Bench::new(IdentityMode::Persistent);
    let first = bench
        .manager
        .mint_unique_token(IdentitySetupPhase::AddMouse, None)
        .unwrap();
    let second = bench
        .manager
        .mint_unique_token(IdentitySetupPhase::AddMouse, Some(first))
        .unwrap();
    assert_ne!(first, second);
    assert_ne!(first, token(0));
    assert_ne!(second, token(0));
}
