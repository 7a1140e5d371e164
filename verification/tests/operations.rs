use std::collections::BTreeMap;

use attack_shark_x3_manager::device::{DeviceEndpoint, DeviceId, DeviceIdentity};
use attack_shark_x3_manager::error::ManagerError;
use attack_shark_x3_manager::manager::DeviceManager;
use attack_shark_x3_manager::operation::{
    BaselineSource, DeviceStatus, FullProfileRefreshOutcome, LiveProfileSnapshot,
    ProfileResourceKind, ProfileUpdate, ProfileUpdateBaseline, ProfileUpdateOutcome,
    ResourceSnapshot, UpdatePolicy, VerificationMethod, WriteOutcome,
};
use attack_shark_x3_manager::operations::baseline::DefaultImages;
use attack_shark_x3_manager::operations::profile_update::{
    check_profile_update, check_update_baseline, UpdateSetting,
};
use attack_shark_x3_manager::operations::update::{
    check_dpi_update, check_preferences_delta, check_preferences_update,
};
use attack_shark_x3_manager::protocol::{
    ButtonAssignment, ButtonsState, DpiState, DpiValue, LiftOffDistance, PhysicalId, PollingRate,
    PreferencesState, ProfileId, ProfileMetadata, ProfileSnapshot, SensorOptions, StageIndex,
    TransportKind, WatermarkDecode,
};
use attack_shark_x3_manager::refresh::capture_all_profiles;
use attack_shark_x3_manager::resources::buttons::{
    ButtonSlotDelta, SafeButtonAction, SafeButtonSlot,
};
use attack_shark_x3_manager::resources::dpi::DpiDelta;
use attack_shark_x3_manager::resources::settings::{
    captured_evidence_preferences, PreferencesDelta,
};
use attack_shark_x3_manager::resources::state::record_ack;
use attack_shark_x3_manager::session::{
    route_write, routed_write, SessionReply, SessionRequest, SessionWrite, Step,
};
use attack_shark_x3_manager::state::{
    ApplicationVerification, DesiredSource, DesiredState, DeviceState, ObservationSource,
    ObservedState, PersistenceVerification, ProfileState, StateFile, Timestamp, Verification,
};

fn profile(value: u8) -> ProfileId {
    ProfileId::new(value).expect("profile")
}

fn metadata(current: u8, maximum: u8) -> ProfileMetadata {
    ProfileMetadata::new(profile(current), profile(maximum)).expect("metadata")
}

fn now() -> Timestamp {
    Timestamp { unix_seconds: 50 }
}

fn dpi_stages(profile: ProfileId, values: &[u16]) -> DpiState {
    DpiState::new(
        profile,
        values.iter().map(|value| DpiValue { value: *value }).collect(),
        StageIndex { value: 1 },
        SensorOptions {
            lift_off_distance: LiftOffDistance::OneMillimeter,
            ripple_control: false,
            angle_snap: false,
            motion_sync: false,
        },
        [0; 25],
    )
    .expect("image")
}

fn dpi(profile: ProfileId, value: u16) -> DpiState {
    dpi_stages(profile, &[value])
}

fn no_buttons(profile: ProfileId) -> ButtonsState {
    ButtonsState::new(profile, [ButtonAssignment::default(); 18])
}

/// A button table in which every slot is told apart.
fn numbered_buttons(profile: ProfileId) -> ButtonsState {
    let mut slots = [ButtonAssignment::default(); 18];
    for (index, slot) in slots.iter_mut().enumerate() {
        *slot = ButtonAssignment::new(index as u8, 0xa0 | index as u8, 0xf0 ^ index as u8);
    }
    ButtonsState::new(profile, slots)
}

fn plain_preferences(profile: ProfileId) -> PreferencesState {
    PreferencesState::new(profile, 0, 0, 0, [0, 0, 0], 0, 0)
}

fn snapshot(target: u8) -> ProfileSnapshot {
    let target = profile(target);
    ProfileSnapshot {
        persistent_metadata: ProfileMetadata::new(target, profile(5)).expect("metadata"),
        target_profile: target,
        dpi: dpi(target, 800),
        preferences: plain_preferences(target),
        buttons: no_buttons(target),
    }
}

fn receiver(path: &str) -> DeviceEndpoint {
    DeviceEndpoint::usb(TransportKind::Receiver, 0x1d57, 0xfa60, None, path, None)
        .expect("endpoint")
}

fn wired(path: &str) -> DeviceEndpoint {
    DeviceEndpoint::usb(TransportKind::Wired, 0x1d57, 0xfa61, None, path, None).expect("endpoint")
}

fn ble(id: &str) -> DeviceEndpoint {
    DeviceEndpoint::ble(id, None).expect("endpoint")
}

#[derive(Clone, Debug, PartialEq)]
enum Written {
    Dpi(DpiState),
    Preferences(PreferencesState),
    Buttons(ButtonsState),
    PollingRate(ProfileId, PollingRate),
    ProfileMetadata(ProfileMetadata),
}

/// One mouse behind one session. Reading or activating a profile makes it the
/// live one, and the polling rate is always that of the live profile.
struct Mouse {
    transport: TransportKind,
    metadata: Option<ProfileMetadata>,
    profiles: BTreeMap<u8, ProfileSnapshot>,
    rates: BTreeMap<u8, PollingRate>,
    live: ProfileId,
    last_alias: Option<ProfileId>,
    battery: Option<u8>,
    writes: Vec<Written>,
    failing_metadata: Option<ProfileMetadata>,
    metadata_readback: Option<ProfileMetadata>,
    dpi_readback: Option<DpiState>,
    rate_unsupported: bool,
    profile_reads: usize,
    dpi_reads: usize,
}

impl Mouse {
    fn on(transport: TransportKind) -> Mouse {
        Mouse {
            transport,
            metadata: None,
            profiles: BTreeMap::new(),
            rates: BTreeMap::new(),
            live: profile(1),
            last_alias: None,
            battery: None,
            writes: Vec::new(),
            failing_metadata: None,
            metadata_readback: None,
            dpi_readback: None,
            rate_unsupported: false,
            profile_reads: 0,
            dpi_reads: 0,
        }
    }

    fn usb() -> Mouse {
        Mouse::on(TransportKind::Wired)
    }

    fn ble() -> Mouse {
        Mouse::on(TransportKind::Ble)
    }

    fn with_metadata(mut self, metadata: ProfileMetadata) -> Mouse {
        self.metadata = Some(metadata);
        self.live = metadata.current();
        self
    }

    fn with_profile(mut self, snapshot: ProfileSnapshot) -> Mouse {
        self.profiles
            .insert(snapshot.target_profile.get(), snapshot);
        self
    }

    fn with_rate(mut self, rate: PollingRate) -> Mouse {
        for target in 1..=5 {
            self.rates.insert(target, rate);
        }
        self
    }

    fn with_rate_for(mut self, target: u8, rate: PollingRate) -> Mouse {
        self.rates.insert(target, rate);
        self
    }

    fn with_live(mut self, target: u8) -> Mouse {
        self.live = profile(target);
        self
    }

    fn with_battery(mut self, level: u8) -> Mouse {
        self.battery = Some(level);
        self
    }

    fn unsupported(&self, operation: &'static str) -> SessionReply {
        SessionReply::Failed(ManagerError::UnsupportedOperation {
            operation,
            transport: self.transport,
        })
    }

    fn lookup(
        &mut self,
        target: ProfileId,
        resource: &'static str,
    ) -> Result<ProfileSnapshot, SessionReply> {
        match self.profiles.get(&target.get()) {
            Some(found) => {
                self.live = target;
                Ok(*found)
            }
            None => Err(SessionReply::Failed(ManagerError::MissingBaseline {
                resource,
                profile: Some(target),
            })),
        }
    }

    fn perform(&mut self, request: SessionRequest) -> SessionReply {
        let reply = self.answer(request);
        assert!(reply.answers(&request), "{reply:?} does not answer {request:?}");
        reply
    }

    fn answer(&mut self, request: SessionRequest) -> SessionReply {
        let radio = self.transport == TransportKind::Ble;
        match request {
            SessionRequest::ReadBattery if radio => self.unsupported("read_battery"),
            SessionRequest::ReadBattery => match self.battery {
                Some(level) => SessionReply::Battery(level),
                None => SessionReply::Failed(ManagerError::MissingBaseline {
                    resource: "battery",
                    profile: None,
                }),
            },
            SessionRequest::ReadProfileMetadata if radio => {
                self.unsupported("read_profile_metadata")
            }
            SessionRequest::ReadProfileMetadata => match self.metadata {
                Some(metadata) => SessionReply::ProfileMetadata(metadata),
                None => SessionReply::Failed(ManagerError::MissingBaseline {
                    resource: "profile metadata",
                    profile: None,
                }),
            },
            SessionRequest::ReadProfile(_) if radio => self.unsupported("read_profile"),
            SessionRequest::ReadProfile(target) => {
                self.profile_reads += 1;
                match self.lookup(target, "profile") {
                    Ok(mut found) => {
                        if let Some(metadata) = self.metadata {
                            found.persistent_metadata = metadata;
                        }
                        SessionReply::Profile(found)
                    }
                    Err(reply) => reply,
                }
            }
            SessionRequest::ReadDpi(_) if radio => self.unsupported("read_dpi"),
            SessionRequest::ReadDpi(target) => {
                self.dpi_reads += 1;
                match self.lookup(target, "DPI") {
                    Ok(found) => SessionReply::Dpi {
                        state: found.dpi,
                        watermark: WatermarkDecode::Absent,
                    },
                    Err(reply) => reply,
                }
            }
            SessionRequest::ReadPreferences(_) if radio => self.unsupported("read_preferences"),
            SessionRequest::ReadPreferences(target) => match self.lookup(target, "preferences") {
                Ok(found) => SessionReply::Preferences(found.preferences),
                Err(reply) => reply,
            },
            SessionRequest::ReadButtons(_) if radio => self.unsupported("read_buttons"),
            SessionRequest::ReadButtons(target) => match self.lookup(target, "buttons") {
                Ok(found) => SessionReply::Buttons(found.buttons),
                Err(reply) => reply,
            },
            SessionRequest::ReadLivePollingRate(_) if radio || self.rate_unsupported => {
                self.unsupported("read_live_polling_rate")
            }
            SessionRequest::ReadLivePollingRate(alias) => {
                self.last_alias = Some(alias);
                match self.rates.get(&self.live.get()) {
                    Some(rate) => SessionReply::PollingRate(*rate),
                    None => SessionReply::Failed(ManagerError::MissingBaseline {
                        resource: "polling rate",
                        profile: Some(alias),
                    }),
                }
            }
            SessionRequest::WriteDpi {
                state,
                stamp,
                verification,
            } => {
                let route = match route_write(self.transport, verification, "write_dpi") {
                    Ok(route) => route,
                    Err(error) => return SessionReply::Failed(error),
                };
                let mut sent = state;
                let mut watermark = WatermarkDecode::Absent;
                if let Some(token) = stamp {
                    sent.preserved_tail[..16].copy_from_slice(&token.token_bytes());
                    watermark = WatermarkDecode::Valid(token);
                }
                self.writes.push(Written::Dpi(sent));
                if let (false, Some(found)) = (radio, self.profiles.get_mut(&sent.profile.get())) {
                    found.dpi = sent;
                }
                SessionReply::DpiWritten {
                    desired: sent,
                    write: match self.dpi_readback {
                        Some(other) => SessionWrite::ReadbackVerified(other),
                        None => routed_write(route, sent),
                    },
                    watermark,
                }
            }
            SessionRequest::WritePreferences {
                state,
                verification,
            } => {
                let route = match route_write(self.transport, verification, "write_preferences") {
                    Ok(route) => route,
                    Err(error) => return SessionReply::Failed(error),
                };
                self.writes.push(Written::Preferences(state));
                if let (false, Some(found)) = (radio, self.profiles.get_mut(&state.profile.get())) {
                    found.preferences = state;
                }
                SessionReply::PreferencesWritten(routed_write(route, state))
            }
            SessionRequest::WriteButtons {
                state,
                verification,
            } => {
                let route = match route_write(self.transport, verification, "write_buttons") {
                    Ok(route) => route,
                    Err(error) => return SessionReply::Failed(error),
                };
                self.writes.push(Written::Buttons(state));
                if let (false, Some(found)) = (radio, self.profiles.get_mut(&state.profile.get())) {
                    found.buttons = state;
                }
                SessionReply::ButtonsWritten(routed_write(route, state))
            }
            SessionRequest::WritePollingRate {
                profile,
                rate,
                verification,
            } => {
                let route = match route_write(
                    self.transport,
                    verification,
                    "write_polling_rate_unchecked",
                ) {
                    Ok(route) => route,
                    Err(error) => return SessionReply::Failed(error),
                };
                self.writes.push(Written::PollingRate(profile, rate));
                self.rates.insert(profile.get(), rate);
                SessionReply::PollingRateWritten(routed_write(route, rate))
            }
            SessionRequest::WriteProfileMetadata(metadata) => {
                if let Some(other) = self.metadata_readback {
                    return SessionReply::ProfileMetadataWritten(SessionWrite::ReadbackVerified(
                        other,
                    ));
                }
                if self.failing_metadata == Some(metadata) {
                    return SessionReply::Failed(ManagerError::InvalidUpdate(
                        "scripted profile metadata write failure".to_owned(),
                    ));
                }
                self.writes.push(Written::ProfileMetadata(metadata));
                self.metadata = Some(metadata);
                self.live = metadata.current();
                SessionReply::ProfileMetadataWritten(if radio {
                    SessionWrite::Acknowledged
                } else {
                    SessionWrite::ReadbackVerified(metadata)
                })
            }
        }
    }

    fn metadata_writes(&self) -> Vec<ProfileMetadata> {
        self.writes
            .iter()
            .filter_map(|write| match write {
                Written::ProfileMetadata(metadata) => Some(*metadata),
                _ => None,
            })
            .collect()
    }
}

/// Performs the requests of an operation until it is over.
fn drive<M, T>(
    mouse: &mut Mouse,
    first: Step<M, T>,
    mut resume: impl FnMut(M, SessionReply) -> Step<M, T>,
) -> Result<T, ManagerError> {
    let mut step = first;
    loop {
        match step {
            Step::Done(outcome) => return outcome,
            Step::Ask { request, next } => {
                let reply = mouse.perform(request);
                step = resume(next, reply);
            }
        }
    }
}

struct Bench {
    manager: DeviceManager,
    id: DeviceId,
    mouse: Mouse,
    opens: usize,
}

impl Bench {
    fn new(endpoint: DeviceEndpoint, mouse: Mouse) -> Bench {
        let mut manager = DeviceManager::new(StateFile::new()).expect("manager");
        let id = manager.state.allocate_device_id().expect("id");
        let mut identity = DeviceIdentity::new(id.clone(), Some("Test Mouse".to_owned()));
        identity.upsert_endpoint(endpoint);
        manager.register_device(identity).expect("registered");
        Bench {
            manager,
            id,
            mouse,
            opens: 0,
        }
    }

    fn wired(mouse: Mouse) -> Bench {
        Bench::new(wired(r"\\?\hid#bench"), mouse)
    }

    fn radio() -> Bench {
        Bench::new(ble("ble-bench"), Mouse::ble())
    }

    fn transport(&self) -> TransportKind {
        self.mouse.transport
    }

    fn device(&self) -> &DeviceState {
        self.manager.state.devices.get(&self.id).expect("device")
    }

    fn profile(&self, target: ProfileId) -> &ProfileState {
        self.device().profiles.get(target).expect("profile state")
    }

    /// Changes what is on record for one profile.
    fn seed(&mut self, target: ProfileId, change: impl FnOnce(&mut ProfileState)) {
        let mut device = self.manager.state.devices.remove(&self.id).expect("device");
        let mut state = match device.profiles.get(target) {
            Some(found) => *found,
            None => ProfileState::empty(),
        };
        change(&mut state);
        device.profiles.insert(target, state);
        self.manager.state.devices.insert(self.id.clone(), device);
        self.manager.state.validate().expect("valid");
    }

    fn seed_metadata(&mut self, value: ProfileMetadata) {
        let mut device = self.manager.state.devices.remove(&self.id).expect("device");
        device.profile_metadata.desired = Some(wanted(value));
        self.manager.state.devices.insert(self.id.clone(), device);
    }

    /// Puts a complete wanted image and the metadata on record.
    fn seed_complete(&mut self, target: ProfileId, metadata: ProfileMetadata) {
        let (dpi, preferences, buttons) = complete_image(target);
        self.seed_metadata(metadata);
        self.seed(target, |state| {
            state.dpi.desired = Some(wanted(dpi));
            state.preferences.desired = Some(wanted(preferences));
            state.buttons.desired = Some(wanted(buttons));
        });
    }

    /// Puts a token on record for the mouse.
    fn mark(&mut self, token: PhysicalId) {
        let mut device = self.manager.state.devices.remove(&self.id).expect("device");
        device.identity.physical_id = Some(token);
        self.manager.state.devices.insert(self.id.clone(), device);
    }

    fn defaults(&self, target: ProfileId) -> DefaultImages {
        DefaultImages {
            dpi: dpi(target, 400),
            buttons: numbered_buttons(target),
        }
    }

    fn read_buttons(
        &mut self,
        target: ProfileId,
    ) -> Result<ResourceSnapshot<ButtonsState>, ManagerError> {
        self.opens += 1;
        let first = self
            .manager
            .read_buttons(&self.id, target, self.mouse.transport);
        let manager = &mut self.manager;
        drive(&mut self.mouse, first, |read, reply| {
            Step::Done(manager.finish_read_buttons(&read, reply, now()))
        })
    }

    fn read_polling_rate(
        &mut self,
        target: ProfileId,
    ) -> Result<ResourceSnapshot<PollingRate>, ManagerError> {
        self.opens += 1;
        let first = self
            .manager
            .read_polling_rate(&self.id, target, self.mouse.transport);
        let manager = &mut self.manager;
        drive(&mut self.mouse, first, |read, reply| {
            read.resume(manager, reply, now())
        })
    }

    fn read_battery(&mut self) -> Result<u8, ManagerError> {
        self.opens += 1;
        let reply = self.mouse.perform(self.manager.read_battery());
        self.manager.finish_read_battery(reply)
    }

    fn read_status(&mut self) -> Result<DeviceStatus, ManagerError> {
        self.opens += 1;
        let identity = self.manager.device_identity(&self.id)?;
        let first = self
            .manager
            .read_status(&self.id, identity, self.mouse.transport);
        let manager = &mut self.manager;
        drive(&mut self.mouse, first, |read, reply| {
            read.resume(manager, reply, now())
        })
    }

    fn read_live_profile(
        &mut self,
        requested: Option<ProfileId>,
    ) -> Result<LiveProfileSnapshot, ManagerError> {
        self.opens += 1;
        let identity = self.manager.device_identity(&self.id)?;
        let first =
            self.manager
                .read_live_profile(&self.id, identity, requested, self.mouse.transport);
        let manager = &mut self.manager;
        drive(&mut self.mouse, first, |read, reply| {
            read.resume(manager, reply, now())
        })
    }

    fn update_dpi(
        &mut self,
        target: ProfileId,
        desired: DpiState,
        policy: UpdatePolicy,
    ) -> Result<WriteOutcome<DpiState>, ManagerError> {
        check_dpi_update(target, &desired)?;
        self.opens += 1;
        let first = self.manager.update_dpi(
            &self.id,
            target,
            desired,
            policy,
            self.mouse.transport,
        );
        let manager = &mut self.manager;
        drive(&mut self.mouse, first, |update, reply| {
            Step::Done(update.finish(manager, reply, now()))
        })
    }

    fn update_preferences(
        &mut self,
        target: ProfileId,
        desired: PreferencesState,
        policy: UpdatePolicy,
    ) -> Result<WriteOutcome<PreferencesState>, ManagerError> {
        check_preferences_update(target, &desired)?;
        self.opens += 1;
        let first = self.manager.update_preferences(
            &self.id,
            target,
            desired,
            policy,
            self.mouse.transport,
        );
        let manager = &mut self.manager;
        drive(&mut self.mouse, first, |update, reply| {
            update.resume(manager, reply, now())
        })
    }

    fn update_preferences_delta(
        &mut self,
        target: ProfileId,
        delta: PreferencesDelta,
        policy: UpdatePolicy,
    ) -> Result<WriteOutcome<PreferencesState>, ManagerError> {
        check_preferences_delta(delta)?;
        self.opens += 1;
        let first = self.manager.update_preferences_delta(
            &self.id,
            target,
            delta,
            policy,
            self.mouse.transport,
        );
        let manager = &mut self.manager;
        drive(&mut self.mouse, first, |update, reply| {
            update.resume(manager, reply, now())
        })
    }

    fn update_button_slot(
        &mut self,
        target: ProfileId,
        slot: SafeButtonSlot,
        action: SafeButtonAction,
        policy: UpdatePolicy,
    ) -> Result<WriteOutcome<ButtonsState>, ManagerError> {
        self.opens += 1;
        let defaults = self.defaults(target).buttons;
        let first = self.manager.update_button_slot(
            &self.id,
            target,
            ButtonSlotDelta::new(slot, action),
            policy,
            self.mouse.transport,
            defaults,
        );
        let manager = &mut self.manager;
        drive(&mut self.mouse, first, |update, reply| {
            update.resume(manager, reply, now())
        })
    }

    fn update_polling_rate(
        &mut self,
        target: ProfileId,
        desired: PollingRate,
        policy: UpdatePolicy,
    ) -> Result<WriteOutcome<PollingRate>, ManagerError> {
        self.opens += 1;
        let first = self.manager.update_polling_rate(
            &self.id,
            target,
            desired,
            policy,
            self.mouse.transport,
        );
        let manager = &mut self.manager;
        drive(&mut self.mouse, first, |update, reply| {
            update.resume(manager, reply, now())
        })
    }

    fn update_polling_rate_unverified_ble(
        &mut self,
        target: ProfileId,
        desired: PollingRate,
        policy: UpdatePolicy,
    ) -> Result<WriteOutcome<PollingRate>, ManagerError> {
        self.opens += 1;
        let first = self.manager.update_polling_rate_unverified_ble(
            &self.id,
            target,
            desired,
            policy,
            self.mouse.transport,
        );
        let manager = &mut self.manager;
        drive(&mut self.mouse, first, |update, reply| {
            update.resume(manager, reply, now())
        })
    }

    fn activate_profile(&mut self, target: ProfileId) -> Result<ProfileMetadata, ManagerError> {
        self.opens += 1;
        let first = self
            .manager
            .activate_profile(&self.id, target, self.mouse.transport);
        let manager = &mut self.manager;
        drive(&mut self.mouse, first, |update, reply| {
            update.resume(manager, reply, now())
        })
    }

    fn set_profile_metadata(
        &mut self,
        current: ProfileId,
        maximum: ProfileId,
    ) -> Result<ProfileMetadata, ManagerError> {
        self.opens += 1;
        let first = self
            .manager
            .set_profile_metadata(&self.id, current, maximum, self.mouse.transport);
        let manager = &mut self.manager;
        drive(&mut self.mouse, first, |update, reply| {
            update.resume(manager, reply, now())
        })
    }

    fn setting(&self, target: ProfileId, policy: UpdatePolicy) -> UpdateSetting {
        UpdateSetting {
            policy,
            transport: self.transport(),
            defaults: self.defaults(target),
        }
    }

    fn apply(
        &mut self,
        target: ProfileId,
        update: ProfileUpdate,
        policy: UpdatePolicy,
    ) -> Result<ProfileUpdateOutcome, ManagerError> {
        check_profile_update(&update)?;
        self.opens += 1;
        let setting = self.setting(target, policy);
        let first = self
            .manager
            .apply_profile_update(&self.id, target, update, setting, now());
        let manager = &mut self.manager;
        drive(&mut self.mouse, first, |run, reply| {
            run.resume(manager, reply, now())
        })
    }

    fn apply_from(
        &mut self,
        target: ProfileId,
        update: ProfileUpdate,
        policy: UpdatePolicy,
        baseline: ProfileUpdateBaseline,
    ) -> Result<ProfileUpdateOutcome, ManagerError> {
        check_profile_update(&update)?;
        check_update_baseline(target, &baseline)?;
        self.opens += 1;
        let setting = self.setting(target, policy);
        let first = self.manager.apply_profile_update_from_snapshot(
            &self.id,
            target,
            update,
            setting,
            baseline,
            now(),
        );
        let manager = &mut self.manager;
        drive(&mut self.mouse, first, |run, reply| {
            run.resume(manager, reply, now())
        })
    }

    fn refresh(&mut self) -> Result<FullProfileRefreshOutcome, ManagerError> {
        self.opens += 1;
        let first = self.manager.refresh_all_profiles(self.mouse.transport);
        let capture = drive(&mut self.mouse, first, |capture, reply| {
            capture.resume(reply)
        })?;
        self.manager
            .persist_profile_refresh(&self.id, capture, now())
    }
}

fn wanted<T>(value: T) -> DesiredState<T> {
    DesiredState {
        value,
        source: DesiredSource::UserWrite,
        verification: Verification::not_sent(),
        updated_at: Timestamp { unix_seconds: 1 },
    }
}

fn complete_image(profile: ProfileId) -> (DpiState, PreferencesState, ButtonsState) {
    let mut slots = [ButtonAssignment::default(); 18];
    slots[0] = ButtonAssignment::new(0x01, 0x02, 0x03);
    (
        dpi(profile, 800),
        PreferencesState::new(profile, 2, 1, 0, [0xff, 0, 0], 5, 4),
        ButtonsState::new(profile, slots),
    )
}

fn matching_snapshot(target: ProfileId) -> ProfileSnapshot {
    let (dpi, preferences, buttons) = complete_image(target);
    ProfileSnapshot {
        target_profile: target,
        persistent_metadata: ProfileMetadata::new(target, target).expect("metadata"),
        dpi,
        preferences,
        buttons,
    }
}

fn readback() -> UpdatePolicy {
    UpdatePolicy {
        verification: VerificationMethod::Readback,
        ..UpdatePolicy::default()
    }
}

fn stored() -> UpdatePolicy {
    UpdatePolicy {
        baseline: BaselineSource::Stored,
        ..UpdatePolicy::default()
    }
}

fn authorized() -> UpdatePolicy {
    UpdatePolicy {
        allow_explicit_defaults: true,
        ..UpdatePolicy::default()
    }
}

fn missing(resource: &'static str, profile: Option<ProfileId>) -> ManagerError {
    ManagerError::MissingBaseline { resource, profile }
}

fn written_resources() -> (DpiState, PreferencesState, ButtonsState) {
    let mut slots = [ButtonAssignment::default(); 18];
    slots[0] = ButtonAssignment::new(0x01, 0x02, 0x03);
    (
        dpi(profile(2), 1600),
        PreferencesState::new(profile(2), 1, 2, 3, [4, 5, 6], 7, 8),
        ButtonsState::new(profile(2), slots),
    )
}

fn write_dpi(state: DpiState, verification: VerificationMethod) -> SessionRequest {
    SessionRequest::WriteDpi {
        state,
        stamp: None,
        verification,
    }
}

fn write_rate(target: u8, rate: PollingRate, verification: VerificationMethod) -> SessionRequest {
    SessionRequest::WritePollingRate {
        profile: profile(target),
        rate,
        verification,
    }
}

fn dpi_write(reply: SessionReply) -> SessionWrite<DpiState> {
    match reply {
        SessionReply::DpiWritten { write, .. } => write,
        other => panic!("expected a DPI write, got {other:?}"),
    }
}

#[test]
fn usb_fake_routes_transport_to_acknowledged() {
    let mut usb = Mouse::usb().with_profile(snapshot(2));
    let (dpi, preferences, buttons) = written_resources();
    let verification = VerificationMethod::Transport;
    assert_eq!(
        dpi_write(usb.perform(write_dpi(dpi, verification))),
        SessionWrite::Acknowledged
    );
    assert_eq!(
        usb.perform(SessionRequest::WritePreferences {
            state: preferences,
            verification
        }),
        SessionReply::PreferencesWritten(SessionWrite::Acknowledged)
    );
    assert_eq!(
        usb.perform(SessionRequest::WriteButtons {
            state: buttons,
            verification
        }),
        SessionReply::ButtonsWritten(SessionWrite::Acknowledged)
    );
    assert_eq!(
        usb.perform(write_rate(2, PollingRate::Hz1000, verification)),
        SessionReply::PollingRateWritten(SessionWrite::Acknowledged)
    );
}

#[test]
fn usb_fake_routes_readback_to_readback_verified_and_updates_state() {
    let mut usb = Mouse::usb().with_profile(snapshot(2));
    let (dpi, preferences, buttons) = written_resources();
    let verification = VerificationMethod::Readback;
    assert_eq!(
        dpi_write(usb.perform(write_dpi(dpi, verification))),
        SessionWrite::ReadbackVerified(dpi)
    );
    assert_eq!(
        usb.perform(SessionRequest::WritePreferences {
            state: preferences,
            verification
        }),
        SessionReply::PreferencesWritten(SessionWrite::ReadbackVerified(preferences))
    );
    assert_eq!(
        usb.perform(SessionRequest::WriteButtons {
            state: buttons,
            verification
        }),
        SessionReply::ButtonsWritten(SessionWrite::ReadbackVerified(buttons))
    );
    assert_eq!(
        usb.perform(write_rate(2, PollingRate::Hz1000, verification)),
        SessionReply::PollingRateWritten(SessionWrite::ReadbackVerified(PollingRate::Hz1000))
    );

    assert_eq!(
        usb.perform(SessionRequest::ReadDpi(profile(2))),
        SessionReply::Dpi {
            state: dpi,
            watermark: WatermarkDecode::Absent
        }
    );
    assert_eq!(
        usb.perform(SessionRequest::ReadPreferences(profile(2))),
        SessionReply::Preferences(preferences)
    );
    assert_eq!(
        usb.perform(SessionRequest::ReadButtons(profile(2))),
        SessionReply::Buttons(buttons)
    );
    assert_eq!(
        usb.perform(SessionRequest::ReadLivePollingRate(profile(2))),
        SessionReply::PollingRate(PollingRate::Hz1000)
    );
}

#[test]
fn ble_fake_accepts_transport_but_rejects_readback() {
    let mut radio = Mouse::ble();
    let (dpi, preferences, buttons) = written_resources();
    let verification = VerificationMethod::Transport;
    assert_eq!(
        dpi_write(radio.perform(write_dpi(dpi, verification))),
        SessionWrite::Acknowledged
    );
    assert_eq!(
        radio.perform(SessionRequest::WritePreferences {
            state: preferences,
            verification
        }),
        SessionReply::PreferencesWritten(SessionWrite::Acknowledged)
    );
    assert_eq!(
        radio.perform(SessionRequest::WriteButtons {
            state: buttons,
            verification
        }),
        SessionReply::ButtonsWritten(SessionWrite::Acknowledged)
    );
    assert_eq!(
        radio.perform(write_rate(2, PollingRate::Hz1000, verification)),
        SessionReply::PollingRateWritten(SessionWrite::Acknowledged)
    );

    let verification = VerificationMethod::Readback;
    for request in [
        write_dpi(dpi, verification),
        SessionRequest::WritePreferences {
            state: preferences,
            verification,
        },
        SessionRequest::WriteButtons {
            state: buttons,
            verification,
        },
        write_rate(2, PollingRate::Hz1000, verification),
    ] {
        assert!(matches!(
            radio.perform(request),
            SessionReply::Failed(ManagerError::UnsupportedOperation { .. })
        ));
    }
}

fn rate_read(mouse: &mut Mouse, alias: u8) -> PollingRate {
    match mouse.perform(SessionRequest::ReadLivePollingRate(profile(alias))) {
        SessionReply::PollingRate(rate) => rate,
        other => panic!("expected a rate, got {other:?}"),
    }
}

#[test]
fn live_polling_alias_is_side_effect_not_content() {
    let mut mouse = Mouse::usb()
        .with_profile(snapshot(2))
        .with_profile(snapshot(1))
        .with_rate_for(1, PollingRate::Hz500)
        .with_rate_for(2, PollingRate::Hz1000)
        .with_live(1);
    assert_eq!(
        rate_read(&mut mouse, 2),
        PollingRate::Hz500,
        "alias 2 must return live 1 rate, exposing cross-profile contamination"
    );
    assert_eq!(mouse.last_alias, Some(profile(2)));
    mouse.perform(SessionRequest::ReadProfile(profile(2)));
    assert_eq!(rate_read(&mut mouse, 2), PollingRate::Hz1000);
    assert_eq!(rate_read(&mut mouse, 1), PollingRate::Hz1000);
    assert_eq!(mouse.last_alias, Some(profile(1)));
}

#[test]
fn polling_write_updates_target_slot_and_live_visibility() {
    let mut mouse = Mouse::usb()
        .with_profile(snapshot(2))
        .with_profile(snapshot(1))
        .with_rate_for(1, PollingRate::Hz1000)
        .with_rate_for(2, PollingRate::Hz500)
        .with_live(1);
    let verification = VerificationMethod::Readback;
    mouse.perform(write_rate(2, PollingRate::Hz250, verification));
    assert_eq!(rate_read(&mut mouse, 2), PollingRate::Hz1000);
    mouse.perform(SessionRequest::ReadProfile(profile(2)));
    assert_eq!(rate_read(&mut mouse, 1), PollingRate::Hz250);
    mouse.perform(write_rate(2, PollingRate::Hz500, verification));
    assert_eq!(rate_read(&mut mouse, 2), PollingRate::Hz500);
    mouse.perform(SessionRequest::WriteProfileMetadata(metadata(2, 5)));
    assert_eq!(rate_read(&mut mouse, 1), PollingRate::Hz500);
}

#[test]
fn read_status_usb_preserves_desired_and_sets_observed() {
    let meta = metadata(1, 3);
    let mut bench = Bench::wired(
        Mouse::usb()
            .with_metadata(meta)
            .with_profile(snapshot(1))
            .with_rate(PollingRate::Hz1000)
            .with_battery(87),
    );
    bench.seed(profile(1), |state| {
        state.polling_rate.desired = Some(wanted(PollingRate::Hz250))
    });

    let status = bench.read_status().unwrap();
    assert_eq!(status.battery, None);
    let polling = status.polling_rate.unwrap();
    assert_eq!(polling.resource.desired.unwrap().value, PollingRate::Hz250);
    assert_eq!(
        polling.resource.observed.unwrap().value,
        PollingRate::Hz1000
    );
    assert_eq!(
        polling.resource.observed.unwrap().source,
        ObservationSource::UsbReadback
    );
    let seen = status.profile_metadata.unwrap();
    assert_eq!(seen.resource.observed.unwrap().value, meta);
    assert!(seen.resource.desired.is_none());
    let state = bench.profile(profile(1));
    assert_eq!(
        state.polling_rate.desired.unwrap().value,
        PollingRate::Hz250
    );
    assert_eq!(
        state.polling_rate.observed.unwrap().value,
        PollingRate::Hz1000
    );
}

#[test]
fn live_profile_snapshot_loads_the_target_profile_once() {
    let target = snapshot(1);
    let mut bench = Bench::wired(
        Mouse::usb()
            .with_metadata(target.persistent_metadata)
            .with_profile(target)
            .with_rate(PollingRate::Hz1000),
    );

    let live = bench.read_live_profile(None).unwrap();

    assert_eq!(live.profile, target);
    assert_eq!(live.polling_rate, PollingRate::Hz1000);
    assert_eq!(bench.mouse.profile_reads, 1);
    let state = bench.profile(profile(1));
    assert!(state.dpi.observed.is_some());
    assert!(state.preferences.observed.is_some());
    assert!(state.buttons.observed.is_some());
    assert!(state.polling_rate.observed.is_some());
}

#[test]
fn supplied_profile_snapshot_avoids_the_prewrite_dpi_read() {
    let held = snapshot(1);
    let mut bench = Bench::wired(
        Mouse::usb()
            .with_metadata(held.persistent_metadata)
            .with_profile(held)
            .with_rate(PollingRate::Hz1000),
    );
    let update = ProfileUpdate {
        dpi: Some(DpiDelta {
            stages: Some(vec![DpiValue { value: 1600 }]),
            active_stage: Some(StageIndex { value: 1 }),
            sensor: None,
        }),
        ..Default::default()
    };
    bench
        .apply_from(
            profile(1),
            update,
            UpdatePolicy::default(),
            ProfileUpdateBaseline {
                dpi: held.dpi,
                preferences: held.preferences,
                buttons: held.buttons,
            },
        )
        .unwrap();

    assert_eq!(
        bench.mouse.dpi_reads, 0,
        "the already-loaded snapshot must replace the live baseline read"
    );
    assert_eq!(bench.mouse.writes.len(), 1);
}

#[test]
fn read_battery_returns_exact_backend_value() {
    let endpoint = DeviceEndpoint::usb(
        TransportKind::Receiver,
        0x1d57,
        0xfa60,
        None,
        r"\\?\hid#receiver-bat",
        None,
    )
    .unwrap();
    let mut bench = Bench::new(endpoint, Mouse::usb().with_battery(42));
    assert_eq!(bench.read_battery().unwrap(), 42);
}

#[test]
fn read_status_maps_unsupported_battery_to_none() {
    let mut bench = Bench::new(ble("ble-device"), Mouse::ble().with_battery(99));
    let status = bench.read_status().unwrap();
    assert_eq!(status.battery, None);
    assert_eq!(status.profile_metadata, None);
    assert_eq!(status.polling_rate, None);
}

#[test]
fn read_status_loads_target_before_live_rate_and_stores_under_target() {
    let mut bench = Bench::wired(
        Mouse::usb()
            .with_metadata(metadata(2, 3))
            .with_profile(snapshot(2))
            .with_rate_for(1, PollingRate::Hz125)
            .with_rate_for(2, PollingRate::Hz1000)
            .with_live(1),
    );
    let status = bench.read_status().unwrap();
    let polling = status
        .polling_rate
        .expect("status must include polling for USB current");
    assert_eq!(
        polling.resource.observed.unwrap().value,
        PollingRate::Hz1000
    );
    assert_eq!(
        bench
            .profile(profile(2))
            .polling_rate
            .observed
            .unwrap()
            .value,
        PollingRate::Hz1000
    );
    assert!(bench
        .device()
        .profiles
        .get(profile(1))
        .map_or(true, |state| state.polling_rate.observed.is_none()));
    assert_eq!(bench.mouse.last_alias, Some(profile(2)));
}

#[test]
fn read_status_omits_unsupported_rate_without_misassociation() {
    let mut mouse = Mouse::usb()
        .with_metadata(metadata(1, 3))
        .with_profile(snapshot(1));
    mouse.rate_unsupported = true;
    let mut bench = Bench::wired(mouse);
    let status = bench.read_status().unwrap();
    assert!(status.profile_metadata.is_some());
    assert!(
        status.polling_rate.is_none(),
        "unsupported live rate must be omitted, not misassociated"
    );
    assert!(bench
        .device()
        .profiles
        .get(profile(1))
        .map_or(true, |state| state.polling_rate.observed.is_none()));
}

#[test]
fn activate_profile_usb_mismatch_is_persisted_and_errors() {
    let mismatched = metadata(3, 5);
    let mut mouse = Mouse::usb().with_metadata(metadata(1, 5));
    mouse.metadata_readback = Some(mismatched);
    let mut bench = Bench::wired(mouse);
    let error = bench.activate_profile(profile(2)).unwrap_err();
    assert_eq!(
        error,
        ManagerError::VerificationMismatch {
            resource: "profile metadata",
            profile: Some(profile(2)),
        }
    );
    let resource = bench.device().profile_metadata;
    assert_eq!(resource.desired.unwrap().value, metadata(2, 5));
    assert_eq!(resource.observed.unwrap().value, mismatched);
    assert_eq!(
        resource.desired.unwrap().verification.application,
        ApplicationVerification::Mismatch
    );
}

#[test]
fn set_profile_metadata_usb_mismatch_is_persisted_and_errors() {
    let mismatched = metadata(4, 5);
    let mut mouse = Mouse::usb();
    mouse.metadata_readback = Some(mismatched);
    let mut bench = Bench::wired(mouse);
    let error = bench
        .set_profile_metadata(profile(2), profile(5))
        .unwrap_err();
    assert_eq!(
        error,
        ManagerError::VerificationMismatch {
            resource: "profile metadata",
            profile: Some(profile(2)),
        }
    );
    let resource = bench.device().profile_metadata;
    assert_eq!(resource.desired.unwrap().value, metadata(2, 5));
    assert_eq!(resource.observed.unwrap().value, mismatched);
    assert_eq!(
        resource.desired.unwrap().verification.application,
        ApplicationVerification::Mismatch
    );
}

#[test]
fn activate_profile_ble_ack_succeeds_without_mismatch_check() {
    let mut bench = Bench::radio();
    let result = bench.activate_profile(profile(2)).unwrap();
    assert_eq!(result.current(), profile(2));
    let resource = bench.device().profile_metadata;
    assert_eq!(
        resource.desired.unwrap().verification.application,
        ApplicationVerification::Acknowledged
    );
    assert!(resource.observed.is_none());
}

#[test]
fn apply_profile_update_empty_rejected_before_open() {
    let mut bench = Bench::wired(Mouse::usb());
    let error = bench
        .apply(
            profile(1),
            ProfileUpdate::default(),
            UpdatePolicy::default(),
        )
        .expect_err("empty must be rejected");
    assert!(matches!(error, ManagerError::InvalidUpdate(_)));
    assert_eq!(bench.opens, 0, "empty must be rejected before open");
}

#[test]
fn apply_profile_update_mixed_rate_rejected_before_open() {
    let mut bench = Bench::wired(Mouse::usb());
    let update = ProfileUpdate {
        dpi: Some(DpiDelta {
            active_stage: Some(StageIndex { value: 1 }),
            ..Default::default()
        }),
        polling_rate: Some(PollingRate::Hz1000),
        ..Default::default()
    };
    let error = bench
        .apply(profile(1), update, UpdatePolicy::default())
        .expect_err("mixed must be rejected");
    assert!(matches!(error, ManagerError::InvalidUpdate(_)));
    assert!(error.message().contains("polling rate cannot be combined"));
    assert_eq!(bench.opens, 0, "mixed must be rejected before open");
}

#[test]
fn apply_profile_update_multi_button_one_write() {
    let mut bench = Bench::wired(Mouse::usb().with_profile(snapshot(1)));
    let update = ProfileUpdate {
        buttons: vec![
            ButtonSlotDelta::new(SafeButtonSlot::Forward, SafeButtonAction::Copy),
            ButtonSlotDelta::new(SafeButtonSlot::Backward, SafeButtonAction::Paste),
        ],
        ..Default::default()
    };
    let outcome = bench
        .apply(profile(1), update, UpdatePolicy::default())
        .unwrap();
    assert!(outcome.buttons.is_some());
    let tables: Vec<ButtonsState> = bench
        .mouse
        .writes
        .iter()
        .filter_map(|write| match write {
            Written::Buttons(state) => Some(*state),
            _ => None,
        })
        .collect();
    assert_eq!(
        tables.len(),
        1,
        "multiple button deltas must merge into one write"
    );
    assert_eq!(
        tables[0].slots[SafeButtonSlot::Forward.index()],
        SafeButtonAction::Copy.to_assignment()
    );
    assert_eq!(
        tables[0].slots[SafeButtonSlot::Backward.index()],
        SafeButtonAction::Paste.to_assignment()
    );
    assert_eq!(
        bench.profile(profile(1)).buttons.desired.unwrap().value.slots
            [SafeButtonSlot::Forward.index()],
        SafeButtonAction::Copy.to_assignment()
    );
}

#[test]
fn apply_profile_update_non_rate_one_session() {
    let mut start = snapshot(1);
    start.dpi = dpi_stages(profile(1), &[800, 1600]);
    let mut bench = Bench::wired(
        Mouse::usb()
            .with_profile(start)
            .with_metadata(metadata(1, 5))
            .with_rate(PollingRate::Hz1000),
    );
    let update = ProfileUpdate {
        dpi: Some(DpiDelta {
            active_stage: Some(StageIndex { value: 2 }),
            ..Default::default()
        }),
        preferences: Some(PreferencesDelta {
            sleep_timer: Some(10),
            ..Default::default()
        }),
        buttons: vec![ButtonSlotDelta::new(
            SafeButtonSlot::Forward,
            SafeButtonAction::Copy,
        )],
        ..Default::default()
    };
    let outcome = bench
        .apply(profile(1), update, UpdatePolicy::default())
        .unwrap();
    assert!(outcome.dpi.is_some());
    assert!(outcome.preferences.is_some());
    assert!(outcome.buttons.is_some());
    assert_eq!(
        bench.opens, 1,
        "non-rate composite must open exactly one session"
    );
    assert_eq!(
        bench.mouse.writes.len(),
        3,
        "should have three resource writes"
    );
}

#[test]
fn apply_profile_update_rate_only_safe_path() {
    let target = profile(2);
    let mut held = snapshot(2);
    held.preferences = PreferencesState::new(target, 1, 1, 0, [0, 0, 0], 0, 0);
    let meta = metadata(2, 5);
    let mut bench = Bench::wired(
        Mouse::usb()
            .with_metadata(meta)
            .with_profile(held)
            .with_rate_for(1, PollingRate::Hz125)
            .with_rate_for(2, PollingRate::Hz500)
            .with_live(1),
    );
    bench.seed_metadata(meta);
    bench.seed(target, |state| {
        state.dpi.desired = Some(wanted(held.dpi));
        state.preferences.desired = Some(wanted(held.preferences));
        state.buttons.desired = Some(wanted(held.buttons));
    });
    let update = || ProfileUpdate {
        polling_rate: Some(PollingRate::Hz1000),
        ..Default::default()
    };

    let outcome = bench
        .apply(target, update(), UpdatePolicy::default())
        .unwrap();
    assert!(outcome.polling_rate.is_some());
    assert!(bench
        .mouse
        .writes
        .contains(&Written::PollingRate(target, PollingRate::Hz1000)));

    let before = bench.mouse.writes.len();
    let outcome = bench
        .apply(target, update(), UpdatePolicy::default())
        .unwrap();
    assert!(outcome.polling_rate.is_some());
    assert_eq!(
        bench.mouse.writes.len(),
        before,
        "redundant rate write must be avoided"
    );
    assert_eq!(
        bench.profile(target).polling_rate.desired.unwrap().value,
        PollingRate::Hz1000
    );
}

#[test]
fn apply_profile_update_readback_mismatch_is_persisted_and_errors() {
    let mismatch = dpi(profile(1), 1600);
    let mut mouse = Mouse::usb().with_profile(snapshot(1));
    mouse.dpi_readback = Some(mismatch);
    let mut bench = Bench::wired(mouse);
    let update = ProfileUpdate {
        dpi: Some(DpiDelta {
            stages: Some(vec![DpiValue { value: 1200 }]),
            ..Default::default()
        }),
        ..Default::default()
    };
    let error = bench
        .apply(profile(1), update, readback())
        .expect_err("mismatch must error");
    assert!(matches!(
        error,
        ManagerError::VerificationMismatch {
            resource: "DPI",
            ..
        }
    ));
    let resource = bench.profile(profile(1)).dpi;
    assert_eq!(
        resource.desired.unwrap().verification.application,
        ApplicationVerification::Mismatch
    );
    assert_eq!(
        resource.desired.unwrap().value.stages.get(0),
        Some(DpiValue { value: 1200 })
    );
    assert_eq!(resource.observed.unwrap().value, mismatch);
}

#[test]
fn apply_profile_update_ble_baseline_policy() {
    let update = || ProfileUpdate {
        dpi: Some(DpiDelta {
            active_stage: Some(StageIndex { value: 1 }),
            ..Default::default()
        }),
        ..Default::default()
    };
    let mut bench = Bench::radio();
    bench.seed(profile(1), |state| {
        state.dpi.desired = Some(wanted(dpi(profile(1), 800)))
    });
    let outcome = bench
        .apply(profile(1), update(), UpdatePolicy::default())
        .unwrap();
    assert!(outcome.dpi.is_some());

    let mut bench = Bench::radio();
    let error = bench
        .apply(profile(1), update(), UpdatePolicy::default())
        .expect_err("missing baseline");
    assert!(matches!(
        error,
        ManagerError::MissingBaseline {
            resource: "DPI",
            ..
        }
    ));
    let outcome = bench.apply(profile(1), update(), authorized());
    assert!(
        outcome.is_ok(),
        "with allow_explicit_defaults BLE should succeed via captured evidence, got {outcome:?}"
    );
    assert_eq!(
        outcome.unwrap().dpi.unwrap().desired,
        dpi(profile(1), 400),
        "the authorized default image is the baseline"
    );
}

#[test]
fn refresh_captures_every_profile_reconciles_drift_and_restores_metadata() {
    let original = metadata(2, 3);
    let mut mouse = Mouse::usb()
        .with_metadata(original)
        .with_rate(PollingRate::Hz1000);
    for target in 1..=5 {
        mouse = mouse.with_profile(snapshot(target));
    }
    let mut bench = Bench::wired(mouse);
    let matching = snapshot(1).dpi;
    bench.seed(profile(1), |state| {
        state.dpi.desired = Some(DesiredState {
            value: matching,
            source: DesiredSource::UserWrite,
            verification: Verification {
                application: ApplicationVerification::ReadbackVerified,
                persistence: PersistenceVerification::PowerCycleVerified {
                    verified_at: Timestamp { unix_seconds: 1 },
                },
            },
            updated_at: Timestamp { unix_seconds: 1 },
        });
        state.dpi.observed = Some(ObservedState {
            value: matching,
            source: ObservationSource::UsbReadback,
            observed_at: Timestamp { unix_seconds: 1 },
        });
        state.preferences.desired = Some(wanted(PreferencesState::new(
            profile(1),
            0xfe,
            2,
            3,
            [4, 5, 6],
            7,
            8,
        )));
    });

    let outcome = bench.refresh().expect("refresh must succeed");

    assert_eq!(outcome.original_metadata, original);
    assert_eq!(outcome.restored_metadata, original);
    assert!(outcome.temporarily_expanded);
    assert_eq!(outcome.profiles.len(), 5);
    assert_eq!(
        outcome.drift.get(profile(1)),
        Some(&vec![ProfileResourceKind::Preferences])
    );
    assert!(!outcome.profile_metadata_drift);

    assert_eq!(
        bench.device().profile_metadata.observed.unwrap().value,
        original
    );
    for target in 1..=5 {
        let state = bench.profile(profile(target));
        assert_eq!(
            state.dpi.observed.unwrap().value,
            outcome.profiles.get(profile(target)).unwrap().dpi
        );
        assert_eq!(
            state.polling_rate.observed.unwrap().value,
            PollingRate::Hz1000
        );
    }
    let state = bench.profile(profile(1));
    let desired = state.dpi.desired.unwrap();
    assert_eq!(desired.value, matching);
    assert_eq!(
        desired.verification.application,
        ApplicationVerification::ReadbackVerified
    );
    assert_eq!(
        desired.verification.persistence,
        PersistenceVerification::Unknown
    );
    assert_eq!(
        state.preferences.desired.unwrap().verification.application,
        ApplicationVerification::Mismatch
    );

    let writes = bench.mouse.metadata_writes();
    assert_eq!(writes.first(), Some(&metadata(2, 5)));
    assert_eq!(writes.last(), Some(&original));
}

#[test]
fn refresh_failure_restores_metadata_without_partial_state() {
    let original = metadata(2, 2);
    let mut bench = Bench::wired(
        Mouse::usb()
            .with_metadata(original)
            .with_rate(PollingRate::Hz500)
            .with_profile(snapshot(1))
            .with_profile(snapshot(2)),
    );
    let error = bench
        .refresh()
        .expect_err("missing profile three must fail");
    assert_eq!(error, missing("profile", Some(profile(3))));
    assert_eq!(bench.mouse.metadata_writes().last(), Some(&original));
    assert!(bench.device().profiles.is_empty());
}

#[test]
fn restoration_failure_is_reported_as_hardware_risk() {
    let original = metadata(2, 3);
    let mut mouse = Mouse::usb()
        .with_metadata(original)
        .with_rate(PollingRate::Hz500);
    mouse.failing_metadata = Some(original);
    for target in 1..=5 {
        mouse = mouse.with_profile(snapshot(target));
    }
    let mut bench = Bench::wired(mouse);
    match bench
        .refresh()
        .expect_err("restoration failure must fail the operation")
    {
        ManagerError::RefreshRestorationFailed { restore } => {
            assert!(restore.contains("scripted profile metadata write failure"))
        }
        other => panic!("expected RefreshRestorationFailed, got {other:?}"),
    }
    assert!(bench.device().profiles.is_empty());
}

#[test]
fn refresh_rejects_ble_without_writes() {
    let mut bench = Bench::radio();
    let error = bench
        .refresh()
        .expect_err("BLE refresh must be rejected");
    assert_eq!(
        error,
        ManagerError::UnsupportedOperation {
            operation: "refresh-all-profiles",
            transport: TransportKind::Ble,
        }
    );
    assert!(bench.mouse.writes.is_empty());
}

#[test]
fn capture_all_profiles_is_pure_and_restores_metadata() {
    let original = metadata(2, 3);
    let mut mouse = Mouse::usb()
        .with_metadata(original)
        .with_rate(PollingRate::Hz1000);
    for target in 1..=5 {
        mouse = mouse.with_profile(snapshot(target));
    }
    let first = capture_all_profiles(mouse.transport);
    let capture =
        drive(&mut mouse, first, |capture, reply| capture.resume(reply)).expect("capture");

    assert_eq!(capture.original_metadata, original);
    assert_eq!(capture.restored_metadata, original);
    assert!(capture.temporarily_expanded);
    assert_eq!(capture.profiles.len(), 5);

    let writes = mouse.metadata_writes();
    assert_eq!(writes.first(), Some(&metadata(2, 5)));
    assert_eq!(writes.last(), Some(&original));
}

fn button_bench() -> Bench {
    let mut start = snapshot(1);
    start.buttons = numbered_buttons(profile(1));
    Bench::wired(Mouse::usb().with_profile(start))
}

/// Only the named slot differs from the numbered table.
fn assert_only_slot(table: ButtonsState, index: usize, action: SafeButtonAction) {
    let source = numbered_buttons(profile(1));
    for slot in 0..18 {
        if slot == index {
            assert_eq!(table.slots[slot], action.to_assignment());
        } else {
            assert_eq!(table.slots[slot], source.slots[slot]);
        }
    }
}

#[test]
fn slot_update_preserves_all_other_slots() {
    let mut bench = button_bench();
    bench
        .update_button_slot(
            profile(1),
            SafeButtonSlot::Backward,
            SafeButtonAction::ProfileCycle,
            UpdatePolicy::default(),
        )
        .expect("slot update");
    assert_only_slot(
        bench.profile(profile(1)).buttons.desired.unwrap().value,
        7,
        SafeButtonAction::ProfileCycle,
    );
}

#[test]
fn usb_transport_slot_write_is_acknowledged_without_observed() {
    let mut bench = button_bench();
    let outcome = bench
        .update_button_slot(
            profile(1),
            SafeButtonSlot::Backward,
            SafeButtonAction::ProfileCycle,
            UpdatePolicy::default(),
        )
        .expect("slot update");
    assert!(outcome.observed.is_none());
    assert_eq!(
        outcome.verification.application,
        ApplicationVerification::Acknowledged
    );
    let resource = bench.profile(profile(1)).buttons;
    assert!(resource.observed.is_none());
    assert_eq!(
        resource.desired.unwrap().verification.application,
        ApplicationVerification::Acknowledged
    );
}

#[test]
fn usb_readback_slot_write_produces_observed_evidence() {
    let mut bench = button_bench();
    let outcome = bench
        .update_button_slot(
            profile(1),
            SafeButtonSlot::Backward,
            SafeButtonAction::ProfileCycle,
            readback(),
        )
        .expect("slot update");
    assert_eq!(
        outcome.verification.application,
        ApplicationVerification::ReadbackVerified
    );
    assert_only_slot(
        outcome.observed.expect("readback must produce observed"),
        7,
        SafeButtonAction::ProfileCycle,
    );
    let resource = bench.profile(profile(1)).buttons;
    assert_eq!(
        resource.observed.unwrap().value.slots[7],
        SafeButtonAction::ProfileCycle.to_assignment()
    );
    assert_eq!(
        resource.desired.unwrap().verification.application,
        ApplicationVerification::ReadbackVerified
    );
}

#[test]
fn ble_readback_slot_write_is_unsupported() {
    let mut bench = Bench::radio();
    let error = bench
        .update_button_slot(
            profile(1),
            SafeButtonSlot::Left,
            SafeButtonAction::Disable,
            UpdatePolicy {
                allow_explicit_defaults: true,
                verification: VerificationMethod::Readback,
                baseline: BaselineSource::Live,
            },
        )
        .expect_err("BLE readback must fail");
    assert!(matches!(error, ManagerError::UnsupportedOperation { .. }));
}

#[test]
fn ble_slot_update_requires_a_baseline() {
    let mut bench = Bench::radio();
    let error = bench
        .update_button_slot(
            profile(1),
            SafeButtonSlot::Left,
            SafeButtonAction::Disable,
            UpdatePolicy::default(),
        )
        .expect_err("missing baseline must fail");
    assert!(matches!(
        error,
        ManagerError::MissingBaseline {
            resource: "buttons",
            ..
        }
    ));
}

#[test]
fn wired_stored_baseline_slot_update_skips_live_read() {
    let mut bench = Bench::wired(Mouse::usb());
    bench.seed(profile(1), |state| {
        record_ack(
            &mut state.buttons,
            numbered_buttons(profile(1)),
            Timestamp { unix_seconds: 0 },
        )
    });
    let outcome = bench
        .update_button_slot(
            profile(1),
            SafeButtonSlot::Backward,
            SafeButtonAction::ProfileCycle,
            stored(),
        )
        .expect("stored-baseline slot update must succeed without a live read");
    assert_only_slot(outcome.desired, 7, SafeButtonAction::ProfileCycle);
}

#[test]
fn wired_stored_baseline_without_stored_image_fails() {
    let mut bench = Bench::wired(Mouse::usb());
    let error = bench
        .update_button_slot(
            profile(1),
            SafeButtonSlot::Left,
            SafeButtonAction::Disable,
            stored(),
        )
        .expect_err("stored policy without a stored baseline must fail");
    assert!(matches!(
        error,
        ManagerError::MissingBaseline {
            resource: "buttons",
            ..
        }
    ));
}

#[test]
fn ack_preserves_historical_observed_and_resets_persistence() {
    let mut bench = button_bench();
    let first = bench
        .update_button_slot(
            profile(1),
            SafeButtonSlot::Backward,
            SafeButtonAction::ProfileCycle,
            readback(),
        )
        .expect("first write");
    let seen = first.observed.expect("readback");
    let second = bench
        .update_button_slot(
            profile(1),
            SafeButtonSlot::Forward,
            SafeButtonAction::Disable,
            UpdatePolicy::default(),
        )
        .expect("second write ack");
    assert!(second.observed.is_none());
    assert_eq!(
        second.verification.application,
        ApplicationVerification::Acknowledged
    );
    let mut resource = bench.profile(profile(1)).buttons;
    let desired = resource.desired.unwrap();
    assert_eq!(resource.observed.unwrap().value, seen);
    assert_eq!(
        desired.verification.application,
        ApplicationVerification::Acknowledged
    );
    assert!(desired.verification.persistence.is_unknown());
    assert!(
        resource.observed.unwrap().observed_at.unix_seconds <= desired.updated_at.unix_seconds
    );
    bench.manager.state.validate().expect("validate");
    assert!(!resource.try_mark_profile_reload_verified(Timestamp { unix_seconds: 9999 }));
}

#[test]
fn read_mismatch_marks_mismatch_and_resets_persistence() {
    let mut bench = button_bench();
    bench
        .update_button_slot(
            profile(1),
            SafeButtonSlot::Backward,
            SafeButtonAction::ProfileCycle,
            readback(),
        )
        .expect("seed");
    let mut different = numbered_buttons(profile(1));
    different.slots[0] = SafeButtonAction::Disable.to_assignment();
    bench.mouse.profiles.get_mut(&1).unwrap().buttons = different;

    let seen = bench.read_buttons(profile(1)).expect("read");
    assert_eq!(seen.resource.observed.unwrap().value, different);
    let desired = seen.resource.desired.unwrap();
    assert_eq!(
        desired.verification.application,
        ApplicationVerification::Mismatch
    );
    assert!(desired.verification.persistence.is_unknown());
    bench.manager.state.validate().unwrap();
}

#[test]
fn button_slot_live_baseline_uses_one_session() {
    let mut bench = button_bench();
    bench
        .update_button_slot(
            profile(1),
            SafeButtonSlot::Backward,
            SafeButtonAction::ProfileCycle,
            UpdatePolicy::default(),
        )
        .unwrap();
    assert_eq!(
        bench.opens, 1,
        "live button slot update must open exactly one session"
    );
}

#[test]
fn button_slot_stored_baseline_uses_one_session() {
    let mut bench = Bench::wired(Mouse::usb());
    bench.seed(profile(1), |state| {
        record_ack(
            &mut state.buttons,
            numbered_buttons(profile(1)),
            Timestamp { unix_seconds: 0 },
        )
    });
    let outcome = bench
        .update_button_slot(
            profile(1),
            SafeButtonSlot::Backward,
            SafeButtonAction::ProfileCycle,
            stored(),
        )
        .unwrap();
    assert_eq!(
        outcome.desired.slots[7],
        SafeButtonAction::ProfileCycle.to_assignment()
    );
    assert_eq!(
        bench.opens, 1,
        "stored button slot update must open exactly one session"
    );
}

#[test]
fn usb_write_persists_readback_observed_state() {
    let mut bench = Bench::wired(Mouse::usb());
    let desired = dpi(profile(1), 800);
    let outcome = bench
        .update_dpi(profile(1), desired, UpdatePolicy::default())
        .unwrap();
    assert_eq!(outcome.desired, desired);
    assert_eq!(outcome.observed, Some(desired));
    assert_eq!(
        outcome.verification.application,
        ApplicationVerification::ReadbackVerified
    );
    let resource = bench.profile(profile(1)).dpi;
    assert_eq!(resource.observed.unwrap().value, desired);
    assert_eq!(
        resource.observed.unwrap().source,
        ObservationSource::UsbReadback
    );
}

#[test]
fn ble_ack_has_no_observed_value() {
    let mut bench = Bench::radio();
    let desired = dpi(profile(1), 800);
    let outcome = bench
        .update_dpi(profile(1), desired, authorized())
        .unwrap();
    assert_eq!(outcome.desired, desired);
    assert!(outcome.observed.is_none());
    assert_eq!(
        outcome.verification.application,
        ApplicationVerification::Acknowledged
    );
    let resource = bench.profile(profile(1)).dpi;
    assert!(resource.observed.is_none());
    assert_eq!(resource.desired.unwrap().value, desired);
}

#[test]
fn ble_update_requires_profile_baseline_without_explicit_defaults() {
    let mut bench = Bench::radio();
    let error = bench
        .update_dpi(profile(1), dpi(profile(1), 800), UpdatePolicy::default())
        .unwrap_err();
    assert_eq!(error, missing("DPI", Some(profile(1))));
}

#[test]
fn usb_preferences_readback_write_records_observed_evidence() {
    let mut bench = Bench::wired(Mouse::usb());
    let desired = PreferencesState::new(profile(1), 1, 2, 3, [4, 5, 6], 7, 8);
    let outcome = bench
        .update_preferences(profile(1), desired, readback())
        .unwrap();
    assert_eq!(outcome.observed, Some(desired));
    assert_eq!(
        outcome.verification.application,
        ApplicationVerification::ReadbackVerified
    );
    assert_eq!(
        bench
            .profile(profile(1))
            .preferences
            .observed
            .unwrap()
            .source,
        ObservationSource::UsbReadback
    );
}

#[test]
fn usb_preferences_transport_write_records_acknowledged() {
    let mut bench = Bench::wired(Mouse::usb());
    let desired = PreferencesState::new(profile(1), 1, 2, 3, [4, 5, 6], 7, 8);
    let outcome = bench
        .update_preferences(profile(1), desired, UpdatePolicy::default())
        .unwrap();
    assert_eq!(outcome.observed, None);
    assert_eq!(
        outcome.verification.application,
        ApplicationVerification::Acknowledged
    );
    let resource = bench.profile(profile(1)).preferences;
    assert_eq!(resource.desired.unwrap().value, desired);
    assert!(
        resource.observed.is_none(),
        "transport acceptance must not fabricate readback evidence"
    );
}

fn wanted_preferences(bench: &Bench) -> PreferencesState {
    bench.profile(profile(1)).preferences.desired.unwrap().value
}

#[test]
fn usb_preferences_delta_preserves_unmodified_fields() {
    let mut start = snapshot(1);
    start.preferences = PreferencesState::new(profile(1), 2, 1, 0, [0xff, 0, 0], 5, 4);
    let mut bench = Bench::wired(Mouse::usb().with_profile(start));
    bench
        .update_preferences_delta(
            profile(1),
            PreferencesDelta {
                host_color: Some([1, 2, 3]),
                ..Default::default()
            },
            UpdatePolicy::default(),
        )
        .unwrap();
    assert_eq!(
        wanted_preferences(&bench),
        PreferencesState::new(profile(1), 2, 1, 0, [1, 2, 3], 5, 4)
    );
}

#[test]
fn ble_preferences_delta_prefers_stored_desired_over_observed() {
    let mut bench = Bench::radio();
    bench.seed(profile(1), |state| {
        state.preferences.desired = Some(wanted(PreferencesState::new(
            profile(1),
            2,
            1,
            0,
            [0xff, 0, 0],
            5,
            4,
        )));
        state.preferences.observed = Some(ObservedState {
            value: PreferencesState::new(profile(1), 7, 8, 9, [1, 2, 3], 10, 11),
            source: ObservationSource::UsbReadback,
            observed_at: Timestamp { unix_seconds: 0 },
        });
    });
    bench
        .update_preferences_delta(
            profile(1),
            PreferencesDelta {
                debounce: Some(9),
                ..Default::default()
            },
            UpdatePolicy::default(),
        )
        .unwrap();
    assert_eq!(
        wanted_preferences(&bench),
        PreferencesState::new(profile(1), 2, 1, 0, [0xff, 0, 0], 5, 9)
    );
}

#[test]
fn ble_preferences_delta_requires_baseline_or_explicit_authorization() {
    let mut bench = Bench::radio();
    let delta = PreferencesDelta {
        light_mode: Some(7),
        ..Default::default()
    };
    let error = bench
        .update_preferences_delta(profile(1), delta, UpdatePolicy::default())
        .unwrap_err();
    assert_eq!(error, missing("preferences", Some(profile(1))));

    bench
        .update_preferences_delta(profile(1), delta, authorized())
        .unwrap();
    assert_eq!(
        wanted_preferences(&bench),
        PreferencesState::new(profile(1), 7, 1, 0, [0xff, 0, 0], 5, 0)
    );
}

#[test]
fn usb_preferences_delta_stored_baseline_skips_live_read() {
    let mut bench = Bench::wired(Mouse::usb());
    bench.seed(profile(1), |state| {
        state.preferences.desired = Some(wanted(PreferencesState::new(
            profile(1),
            2,
            1,
            0,
            [0xff, 0, 0],
            5,
            4,
        )));
    });
    bench
        .update_preferences_delta(
            profile(1),
            PreferencesDelta {
                host_color: Some([1, 2, 3]),
                ..Default::default()
            },
            stored(),
        )
        .unwrap();
    assert_eq!(
        wanted_preferences(&bench),
        PreferencesState::new(profile(1), 2, 1, 0, [1, 2, 3], 5, 4)
    );
}

#[test]
fn usb_preferences_delta_stored_baseline_requires_stored_baseline() {
    let mut bench = Bench::wired(Mouse::usb());
    let error = bench
        .update_preferences_delta(
            profile(1),
            PreferencesDelta {
                light_mode: Some(7),
                ..Default::default()
            },
            stored(),
        )
        .unwrap_err();
    assert_eq!(error, missing("preferences", Some(profile(1))));
}

#[test]
fn preferences_delta_rejects_empty_update() {
    let mut bench = Bench::radio();
    let error = bench
        .update_preferences_delta(
            profile(1),
            PreferencesDelta::default(),
            UpdatePolicy::default(),
        )
        .unwrap_err();
    assert!(matches!(error, ManagerError::InvalidUpdate(_)));
}

#[test]
fn safe_ble_polling_write_requires_explicit_authorization() {
    let mut bench = Bench::radio();
    let error = bench
        .update_polling_rate(profile(1), PollingRate::Hz500, UpdatePolicy::default())
        .unwrap_err();
    assert_eq!(
        error,
        ManagerError::ExplicitAuthorizationRequired {
            operation: "update_polling_rate",
            transport: TransportKind::Ble,
        }
    );
    assert!(
        bench.mouse.writes.is_empty(),
        "safe BLE refusal must not emit a polling write"
    );
    assert!(bench.device().profiles.is_empty());
}

#[test]
fn dangerous_ble_polling_write_rejects_readback() {
    let mut bench = Bench::radio();
    let error = bench
        .update_polling_rate_unverified_ble(profile(1), PollingRate::Hz500, readback())
        .unwrap_err();
    assert_eq!(
        error,
        ManagerError::UnsupportedOperation {
            operation: "update_polling_rate_unverified_ble",
            transport: TransportKind::Ble,
        }
    );
    assert!(
        bench.mouse.writes.is_empty(),
        "readback rejection must not emit a polling write"
    );
    assert!(bench.device().profiles.is_empty());
}

#[test]
fn dangerous_ble_polling_write_rejects_non_ble_transport() {
    let mut bench = Bench::wired(Mouse::usb());
    let error = bench
        .update_polling_rate_unverified_ble(
            profile(1),
            PollingRate::Hz500,
            UpdatePolicy::default(),
        )
        .unwrap_err();
    assert_eq!(
        error,
        ManagerError::UnsupportedOperation {
            operation: "update_polling_rate_unverified_ble",
            transport: TransportKind::Wired,
        }
    );
    assert!(
        bench.mouse.writes.is_empty(),
        "non-BLE rejection must not emit a polling write"
    );
}

#[test]
fn dangerous_ble_polling_write_logs_one_write_and_records_ack_only() {
    let mut bench = Bench::radio();
    let outcome = bench
        .update_polling_rate_unverified_ble(
            profile(1),
            PollingRate::Hz500,
            UpdatePolicy::default(),
        )
        .unwrap();
    assert_eq!(outcome.desired, PollingRate::Hz500);
    assert_eq!(outcome.observed, None);
    assert_eq!(
        outcome.verification.application,
        ApplicationVerification::Acknowledged
    );
    assert_eq!(
        outcome.verification.persistence,
        PersistenceVerification::Unknown
    );
    assert_eq!(
        bench.mouse.writes,
        vec![Written::PollingRate(profile(1), PollingRate::Hz500)],
        "the dangerous BLE write must submit exactly one polling report"
    );
    let rate = bench.profile(profile(1)).polling_rate;
    assert_eq!(rate.desired.unwrap().value, PollingRate::Hz500);
    assert_eq!(rate.desired.unwrap().source, DesiredSource::UserWrite);
    assert!(
        rate.observed.is_none(),
        "dangerous BLE ACK evidence must not fabricate a readback value"
    );
}

#[test]
fn safe_usb_polling_write_requires_complete_desired_image() {
    let mut bench = Bench::wired(Mouse::usb().with_rate(PollingRate::Hz1000));
    let error = bench
        .update_polling_rate(profile(2), PollingRate::Hz500, UpdatePolicy::default())
        .unwrap_err();
    assert_eq!(error, missing("DPI", Some(profile(2))));
    assert!(
        bench.mouse.writes.is_empty(),
        "missing baseline must fail before any polling write"
    );
    assert!(bench.device().profiles.is_empty());
}

#[test]
fn safe_usb_polling_write_fails_before_write_when_snapshot_mismatches() {
    let mut deviant = matching_snapshot(profile(2));
    deviant.dpi = dpi(profile(2), 1600);
    let mut bench = Bench::wired(
        Mouse::usb()
            .with_profile(deviant)
            .with_rate(PollingRate::Hz1000),
    );
    bench.seed_complete(profile(2), metadata(2, 2));
    let error = bench
        .update_polling_rate(profile(2), PollingRate::Hz500, UpdatePolicy::default())
        .unwrap_err();
    assert_eq!(error, missing("DPI", Some(profile(2))));
    assert!(
        bench.mouse.writes.is_empty(),
        "image mismatch must fail before any polling write"
    );
}

#[test]
fn safe_usb_polling_write_requires_metadata_naming_target_as_current() {
    let mut bench = Bench::wired(Mouse::usb().with_rate(PollingRate::Hz1000));
    bench.seed_complete(profile(2), metadata(3, 3));
    let error = bench
        .update_polling_rate(profile(2), PollingRate::Hz500, UpdatePolicy::default())
        .unwrap_err();
    assert_eq!(error, missing("profile metadata", None));
    assert!(
        bench.mouse.writes.is_empty(),
        "metadata mismatch must fail before any polling write"
    );
}

#[test]
fn safe_usb_polling_write_noop_when_rate_already_equal() {
    let mut bench = Bench::wired(
        Mouse::usb()
            .with_profile(matching_snapshot(profile(2)))
            .with_rate(PollingRate::Hz500),
    );
    bench.seed_complete(profile(2), metadata(2, 2));
    let outcome = bench
        .update_polling_rate(profile(2), PollingRate::Hz500, UpdatePolicy::default())
        .unwrap();
    assert_eq!(outcome.desired, PollingRate::Hz500);
    assert_eq!(outcome.observed, Some(PollingRate::Hz500));
    assert_eq!(
        outcome.verification.application,
        ApplicationVerification::ReadbackVerified
    );
    assert!(
        bench.mouse.writes.is_empty(),
        "an equal live rate must not schedule a redundant polling write"
    );
    let rate = bench.profile(profile(2)).polling_rate;
    assert_eq!(rate.observed.unwrap().value, PollingRate::Hz500);
    assert_eq!(
        rate.observed.unwrap().source,
        ObservationSource::UsbReadback
    );
}

#[test]
fn safe_usb_polling_transport_write_succeeds_with_complete_desired_image() {
    let mut bench = Bench::wired(
        Mouse::usb()
            .with_profile(matching_snapshot(profile(2)))
            .with_rate(PollingRate::Hz1000),
    );
    bench.seed_complete(profile(2), metadata(2, 2));
    let outcome = bench
        .update_polling_rate(profile(2), PollingRate::Hz500, UpdatePolicy::default())
        .unwrap();
    assert_eq!(outcome.desired, PollingRate::Hz500);
    assert_eq!(outcome.observed, None);
    assert_eq!(
        outcome.verification.application,
        ApplicationVerification::Acknowledged
    );
    assert_eq!(
        outcome.verification.persistence,
        PersistenceVerification::Unknown
    );
    assert_eq!(
        bench.mouse.writes,
        vec![Written::PollingRate(profile(2), PollingRate::Hz500)],
        "a changed rate must submit exactly one polling report"
    );
}

#[test]
fn safe_usb_polling_readback_write_records_observed_evidence() {
    let mut bench = Bench::wired(
        Mouse::usb()
            .with_profile(matching_snapshot(profile(2)))
            .with_rate(PollingRate::Hz1000),
    );
    bench.seed_complete(profile(2), metadata(2, 2));
    let outcome = bench
        .update_polling_rate(profile(2), PollingRate::Hz500, readback())
        .unwrap();
    assert_eq!(outcome.desired, PollingRate::Hz500);
    assert_eq!(outcome.observed, Some(PollingRate::Hz500));
    assert_eq!(
        outcome.verification.application,
        ApplicationVerification::ReadbackVerified
    );
    assert_eq!(
        outcome.verification.persistence,
        PersistenceVerification::Unknown
    );
    assert_eq!(
        bench.mouse.writes,
        vec![Written::PollingRate(profile(2), PollingRate::Hz500)],
        "a changed rate must submit exactly one polling report"
    );
    let rate = bench.profile(profile(2)).polling_rate;
    assert_eq!(rate.desired.unwrap().value, PollingRate::Hz500);
    assert_eq!(rate.observed.unwrap().value, PollingRate::Hz500);
    assert_eq!(
        rate.observed.unwrap().source,
        ObservationSource::UsbReadback
    );
}

#[test]
fn read_polling_rate_loads_target_and_stores_under_target_not_live_alias() {
    let mut bench = Bench::wired(
        Mouse::usb()
            .with_profile(matching_snapshot(profile(2)))
            .with_rate_for(1, PollingRate::Hz125)
            .with_rate_for(2, PollingRate::Hz1000)
            .with_live(1),
    );
    let seen = bench.read_polling_rate(profile(2)).unwrap();
    assert_eq!(seen.resource.observed.unwrap().value, PollingRate::Hz1000);
    assert_eq!(bench.mouse.last_alias, Some(profile(2)));
    assert_eq!(
        bench
            .profile(profile(2))
            .polling_rate
            .observed
            .unwrap()
            .value,
        PollingRate::Hz1000
    );
    assert!(
        bench.device().profiles.get(profile(1)).is_none(),
        "standalone live rate must not contaminate other profile"
    );
}

#[test]
fn read_polling_rate_standalone_live_mismatch_cannot_contaminate() {
    let mut other = matching_snapshot(profile(2));
    other.target_profile = profile(1);
    other.persistent_metadata = metadata(1, 1);
    let mut bench = Bench::wired(
        Mouse::usb()
            .with_profile(other)
            .with_profile(matching_snapshot(profile(2)))
            .with_rate_for(1, PollingRate::Hz500)
            .with_rate_for(2, PollingRate::Hz1000)
            .with_live(1),
    );
    let seen = bench.read_polling_rate(profile(2)).unwrap();
    assert_eq!(seen.resource.observed.unwrap().value, PollingRate::Hz1000);
    assert_eq!(
        bench
            .profile(profile(2))
            .polling_rate
            .observed
            .unwrap()
            .value,
        PollingRate::Hz1000
    );
    assert!(bench.device().profiles.get(profile(1)).is_none());
}

#[test]
fn read_polling_rate_ble_is_unsupported() {
    let mut bench = Bench::radio();
    let error = bench
        .read_polling_rate(profile(1))
        .expect_err("BLE must be unsupported");
    assert_eq!(
        error,
        ManagerError::UnsupportedOperation {
            operation: "read_live_polling_rate",
            transport: TransportKind::Ble,
        }
    );
}

#[test]
fn a_marked_mouse_keeps_its_watermark_through_updates() {
    let token = PhysicalId::from_token_bytes([7; 16]);
    let mut bench = Bench::wired(Mouse::usb().with_profile(snapshot(1)));
    bench.mark(token);
    let outcome = bench
        .update_dpi(profile(1), dpi(profile(1), 1600), UpdatePolicy::default())
        .unwrap();
    assert_eq!(outcome.desired.preserved_tail[..16], [7; 16]);
    assert_eq!(outcome.observed, Some(outcome.desired));
    assert_eq!(
        bench.profile(profile(1)).dpi.desired.unwrap().value,
        outcome.desired,
        "what is on record is the image that was sent"
    );

    let update = ProfileUpdate {
        dpi: Some(DpiDelta {
            active_stage: Some(StageIndex { value: 1 }),
            ..Default::default()
        }),
        ..Default::default()
    };
    let outcome = bench
        .apply(profile(1), update, UpdatePolicy::default())
        .unwrap();
    let sent = outcome.dpi.unwrap().desired;
    assert_eq!(sent.preserved_tail[..16], [7; 16]);
}

#[test]
fn a_reply_about_another_image_does_not_fit() {
    let token = PhysicalId::from_token_bytes([7; 16]);
    let sent = dpi(profile(1), 800);
    let mut stamped = sent;
    stamped.preserved_tail[0] = 7;
    let reply = |desired| SessionReply::DpiWritten {
        desired,
        write: SessionWrite::Acknowledged,
        watermark: WatermarkDecode::Absent,
    };
    let request = |stamp| SessionRequest::WriteDpi {
        state: sent,
        stamp,
        verification: VerificationMethod::Transport,
    };
    assert!(reply(sent).answers(&request(None)));
    assert!(!reply(stamped).answers(&request(None)));
    assert!(reply(stamped).answers(&request(Some(token))));
    assert!(!reply(dpi(profile(1), 1600)).answers(&request(Some(token))));
    assert!(!reply(dpi(profile(2), 800)).answers(&request(Some(token))));
}

#[test]
fn an_unknown_mouse_gets_no_image() {
    let mut bench = Bench::wired(Mouse::usb());
    bench.id = DeviceId::new("mouse-9").unwrap();
    assert_eq!(
        bench.update_dpi(profile(1), dpi(profile(1), 800), UpdatePolicy::default()),
        Err(ManagerError::DeviceNotFound(bench.id.clone()))
    );
    let update = ProfileUpdate {
        polling_rate: Some(PollingRate::Hz500),
        ..Default::default()
    };
    assert_eq!(
        bench.apply(profile(1), update, UpdatePolicy::default()),
        Err(ManagerError::DeviceNotFound(bench.id.clone()))
    );
    assert!(bench.mouse.writes.is_empty());
}

#[test]
fn defaults_may_stand_in_for_a_stored_image_over_usb() {
    let policy = UpdatePolicy {
        allow_explicit_defaults: true,
        ..stored()
    };
    for endpoint in [wired(r"\\?\hid#bench"), receiver(r"\\?\hid#bench")] {
        let mouse = Mouse::on(endpoint.transport);
        let mut bench = Bench::new(endpoint, mouse);
        let outcome = bench
            .update_button_slot(
                profile(1),
                SafeButtonSlot::Left,
                SafeButtonAction::Disable,
                policy,
            )
            .expect("the default table is authorized");
        assert_only_slot(outcome.desired, 0, SafeButtonAction::Disable);

        let outcome = bench
            .update_preferences_delta(
                profile(1),
                PreferencesDelta {
                    light_mode: Some(7),
                    ..Default::default()
                },
                policy,
            )
            .expect("the captured image is authorized");
        let mut expected = captured_evidence_preferences(profile(1));
        expected.light_mode = 7;
        assert_eq!(outcome.desired, expected);
    }
}

#[test]
fn an_image_of_another_profile_is_refused_before_open() {
    let mut bench = Bench::wired(Mouse::usb());
    assert!(matches!(
        bench.update_dpi(profile(1), dpi(profile(2), 800), UpdatePolicy::default()),
        Err(ManagerError::InvalidUpdate(_))
    ));
    assert!(matches!(
        bench.update_preferences(profile(1), plain_preferences(profile(2)), readback()),
        Err(ManagerError::InvalidUpdate(_))
    ));
    assert_eq!(bench.opens, 0);
}

#[test]
fn the_last_write_is_the_next_baseline() {
    let mut bench = Bench::radio();
    let first = PreferencesState::new(profile(1), 1, 2, 3, [4, 5, 6], 7, 8);
    bench
        .update_preferences(profile(1), first, authorized())
        .unwrap();
    bench
        .update_preferences_delta(
            profile(1),
            PreferencesDelta {
                sleep_timer: Some(1),
                ..Default::default()
            },
            UpdatePolicy::default(),
        )
        .unwrap();
    assert_eq!(
        wanted_preferences(&bench),
        PreferencesState::new(profile(1), 1, 2, 3, [4, 5, 6], 1, 8)
    );
}

#[test]
fn activating_a_profile_keeps_the_profiles_enabled() {
    let mut bench = Bench::wired(Mouse::usb().with_metadata(metadata(1, 3)));
    assert_eq!(bench.activate_profile(profile(2)).unwrap(), metadata(2, 3));
    assert_eq!(bench.activate_profile(profile(5)).unwrap(), metadata(5, 5));
    assert_eq!(bench.mouse.metadata, Some(metadata(5, 5)));
}

#[test]
fn both_failures_of_a_refresh_are_reported() {
    let original = metadata(2, 3);
    let mut mouse = Mouse::usb()
        .with_metadata(original)
        .with_rate(PollingRate::Hz500)
        .with_profile(snapshot(2));
    mouse.failing_metadata = Some(original);
    let mut bench = Bench::wired(mouse);
    assert!(matches!(
        bench.refresh(),
        Err(ManagerError::RefreshRestoreFailed { .. })
    ));
}
