use attack_shark_x3_manager::device::{DeviceEndpoint, DeviceId, DeviceIdentity};
use attack_shark_x3_manager::error::ManagerError;
use attack_shark_x3_manager::exact::SameValue;
use attack_shark_x3_manager::manager::DeviceManager;
use attack_shark_x3_manager::protocol::{
    ButtonAssignment, ButtonsState, DpiState, DpiValue, LiftOffDistance, PollingRate,
    PreferencesState, ProfileId, ProfileMetadata, ProtocolError, SensorOptions, StageIndex,
    TransportKind,
};
use attack_shark_x3_manager::resources::buttons::{
    apply_slot_deltas, ButtonSlotDelta, SafeButtonAction, SafeButtonSlot,
};
use attack_shark_x3_manager::resources::configuration::{
    ConfigurationExport, ProfileConfiguration,
};
use attack_shark_x3_manager::resources::dpi::{merge_dpi_delta, DpiDelta, SensorOptionsDelta};
use attack_shark_x3_manager::resources::settings::{
    captured_evidence_preferences, merge_preferences_delta, PreferencesDelta,
};
use attack_shark_x3_manager::resources::state::{
    reconcile_observed, record_ack, record_readback, try_mark_power_cycle, try_mark_profile_reload,
};
use attack_shark_x3_manager::slots::ProfileMap;
use attack_shark_x3_manager::state::{
    ApplicationVerification, DesiredSource, DesiredState, ObservationSource, ObservedState,
    PersistenceVerification, ProfileState, ResourceState, StateFile, Timestamp, Verification,
    MAX_PROFILE_NAME_CHARS,
};

fn identity() -> DeviceIdentity {
    let mut identity =
        DeviceIdentity::new(DeviceId::new("mouse-1").expect("id"), Some("Test".to_owned()));
    identity.upsert_endpoint(
        DeviceEndpoint::usb(
            TransportKind::Wired,
            0x1d57,
            0xfa61,
            Some("TEST001"),
            r"\\?\hid#test",
            Some("Test"),
        )
        .expect("valid endpoint"),
    );
    identity
}

fn manager() -> DeviceManager {
    DeviceManager::new(StateFile::new()).expect("manager")
}

fn sensor() -> SensorOptions {
    SensorOptions {
        lift_off_distance: LiftOffDistance::OneMillimeter,
        ripple_control: false,
        angle_snap: false,
        motion_sync: false,
    }
}

fn dpi_with(profile: ProfileId, value: u16) -> DpiState {
    DpiState::new(
        profile,
        vec![DpiValue { value }],
        StageIndex { value: 1 },
        sensor(),
        [0; 25],
    )
    .expect("state")
}

fn dpi(profile: ProfileId) -> DpiState {
    dpi_with(profile, 800)
}

fn buttons(profile: ProfileId) -> ButtonsState {
    let mut slots = [ButtonAssignment::default(); 18];
    slots[17] = ButtonAssignment::new(0x10, 0x20, 0x30);
    ButtonsState::new(profile, slots)
}

fn profile(value: u8) -> ProfileId {
    ProfileId::new(value).expect("profile")
}

fn ts(seconds: i64) -> Timestamp {
    Timestamp {
        unix_seconds: seconds,
    }
}

fn one<T>(profile: ProfileId, value: T) -> ProfileMap<T> {
    let mut map = ProfileMap::new();
    map.insert(profile, value);
    map
}

fn complete(profile: ProfileId) -> ProfileConfiguration {
    ProfileConfiguration {
        dpi: Some(dpi(profile)),
        preferences: Some(PreferencesState::new(profile, 1, 2, 3, [4, 5, 6], 7, 8)),
        buttons: Some(buttons(profile)),
        polling_rate: Some(PollingRate::Hz1000),
    }
}

fn name_of(names: &ProfileMap<String>, profile: ProfileId) -> Option<&str> {
    names.get(profile).map(|name| name.as_str())
}

#[test]
fn import_export_is_portable_and_excludes_machine_identity() {
    let mut manager = manager();
    let identity = identity();
    let profile = profile(1);
    let configuration = ConfigurationExport {
        profiles: one(profile, complete(profile)),
        profile_names: ProfileMap::new(),
    };

    manager
        .import_configuration(&identity, &configuration, ts(5))
        .expect("import");
    let exported = manager.export_configuration(&identity.id).expect("export");
    assert_eq!(exported, configuration);
    let text = format!("{exported:?}");
    assert!(!text.contains(identity.id.as_str()));
    assert!(!text.contains("hid#test"));
    assert!(!text.contains("imported"));
    assert!(!text.contains("notSent"));
    assert!(!text.contains("updatedAt"));

    let device = manager.state.devices.get(&identity.id).expect("device");
    let desired = device
        .profiles
        .get(profile)
        .expect("profile")
        .buttons
        .desired
        .expect("imported desired");
    assert_eq!(desired.source, DesiredSource::Imported);
    assert_eq!(desired.verification, Verification::not_sent());
}

fn proven<T: Copy>(value: T, persistence: PersistenceVerification, at: Timestamp) -> ResourceState<T> {
    ResourceState {
        desired: Some(DesiredState {
            value,
            source: DesiredSource::UserWrite,
            verification: Verification {
                application: ApplicationVerification::ReadbackVerified,
                persistence,
            },
            updated_at: at,
        }),
        observed: Some(ObservedState {
            value,
            source: ObservationSource::UsbReadback,
            observed_at: at,
        }),
    }
}

#[test]
fn invalidation_preserves_values_and_clears_persistence_evidence() {
    let mut manager = manager();
    let identity = identity();
    manager.register_device(identity.clone()).expect("register");
    let profile = profile(1);
    let dpi = dpi(profile);
    let preferences = PreferencesState::new(profile, 1, 2, 3, [4, 5, 6], 7, 8);
    let buttons = buttons(profile);
    let timestamp = ts(10);
    let persistent = PersistenceVerification::PowerCycleVerified {
        verified_at: timestamp,
    };
    let mut device = manager.state.devices.remove(&identity.id).expect("device");
    device.profile_metadata = proven(
        ProfileMetadata::new(profile, profile).expect("metadata"),
        persistent,
        timestamp,
    );
    device.profiles.insert(
        profile,
        ProfileState {
            dpi: proven(dpi, persistent, timestamp),
            preferences: proven(preferences, persistent, timestamp),
            buttons: proven(buttons, persistent, timestamp),
            polling_rate: proven(PollingRate::Hz1000, persistent, timestamp),
        },
    );
    manager.state.devices.insert(identity.id.clone(), device);
    manager.invalidate_state(&identity.id).expect("invalidate");
    let device = manager.state.devices.get(&identity.id).expect("device");
    let profile_state = device.profiles.get(profile).expect("profile");
    let rate = profile_state.polling_rate.desired.expect("rate");
    assert_eq!(rate.value, PollingRate::Hz1000);
    assert!(rate.verification.persistence.is_unknown());
    let metadata = device.profile_metadata.desired.expect("metadata");
    assert_eq!(metadata.value.current(), profile);
    assert!(metadata.verification.persistence.is_unknown());
    let wanted = profile_state.dpi.desired.expect("dpi");
    assert_eq!(wanted.value, dpi);
    assert!(wanted.verification.persistence.is_unknown());
    assert_eq!(
        profile_state.buttons.observed.expect("observed").value,
        buttons
    );
    assert!(
        profile_state
            .buttons
            .desired
            .expect("buttons")
            .verification
            .persistence
            .is_unknown()
    );
}

#[test]
fn profile_names_support_all_slots_and_normalize_on_set() {
    let mut manager = manager();
    let identity = identity();
    manager.register_device(identity.clone()).expect("register");
    let first = profile(1);
    assert!(
        manager
            .profile_names(&identity.id)
            .expect("names")
            .is_empty()
    );

    for slot in 1..=5u8 {
        manager
            .set_profile_name(&identity.id, profile(slot), &format!("  Profile {slot}  "))
            .expect("set");
    }
    let names = manager.profile_names(&identity.id).expect("names");
    assert_eq!(names.len(), 5);
    assert_eq!(name_of(&names, first), Some("Profile 1"));

    // Blank input removes the name.
    manager
        .set_profile_name(&identity.id, first, "   ")
        .expect("set blank");
    let names = manager.profile_names(&identity.id).expect("names");
    assert_eq!(names.len(), 4);
    assert!(!names.contains_key(first));

    manager
        .set_profile_name(&identity.id, first, "Office")
        .expect("set");
    manager
        .remove_profile_name(&identity.id, first)
        .expect("remove");
    let names = manager.profile_names(&identity.id).expect("names");
    assert_eq!(names.len(), 4);
    assert!(!names.contains_key(first));

    for slot in 2..=5u8 {
        manager
            .remove_profile_name(&identity.id, profile(slot))
            .expect("remove");
    }
    assert!(
        manager
            .profile_names(&identity.id)
            .expect("names")
            .is_empty()
    );

    match manager.set_profile_name(&DeviceId::new("mouse-2").expect("id"), first, "X") {
        Err(ManagerError::DeviceNotFound(_)) => {}
        other => panic!("expected DeviceNotFound, got {other:?}"),
    }
    match manager.profile_names(&DeviceId::new("mouse-2").expect("id")) {
        Err(ManagerError::DeviceNotFound(_)) => {}
        other => panic!("expected DeviceNotFound, got {other:?}"),
    }
}

#[test]
fn profile_name_limit_is_enforced_in_unicode_scalar_values() {
    let mut manager = manager();
    let identity = identity();
    manager.register_device(identity.clone()).expect("register");
    let profile = profile(1);

    // 64 ASCII scalars are accepted; 65 are rejected.
    let max = "x".repeat(MAX_PROFILE_NAME_CHARS);
    manager
        .set_profile_name(&identity.id, profile, &max)
        .expect("max length accepted");
    match manager.set_profile_name(
        &identity.id,
        profile,
        &"x".repeat(MAX_PROFILE_NAME_CHARS + 1),
    ) {
        Err(ManagerError::InvalidUpdate(_)) => {}
        other => panic!("expected InvalidUpdate, got {other:?}"),
    }
    let names = manager.profile_names(&identity.id).expect("names");
    assert_eq!(name_of(&names, profile), Some(max.as_str()));

    // 64 multi-byte emoji (256 UTF-8 bytes) still count as 64 scalar
    // values, so they are accepted.
    let emoji = "😀".repeat(MAX_PROFILE_NAME_CHARS);
    manager
        .set_profile_name(&identity.id, profile, &emoji)
        .expect("emoji at scalar limit accepted");
    let names = manager.profile_names(&identity.id).expect("names");
    assert_eq!(name_of(&names, profile), Some(emoji.as_str()));
}

#[test]
fn profile_names_survive_state_invalidation() {
    let mut manager = manager();
    let identity = identity();
    manager.register_device(identity.clone()).expect("register");
    let profile = profile(1);
    manager
        .set_profile_name(&identity.id, profile, "Gaming")
        .expect("set");

    manager.invalidate_state(&identity.id).expect("invalidate");

    let names = manager.profile_names(&identity.id).expect("names");
    assert_eq!(name_of(&names, profile), Some("Gaming"));
}

#[test]
fn import_export_round_trips_profile_names() {
    let mut manager = manager();
    let identity = identity();
    let first = profile(1);
    let mut profile_names = one(first, "Gaming".to_owned());
    profile_names.insert(profile(2), "Office".to_owned());
    let configuration = ConfigurationExport {
        profiles: one(first, complete(first)),
        profile_names,
    };

    manager
        .import_configuration(&identity, &configuration, ts(5))
        .expect("import");
    let exported = manager.export_configuration(&identity.id).expect("export");
    assert_eq!(exported, configuration);

    // A name-only entry round-trips even when its profile carries no
    // hardware configuration values.
    let named_profile = profile(3);
    let names_only = ConfigurationExport {
        profiles: ProfileMap::new(),
        profile_names: one(named_profile, "Stream".to_owned()),
    };
    manager
        .import_configuration(&identity, &names_only, ts(6))
        .expect("import names");
    let exported = manager.export_configuration(&identity.id).expect("export");
    assert_eq!(name_of(&exported.profile_names, named_profile), Some("Stream"));

    // Blank names in an imported document clear the slot.
    let blank = ConfigurationExport {
        profiles: ProfileMap::new(),
        profile_names: one(named_profile, "  ".to_owned()),
    };
    manager
        .import_configuration(&identity, &blank, ts(7))
        .expect("import blank");
    assert!(
        !manager
            .profile_names(&identity.id)
            .expect("names")
            .contains_key(named_profile)
    );
}

#[test]
fn import_rejects_overlong_profile_names() {
    let mut manager = manager();
    let identity = identity();
    let overlong = ConfigurationExport {
        profiles: ProfileMap::new(),
        profile_names: one(profile(1), "x".repeat(MAX_PROFILE_NAME_CHARS + 1)),
    };
    match manager.import_configuration(&identity, &overlong, ts(5)) {
        Err(ManagerError::InvalidUpdate(_)) => {}
        other => panic!("expected InvalidUpdate, got {other:?}"),
    }
}

#[test]
fn import_rejects_values_that_name_another_profile() {
    let mut manager = manager();
    let identity = identity();
    let misplaced = ConfigurationExport {
        profiles: one(profile(2), complete(profile(1))),
        profile_names: ProfileMap::new(),
    };
    match manager.import_configuration(&identity, &misplaced, ts(5)) {
        Err(ManagerError::InvalidUpdate(_)) => {}
        other => panic!("expected InvalidUpdate, got {other:?}"),
    }
    assert!(manager.state.devices.is_empty());
}

#[test]
fn old_import_documents_without_profile_names_deserialize() {
    let mut manager = manager();
    let identity = identity();
    let profile = profile(1);
    let configuration = ConfigurationExport {
        profiles: one(
            profile,
            ProfileConfiguration {
                dpi: Some(dpi(profile)),
                ..ProfileConfiguration::default()
            },
        ),
        ..ConfigurationExport::default()
    };
    assert!(configuration.profile_names.is_empty());

    manager
        .import_configuration(&identity, &configuration, ts(5))
        .expect("import");
    assert!(
        manager
            .profile_names(&identity.id)
            .expect("names")
            .is_empty()
    );
}

fn assert_ack_preserves_observed<T: SameValue + Copy + PartialEq + std::fmt::Debug>(
    mut resource: ResourceState<T>,
    observed_value: T,
    ack_value: T,
) {
    reconcile_observed(&mut resource, observed_value, ts(10));
    let historical = resource.observed.expect("observed seeded");
    assert!(resource.desired.is_none());
    record_ack(&mut resource, ack_value, ts(20));
    let desired = resource.desired.unwrap();
    assert_eq!(desired.value, ack_value);
    assert_eq!(
        desired.verification.application,
        ApplicationVerification::Acknowledged
    );
    assert!(desired.verification.persistence.is_unknown());
    assert_eq!(resource.observed, Some(historical));
    reconcile_observed(&mut resource, ack_value, ts(22));
    let desired = resource.desired.unwrap();
    assert_eq!(
        desired.verification.application,
        ApplicationVerification::ReadbackVerified
    );
    assert!(desired.verification.persistence.is_unknown());
}

fn assert_readback_and_mismatch<T: SameValue + Copy + PartialEq + std::fmt::Debug>(
    ack_value: T,
    other_value: T,
) {
    let mut matched: ResourceState<T> = ResourceState::empty();
    record_readback(&mut matched, ack_value, ack_value, ts(30));
    assert_eq!(
        matched.desired.unwrap().verification.application,
        ApplicationVerification::ReadbackVerified
    );
    assert_eq!(matched.observed.unwrap().value, ack_value);
    assert!(matched.desired.unwrap().verification.persistence.is_unknown());
    assert!(try_mark_profile_reload(&mut matched, ts(31)));
    assert!(!matched.desired.unwrap().verification.persistence.is_unknown());
    reconcile_observed(&mut matched, ack_value, ts(32));
    assert!(matched.desired.unwrap().verification.persistence.is_unknown());
    assert!(try_mark_power_cycle(&mut matched, ts(33)));
    assert_eq!(
        matched.desired.unwrap().verification.persistence,
        PersistenceVerification::PowerCycleVerified {
            verified_at: ts(33)
        }
    );
    let mut mismatched: ResourceState<T> = ResourceState::empty();
    record_readback(&mut mismatched, ack_value, other_value, ts(30));
    assert_eq!(
        mismatched.desired.unwrap().verification.application,
        ApplicationVerification::Mismatch
    );
    assert_eq!(mismatched.observed.unwrap().value, other_value);
    assert!(!try_mark_profile_reload(&mut mismatched, ts(31)));
    assert!(!try_mark_power_cycle(&mut mismatched, ts(31)));
    let mut via_reconcile: ResourceState<T> = ResourceState::empty();
    record_ack(&mut via_reconcile, ack_value, ts(40));
    reconcile_observed(&mut via_reconcile, ack_value, ts(39));
    assert_eq!(
        via_reconcile.desired.unwrap().verification.application,
        ApplicationVerification::Mismatch
    );
    reconcile_observed(&mut via_reconcile, other_value, ts(41));
    assert_eq!(
        via_reconcile.desired.unwrap().verification.application,
        ApplicationVerification::Mismatch
    );
    assert!(!try_mark_profile_reload(&mut via_reconcile, ts(42)));
    let mut empty: ResourceState<T> = ResourceState::empty();
    reconcile_observed(&mut empty, other_value, ts(50));
    assert!(empty.desired.is_none());
    assert_eq!(empty.observed.unwrap().value, other_value);
}

#[test]
fn central_reconciliation_is_consistent_across_all_four_resources() {
    let profile = profile(1);
    let dpi_a = dpi_with(profile, 800);
    let dpi_b = dpi_with(profile, 1600);
    assert_ack_preserves_observed(ResourceState::<DpiState>::empty(), dpi_a, dpi_b);
    assert_readback_and_mismatch(dpi_a, dpi_b);
    let pref_a = PreferencesState::new(profile, 1, 2, 3, [4, 5, 6], 7, 8);
    let pref_b = PreferencesState::new(profile, 9, 8, 7, [6, 5, 4], 3, 2);
    assert_ack_preserves_observed(ResourceState::<PreferencesState>::empty(), pref_a, pref_b);
    assert_readback_and_mismatch(pref_a, pref_b);
    let mut slots_a = [ButtonAssignment::default(); 18];
    slots_a[0] = ButtonAssignment::new(0x01, 0x02, 0x03);
    let btn_a = ButtonsState::new(profile, slots_a);
    let mut slots_b = [ButtonAssignment::default(); 18];
    slots_b[0] = ButtonAssignment::new(0x04, 0x05, 0x06);
    let btn_b = ButtonsState::new(profile, slots_b);
    assert_ack_preserves_observed(ResourceState::<ButtonsState>::empty(), btn_a, btn_b);
    assert_readback_and_mismatch(btn_a, btn_b);
    assert_ack_preserves_observed(
        ResourceState::<PollingRate>::empty(),
        PollingRate::Hz500,
        PollingRate::Hz1000,
    );
    assert_readback_and_mismatch(PollingRate::Hz500, PollingRate::Hz1000);
}

#[test]
fn captured_stock_actions_encode_to_their_wire_triplets() {
    let cases = [
        (SafeButtonAction::FireButton, [0x08, 0x00, 0x00]),
        (SafeButtonAction::ScrollUp, [0x09, 0x00, 0x00]),
        (SafeButtonAction::ScrollDown, [0x0a, 0x00, 0x00]),
        (SafeButtonAction::VolumeUp, [0x1b, 0x00, 0x00]),
        (SafeButtonAction::BrowserHome, [0x25, 0x00, 0x00]),
        (SafeButtonAction::BrowserFavorites, [0x11, 0x03, 0x12]),
        (SafeButtonAction::Cut, [0x11, 0x01, 0x1b]),
        (SafeButtonAction::CloseWindow, [0x11, 0x04, 0x3d]),
        (SafeButtonAction::ScreenCapture, [0x11, 0x0a, 0x16]),
    ];
    for (action, expected) in cases {
        let assignment = action.to_assignment();
        assert_eq!(
            [
                assignment.action,
                assignment.modifiers,
                assignment.key_code
            ],
            expected,
            "{action:?}"
        );
    }
}

#[test]
fn slot_updates_apply_in_order_and_leave_other_slots_alone() {
    let baseline = buttons(profile(1));
    let updated = apply_slot_deltas(
        baseline,
        &vec![
            ButtonSlotDelta::new(SafeButtonSlot::Forward, SafeButtonAction::VolumeUp),
            ButtonSlotDelta::new(SafeButtonSlot::Left, SafeButtonAction::Cut),
            ButtonSlotDelta::new(SafeButtonSlot::Forward, SafeButtonAction::ScrollUp),
        ],
    );
    assert_eq!(updated.slots[0], ButtonAssignment::new(0x11, 0x01, 0x1b));
    assert_eq!(updated.slots[6], ButtonAssignment::new(0x09, 0, 0));
    for index in [1, 2, 3, 4, 5, 7, 8, 9, 10, 11, 12, 13, 14, 15, 16, 17] {
        assert_eq!(updated.slots[index], baseline.slots[index]);
    }
}

#[test]
fn preferences_delta_changes_only_what_it_names() {
    let baseline = PreferencesState::new(profile(2), 1, 2, 3, [4, 5, 6], 7, 8);
    let merged = merge_preferences_delta(
        baseline,
        PreferencesDelta {
            sleep_timer: Some(0x20),
            ..PreferencesDelta::default()
        },
    );
    assert_eq!(
        merged,
        PreferencesState::new(profile(2), 1, 2, 3, [4, 5, 6], 0x20, 8)
    );
    assert_eq!(
        merge_preferences_delta(baseline, PreferencesDelta::default()),
        baseline
    );
    assert!(PreferencesDelta::default().is_empty());
    assert_eq!(
        captured_evidence_preferences(profile(3)),
        PreferencesState::new(profile(3), 0x02, 0x01, 0x00, [0xff, 0x00, 0x00], 5, 0x00)
    );
}

#[test]
fn dpi_delta_keeps_the_tail_and_reports_unsound_stages() {
    let mut baseline = dpi(profile(2));
    baseline.preserved_tail = [9; 25];
    let merged = merge_dpi_delta(
        baseline,
        &DpiDelta {
            stages: Some(vec![DpiValue { value: 400 }, DpiValue { value: 1200 }]),
            active_stage: Some(StageIndex { value: 2 }),
            sensor: Some(SensorOptionsDelta {
                lift_off_distance: None,
                ripple_control: Some(true),
                angle_snap: None,
                motion_sync: None,
            }),
        },
    )
    .expect("merged");
    assert_eq!(merged.profile, profile(2));
    assert_eq!(merged.stages.len(), 2);
    assert_eq!(merged.stages.get(1), Some(DpiValue { value: 1200 }));
    assert_eq!(merged.stages.get(2), None);
    assert_eq!(merged.active_stage, StageIndex { value: 2 });
    assert!(merged.sensor.ripple_control);
    assert_eq!(merged.preserved_tail, [9; 25]);

    assert_eq!(
        merge_dpi_delta(
            baseline,
            &DpiDelta {
                stages: Some(Vec::new()),
                ..DpiDelta::default()
            },
        ),
        Err(ManagerError::Protocol {
            operation: "dpi: merge delta",
            source: ProtocolError::InvalidStageCount { count: 0 },
        })
    );
    assert_eq!(
        merge_dpi_delta(
            baseline,
            &DpiDelta {
                active_stage: Some(StageIndex { value: 2 }),
                ..DpiDelta::default()
            },
        ),
        Err(ManagerError::Protocol {
            operation: "dpi: merge delta",
            source: ProtocolError::InvalidActiveStage { stage: 2, count: 1 },
        })
    );
}

#[test]
fn device_numbers_are_handed_out_once() {
    let mut state = StateFile::new();
    assert_eq!(state.allocate_device_id().unwrap().as_str(), "mouse-1");
    assert_eq!(state.allocate_device_id().unwrap().as_str(), "mouse-2");
    assert_eq!(state.next_device_number, 3);
    state.next_device_number = u64::MAX;
    assert!(state.allocate_device_id().is_err());
    assert_eq!(state.next_device_number, u64::MAX);
}

#[test]
fn validation_names_the_first_defective_device() {
    let mut manager = manager();
    manager.register_device(identity()).expect("register");
    assert!(manager.state.validate().is_ok());
    let mut device = manager
        .state
        .devices
        .remove(&DeviceId::new("mouse-1").unwrap())
        .expect("device");
    device
        .profile_names
        .insert(profile(1), " padded ".to_owned());
    manager
        .state
        .devices
        .insert(DeviceId::new("mouse-1").unwrap(), device);
    assert!(manager.state.validate().is_err());
}
