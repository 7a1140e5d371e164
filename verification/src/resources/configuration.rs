//! Portable configuration: values and names without evidence or identity.

use vstd::prelude::*;

use crate::device::{logical_key, logical_number, DeviceId, DeviceIdentity};
use crate::error::{profile_number, profile_text, viewed, ManagerError, ManagerErrorView};
use crate::manager::{not_found, DeviceManager};
use crate::protocol::{ButtonsState, DpiState, PollingRate, PreferencesState, ProfileId};
use crate::resources::evidence::{
    buttons_of, dpi_of, nothing_changes, preferences_of, rate_of,
};
use crate::resources::state::{
    all_sound, exported, imported, law_known_values_are_exported, normalize_profile_name,
    normalized_name, reports_first_defect, set_imported, value_for_export,
};
use crate::slots::ProfileMap;
use crate::state::{clone_names, DeviceState, ProfileState, ResourceState, Timestamp};
use crate::text::{nonblank, text_of};

verus! {

/// A profile's portable values.
#[derive(Clone, Copy, Debug, PartialEq, Eq)]
pub struct ProfileConfiguration {
    pub dpi: Option<DpiState>,
    pub preferences: Option<PreferencesState>,
    pub buttons: Option<ButtonsState>,
    pub polling_rate: Option<PollingRate>,
}

impl Default for ProfileConfiguration {
    fn default() -> (r: Self)
        ensures
            r.holds_nothing(),
    {
        ProfileConfiguration { dpi: None, preferences: None, buttons: None, polling_rate: None }
    }
}

impl ProfileConfiguration {
    pub open spec fn holds_nothing(self) -> bool {
        self.dpi is None && self.preferences is None && self.buttons is None
            && self.polling_rate is None
    }
}

/// Portable manager configuration: per-profile values and slot names. It holds
/// no evidence and no identity, so it can be imported for another device.
#[derive(Debug, PartialEq, Eq)]
pub struct ConfigurationExport {
    pub profiles: ProfileMap<ProfileConfiguration>,
    pub profile_names: ProfileMap<String>,
}

impl Default for ConfigurationExport {
    fn default() -> (r: Self)
        ensures
            r.profiles == ProfileMap::<ProfileConfiguration>::empty(),
            r.profile_names == ProfileMap::<String>::empty(),
    {
        ConfigurationExport { profiles: ProfileMap::new(), profile_names: ProfileMap::new() }
    }
}

/// What is exported of a profile slot; nothing when there is no value.
pub open spec fn exported_slot(slot: Option<ProfileState>) -> Option<ProfileConfiguration> {
    match slot {
        None => None,
        Some(state) => {
            let values = ProfileConfiguration {
                dpi: exported(state.dpi),
                preferences: exported(state.preferences),
                buttons: exported(state.buttons),
                polling_rate: exported(state.polling_rate),
            };
            if values.holds_nothing() {
                None
            } else {
                Some(values)
            }
        },
    }
}

pub open spec fn exported_profiles(profiles: ProfileMap<ProfileState>) -> ProfileMap<
    ProfileConfiguration,
> {
    ProfileMap {
        one: exported_slot(profiles.one),
        two: exported_slot(profiles.two),
        three: exported_slot(profiles.three),
        four: exported_slot(profiles.four),
        five: exported_slot(profiles.five),
    }
}

fn export_slot(slot: &Option<ProfileState>) -> (r: Option<ProfileConfiguration>)
    ensures
        r == exported_slot(*slot),
{
    match slot {
        None => None,
        Some(state) => {
            let values = ProfileConfiguration {
                dpi: value_for_export(&state.dpi),
                preferences: value_for_export(&state.preferences),
                buttons: value_for_export(&state.buttons),
                polling_rate: value_for_export(&state.polling_rate),
            };
            if values.dpi.is_some() || values.preferences.is_some() || values.buttons.is_some()
                || values.polling_rate.is_some() {
                Some(values)
            } else {
                None
            }
        },
    }
}

/// The values of a slot target another profile.
pub open spec fn slot_refusal(profile: ProfileId, slot: Option<ProfileConfiguration>) -> Option<
    ManagerErrorView,
> {
    match slot {
        None => None,
        Some(values) => if values.dpi is Some && values.dpi->0.profile != profile {
            Some(wrong_profile("DPI"@, profile))
        } else if values.preferences is Some && values.preferences->0.profile != profile {
            Some(wrong_profile("preferences"@, profile))
        } else if values.buttons is Some && values.buttons->0.profile != profile {
            Some(wrong_profile("buttons"@, profile))
        } else {
            None
        },
    }
}

pub open spec fn wrong_profile(resource: Seq<char>, profile: ProfileId) -> ManagerErrorView {
    ManagerErrorView::InvalidUpdate(
        resource + " configuration targets a different profile than "@ + profile_number(profile),
    )
}

pub open spec fn name_refusal(slot: Option<String>) -> Option<ManagerErrorView> {
    match slot {
        None => None,
        Some(name) => match normalized_name(name@) {
            Ok(_) => None,
            Err(error) => Some(error),
        },
    }
}

/// The first of two refusals.
pub open spec fn first_refusal(
    a: Option<ManagerErrorView>,
    b: Option<ManagerErrorView>,
) -> Option<ManagerErrorView> {
    if a is Some {
        a
    } else {
        b
    }
}

/// Why a document cannot be imported, if it cannot: the first slot whose
/// values target another profile, else the first name that is too long.
pub open spec fn configuration_refusal(configuration: ConfigurationExport) -> Option<
    ManagerErrorView,
> {
    let p = configuration.profiles;
    let n = configuration.profile_names;
    first_refusal(
        slot_refusal(ProfileId::One, p.one),
        first_refusal(
            slot_refusal(ProfileId::Two, p.two),
            first_refusal(
                slot_refusal(ProfileId::Three, p.three),
                first_refusal(
                    slot_refusal(ProfileId::Four, p.four),
                    first_refusal(
                        slot_refusal(ProfileId::Five, p.five),
                        first_refusal(
                            name_refusal(n.one),
                            first_refusal(
                                name_refusal(n.two),
                                first_refusal(
                                    name_refusal(n.three),
                                    first_refusal(name_refusal(n.four), name_refusal(n.five)),
                                ),
                            ),
                        ),
                    ),
                ),
            ),
        ),
    )
}

fn invalid_profile_value(resource: &str, profile: ProfileId) -> (r: ManagerError)
    ensures
        r@ == wrong_profile(resource@, profile),
{
    let mut text = resource.to_owned();
    text.append(" configuration targets a different profile than ");
    let number = profile_text(profile);
    text.append(number.as_str());
    ManagerError::InvalidUpdate(text)
}

pub open spec fn refusal_of(r: Result<(), ManagerError>) -> Option<ManagerErrorView> {
    match r {
        Ok(_) => None,
        Err(error) => Some(error@),
    }
}

fn check_slot(profile: ProfileId, slot: &Option<ProfileConfiguration>) -> (r: Result<
    (),
    ManagerError,
>)
    ensures
        refusal_of(r) == slot_refusal(profile, *slot),
{
    if let Some(values) = slot {
        if let Some(dpi) = &values.dpi {
            if dpi.profile != profile {
                return Err(invalid_profile_value("DPI", profile));
            }
        }
        if let Some(preferences) = &values.preferences {
            if preferences.profile != profile {
                return Err(invalid_profile_value("preferences", profile));
            }
        }
        if let Some(buttons) = &values.buttons {
            if buttons.profile != profile {
                return Err(invalid_profile_value("buttons", profile));
            }
        }
    }
    Ok(())
}

fn check_name(slot: &Option<String>) -> (r: Result<(), ManagerError>)
    ensures
        refusal_of(r) == name_refusal(*slot),
{
    match slot {
        None => Ok(()),
        Some(name) => match normalize_profile_name(name.as_str()) {
            Ok(_) => Ok(()),
            Err(error) => Err(error),
        },
    }
}

/// Checks a document before it is imported.
pub fn validate_configuration(configuration: &ConfigurationExport) -> (r: Result<(), ManagerError>)
    ensures
        refusal_of(r) == configuration_refusal(*configuration),
{
    check_slot(ProfileId::One, &configuration.profiles.one)?;
    check_slot(ProfileId::Two, &configuration.profiles.two)?;
    check_slot(ProfileId::Three, &configuration.profiles.three)?;
    check_slot(ProfileId::Four, &configuration.profiles.four)?;
    check_slot(ProfileId::Five, &configuration.profiles.five)?;
    check_name(&configuration.profile_names.one)?;
    check_name(&configuration.profile_names.two)?;
    check_name(&configuration.profile_names.three)?;
    check_name(&configuration.profile_names.four)?;
    check_name(&configuration.profile_names.five)
}

pub open spec fn imported_resource<T>(
    resource: ResourceState<T>,
    value: Option<T>,
    now: Timestamp,
) -> ResourceState<T> {
    match value {
        Some(value) => imported(resource, value, now),
        None => resource,
    }
}

/// A profile slot after an import: the values of the document are wanted, the
/// rest and every observation stays.
pub open spec fn imported_slot(
    slot: Option<ProfileState>,
    values: Option<ProfileConfiguration>,
    now: Timestamp,
) -> Option<ProfileState> {
    match values {
        None => slot,
        Some(values) => {
            let state = match slot {
                Some(state) => state,
                None => ProfileState::nothing(),
            };
            Some(
                ProfileState {
                    dpi: imported_resource(state.dpi, values.dpi, now),
                    preferences: imported_resource(state.preferences, values.preferences, now),
                    buttons: imported_resource(state.buttons, values.buttons, now),
                    polling_rate: imported_resource(state.polling_rate, values.polling_rate, now),
                },
            )
        },
    }
}

pub open spec fn imported_profiles(
    profiles: ProfileMap<ProfileState>,
    values: ProfileMap<ProfileConfiguration>,
    now: Timestamp,
) -> ProfileMap<ProfileState> {
    ProfileMap {
        one: imported_slot(profiles.one, values.one, now),
        two: imported_slot(profiles.two, values.two, now),
        three: imported_slot(profiles.three, values.three, now),
        four: imported_slot(profiles.four, values.four, now),
        five: imported_slot(profiles.five, values.five, now),
    }
}

fn import_resource<T: Copy>(
    resource: ResourceState<T>,
    value: Option<T>,
    now: Timestamp,
) -> (r: ResourceState<T>)
    ensures
        r == imported_resource(resource, value, now),
{
    let mut changed = resource;
    if let Some(value) = value {
        set_imported(&mut changed, value, now);
    }
    changed
}

fn import_slot(
    slot: Option<ProfileState>,
    values: &Option<ProfileConfiguration>,
    now: Timestamp,
) -> (r: Option<ProfileState>)
    ensures
        r == imported_slot(slot, *values, now),
{
    match values {
        None => slot,
        Some(values) => {
            let state = match slot {
                Some(state) => state,
                None => ProfileState::empty(),
            };
            Some(
                ProfileState {
                    dpi: import_resource(state.dpi, values.dpi, now),
                    preferences: import_resource(state.preferences, values.preferences, now),
                    buttons: import_resource(state.buttons, values.buttons, now),
                    polling_rate: import_resource(state.polling_rate, values.polling_rate, now),
                },
            )
        },
    }
}

/// A name slot after an import: a name of the document replaces the slot's
/// name, a blank one clears it, an absent one leaves it.
pub open spec fn imported_name(
    before: Option<Seq<char>>,
    document: Option<Seq<char>>,
) -> Option<Seq<char>> {
    match document {
        None => before,
        Some(name) => nonblank(Some(name)),
    }
}

fn import_name(slot: Option<String>, document: &Option<String>) -> (r: Option<String>)
    requires
        name_refusal(*document) is None,
    ensures
        text_of(r) == imported_name(text_of(slot), text_of(*document)),
        *document is None ==> r == slot,
{
    match document {
        None => slot,
        Some(name) => match normalize_profile_name(name.as_str()) {
            Ok(text) => text,
            Err(_) => None,
        },
    }
}

/// The names after an import.
pub open spec fn names_imported(
    before: ProfileMap<String>,
    document: ProfileMap<String>,
    after: ProfileMap<String>,
) -> bool {
    forall|profile: ProfileId|
        text_of(#[trigger] after.at(profile)) == imported_name(
            text_of(before.at(profile)),
            text_of(document.at(profile)),
        )
}

/// `after` is the device after an import; `before` is what was stored under
/// its key, if anything.
pub open spec fn is_imported(
    before: Option<DeviceState>,
    identity: DeviceIdentity,
    configuration: ConfigurationExport,
    now: Timestamp,
    after: DeviceState,
) -> bool {
    let base = match before {
        Some(device) => device,
        None => DeviceState::fresh(identity),
    };
    &&& after.identity == identity
    &&& after.profile_metadata == base.profile_metadata
    &&& after.profiles == imported_profiles(base.profiles, configuration.profiles, now)
    &&& names_imported(base.profile_names, configuration.profile_names, after.profile_names)
}

/// The next number after a device was brought in.
pub open spec fn number_after(next: u64, number: u64) -> u64 {
    if next <= number {
        (number + 1) as u64
    } else {
        next
    }
}

/// What is stored under a key, if anything.
pub open spec fn stored_device(
    devices: Map<Seq<char>, DeviceState>,
    key: Seq<char>,
) -> Option<DeviceState> {
    if devices.dom().contains(key) {
        Some(devices[key])
    } else {
        None
    }
}

impl DeviceManager {
    /// Exports wanted values, falling back to observed ones where nothing is
    /// wanted.
    pub fn export_configuration(&self, device: &DeviceId) -> (r: Result<
        ConfigurationExport,
        ManagerError,
    >)
        ensures
            viewed(r) == (if self.state.devices@.dom().contains(device@) {
                Ok(
                    ConfigurationExport {
                        profiles: exported_profiles(self.state.devices@[device@].profiles),
                        profile_names: self.state.devices@[device@].profile_names,
                    },
                )
            } else {
                Err(not_found(device@))
            }),
    {
        match self.state.devices.get(device) {
            None => Err(ManagerError::DeviceNotFound(device.clone())),
            Some(state) => Ok(
                ConfigurationExport {
                    profiles: ProfileMap {
                        one: export_slot(&state.profiles.one),
                        two: export_slot(&state.profiles.two),
                        three: export_slot(&state.profiles.three),
                        four: export_slot(&state.profiles.four),
                        five: export_slot(&state.profiles.five),
                    },
                    profile_names: clone_names(&state.profile_names),
                },
            ),
        }
    }

    /// Imports portable values for a device whose identity the caller gives.
    ///
    /// Observations are kept; imported values become wanted ones that were
    /// never sent. The device's number must leave room for a next one.
    pub fn import_configuration(
        &mut self,
        identity: &DeviceIdentity,
        configuration: &ConfigurationExport,
        now: Timestamp,
    ) -> (r: Result<(), ManagerError>)
        requires
            logical_number(identity.id@) != Some(u64::MAX),
        ensures
            final(self).identity_cache == old(self).identity_cache,
            ({
                let before = old(self).state;
                let after = final(self).state;
                let key = identity.id@;
                match configuration_refusal(*configuration) {
                    Some(error) => viewed(r) == Err::<(), ManagerErrorView>(error) && after
                        == before,
                    None => exists|device: DeviceState| #[trigger]
                        is_imported(
                            stored_device(before.devices@, key),
                            *identity,
                            *configuration,
                            now,
                            device,
                        ) && {
                            let devices = before.devices@.insert(key, device);
                            if all_sound(devices) {
                                &&& r is Ok
                                &&& after.devices@ == devices
                                &&& after.next_device_number == number_after(
                                    before.next_device_number,
                                    logical_number(key)->0,
                                )
                                &&& after.selected_device == (if before.selected_device is None {
                                    Some(identity.id)
                                } else {
                                    before.selected_device
                                })
                                &&& after.identity_mode == before.identity_mode
                                &&& after.identity_setup == before.identity_setup
                            } else {
                                &&& r matches Err(error)
                                &&& reports_first_defect(devices, error@)
                                &&& after.agrees(before)
                            }
                        },
                }
            }),
    {
        match validate_configuration(configuration) {
            Ok(_) => {},
            Err(error) => {
                return Err(error);
            },
        }
        let key = identity.id.clone();
        let number: u64 = match key.number() {
            Some(number) => number,
            None => 0,
        };
        let ghost before = self.state.devices@;
        let ghost held = stored_device(before, key@);
        let base = match self.state.devices.get(&key) {
            Some(state) => state.clone(),
            None => DeviceState::new(identity.clone()),
        };
        let ghost based = base;
        let names = base.profile_names;
        let device = DeviceState {
            identity: identity.clone(),
            profile_metadata: base.profile_metadata,
            profiles: ProfileMap {
                one: import_slot(base.profiles.one, &configuration.profiles.one, now),
                two: import_slot(base.profiles.two, &configuration.profiles.two, now),
                three: import_slot(base.profiles.three, &configuration.profiles.three, now),
                four: import_slot(base.profiles.four, &configuration.profiles.four, now),
                five: import_slot(base.profiles.five, &configuration.profiles.five, now),
            },
            profile_names: ProfileMap {
                one: import_name(names.one, &configuration.profile_names.one),
                two: import_name(names.two, &configuration.profile_names.two),
                three: import_name(names.three, &configuration.profile_names.three),
                four: import_name(names.four, &configuration.profile_names.four),
                five: import_name(names.five, &configuration.profile_names.five),
            },
        };
        assert(is_imported(held, *identity, *configuration, now, device));
        let ghost fresh = device;
        let kept = self.state.devices.remove(&key);
        self.state.devices.insert(key.clone(), device);
        assert(self.state.devices@ =~= before.insert(key@, fresh));
        match self.state.validate() {
            Ok(_) => {
                if self.state.next_device_number <= number {
                    self.state.next_device_number = number + 1;
                }
                if self.state.selected_device.is_none() {
                    self.state.selected_device = Some(key);
                }
                Ok(())
            },
            Err(error) => {
                match kept {
                    Some(device) => {
                        self.state.devices.insert(key, device);
                    },
                    None => {
                        self.state.devices.remove(&key);
                    },
                }
                assert(self.state.devices@ =~= before);
                Err(ManagerError::State(error))
            },
        }
    }
}

/// The values of a document, without slots that hold nothing.
pub open spec fn filled_slot(slot: Option<ProfileConfiguration>) -> Option<ProfileConfiguration> {
    match slot {
        Some(values) if !values.holds_nothing() => Some(values),
        _ => None,
    }
}

proof fn lemma_slot_round_trip(values: Option<ProfileConfiguration>, now: Timestamp)
    ensures
        exported_slot(imported_slot(None, values, now)) == filled_slot(values),
{
    if let Some(v) = values {
        let state = imported_slot(None, values, now)->0;
        assert(exported(state.dpi) == v.dpi);
        assert(exported(state.preferences) == v.preferences);
        assert(exported(state.buttons) == v.buttons);
        assert(exported(state.polling_rate) == v.polling_rate);
    }
}

/// What was imported for a new device is exported again: the same values in
/// every slot that holds any, and the trimmed names.
pub proof fn law_import_export_round_trip(
    identity: DeviceIdentity,
    configuration: ConfigurationExport,
    now: Timestamp,
    device: DeviceState,
    profile: ProfileId,
)
    requires
        is_imported(None, identity, configuration, now, device),
    ensures
        exported_profiles(device.profiles).at(profile) == filled_slot(
            configuration.profiles.at(profile),
        ),
        text_of(device.profile_names.at(profile)) == nonblank(
            text_of(configuration.profile_names.at(profile)),
        ),
{
    lemma_slot_round_trip(configuration.profiles.at(profile), now);
    assert(device.profiles.at(profile) == imported_slot(
        None,
        configuration.profiles.at(profile),
        now,
    ));
    assert(exported_profiles(device.profiles).at(profile) == exported_slot(
        device.profiles.at(profile),
    ));
    assert(text_of(device.profile_names.at(profile)) == imported_name(
        None,
        text_of(configuration.profile_names.at(profile)),
    ));
}

/// An import over a stored device exports each value of the document where it
/// gives one and the old value elsewhere, and no observation is lost.
pub proof fn law_import_overlays_values(
    slot: Option<ProfileState>,
    values: ProfileConfiguration,
    now: Timestamp,
)
    ensures
        ({
            let before = match slot {
                Some(state) => state,
                None => ProfileState::nothing(),
            };
            let after = imported_slot(slot, Some(values), now)->0;
            &&& exported(after.dpi) == (if values.dpi is Some {
                values.dpi
            } else {
                exported(before.dpi)
            })
            &&& exported(after.preferences) == (if values.preferences is Some {
                values.preferences
            } else {
                exported(before.preferences)
            })
            &&& exported(after.buttons) == (if values.buttons is Some {
                values.buttons
            } else {
                exported(before.buttons)
            })
            &&& exported(after.polling_rate) == (if values.polling_rate is Some {
                values.polling_rate
            } else {
                exported(before.polling_rate)
            })
            &&& after.dpi.observed == before.dpi.observed
            &&& after.preferences.observed == before.preferences.observed
            &&& after.buttons.observed == before.buttons.observed
            &&& after.polling_rate.observed == before.polling_rate.observed
        }),
{
}

/// A slot is exported exactly when some value of it is known, and then with
/// each known value: the wanted one, else the observed one.
pub proof fn law_export_holds_every_known_value(
    profiles: ProfileMap<ProfileState>,
    profile: ProfileId,
)
    ensures
        profiles.at(profile) is None ==> exported_profiles(profiles).at(profile) is None,
        profiles.at(profile) matches Some(slot) ==> {
            let document = exported_profiles(profiles).at(profile);
            &&& document is None <==> {
                &&& slot.dpi.desired is None && slot.dpi.observed is None
                &&& slot.preferences.desired is None && slot.preferences.observed is None
                &&& slot.buttons.desired is None && slot.buttons.observed is None
                &&& slot.polling_rate.desired is None && slot.polling_rate.observed is None
            }
            &&& document matches Some(values) ==> {
                &&& is_known_value(slot.dpi, values.dpi)
                &&& is_known_value(slot.preferences, values.preferences)
                &&& is_known_value(slot.buttons, values.buttons)
                &&& is_known_value(slot.polling_rate, values.polling_rate)
            }
        },
{
    if let Some(slot) = profiles.at(profile) {
        law_known_values_are_exported(slot.dpi, arbitrary(), arbitrary());
        law_known_values_are_exported(slot.preferences, arbitrary(), arbitrary());
        law_known_values_are_exported(slot.buttons, arbitrary(), arbitrary());
        law_known_values_are_exported(slot.polling_rate, arbitrary(), arbitrary());
    }
}

/// The value is what is known of a resource: what is wanted, or what was
/// observed where nothing is wanted, or nothing.
pub open spec fn is_known_value<T>(resource: ResourceState<T>, value: Option<T>) -> bool {
    &&& resource.desired matches Some(wanted) ==> value == Some(wanted.value)
    &&& resource.desired is None && resource.observed is Some ==> value == Some(
        resource.observed->0.value,
    )
    &&& resource.desired is None && resource.observed is None ==> value is None
}

/// A resource after an import: a value of the document is wanted and was never
/// sent; without one everything stays. An observation always stays.
pub open spec fn takes_over<T>(
    before: ResourceState<T>,
    value: Option<T>,
    now: Timestamp,
    after: ResourceState<T>,
) -> bool {
    &&& after.observed == before.observed
    &&& value is None ==> after.desired == before.desired
    &&& value matches Some(v) ==> {
        &&& after.desired matches Some(wanted)
        &&& wanted.value == v
        &&& wanted.source is Imported
        &&& wanted.updated_at == now
        &&& wanted.verification.application is NotSent
        &&& wanted.verification.persistence is Unknown
    }
}

/// An import takes over each value of the document into its own profile and
/// resource, and leaves the identity that the caller gave, the metadata and
/// every slot that the document does not name.
pub proof fn law_import_reaches_every_slot(
    before: Option<DeviceState>,
    identity: DeviceIdentity,
    configuration: ConfigurationExport,
    now: Timestamp,
    after: DeviceState,
    profile: ProfileId,
)
    requires
        is_imported(before, identity, configuration, now, after),
    ensures
        after.identity == identity,
        before matches Some(device) ==> after.profile_metadata == device.profile_metadata,
        before is None ==> after.profile_metadata.desired is None
            && after.profile_metadata.observed is None,
        configuration.profiles.at(profile) is None ==> after.profiles.at(profile) == (
        match before {
            Some(device) => device.profiles.at(profile),
            None => None,
        }),
        configuration.profiles.at(profile) matches Some(values) ==> {
            let held = match before {
                Some(device) => crate::state::profile_or_empty(device.profiles, profile),
                None => ProfileState::nothing(),
            };
            &&& after.profiles.at(profile) matches Some(slot)
            &&& takes_over(held.dpi, values.dpi, now, slot.dpi)
            &&& takes_over(held.preferences, values.preferences, now, slot.preferences)
            &&& takes_over(held.buttons, values.buttons, now, slot.buttons)
            &&& takes_over(held.polling_rate, values.polling_rate, now, slot.polling_rate)
        },
{
}

/// An import takes over each name of the document: a blank one clears the slot,
/// another one is stored trimmed, and a slot without one keeps its name.
pub proof fn law_import_takes_over_names(
    before: Option<DeviceState>,
    identity: DeviceIdentity,
    configuration: ConfigurationExport,
    now: Timestamp,
    after: DeviceState,
    profile: ProfileId,
)
    requires
        is_imported(before, identity, configuration, now, after),
    ensures
        configuration.profile_names.at(profile) is None ==> text_of(after.profile_names.at(profile))
            == (match before {
            Some(device) => text_of(device.profile_names.at(profile)),
            None => None,
        }),
        configuration.profile_names.at(profile) matches Some(name) ==> {
            &&& after.profile_names.at(profile) is None <==> forall|i: int|
                0 <= i < name@.len() ==> crate::text::is_white_space(#[trigger] name@[i])
            &&& after.profile_names.at(profile) matches Some(text) ==> text@
                == crate::text::trimmed(name@)
        },
{
    let base = match before {
        Some(device) => device,
        None => DeviceState::fresh(identity),
    };
    assert(text_of(after.profile_names.at(profile)) == imported_name(
        text_of(base.profile_names.at(profile)),
        text_of(configuration.profile_names.at(profile)),
    ));
    if let Some(name) = configuration.profile_names.at(profile) {
        crate::text::law_blank_names_are_none(name@);
    }
}

/// The values of a document target the profile under which they stand.
pub open spec fn targets_its_profile(
    profiles: ProfileMap<ProfileConfiguration>,
    profile: ProfileId,
) -> bool {
    profiles.at(profile) matches Some(values) ==> {
        &&& values.dpi matches Some(dpi) ==> dpi.profile == profile
        &&& values.preferences matches Some(preferences) ==> preferences.profile == profile
        &&& values.buttons matches Some(buttons) ==> buttons.profile == profile
    }
}

/// The name, where there is one, is not too long.
pub open spec fn name_fits(names: ProfileMap<String>, profile: ProfileId) -> bool {
    names.at(profile) matches Some(name) ==> crate::text::trimmed(name@).len() <= 64
}

/// A document is refused exactly when some value stands under a profile that it
/// does not target or some name is too long.
pub proof fn law_documents_are_checked_whole(configuration: ConfigurationExport)
    ensures
        configuration_refusal(configuration) is None <==> forall|profile: ProfileId|
            #[trigger] targets_its_profile(configuration.profiles, profile) && name_fits(
                configuration.profile_names,
                profile,
            ),
        configuration_refusal(configuration) matches Some(error) ==> error is InvalidUpdate,
{
    let p = configuration.profiles;
    let n = configuration.profile_names;
    assert forall|profile: ProfileId| #[trigger]
        targets_its_profile(p, profile) <==> slot_refusal(profile, p.at(profile)) is None by {}
    assert forall|profile: ProfileId| #[trigger]
        name_fits(n, profile) <==> name_refusal(n.at(profile)) is None by {
        if let Some(name) = n.at(profile) {
            crate::resources::state::law_names_are_trimmed_and_bounded(name@);
        }
    }
    assert(targets_its_profile(p, ProfileId::One) && name_fits(n, ProfileId::One)
        <==> slot_refusal(ProfileId::One, p.one) is None && name_refusal(n.one) is None);
    assert(targets_its_profile(p, ProfileId::Two) && name_fits(n, ProfileId::Two)
        <==> slot_refusal(ProfileId::Two, p.two) is None && name_refusal(n.two) is None);
    assert(targets_its_profile(p, ProfileId::Three) && name_fits(n, ProfileId::Three)
        <==> slot_refusal(ProfileId::Three, p.three) is None && name_refusal(n.three) is None);
    assert(targets_its_profile(p, ProfileId::Four) && name_fits(n, ProfileId::Four)
        <==> slot_refusal(ProfileId::Four, p.four) is None && name_refusal(n.four) is None);
    assert(targets_its_profile(p, ProfileId::Five) && name_fits(n, ProfileId::Five)
        <==> slot_refusal(ProfileId::Five, p.five) is None && name_refusal(n.five) is None);
}

/// Bringing a device in leaves the next number larger than the device's and
/// never takes a number back.
pub proof fn law_numbers_move_past_imports(next: u64, number: u64)
    requires
        number < u64::MAX,
    ensures
        number_after(next, number) > number,
        number_after(next, number) >= next,
        next > number ==> number_after(next, number) == next,
        next <= number ==> number_after(next, number) == number + 1,
{
}

/// An export of a stored mouse holds, for every profile, each value that is
/// wanted, or observed where nothing is wanted, and every profile name.
pub proof fn law_exports_are_complete(
    manager: &DeviceManager,
    device: &DeviceId,
    profile: ProfileId,
    r: Result<ConfigurationExport, ManagerError>,
)
    requires
        call_ensures(DeviceManager::export_configuration, (manager, device), r),
    ensures
        r is Ok <==> manager.state.devices@.dom().contains(device@),
        r is Err ==> viewed(r) == Err::<ConfigurationExport, ManagerErrorView>(
            ManagerErrorView::DeviceNotFound(device@),
        ),
        r matches Ok(document) ==> {
            let mouse = manager.state.devices@[device@];
            let values = match document.profiles.at(profile) {
                Some(values) => values,
                None => ProfileConfiguration {
                    dpi: None,
                    preferences: None,
                    buttons: None,
                    polling_rate: None,
                },
            };
            &&& is_known_value(dpi_of(mouse, profile), values.dpi)
            &&& is_known_value(preferences_of(mouse, profile), values.preferences)
            &&& is_known_value(buttons_of(mouse, profile), values.buttons)
            &&& is_known_value(rate_of(mouse, profile), values.polling_rate)
            &&& document.profile_names.at(profile) == mouse.profile_names.at(profile)
        },
{
    law_export_holds_every_known_value(manager.state.devices@[device@].profiles, profile);
}

/// An import that succeeds stores the mouse under the identity that was given,
/// with each value of the document wanted and never sent, and with every
/// observation as it was. The first mouse becomes the selected one, and no
/// other mouse changes; an import that fails changes nothing.
pub proof fn law_imports_take_over_the_document(
    manager: &mut DeviceManager,
    identity: &DeviceIdentity,
    configuration: &ConfigurationExport,
    now: Timestamp,
    profile: ProfileId,
    other: Seq<char>,
    number: u64,
    r: Result<(), ManagerError>,
)
    requires
        call_ensures(
            DeviceManager::import_configuration,
            (manager, identity, configuration, now),
            r,
        ),
        identity.id@ == logical_key(number as nat),
        0 < number < u64::MAX,
    ensures
        r is Err ==> nothing_changes(old(manager).state, final(manager).state),
        !targets_its_profile(configuration.profiles, profile) || !name_fits(
            configuration.profile_names,
            profile,
        ) ==> r is Err,
        r is Ok ==> ({
            let before = old(manager).state;
            let after = final(manager).state;
            let key = identity.id@;
            let held = if before.devices@.dom().contains(key) {
                before.devices@[key]
            } else {
                DeviceState {
                    identity: *identity,
                    profile_metadata: ResourceState { desired: None, observed: None },
                    profiles: ProfileMap {
                        one: None,
                        two: None,
                        three: None,
                        four: None,
                        five: None,
                    },
                    profile_names: ProfileMap {
                        one: None,
                        two: None,
                        three: None,
                        four: None,
                        five: None,
                    },
                }
            };
            let has = after.devices@[key];
            &&& after.devices@.dom().contains(key)
            &&& other != key ==> after.devices@.dom().contains(other)
                == before.devices@.dom().contains(other) && after.devices@[other]
                == before.devices@[other]
            &&& has.identity == *identity
            &&& has.profile_metadata == held.profile_metadata
            &&& configuration.profiles.at(profile) is None ==> has.profiles.at(profile)
                == held.profiles.at(profile)
            &&& configuration.profiles.at(profile) matches Some(values) ==> {
                &&& takes_over(dpi_of(held, profile), values.dpi, now, dpi_of(has, profile))
                &&& takes_over(
                    preferences_of(held, profile),
                    values.preferences,
                    now,
                    preferences_of(has, profile),
                )
                &&& takes_over(
                    buttons_of(held, profile),
                    values.buttons,
                    now,
                    buttons_of(has, profile),
                )
                &&& takes_over(
                    rate_of(held, profile),
                    values.polling_rate,
                    now,
                    rate_of(has, profile),
                )
            }
            &&& before.selected_device is Some ==> after.selected_device == before.selected_device
            &&& before.selected_device is None ==> after.selected_device == Some(identity.id)
            &&& after.identity_mode == before.identity_mode
            &&& after.identity_setup == before.identity_setup
            &&& after.next_device_number > number
            &&& after.next_device_number == before.next_device_number || after.next_device_number
                == number + 1
            &&& after.next_device_number >= before.next_device_number
        }),
{
    let before = old(manager).state;
    let after = final(manager).state;
    let key = identity.id@;
    crate::device::lemma_logical_number(key, number);
    law_documents_are_checked_whole(*configuration);
    if configuration_refusal(*configuration) is None {
        let device = choose|device: DeviceState| #[trigger]
            is_imported(
                stored_device(before.devices@, key),
                *identity,
                *configuration,
                now,
                device,
            ) && {
                let devices = before.devices@.insert(key, device);
                if all_sound(devices) {
                    &&& r is Ok
                    &&& after.devices@ == devices
                    &&& after.next_device_number == number_after(
                        before.next_device_number,
                        logical_number(key)->0,
                    )
                    &&& after.selected_device == (if before.selected_device is None {
                        Some(identity.id)
                    } else {
                        before.selected_device
                    })
                    &&& after.identity_mode == before.identity_mode
                    &&& after.identity_setup == before.identity_setup
                } else {
                    &&& r is Err
                    &&& after.agrees(before)
                }
            };
        law_import_reaches_every_slot(
            stored_device(before.devices@, key),
            *identity,
            *configuration,
            now,
            device,
            profile,
        );
    }
}

} // verus!
