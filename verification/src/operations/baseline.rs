//! The complete images that partial updates are laid over.

use vstd::prelude::*;

use crate::device::DeviceId;
use crate::error::{viewed, ManagerError, ManagerErrorView};
use crate::manager::{not_found, DeviceManager};
use crate::operation::{BaselineSource, UpdatePolicy};
use crate::protocol::{ButtonsState, DpiState, PreferencesState, ProfileId, TransportKind};
use crate::resources::evidence::{
    buttons_of, buttons_on_record, dpi_of, dpi_on_record, preferences_of, preferences_on_record,
    starts_from,
};
use crate::resources::settings::{captured_evidence_preferences, captured_preferences};
use crate::resources::state::{exported, resource_at, written, ProfileResource};
use crate::session::SessionWrite;
use crate::state::{
    profile_entry, profile_or_empty, DesiredSource, ResourceState, StateFile, Timestamp,
};

verus! {

/// The images that a mouse is delivered with, for updates that are explicitly
/// authorized to start from them.
#[derive(Clone, Copy, Debug, PartialEq, Eq)]
pub struct DefaultImages {
    pub dpi: DpiState,
    pub buttons: ButtonsState,
}

/// The evidence on record for a resource; nothing for an unknown device.
pub open spec fn stored_resource<T: ProfileResource>(
    state: StateFile,
    device: Seq<char>,
    profile: ProfileId,
) -> ResourceState<T> {
    if state.devices@.dom().contains(device) {
        resource_at::<T>(state.devices@[device], profile)
    } else {
        ResourceState::nothing()
    }
}

pub fn find_resource<T: ProfileResource>(
    state: &StateFile,
    device: &DeviceId,
    profile: ProfileId,
) -> (r: ResourceState<T>)
    ensures
        r == stored_resource::<T>(*state, device@, profile),
{
    match state.devices.get(device) {
        Some(device_state) => T::read_slot(&profile_entry(&device_state.profiles, profile)),
        None => ResourceState::empty(),
    }
}

/// The image on record: the wanted one, then the observed one, then the
/// default where defaults are authorized. A wanted image that is itself a
/// default counts only where they are.
pub open spec fn stored_baseline<T>(
    resource: ResourceState<T>,
    allow_explicit_defaults: bool,
    default_image: T,
) -> Option<T> {
    match (resource.desired, resource.observed) {
        (Some(desired), _) if allow_explicit_defaults || !(desired.source is ExplicitDefaults) =>
            Some(desired.value),
        (_, Some(observed)) => Some(observed.value),
        _ => if allow_explicit_defaults {
            Some(default_image)
        } else {
            None
        },
    }
}

/// The error for an update without an image to start from.
pub open spec fn missing_baseline(resource: Seq<char>, profile: ProfileId) -> ManagerErrorView {
    ManagerErrorView::MissingBaseline { resource, profile: Some(profile) }
}

pub open spec fn baseline_result<T>(
    image: Option<T>,
    resource: Seq<char>,
    profile: ProfileId,
) -> Result<T, ManagerErrorView> {
    match image {
        Some(value) => Ok(value),
        None => Err(missing_baseline(resource, profile)),
    }
}

fn choose_baseline<T: Copy>(
    resource: &ResourceState<T>,
    allow_explicit_defaults: bool,
    default_image: T,
    name: &'static str,
    profile: ProfileId,
) -> (r: Result<T, ManagerError>)
    ensures
        viewed(r) == baseline_result(
            stored_baseline(*resource, allow_explicit_defaults, default_image),
            name@,
            profile,
        ),
{
    if let Some(desired) = resource.desired {
        if allow_explicit_defaults || desired.source != DesiredSource::ExplicitDefaults {
            return Ok(desired.value);
        }
    }
    if let Some(observed) = resource.observed {
        return Ok(observed.value);
    }
    if allow_explicit_defaults {
        return Ok(default_image);
    }
    Err(ManagerError::MissingBaseline { resource: name, profile: Some(profile) })
}

/// Where an update finds its image.
#[derive(Clone, Copy, Debug, PartialEq, Eq, Structural)]
pub enum BaselineChoice {
    /// It is read from the mouse, or taken from the caller who has read it.
    Live,
    /// It is taken from the record.
    Stored { allow_explicit_defaults: bool },
}

/// Over BLE nothing can be read, so the record is all there is; over USB the
/// policy decides. Either way the policy says whether defaults may stand in for
/// what is not on record.
pub open spec fn baseline_choice(transport: TransportKind, policy: UpdatePolicy) -> BaselineChoice {
    if transport.is_usb() && policy.baseline is Live {
        BaselineChoice::Live
    } else {
        BaselineChoice::Stored { allow_explicit_defaults: policy.allow_explicit_defaults }
    }
}

pub fn choose_baseline_source(transport: TransportKind, policy: UpdatePolicy) -> (r: BaselineChoice)
    ensures
        r == baseline_choice(transport, policy),
{
    match (transport, policy.baseline) {
        (TransportKind::Wired | TransportKind::Receiver, BaselineSource::Live) =>
            BaselineChoice::Live,
        _ => BaselineChoice::Stored { allow_explicit_defaults: policy.allow_explicit_defaults },
    }
}

/// The complete wanted image of a profile, without the polling rate.
#[derive(Clone, Copy, Debug, PartialEq, Eq)]
pub struct CompleteDesiredImage {
    pub dpi: DpiState,
    pub preferences: PreferencesState,
    pub buttons: ButtonsState,
}

/// The profile that the metadata on record names as current: as it was
/// observed, else as it is wanted.
pub open spec fn recorded_current(state: StateFile, device: Seq<char>) -> Option<ProfileId> {
    let metadata = state.devices@[device].profile_metadata;
    match (metadata.observed, metadata.desired) {
        (Some(observed), _) => Some(observed.value.current_profile),
        (None, Some(desired)) => Some(desired.value.current_profile),
        (None, None) => None,
    }
}

/// The complete wanted image of a profile that is on record as the current
/// one, or the first thing that is missing.
pub open spec fn complete_image(state: StateFile, device: Seq<char>, profile: ProfileId) -> Result<
    CompleteDesiredImage,
    ManagerErrorView,
> {
    let slot = profile_or_empty(state.devices@[device].profiles, profile);
    if !state.devices@.dom().contains(device) {
        Err(not_found(device))
    } else if slot.dpi.desired is None {
        Err(missing_baseline("DPI"@, profile))
    } else if slot.preferences.desired is None {
        Err(missing_baseline("preferences"@, profile))
    } else if slot.buttons.desired is None {
        Err(missing_baseline("buttons"@, profile))
    } else if recorded_current(state, device) != Some(profile) {
        Err(ManagerErrorView::MissingBaseline { resource: "profile metadata"@, profile: None })
    } else {
        Ok(
            CompleteDesiredImage {
                dpi: slot.dpi.desired->0.value,
                preferences: slot.preferences.desired->0.value,
                buttons: slot.buttons.desired->0.value,
            },
        )
    }
}

impl DeviceManager {
    /// The sensitivity image to start from, without any live read.
    pub fn load_stored_dpi_baseline(
        &self,
        device: &DeviceId,
        profile: ProfileId,
        allow_explicit_defaults: bool,
        default_image: DpiState,
    ) -> (r: Result<DpiState, ManagerError>)
        ensures
            viewed(r) == baseline_result(
                stored_baseline(
                    stored_resource::<DpiState>(self.state, device@, profile),
                    allow_explicit_defaults,
                    default_image,
                ),
                "DPI"@,
                profile,
            ),
    {
        let resource = find_resource::<DpiState>(&self.state, device, profile);
        choose_baseline(&resource, allow_explicit_defaults, default_image, "DPI", profile)
    }

    /// The preferences image to start from, without any live read.
    pub fn load_stored_preferences_baseline(
        &self,
        device: &DeviceId,
        profile: ProfileId,
        allow_explicit_defaults: bool,
    ) -> (r: Result<PreferencesState, ManagerError>)
        ensures
            viewed(r) == baseline_result(
                stored_baseline(
                    stored_resource::<PreferencesState>(self.state, device@, profile),
                    allow_explicit_defaults,
                    captured_preferences(profile),
                ),
                "preferences"@,
                profile,
            ),
    {
        let resource = find_resource::<PreferencesState>(&self.state, device, profile);
        choose_baseline(
            &resource,
            allow_explicit_defaults,
            captured_evidence_preferences(profile),
            "preferences",
            profile,
        )
    }

    /// The button table to start from, without any live read.
    pub fn load_stored_buttons_baseline(
        &self,
        device: &DeviceId,
        profile: ProfileId,
        allow_explicit_defaults: bool,
        default_image: ButtonsState,
    ) -> (r: Result<ButtonsState, ManagerError>)
        ensures
            viewed(r) == baseline_result(
                stored_baseline(
                    stored_resource::<ButtonsState>(self.state, device@, profile),
                    allow_explicit_defaults,
                    default_image,
                ),
                "buttons"@,
                profile,
            ),
    {
        let resource = find_resource::<ButtonsState>(&self.state, device, profile);
        choose_baseline(&resource, allow_explicit_defaults, default_image, "buttons", profile)
    }

    /// The complete wanted image that a polling-rate write must be matched
    /// against. Each missing part is reported by name.
    pub fn require_complete_desired_image(&self, device: &DeviceId, profile: ProfileId) -> (r:
        Result<CompleteDesiredImage, ManagerError>)
        ensures
            viewed(r) == complete_image(self.state, device@, profile),
    {
        let device_state = match self.state.devices.get(device) {
            Some(found) => found,
            None => {
                return Err(ManagerError::DeviceNotFound(device.clone()));
            },
        };
        let slot = profile_entry(&device_state.profiles, profile);
        let dpi = match slot.dpi.desired {
            Some(desired) => desired.value,
            None => {
                return Err(
                    ManagerError::MissingBaseline { resource: "DPI", profile: Some(profile) },
                );
            },
        };
        let preferences = match slot.preferences.desired {
            Some(desired) => desired.value,
            None => {
                return Err(
                    ManagerError::MissingBaseline {
                        resource: "preferences",
                        profile: Some(profile),
                    },
                );
            },
        };
        let buttons = match slot.buttons.desired {
            Some(desired) => desired.value,
            None => {
                return Err(
                    ManagerError::MissingBaseline { resource: "buttons", profile: Some(profile) },
                );
            },
        };
        let named: bool = match (
            device_state.profile_metadata.observed,
            device_state.profile_metadata.desired,
        ) {
            (Some(observed), _) => observed.value.current() == profile,
            (None, Some(desired)) => desired.value.current() == profile,
            (None, None) => false,
        };
        if !named {
            return Err(
                ManagerError::MissingBaseline { resource: "profile metadata", profile: None },
            );
        }
        Ok(CompleteDesiredImage { dpi, preferences, buttons })
    }
}

/// What was written last is what the next partial update starts from and what
/// is exported, whatever came of the write.
pub proof fn law_last_write_is_the_next_baseline<T>(
    resource: ResourceState<T>,
    desired: T,
    write: SessionWrite<T>,
    now: Timestamp,
    allow_explicit_defaults: bool,
    default_image: T,
)
    ensures
        stored_baseline(
            written(resource, desired, write, now),
            allow_explicit_defaults,
            default_image,
        ) == Some(desired),
        exported(written(resource, desired, write, now)) == Some(desired),
{
}

/// Defaults are used only where they are authorized and nothing else is known.
pub proof fn law_defaults_need_authorization<T>(
    resource: ResourceState<T>,
    allow_explicit_defaults: bool,
    default_image: T,
)
    ensures
        !allow_explicit_defaults && !resource.has_evidence() ==> stored_baseline(
            resource,
            allow_explicit_defaults,
            default_image,
        ) is None,
        resource.observed is Some || (resource.desired is Some
            && !(resource.desired->0.source is ExplicitDefaults)) ==> stored_baseline(
            resource,
            false,
            default_image,
        ) is Some,
{
}

/// Each section is laid over what is on record for that section of that
/// profile; where nothing can stand in, the missing section is an error.
pub proof fn law_stored_baselines(
    manager: &DeviceManager,
    device: &DeviceId,
    profile: ProfileId,
    allow: bool,
    images: DefaultImages,
    dpi: Result<DpiState, ManagerError>,
    preferences: Result<PreferencesState, ManagerError>,
    buttons: Result<ButtonsState, ManagerError>,
)
    requires
        call_ensures(
            DeviceManager::load_stored_dpi_baseline,
            (manager, device, profile, allow, images.dpi),
            dpi,
        ),
        call_ensures(
            DeviceManager::load_stored_preferences_baseline,
            (manager, device, profile, allow),
            preferences,
        ),
        call_ensures(
            DeviceManager::load_stored_buttons_baseline,
            (manager, device, profile, allow, images.buttons),
            buttons,
        ),
    ensures
        starts_from(
            dpi_on_record(manager.state, device@, profile),
            allow,
            images.dpi,
            match dpi {
                Ok(image) => Some(image),
                Err(_) => None,
            },
        ),
        starts_from(
            preferences_on_record(manager.state, device@, profile),
            allow,
            captured_preferences(profile),
            match preferences {
                Ok(image) => Some(image),
                Err(_) => None,
            },
        ),
        starts_from(
            buttons_on_record(manager.state, device@, profile),
            allow,
            images.buttons,
            match buttons {
                Ok(image) => Some(image),
                Err(_) => None,
            },
        ),
        dpi is Err ==> viewed(dpi) == Err::<DpiState, ManagerErrorView>(
            ManagerErrorView::MissingBaseline { resource: "DPI"@, profile: Some(profile) },
        ),
        preferences is Err ==> viewed(preferences) == Err::<PreferencesState, ManagerErrorView>(
            ManagerErrorView::MissingBaseline { resource: "preferences"@, profile: Some(profile) },
        ),
        buttons is Err ==> viewed(buttons) == Err::<ButtonsState, ManagerErrorView>(
            ManagerErrorView::MissingBaseline { resource: "buttons"@, profile: Some(profile) },
        ),
{
}

/// A partial update reads the mouse exactly where it can be read and the
/// policy asks for it; elsewhere it goes by the record, and the policy says
/// whether defaults are authorized.
pub proof fn law_baselines_are_read_where_possible(
    transport: TransportKind,
    policy: UpdatePolicy,
    r: BaselineChoice,
)
    requires
        call_ensures(choose_baseline_source, (transport, policy), r),
    ensures
        r is Live <==> (transport is Wired || transport is Receiver) && policy.baseline is Live,
        r matches BaselineChoice::Stored { allow_explicit_defaults } ==> allow_explicit_defaults
            == policy.allow_explicit_defaults,
{
}

/// A complete wanted image is there exactly where the mouse is stored, all
/// three sections of the profile are wanted, and the profile is on record as
/// the current one: as it was observed, or as it is wanted where it was never
/// observed. Each part of the image is the wanted one.
pub proof fn law_complete_images_are_all_wanted(
    manager: &DeviceManager,
    device: &DeviceId,
    profile: ProfileId,
    r: Result<CompleteDesiredImage, ManagerError>,
)
    requires
        call_ensures(
            DeviceManager::require_complete_desired_image,
            (manager, device, profile),
            r,
        ),
    ensures
        ({
            let stored = manager.state.devices@.dom().contains(device@);
            let mouse = manager.state.devices@[device@];
            let dpi = dpi_of(mouse, profile).desired;
            let preferences = preferences_of(mouse, profile).desired;
            let buttons = buttons_of(mouse, profile).desired;
            let current = (mouse.profile_metadata.observed matches Some(seen)
                && seen.value.current_profile == profile) || (mouse.profile_metadata.observed is None
                && (mouse.profile_metadata.desired matches Some(wanted)
                && wanted.value.current_profile == profile));
            &&& r is Ok <==> stored && dpi is Some && preferences is Some && buttons is Some
                && current
            &&& r matches Ok(image) ==> image.dpi == dpi->0.value && image.preferences
                == preferences->0.value && image.buttons == buttons->0.value
            &&& !stored ==> viewed(r) == Err::<CompleteDesiredImage, ManagerErrorView>(
                ManagerErrorView::DeviceNotFound(device@),
            )
            &&& stored && r is Err ==> (viewed(r) matches Err(
                ManagerErrorView::MissingBaseline { resource, profile: of },
            ) && (of is None <==> dpi is Some && preferences is Some && buttons is Some) && (
            of is Some ==> of == Some(profile)))
        }),
{
}

} // verus!
