//! What it means for evidence to be put on record, to be left alone, or to be
//! changed in one place only.

use vstd::prelude::*;

use crate::error::ManagerError;
use crate::operation::WriteOutcome;
use crate::protocol::{
    ButtonsState, DpiState, PollingRate, PreferencesState, ProfileId, ProfileMetadata,
};
use crate::session::SessionWrite;
use crate::state::{DeviceState, ResourceState, StateFile, Timestamp};

verus! {

/// The evidence for the sensitivity image of a profile; a slot that was never
/// filled holds none.
pub open spec fn dpi_of(device: DeviceState, profile: ProfileId) -> ResourceState<DpiState> {
    match device.profiles.at(profile) {
        Some(slot) => slot.dpi,
        None => ResourceState { desired: None, observed: None },
    }
}

/// The evidence for the preferences of a profile.
pub open spec fn preferences_of(device: DeviceState, profile: ProfileId) -> ResourceState<
    PreferencesState,
> {
    match device.profiles.at(profile) {
        Some(slot) => slot.preferences,
        None => ResourceState { desired: None, observed: None },
    }
}

/// The evidence for the button table of a profile.
pub open spec fn buttons_of(device: DeviceState, profile: ProfileId) -> ResourceState<
    ButtonsState,
> {
    match device.profiles.at(profile) {
        Some(slot) => slot.buttons,
        None => ResourceState { desired: None, observed: None },
    }
}

/// The evidence for the polling rate of a profile.
pub open spec fn rate_of(device: DeviceState, profile: ProfileId) -> ResourceState<PollingRate> {
    match device.profiles.at(profile) {
        Some(slot) => slot.polling_rate,
        None => ResourceState { desired: None, observed: None },
    }
}

/// A value was observed: it is on record with its time, and a wanted value
/// stays wanted, with its source and time. The wanted value is verified where
/// it is the observed one and not newer, and a mismatch elsewhere; nothing is
/// known of its persistence.
pub open spec fn is_seen<T>(
    before: ResourceState<T>,
    value: T,
    now: Timestamp,
    after: ResourceState<T>,
) -> bool {
    &&& after.observed matches Some(observed)
    &&& observed.value == value
    &&& observed.source is UsbReadback
    &&& observed.observed_at == now
    &&& before.desired is None ==> after.desired is None
    &&& before.desired matches Some(had) ==> {
        &&& after.desired matches Some(has)
        &&& has.value == had.value
        &&& has.source == had.source
        &&& has.updated_at == had.updated_at
        &&& has.verification.persistence is Unknown
        &&& had.value == value && had.updated_at.unix_seconds <= now.unix_seconds
            ==> has.verification.application is ReadbackVerified
        &&& had.value != value || had.updated_at.unix_seconds > now.unix_seconds
            ==> has.verification.application is Mismatch
    }
}

/// A value was written by the user: it is the wanted one from now on, and
/// nothing is known of its persistence. What was read back is on record and
/// judges the write; without a readback the earlier observation stays.
pub open spec fn is_put<T>(
    before: ResourceState<T>,
    value: T,
    write: SessionWrite<T>,
    now: Timestamp,
    after: ResourceState<T>,
) -> bool {
    &&& after.desired matches Some(has)
    &&& has.value == value
    &&& has.source is UserWrite
    &&& has.updated_at == now
    &&& has.verification.persistence is Unknown
    &&& match write {
        SessionWrite::ReadbackVerified(seen) => {
            &&& after.observed matches Some(observed)
            &&& observed.value == seen
            &&& observed.source is UsbReadback
            &&& observed.observed_at == now
            &&& seen == value ==> has.verification.application is ReadbackVerified
            &&& seen != value ==> has.verification.application is Mismatch
        },
        SessionWrite::Acknowledged => {
            &&& after.observed == before.observed
            &&& has.verification.application is Acknowledged
        },
    }
}

/// Identity and names of a mouse are untouched, and so are all its profile
/// slots but one.
pub open spec fn only_slot_changes(
    before: DeviceState,
    after: DeviceState,
    profile: ProfileId,
) -> bool {
    &&& after.identity == before.identity
    &&& after.profile_names == before.profile_names
    &&& forall|other: ProfileId| #[trigger]
        after.profiles.at(other) == before.profiles.at(other) || other == profile
}

/// At most the mouse with this key changed: every other one, the set of keys
/// and everything else in the file is as it was.
pub open spec fn only_mouse_changes(before: StateFile, after: StateFile, key: Seq<char>) -> bool {
    &&& after.next_device_number == before.next_device_number
    &&& after.selected_device == before.selected_device
    &&& after.identity_mode == before.identity_mode
    &&& after.identity_setup == before.identity_setup
    &&& after.devices@.dom() == before.devices@.dom()
    &&& forall|other: Seq<char>| #[trigger]
        before.devices@.dom().contains(other) && other != key ==> after.devices@[other]
            == before.devices@[other]
}

/// Nothing in the file changed.
pub open spec fn nothing_changes(before: StateFile, after: StateFile) -> bool {
    &&& after.next_device_number == before.next_device_number
    &&& after.selected_device == before.selected_device
    &&& after.identity_mode == before.identity_mode
    &&& after.identity_setup == before.identity_setup
    &&& after.devices@ == before.devices@
}

/// Replacing the value of a key that is there changes no other mouse.
pub(crate) proof fn lemma_one_mouse(
    before: Map<Seq<char>, DeviceState>,
    key: Seq<char>,
    device: DeviceState,
)
    requires
        before.dom().contains(key),
    ensures
        before.insert(key, device).dom() == before.dom(),
{
    assert(before.insert(key, device).dom() =~= before.dom());
}

/// What a reconciled resource holds.
pub(crate) proof fn lemma_reconciled_is_seen<T>(before: ResourceState<T>, value: T, now: Timestamp)
    ensures
        is_seen(before, value, now, before.reconciled(value, now)),
{
}

/// What the record holds for the sensitivity image of a profile; nothing for an
/// unknown mouse.
pub open spec fn dpi_on_record(state: StateFile, key: Seq<char>, profile: ProfileId) -> ResourceState<
    DpiState,
> {
    if state.devices@.dom().contains(key) {
        dpi_of(state.devices@[key], profile)
    } else {
        ResourceState { desired: None, observed: None }
    }
}

/// What the record holds for the preferences of a profile.
pub open spec fn preferences_on_record(
    state: StateFile,
    key: Seq<char>,
    profile: ProfileId,
) -> ResourceState<PreferencesState> {
    if state.devices@.dom().contains(key) {
        preferences_of(state.devices@[key], profile)
    } else {
        ResourceState { desired: None, observed: None }
    }
}

/// What the record holds for the button table of a profile.
pub open spec fn buttons_on_record(
    state: StateFile,
    key: Seq<char>,
    profile: ProfileId,
) -> ResourceState<ButtonsState> {
    if state.devices@.dom().contains(key) {
        buttons_of(state.devices@[key], profile)
    } else {
        ResourceState { desired: None, observed: None }
    }
}

/// The image from which a partial update starts. The wanted value comes first,
/// unless it is a default that is not authorized; the observed one comes next;
/// an authorized default stands in where neither is there.
pub open spec fn starts_from<T>(
    resource: ResourceState<T>,
    allow_explicit_defaults: bool,
    default_image: T,
    image: Option<T>,
) -> bool {
    let usable = resource.desired is Some && (allow_explicit_defaults || !(
    resource.desired->0.source is ExplicitDefaults));
    &&& usable ==> image == Some(resource.desired->0.value)
    &&& !usable && resource.observed is Some ==> image == Some(resource.observed->0.value)
    &&& !usable && resource.observed is None && allow_explicit_defaults ==> image == Some(
        default_image,
    )
    &&& !usable && resource.observed is None && !allow_explicit_defaults ==> image is None
}

/// What the caller learns of a write: the value, what was read back, and how
/// well it is verified. A readback that differs is an error that names what was
/// written.
pub open spec fn is_reported<T>(
    value: T,
    write: SessionWrite<T>,
    name: Seq<char>,
    profile: ProfileId,
    r: Result<WriteOutcome<T>, ManagerError>,
) -> bool {
    match write {
        SessionWrite::Acknowledged => {
            &&& r matches Ok(outcome)
            &&& outcome.desired == value
            &&& outcome.observed is None
            &&& outcome.verification.application is Acknowledged
            &&& outcome.verification.persistence is Unknown
        },
        SessionWrite::ReadbackVerified(seen) => if seen == value {
            &&& r matches Ok(outcome)
            &&& outcome.desired == value
            &&& outcome.observed == Some(seen)
            &&& outcome.verification.application is ReadbackVerified
            &&& outcome.verification.persistence is Unknown
        } else {
            &&& r matches Err(ManagerError::VerificationMismatch { resource, profile: of })
            &&& resource@ == name
            &&& of == Some(profile)
        },
    }
}

} // verus!
