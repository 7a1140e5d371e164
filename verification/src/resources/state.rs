//! Evidence bookkeeping, profile names, and portable configuration.

use vstd::prelude::*;

use crate::device::DeviceId;
use crate::error::{viewed, ManagerError, ManagerErrorView, StateError, StateErrorView};
use crate::exact::SameValue;
use crate::manager::{not_found, DeviceManager};
use crate::operation::{ResourceSnapshot, WriteOutcome};
use crate::protocol::{
    ButtonsState, DpiState, PollingRate, PreferencesState, ProfileId, ProfileMetadata,
};
use crate::resources::evidence::{
    buttons_of, dpi_of, lemma_one_mouse, nothing_changes, only_mouse_changes, preferences_of,
    rate_of,
};
use crate::session::SessionWrite;
use crate::slots::ProfileMap;
use crate::state::{
    clone_names, defect_at, device_defect, law_invalidation_withdraws_every_claim,
    name_stored_form, only_claim_withdrawn, profile_entry, profile_or_empty, readback_verdict,
    ApplicationVerification, DesiredSource, DesiredState, DeviceState, PersistenceVerification,
    ProfileState, ResourceState, StateFile, Timestamp, Verification, MAX_PROFILE_NAME_CHARS,
};
use crate::text::{is_blank, lemma_trim_idempotent, lex_less, text_of, trim, trimmed};

verus! {

/// A value that is kept per profile.
pub trait ProfileResource: SameValue + Copy {
    spec fn slot_of(state: ProfileState) -> ResourceState<Self>;

    spec fn with_slot(state: ProfileState, resource: ResourceState<Self>) -> ProfileState;

    fn read_slot(state: &ProfileState) -> (r: ResourceState<Self>)
        ensures
            r == Self::slot_of(*state),
    ;

    fn store_slot(state: &mut ProfileState, resource: ResourceState<Self>)
        ensures
            *final(state) == Self::with_slot(*old(state), resource),
    ;
}

impl ProfileResource for DpiState {
    open spec fn slot_of(state: ProfileState) -> ResourceState<Self> {
        state.dpi
    }

    open spec fn with_slot(state: ProfileState, resource: ResourceState<Self>) -> ProfileState {
        ProfileState { dpi: resource, ..state }
    }

    fn read_slot(state: &ProfileState) -> (r: ResourceState<Self>) {
        state.dpi
    }

    fn store_slot(state: &mut ProfileState, resource: ResourceState<Self>) {
        state.dpi = resource;
    }
}

impl ProfileResource for PreferencesState {
    open spec fn slot_of(state: ProfileState) -> ResourceState<Self> {
        state.preferences
    }

    open spec fn with_slot(state: ProfileState, resource: ResourceState<Self>) -> ProfileState {
        ProfileState { preferences: resource, ..state }
    }

    fn read_slot(state: &ProfileState) -> (r: ResourceState<Self>) {
        state.preferences
    }

    fn store_slot(state: &mut ProfileState, resource: ResourceState<Self>) {
        state.preferences = resource;
    }
}

impl ProfileResource for ButtonsState {
    open spec fn slot_of(state: ProfileState) -> ResourceState<Self> {
        state.buttons
    }

    open spec fn with_slot(state: ProfileState, resource: ResourceState<Self>) -> ProfileState {
        ProfileState { buttons: resource, ..state }
    }

    fn read_slot(state: &ProfileState) -> (r: ResourceState<Self>) {
        state.buttons
    }

    fn store_slot(state: &mut ProfileState, resource: ResourceState<Self>) {
        state.buttons = resource;
    }
}

impl ProfileResource for PollingRate {
    open spec fn slot_of(state: ProfileState) -> ResourceState<Self> {
        state.polling_rate
    }

    open spec fn with_slot(state: ProfileState, resource: ResourceState<Self>) -> ProfileState {
        ProfileState { polling_rate: resource, ..state }
    }

    fn read_slot(state: &ProfileState) -> (r: ResourceState<Self>) {
        state.polling_rate
    }

    fn store_slot(state: &mut ProfileState, resource: ResourceState<Self>) {
        state.polling_rate = resource;
    }
}

/// Records a write that was acknowledged, keeping the old observation.
pub fn record_ack<T: SameValue + Copy>(resource: &mut ResourceState<T>, value: T, now: Timestamp)
    ensures
        *final(resource) == old(resource).acknowledged(value, DesiredSource::UserWrite, now),
{
    resource.record_ack_write(value, DesiredSource::UserWrite, now);
}

/// Records a write with immediate readback.
pub fn record_readback<T: SameValue + Copy>(
    resource: &mut ResourceState<T>,
    desired: T,
    observed: T,
    now: Timestamp,
)
    ensures
        *final(resource) == old(resource).read_back(
            desired,
            observed,
            DesiredSource::UserWrite,
            now,
        ),
{
    resource.record_readback_write(desired, observed, DesiredSource::UserWrite, now);
}

/// Reconciles a fresh observation.
pub fn reconcile_observed<T: SameValue + Copy>(
    resource: &mut ResourceState<T>,
    value: T,
    now: Timestamp,
)
    ensures
        *final(resource) == old(resource).reconciled(value, now),
{
    resource.reconcile_observation(value, now);
}

/// Attempts to mark a resource as profile-reload verified.
pub fn try_mark_profile_reload<T: SameValue + Copy>(
    resource: &mut ResourceState<T>,
    verified_at: Timestamp,
) -> (r: bool)
    ensures
        r == old(resource).is_confirmed(),
        *final(resource) == (if r {
            old(resource).with_persistence(
                PersistenceVerification::ProfileReloadVerified { verified_at },
            )
        } else {
            *old(resource)
        }),
{
    resource.try_mark_profile_reload_verified(verified_at)
}

/// Attempts to mark a resource as power-cycle verified.
pub fn try_mark_power_cycle<T: SameValue + Copy>(
    resource: &mut ResourceState<T>,
    verified_at: Timestamp,
) -> (r: bool)
    ensures
        r == old(resource).is_confirmed(),
        *final(resource) == (if r {
            old(resource).with_persistence(
                PersistenceVerification::PowerCycleVerified { verified_at },
            )
        } else {
            *old(resource)
        }),
{
    resource.try_mark_power_cycle_verified(verified_at)
}

/// A resource whose wanted value was imported.
pub open spec fn imported<T>(resource: ResourceState<T>, value: T, now: Timestamp) -> ResourceState<
    T,
> {
    ResourceState {
        desired: Some(
            DesiredState {
                value,
                source: DesiredSource::Imported,
                verification: Verification::unsent(),
                updated_at: now,
            },
        ),
        ..resource
    }
}

/// Makes a value the wanted one without any claim that it was sent.
pub fn set_imported<T>(resource: &mut ResourceState<T>, value: T, now: Timestamp)
    ensures
        *final(resource) == imported(*old(resource), value, now),
{
    resource.desired = Some(
        DesiredState {
            value,
            source: DesiredSource::Imported,
            verification: Verification::not_sent(),
            updated_at: now,
        },
    );
}

/// The value that is exported: the wanted one, else the observed one.
pub open spec fn exported<T>(resource: ResourceState<T>) -> Option<T> {
    match resource.desired {
        Some(desired) => Some(desired.value),
        None => match resource.observed {
            Some(observed) => Some(observed.value),
            None => None,
        },
    }
}

pub fn value_for_export<T: Copy>(resource: &ResourceState<T>) -> (r: Option<T>)
    ensures
        r == exported(*resource),
{
    match resource.desired {
        Some(desired) => Some(desired.value),
        None => match resource.observed {
            Some(observed) => Some(observed.value),
            None => None,
        },
    }
}

/// A resource after a write with its outcome.
pub open spec fn written<T>(
    resource: ResourceState<T>,
    desired: T,
    write: SessionWrite<T>,
    now: Timestamp,
) -> ResourceState<T> {
    match write {
        SessionWrite::ReadbackVerified(seen) => resource.read_back(
            desired,
            seen,
            DesiredSource::UserWrite,
            now,
        ),
        SessionWrite::Acknowledged => resource.acknowledged(desired, DesiredSource::UserWrite, now),
    }
}

/// What a write reports.
pub open spec fn outcome_of<T>(desired: T, write: SessionWrite<T>) -> WriteOutcome<T> {
    WriteOutcome {
        desired,
        observed: match write {
            SessionWrite::ReadbackVerified(seen) => Some(seen),
            SessionWrite::Acknowledged => None,
        },
        verification: Verification {
            application: match write {
                SessionWrite::ReadbackVerified(seen) => readback_verdict(desired, seen),
                SessionWrite::Acknowledged => ApplicationVerification::Acknowledged,
            },
            persistence: PersistenceVerification::Unknown,
        },
    }
}

/// A device with one profile slot replaced.
pub open spec fn with_profile(
    device: DeviceState,
    profile: ProfileId,
    state: ProfileState,
) -> DeviceState {
    DeviceState { profiles: device.profiles.with(profile, Some(state)), ..device }
}

/// A device with one resource of one profile replaced.
pub open spec fn with_resource<T: ProfileResource>(
    device: DeviceState,
    profile: ProfileId,
    resource: ResourceState<T>,
) -> DeviceState {
    with_profile(
        device,
        profile,
        T::with_slot(profile_or_empty(device.profiles, profile), resource),
    )
}

/// The evidence for one resource of one profile.
pub open spec fn resource_at<T: ProfileResource>(
    device: DeviceState,
    profile: ProfileId,
) -> ResourceState<T> {
    T::slot_of(profile_or_empty(device.profiles, profile))
}

/// Records the outcome of a write in a resource and reports it.
pub fn apply_write<T: SameValue + Copy>(
    resource: &mut ResourceState<T>,
    desired: T,
    write: SessionWrite<T>,
    now: Timestamp,
) -> (r: WriteOutcome<T>)
    ensures
        r == outcome_of(desired, write),
        *final(resource) == written(*old(resource), desired, write, now),
{
    let (observed, application): (Option<T>, ApplicationVerification) = match write {
        SessionWrite::ReadbackVerified(seen) => {
            record_readback(resource, desired, seen, now);
            let verdict = if seen.same(&desired) {
                ApplicationVerification::ReadbackVerified
            } else {
                ApplicationVerification::Mismatch
            };
            (Some(seen), verdict)
        },
        SessionWrite::Acknowledged => {
            record_ack(resource, desired, now);
            (None, ApplicationVerification::Acknowledged)
        },
    };
    WriteOutcome {
        desired,
        observed,
        verification: Verification { application, persistence: PersistenceVerification::Unknown },
    }
}

/// Records the outcome of a write.
pub fn persist_write<T: ProfileResource>(
    state: &mut StateFile,
    device: &DeviceId,
    profile: ProfileId,
    desired: T,
    write: SessionWrite<T>,
    now: Timestamp,
) -> (r: Result<WriteOutcome<T>, ManagerError>)
    ensures
        final(state).same_but_devices(*old(state)),
        ({
            let before = old(state).devices@;
            let after = final(state).devices@;
            if before.dom().contains(device@) {
                &&& r == Ok::<WriteOutcome<T>, ManagerError>(outcome_of(desired, write))
                &&& after == before.insert(
                    device@,
                    with_resource::<T>(
                        before[device@],
                        profile,
                        written(resource_at::<T>(before[device@], profile), desired, write, now),
                    ),
                )
            } else {
                &&& viewed(r) == Err::<WriteOutcome<T>, ManagerErrorView>(not_found(device@))
                &&& after == before
            }
        }),
{
    let ghost before = state.devices@;
    match state.devices.remove(device) {
        None => {
            assert(state.devices@ =~= before);
            Err(ManagerError::DeviceNotFound(device.clone()))
        },
        Some(mut device_state) => {
            let mut profile_state = profile_entry(&device_state.profiles, profile);
            let mut resource = T::read_slot(&profile_state);
            let outcome = apply_write(&mut resource, desired, write, now);
            T::store_slot(&mut profile_state, resource);
            device_state.profiles.insert(profile, profile_state);
            state.devices.insert(device.clone(), device_state);
            assert(state.devices@ =~= before.insert(
                device@,
                with_resource::<T>(
                    before[device@],
                    profile,
                    written(resource_at::<T>(before[device@], profile), desired, write, now),
                ),
            ));
            Ok(outcome)
        },
    }
}

/// What a recorded write amounts to for the caller: a readback that differs is
/// a failure.
pub open spec fn finished<T>(
    outcome: WriteOutcome<T>,
    resource: Seq<char>,
    profile: ProfileId,
) -> Result<WriteOutcome<T>, ManagerErrorView> {
    if outcome.verification.application is Mismatch {
        Err(ManagerErrorView::VerificationMismatch { resource, profile: Some(profile) })
    } else {
        Ok(outcome)
    }
}

pub fn finish_write<T>(
    outcome: WriteOutcome<T>,
    resource: &'static str,
    profile: ProfileId,
) -> (r: Result<WriteOutcome<T>, ManagerError>)
    ensures
        viewed(r) == finished(outcome, resource@, profile),
{
    if outcome.verification.application == ApplicationVerification::Mismatch {
        return Err(ManagerError::VerificationMismatch { resource, profile: Some(profile) });
    }
    Ok(outcome)
}

/// Records a fresh observation of one resource and hands back its evidence.
pub fn observe_resource<T: ProfileResource>(
    state: &mut StateFile,
    device: &DeviceId,
    profile: ProfileId,
    value: T,
    now: Timestamp,
) -> (r: Result<ResourceSnapshot<T>, ManagerError>)
    ensures
        final(state).same_but_devices(*old(state)),
        ({
            let before = old(state).devices@;
            let after = final(state).devices@;
            if before.dom().contains(device@) {
                let resource = resource_at::<T>(before[device@], profile).reconciled(value, now);
                &&& r == Ok::<ResourceSnapshot<T>, ManagerError>(ResourceSnapshot { resource })
                &&& after == before.insert(
                    device@,
                    with_resource::<T>(before[device@], profile, resource),
                )
            } else {
                &&& viewed(r) == Err::<ResourceSnapshot<T>, ManagerErrorView>(not_found(device@))
                &&& after == before
            }
        }),
{
    let ghost before = state.devices@;
    match state.devices.remove(device) {
        None => {
            assert(state.devices@ =~= before);
            Err(ManagerError::DeviceNotFound(device.clone()))
        },
        Some(mut device_state) => {
            let mut profile_state = profile_entry(&device_state.profiles, profile);
            let mut resource = T::read_slot(&profile_state);
            reconcile_observed(&mut resource, value, now);
            T::store_slot(&mut profile_state, resource);
            device_state.profiles.insert(profile, profile_state);
            state.devices.insert(device.clone(), device_state);
            assert(state.devices@ =~= before.insert(
                device@,
                with_resource::<T>(
                    before[device@],
                    profile,
                    resource_at::<T>(before[device@], profile).reconciled(value, now),
                ),
            ));
            Ok(ResourceSnapshot { resource })
        },
    }
}

/// A device with its profile metadata evidence replaced.
pub open spec fn with_metadata(
    device: DeviceState,
    resource: ResourceState<ProfileMetadata>,
) -> DeviceState {
    DeviceState { profile_metadata: resource, ..device }
}

/// Records a fresh observation of the profile metadata and hands back its
/// evidence.
pub fn observe_metadata(
    state: &mut StateFile,
    device: &DeviceId,
    value: ProfileMetadata,
    now: Timestamp,
) -> (r: Result<ResourceSnapshot<ProfileMetadata>, ManagerError>)
    ensures
        final(state).same_but_devices(*old(state)),
        ({
            let before = old(state).devices@;
            let after = final(state).devices@;
            if before.dom().contains(device@) {
                let resource = before[device@].profile_metadata.reconciled(value, now);
                &&& r == Ok::<ResourceSnapshot<ProfileMetadata>, ManagerError>(
                    ResourceSnapshot { resource },
                )
                &&& after == before.insert(device@, with_metadata(before[device@], resource))
            } else {
                &&& viewed(r) == Err::<ResourceSnapshot<ProfileMetadata>, ManagerErrorView>(
                    not_found(device@),
                )
                &&& after == before
            }
        }),
{
    let ghost before = state.devices@;
    match state.devices.remove(device) {
        None => {
            assert(state.devices@ =~= before);
            Err(ManagerError::DeviceNotFound(device.clone()))
        },
        Some(mut device_state) => {
            reconcile_observed(&mut device_state.profile_metadata, value, now);
            let resource = device_state.profile_metadata;
            state.devices.insert(device.clone(), device_state);
            assert(state.devices@ =~= before.insert(
                device@,
                with_metadata(before[device@], resource),
            ));
            Ok(ResourceSnapshot { resource })
        },
    }
}

/// A write succeeds for the caller exactly when it was acknowledged or read
/// back as it was sent, and either way the wanted value is on record without
/// any claim to persistence.
pub proof fn law_write_reports_truthfully<T>(
    resource: ResourceState<T>,
    desired: T,
    write: SessionWrite<T>,
    now: Timestamp,
    name: Seq<char>,
    profile: ProfileId,
)
    ensures
        finished(outcome_of(desired, write), name, profile) is Ok <==> (write is Acknowledged
            || write == SessionWrite::ReadbackVerified(desired)),
        written(resource, desired, write, now).desired matches Some(d) && d.value == desired
            && d.verification == outcome_of(desired, write).verification,
        written(resource, desired, write, now).desired->0.verification.persistence is Unknown,
        write is Acknowledged ==> written(resource, desired, write, now).observed
            == resource.observed,
{
}

/// The form in which a profile name is stored: trimmed; `None` for a blank
/// one; refused when it is too long.
pub open spec fn normalized_name(name: Seq<char>) -> Result<Option<Seq<char>>, ManagerErrorView> {
    if is_blank(name) {
        Ok(None)
    } else if trimmed(name).len() > MAX_PROFILE_NAME_CHARS {
        Err(
            ManagerErrorView::InvalidUpdate("profile name exceeds 64 Unicode scalar values"@),
        )
    } else {
        Ok(Some(trimmed(name)))
    }
}

/// Normalizes a user-supplied profile display name.
pub fn normalize_profile_name(name: &str) -> (r: Result<Option<String>, ManagerError>)
    ensures
        match r {
            Ok(text) => normalized_name(name@) == Ok::<Option<Seq<char>>, ManagerErrorView>(
                text_of(text),
            ),
            Err(error) => normalized_name(name@) == Err::<Option<Seq<char>>, ManagerErrorView>(
                error@,
            ),
        },
{
    let inner = trim(name);
    if inner.is_empty() {
        return Ok(None);
    }
    if inner.unicode_len() > MAX_PROFILE_NAME_CHARS {
        return Err(
            ManagerError::InvalidUpdate(
                "profile name exceeds 64 Unicode scalar values".to_owned(),
            ),
        );
    }
    Ok(Some(inner.to_owned()))
}

/// A normalized name is in stored form, and normalizing it again changes
/// nothing.
pub proof fn law_normalized_name_is_stored_form(name: Seq<char>)
    ensures
        normalized_name(name) matches Ok(Some(text)) ==> name_stored_form(text) && normalized_name(
            text,
        ) == Ok::<Option<Seq<char>>, ManagerErrorView>(Some(text)),
{
    lemma_trim_idempotent(name);
}

/// All stored devices are free of defects.
pub open spec fn all_sound(devices: Map<Seq<char>, DeviceState>) -> bool {
    forall|key: Seq<char>| #[trigger]
        devices.dom().contains(key) ==> device_defect(key, devices[key]) is None
}

/// The error reports the first defect, in key order.
pub open spec fn reports_first_defect(
    devices: Map<Seq<char>, DeviceState>,
    error: ManagerErrorView,
) -> bool {
    exists|key: Seq<char>|
        {
            &&& #[trigger] defect_at(devices, key) matches Some(detail)
            &&& error == ManagerErrorView::State(StateErrorView::InvalidState(detail))
            &&& forall|other: Seq<char>|
                lex_less(other, key) ==> #[trigger] defect_at(devices, other) is None
        }
}

/// A changed device is stored if all devices are sound with it; otherwise
/// nothing changes and the first defect is reported.
pub open spec fn stored_if_sound(
    before: StateFile,
    after: StateFile,
    key: Seq<char>,
    device: DeviceState,
    r: Result<(), ManagerError>,
) -> bool {
    let devices = before.devices@.insert(key, device);
    &&& after.same_but_devices(before)
    &&& if all_sound(devices) {
        r is Ok && after.devices@ == devices
    } else {
        &&& after.devices@ == before.devices@
        &&& r matches Err(error)
        &&& reports_first_defect(devices, error@)
    }
}

impl DeviceManager {
    /// Stores a changed device unless a stored device has a defect then.
    fn store_if_sound(&mut self, key: &DeviceId, device: DeviceState) -> (r: Result<
        (),
        ManagerError,
    >)
        requires
            old(self).state.devices@.dom().contains(key@),
        ensures
            final(self).identity_cache == old(self).identity_cache,
            stored_if_sound(old(self).state, final(self).state, key@, device, r),
    {
        let ghost before = self.state.devices@;
        let kept = self.state.devices.remove(key);
        self.state.devices.insert(key.clone(), device);
        assert(self.state.devices@ =~= before.insert(key@, device));
        match self.state.validate() {
            Ok(_) => Ok(()),
            Err(error) => {
                if let Some(device) = kept {
                    self.state.devices.insert(key.clone(), device);
                }
                assert(self.state.devices@ =~= before);
                Err(ManagerError::State(error))
            },
        }
    }

    /// The local display names of a device's profile slots.
    pub fn profile_names(&self, device: &DeviceId) -> (r: Result<ProfileMap<String>, ManagerError>)
        ensures
            viewed(r) == (if self.state.devices@.dom().contains(device@) {
                Ok(self.state.devices@[device@].profile_names)
            } else {
                Err(not_found(device@))
            }),
    {
        match self.state.devices.get(device) {
            Some(state) => Ok(clone_names(&state.profile_names)),
            None => Err(ManagerError::DeviceNotFound(device.clone())),
        }
    }

    /// Sets the local display name of one profile slot. The name is trimmed; a
    /// blank one removes the slot's name; one that is too long is refused.
    pub fn set_profile_name(&mut self, device: &DeviceId, profile: ProfileId, name: &str) -> (r:
        Result<(), ManagerError>)
        ensures
            final(self).identity_cache == old(self).identity_cache,
            ({
                let before = old(self).state;
                let after = final(self).state;
                match normalized_name(name@) {
                    Err(error) => viewed(r) == Err::<(), ManagerErrorView>(error) && after
                        == before,
                    Ok(text) => if !before.devices@.dom().contains(device@) {
                        viewed(r) == Err::<(), ManagerErrorView>(not_found(device@)) && after
                            .agrees(before)
                    } else {
                        exists|changed: DeviceState| #[trigger]
                            has_name(before.devices@[device@], changed, profile, text)
                                && stored_if_sound(before, after, device@, changed, r)
                    },
                }
            }),
    {
        let text = match normalize_profile_name(name) {
            Ok(text) => text,
            Err(error) => {
                return Err(error);
            },
        };
        let text = match text {
            Some(text) => text,
            None => {
                return self.remove_profile_name(device, profile);
            },
        };
        let mut changed = match self.state.devices.get(device) {
            Some(state) => state.clone(),
            None => {
                return Err(ManagerError::DeviceNotFound(device.clone()));
            },
        };
        let ghost named = text@;
        changed.profile_names.insert(profile, text);
        assert(has_name(self.state.devices@[device@], changed, profile, Some(named)));
        self.store_if_sound(device, changed)
    }

    /// Removes the local display name of one profile slot.
    pub fn remove_profile_name(&mut self, device: &DeviceId, profile: ProfileId) -> (r: Result<
        (),
        ManagerError,
    >)
        ensures
            final(self).identity_cache == old(self).identity_cache,
            ({
                let before = old(self).state;
                let after = final(self).state;
                if !before.devices@.dom().contains(device@) {
                    viewed(r) == Err::<(), ManagerErrorView>(not_found(device@)) && after.agrees(
                        before,
                    )
                } else {
                    exists|changed: DeviceState| #[trigger]
                        has_name(before.devices@[device@], changed, profile, None)
                            && stored_if_sound(before, after, device@, changed, r)
                }
            }),
    {
        let mut changed = match self.state.devices.get(device) {
            Some(state) => state.clone(),
            None => {
                return Err(ManagerError::DeviceNotFound(device.clone()));
            },
        };
        changed.profile_names.remove(profile);
        assert(has_name(self.state.devices@[device@], changed, profile, None));
        self.store_if_sound(device, changed)
    }

    /// Withdraws the persistence evidence of every wanted value of a device and
    /// keeps all values.
    pub fn invalidate_state(&mut self, device: &DeviceId) -> (r: Result<(), ManagerError>)
        ensures
            final(self).identity_cache == old(self).identity_cache,
            ({
                let before = old(self).state;
                let after = final(self).state;
                if !before.devices@.dom().contains(device@) {
                    viewed(r) == Err::<(), ManagerErrorView>(not_found(device@)) && after.agrees(
                        before,
                    )
                } else {
                    stored_if_sound(
                        before,
                        after,
                        device@,
                        before.devices@[device@].unproven(),
                        r,
                    )
                }
            }),
    {
        let mut changed = match self.state.devices.get(device) {
            Some(state) => state.clone(),
            None => {
                return Err(ManagerError::DeviceNotFound(device.clone()));
            },
        };
        changed.invalidate_persistence();
        self.store_if_sound(device, changed)
    }
}

/// A device with one profile name replaced, or taken away.
pub open spec fn has_name(
    before: DeviceState,
    after: DeviceState,
    profile: ProfileId,
    name: Option<Seq<char>>,
) -> bool {
    &&& text_of(after.profile_names.at(profile)) == name
    &&& after == (DeviceState {
        profile_names: before.profile_names.with(profile, after.profile_names.at(profile)),
        ..before
    })
}

/// In a sound state a valid profile name is always accepted: naming a slot,
/// clearing a name and invalidating evidence keep every device sound.
pub proof fn law_sound_state_accepts_names(
    devices: Map<Seq<char>, DeviceState>,
    key: Seq<char>,
    changed: DeviceState,
    profile: ProfileId,
    name: Seq<char>,
)
    requires
        all_sound(devices),
        devices.dom().contains(key),
    ensures
        normalized_name(name) matches Ok(text) ==> (has_name(devices[key], changed, profile, text)
            ==> all_sound(devices.insert(key, changed))),
        has_name(devices[key], changed, profile, None) ==> all_sound(devices.insert(key, changed)),
        all_sound(devices.insert(key, devices[key].unproven())),
{
    law_normalized_name_is_stored_form(name);
    assert(device_defect(key, devices[key]) is None);
    assert(devices[key].unproven().identity == devices[key].identity);
    assert(devices[key].unproven().profile_names == devices[key].profile_names);
}

/// A value is exported wherever one is known: the wanted one, or the observed
/// one where none is wanted. Only a resource with neither is left out.
pub proof fn law_known_values_are_exported<T>(resource: ResourceState<T>, value: T, now: Timestamp)
    ensures
        resource.desired matches Some(wanted) ==> exported(resource) == Some(wanted.value),
        resource.desired is None ==> (resource.observed matches Some(observation) ==> exported(
            resource,
        ) == Some(observation.value)),
        exported(resource) is None <==> resource.desired is None && resource.observed is None,
        resource.desired is None ==> exported(resource.reconciled(value, now)) == Some(value),
        resource.desired is Some ==> exported(resource.reconciled(value, now)) == exported(resource),
{
}

/// An imported value is wanted, came from an import at that time, was never
/// sent, and leaves the observation alone.
pub proof fn law_imported_values_are_wanted<T>(resource: ResourceState<T>, value: T, now: Timestamp)
    ensures
        imported(resource, value, now).observed == resource.observed,
        imported(resource, value, now).desired matches Some(wanted) && {
            &&& wanted.value == value
            &&& wanted.source is Imported
            &&& wanted.updated_at == now
            &&& wanted.verification.application is NotSent
            &&& wanted.verification.persistence is Unknown
        },
        exported(imported(resource, value, now)) == Some(value),
{
}

/// A write leaves on record what was sent, by whom and when, and what was read
/// back where something was; the report says the same.
pub proof fn law_writes_are_reported_as_recorded<T>(
    resource: ResourceState<T>,
    desired: T,
    write: SessionWrite<T>,
    now: Timestamp,
    name: Seq<char>,
    profile: ProfileId,
)
    ensures
        ({
            let after = written(resource, desired, write, now);
            let report = outcome_of(desired, write);
            &&& after.desired matches Some(wanted)
            &&& wanted.value == desired
            &&& wanted.source is UserWrite
            &&& wanted.updated_at == now
            &&& report.desired == desired
            &&& write matches SessionWrite::ReadbackVerified(seen) ==> {
                &&& report.observed == Some(seen)
                &&& after.observed matches Some(observation)
                &&& observation.value == seen
                &&& observation.observed_at == now
                &&& report.verification.application is ReadbackVerified <==> seen == desired
                &&& report.verification.application is Mismatch <==> seen != desired
            }
            &&& write is Acknowledged ==> {
                &&& report.observed is None
                &&& report.verification.application is Acknowledged
            }
            &&& report.verification.persistence is Unknown
            &&& finished(report, name, profile) matches Ok(kept) ==> kept == report
            &&& finished(report, name, profile) matches Err(error) ==> error
                == (ManagerErrorView::VerificationMismatch {
                resource: name,
                profile: Some(profile),
            })
        }),
{
}

/// Replacing one resource of one profile is seen there and nowhere else: not in
/// the other resources of the profile, not in another profile, and not in the
/// identity, the metadata or the names of the device.
pub proof fn law_resources_are_separate(
    device: DeviceState,
    profile: ProfileId,
    other: ProfileId,
    dpi: ResourceState<DpiState>,
    preferences: ResourceState<PreferencesState>,
    buttons: ResourceState<ButtonsState>,
    polling_rate: ResourceState<PollingRate>,
)
    ensures
        ({
            let after = with_resource(device, profile, dpi);
            &&& after.profiles.at(profile) matches Some(slot)
            &&& slot.dpi == dpi
            &&& slot == (ProfileState { dpi, ..profile_or_empty(device.profiles, profile) })
            &&& resource_at::<DpiState>(after, profile) == dpi
            &&& changes_one_slot(device, after, profile, other)
        }),
        ({
            let after = with_resource(device, profile, preferences);
            &&& after.profiles.at(profile) matches Some(slot)
            &&& slot.preferences == preferences
            &&& slot == (ProfileState { preferences, ..profile_or_empty(device.profiles, profile) })
            &&& resource_at::<PreferencesState>(after, profile) == preferences
            &&& changes_one_slot(device, after, profile, other)
        }),
        ({
            let after = with_resource(device, profile, buttons);
            &&& after.profiles.at(profile) matches Some(slot)
            &&& slot.buttons == buttons
            &&& slot == (ProfileState { buttons, ..profile_or_empty(device.profiles, profile) })
            &&& resource_at::<ButtonsState>(after, profile) == buttons
            &&& changes_one_slot(device, after, profile, other)
        }),
        ({
            let after = with_resource(device, profile, polling_rate);
            &&& after.profiles.at(profile) matches Some(slot)
            &&& slot.polling_rate == polling_rate
            &&& slot == (ProfileState {
                polling_rate,
                ..profile_or_empty(device.profiles, profile)
            })
            &&& resource_at::<PollingRate>(after, profile) == polling_rate
            &&& changes_one_slot(device, after, profile, other)
        }),
{
}

/// Nothing of the device differs but one profile slot.
pub open spec fn changes_one_slot(
    before: DeviceState,
    after: DeviceState,
    profile: ProfileId,
    other: ProfileId,
) -> bool {
    &&& other != profile ==> after.profiles.at(other) == before.profiles.at(other)
    &&& after.identity == before.identity
    &&& after.profile_metadata == before.profile_metadata
    &&& after.profile_names == before.profile_names
}

/// A profile name is stored without its outer white space, a blank one is no
/// name, and a name is refused exactly when more than 64 code points are left.
pub proof fn law_names_are_trimmed_and_bounded(name: Seq<char>)
    ensures
        normalized_name(name) matches Ok(Some(text)) ==> text == trimmed(name) && 0 < text.len()
            <= 64,
        normalized_name(name) == Ok::<Option<Seq<char>>, ManagerErrorView>(None) <==> forall|i: int|
            0 <= i < name.len() ==> crate::text::is_white_space(#[trigger] name[i]),
        normalized_name(name) is Err <==> trimmed(name).len() > 64,
{
    crate::text::law_trim_takes_outer_white_space(name);
}

/// Naming one profile slot leaves the names of the others and everything else
/// of the device alone.
pub proof fn law_names_are_separate(
    before: DeviceState,
    after: DeviceState,
    profile: ProfileId,
    name: Option<Seq<char>>,
    other: ProfileId,
)
    requires
        has_name(before, after, profile, name),
    ensures
        name is None <==> after.profile_names.at(profile) is None,
        name matches Some(text) ==> after.profile_names.at(profile)->0@ == text,
        other != profile ==> after.profile_names.at(other) == before.profile_names.at(other),
        after.identity == before.identity,
        after.profiles == before.profiles,
        after.profile_metadata == before.profile_metadata,
{
}

/// A profile name is set to the trimmed text, and a blank one is taken away; a
/// name that is too long is refused. Naming changes that one name alone, and in
/// a sound state it succeeds for every stored mouse.
pub proof fn law_profile_names_are_set(
    manager: &mut DeviceManager,
    device: &DeviceId,
    profile: ProfileId,
    name: &str,
    other: ProfileId,
    sound: Result<(), StateError>,
    r: Result<(), ManagerError>,
)
    requires
        call_ensures(DeviceManager::set_profile_name, (manager, device, profile, name), r),
        call_ensures(StateFile::validate, (&old(manager).state,), sound),
    ensures
        r is Err ==> nothing_changes(old(manager).state, final(manager).state),
        trimmed(name@).len() > 64 ==> (viewed(r) matches Err(error) && error is InvalidUpdate),
        trimmed(name@).len() <= 64 && !old(manager).state.devices@.dom().contains(device@)
            ==> viewed(r) == Err::<(), ManagerErrorView>(ManagerErrorView::DeviceNotFound(device@)),
        trimmed(name@).len() <= 64 && old(manager).state.devices@.dom().contains(device@) && sound
            is Ok ==> r is Ok,
        r is Ok ==> ({
            let before = old(manager).state.devices@[device@];
            let after = final(manager).state.devices@[device@];
            &&& only_mouse_changes(old(manager).state, final(manager).state, device@)
            &&& trimmed(name@).len() > 0 ==> (after.profile_names.at(profile) matches Some(text)
                && text@ == trimmed(name@))
            &&& trimmed(name@).len() == 0 ==> after.profile_names.at(profile) is None
            &&& other != profile ==> after.profile_names.at(other) == before.profile_names.at(other)
            &&& after.identity == before.identity
            &&& after.profiles == before.profiles
            &&& after.profile_metadata == before.profile_metadata
        }),
{
    let before = old(manager).state;
    let after = final(manager).state;
    if normalized_name(name@) is Ok && before.devices@.dom().contains(device@) {
        let text = normalized_name(name@)->Ok_0;
        let changed = choose|changed: DeviceState| #[trigger]
            has_name(before.devices@[device@], changed, profile, text) && stored_if_sound(
                before,
                after,
                device@,
                changed,
                r,
            );
        lemma_one_mouse(before.devices@, device@, changed);
        if sound is Ok {
            law_sound_state_accepts_names(before.devices@, device@, changed, profile, name@);
        }
    }
}

/// Taking a name away clears that one slot, and withdrawing persistence claims
/// keeps every value, every observation and every name. Both change that mouse
/// alone, and an unknown mouse is an error.
pub proof fn law_names_and_claims_are_withdrawn(
    clearing: &mut DeviceManager,
    withdrawing: &mut DeviceManager,
    device: &DeviceId,
    profile: ProfileId,
    other: ProfileId,
    cleared: Result<(), ManagerError>,
    withdrawn: Result<(), ManagerError>,
)
    requires
        call_ensures(DeviceManager::remove_profile_name, (clearing, device, profile), cleared),
        call_ensures(DeviceManager::invalidate_state, (withdrawing, device), withdrawn),
    ensures
        cleared is Err ==> nothing_changes(old(clearing).state, final(clearing).state),
        withdrawn is Err ==> nothing_changes(old(withdrawing).state, final(withdrawing).state),
        !old(clearing).state.devices@.dom().contains(device@) ==> viewed(cleared) == Err::<
            (),
            ManagerErrorView,
        >(ManagerErrorView::DeviceNotFound(device@)),
        !old(withdrawing).state.devices@.dom().contains(device@) ==> viewed(withdrawn) == Err::<
            (),
            ManagerErrorView,
        >(ManagerErrorView::DeviceNotFound(device@)),
        cleared is Ok ==> ({
            let before = old(clearing).state.devices@[device@];
            let after = final(clearing).state.devices@[device@];
            &&& only_mouse_changes(old(clearing).state, final(clearing).state, device@)
            &&& after.profile_names.at(profile) is None
            &&& other != profile ==> after.profile_names.at(other) == before.profile_names.at(other)
            &&& after.identity == before.identity
            &&& after.profiles == before.profiles
            &&& after.profile_metadata == before.profile_metadata
        }),
        withdrawn is Ok ==> ({
            let before = old(withdrawing).state.devices@[device@];
            let after = final(withdrawing).state.devices@[device@];
            &&& only_mouse_changes(old(withdrawing).state, final(withdrawing).state, device@)
            &&& after.identity == before.identity
            &&& after.profile_names == before.profile_names
            &&& only_claim_withdrawn(before.profile_metadata, after.profile_metadata)
            &&& only_claim_withdrawn(dpi_of(before, profile), dpi_of(after, profile))
            &&& only_claim_withdrawn(preferences_of(before, profile), preferences_of(after, profile))
            &&& only_claim_withdrawn(buttons_of(before, profile), buttons_of(after, profile))
            &&& only_claim_withdrawn(rate_of(before, profile), rate_of(after, profile))
        }),
{
    if old(clearing).state.devices@.dom().contains(device@) {
        let before = old(clearing).state;
        let changed = choose|changed: DeviceState| #[trigger]
            has_name(before.devices@[device@], changed, profile, None) && stored_if_sound(
                before,
                final(clearing).state,
                device@,
                changed,
                cleared,
            );
        lemma_one_mouse(before.devices@, device@, changed);
    }
    if old(withdrawing).state.devices@.dom().contains(device@) {
        let before = old(withdrawing).state.devices@;
        lemma_one_mouse(before, device@, before[device@].unproven());
        law_invalidation_withdraws_every_claim(before[device@], profile);
    }
}

/// The exported value is the wanted one, the observed one where nothing is
/// wanted, and none only where neither is there.
pub proof fn law_exports_fall_back_on_observations<T: Copy>(
    resource: &ResourceState<T>,
    r: Option<T>,
)
    requires
        call_ensures(value_for_export::<T>, (resource,), r),
    ensures
        resource.desired matches Some(wanted) ==> r == Some(wanted.value),
        resource.desired is None ==> (resource.observed matches Some(seen) ==> r == Some(
            seen.value,
        )),
        r is None <==> resource.desired is None && resource.observed is None,
{
}

} // verus!
