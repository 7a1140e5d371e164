//! Durable manager state: evidence per resource, devices and the journal of a
//! running identity ceremony.

use vstd::prelude::*;

use crate::device::{logical_key, logical_number, DeviceEndpoint, DeviceId, DeviceIdentity};
use crate::devices::DeviceMap;
use crate::error::{state_result, StateError, StateErrorView};
use crate::exact::{same_option, SameValue};
use crate::protocol::{
    ButtonsState, DpiState, PhysicalId, PollingRate, PreferencesState, ProfileId, ProfileMetadata,
};
use crate::slots::ProfileMap;
use crate::text::{is_blank, same_text, trim, trimmed};

verus! {

/// The version of the state document that this crate describes.
pub const SCHEMA_VERSION: u32 = 4;

/// The longest profile name, in Unicode scalar values.
pub const MAX_PROFILE_NAME_CHARS: usize = 64;

/// Seconds since the Unix epoch.
#[derive(Clone, Copy, Debug, PartialEq, Eq, PartialOrd, Ord, Hash, Structural)]
pub struct Timestamp {
    pub unix_seconds: i64,
}

/// Where a desired value comes from.
#[derive(Clone, Copy, Debug, PartialEq, Eq, Hash, Structural)]
pub enum DesiredSource {
    UserWrite,
    Imported,
    ExplicitDefaults,
}

/// Where an observed value comes from.
#[derive(Clone, Copy, Debug, PartialEq, Eq, Hash, Structural)]
pub enum ObservationSource {
    UsbReadback,
}

/// What is known about a desired value having reached the mouse.
#[derive(Clone, Copy, Debug, PartialEq, Eq, Hash, Structural)]
pub enum ApplicationVerification {
    NotSent,
    Acknowledged,
    ReadbackVerified,
    Mismatch,
}

/// What is known about a desired value surviving in the mouse.
#[derive(Clone, Copy, Debug, PartialEq, Eq, Hash, Structural)]
pub enum PersistenceVerification {
    Unknown,
    ProfileReloadVerified { verified_at: Timestamp },
    PowerCycleVerified { verified_at: Timestamp },
}

impl PersistenceVerification {
    pub fn is_unknown(&self) -> (r: bool)
        ensures
            r == (*self is Unknown),
    {
        match self {
            PersistenceVerification::Unknown => true,
            _ => false,
        }
    }
}

#[derive(Clone, Copy, Debug, PartialEq, Eq, Hash, Structural)]
pub struct Verification {
    pub application: ApplicationVerification,
    pub persistence: PersistenceVerification,
}

impl Verification {
    /// A value that was never sent.
    pub open spec fn unsent() -> Verification {
        Verification {
            application: ApplicationVerification::NotSent,
            persistence: PersistenceVerification::Unknown,
        }
    }

    pub fn not_sent() -> (r: Verification)
        ensures
            r == Verification::unsent(),
    {
        Verification {
            application: ApplicationVerification::NotSent,
            persistence: PersistenceVerification::Unknown,
        }
    }
}

/// A value the user wants, with what is known about it.
#[derive(Clone, Copy, Debug, PartialEq, Eq)]
pub struct DesiredState<T> {
    pub value: T,
    pub source: DesiredSource,
    pub verification: Verification,
    pub updated_at: Timestamp,
}

impl<T: SameValue> SameValue for DesiredState<T> {
    fn same(&self, other: &Self) -> (r: bool) {
        self.value.same(&other.value) && self.source == other.source && self.verification
            == other.verification && self.updated_at == other.updated_at
    }
}

/// A value that was read from the mouse.
#[derive(Clone, Copy, Debug, PartialEq, Eq)]
pub struct ObservedState<T> {
    pub value: T,
    pub source: ObservationSource,
    pub observed_at: Timestamp,
}

impl<T: SameValue> SameValue for ObservedState<T> {
    fn same(&self, other: &Self) -> (r: bool) {
        self.value.same(&other.value) && self.source == other.source && self.observed_at
            == other.observed_at
    }
}

/// Durable evidence for one resource: what is wanted and what was seen.
#[derive(Clone, Copy, Debug, PartialEq, Eq)]
pub struct ResourceState<T> {
    pub desired: Option<DesiredState<T>>,
    pub observed: Option<ObservedState<T>>,
}

impl<T: SameValue> SameValue for ResourceState<T> {
    fn same(&self, other: &Self) -> (r: bool) {
        same_option(&self.desired, &other.desired) && same_option(&self.observed, &other.observed)
    }
}

/// An observation made by USB readback.
pub open spec fn readback<T>(value: T, now: Timestamp) -> ObservedState<T> {
    ObservedState { value, source: ObservationSource::UsbReadback, observed_at: now }
}

/// A desired value with application evidence and no claim to persistence.
pub open spec fn wanted<T>(
    value: T,
    source: DesiredSource,
    application: ApplicationVerification,
    now: Timestamp,
) -> DesiredState<T> {
    DesiredState {
        value,
        source,
        verification: Verification { application, persistence: PersistenceVerification::Unknown },
        updated_at: now,
    }
}

/// The application evidence of a value that was read back.
pub open spec fn readback_verdict<T>(wanted: T, seen: T) -> ApplicationVerification {
    if seen == wanted {
        ApplicationVerification::ReadbackVerified
    } else {
        ApplicationVerification::Mismatch
    }
}

/// A fresh observation confirms a desired value when it is equal to it and not
/// older than it.
pub open spec fn confirms<T>(desired: DesiredState<T>, value: T, now: Timestamp) -> bool {
    value == desired.value && now.unix_seconds >= desired.updated_at.unix_seconds
}

impl<T> ResourceState<T> {
    pub open spec fn nothing() -> ResourceState<T> {
        ResourceState { desired: None, observed: None }
    }

    /// Anything at all is recorded.
    pub open spec fn has_evidence(self) -> bool {
        self.desired is Some || self.observed is Some
    }

    /// After a write that was only acknowledged: the new value is wanted, and
    /// the old observation stays as history.
    pub open spec fn acknowledged(
        self,
        value: T,
        source: DesiredSource,
        now: Timestamp,
    ) -> ResourceState<T> {
        ResourceState {
            desired: Some(wanted(value, source, ApplicationVerification::Acknowledged, now)),
            observed: self.observed,
        }
    }

    /// After a write that was read back.
    pub open spec fn read_back(
        self,
        value: T,
        seen: T,
        source: DesiredSource,
        now: Timestamp,
    ) -> ResourceState<T> {
        ResourceState {
            desired: Some(wanted(value, source, readback_verdict(value, seen), now)),
            observed: Some(readback(seen, now)),
        }
    }

    /// After a fresh observation: it is stored, and a desired value is judged
    /// by it. Persistence is never inferred.
    pub open spec fn reconciled(self, value: T, now: Timestamp) -> ResourceState<T> {
        ResourceState {
            desired: match self.desired {
                None => None,
                Some(desired) => Some(
                    DesiredState {
                        verification: Verification {
                            application: if confirms(desired, value, now) {
                                ApplicationVerification::ReadbackVerified
                            } else {
                                ApplicationVerification::Mismatch
                            },
                            persistence: PersistenceVerification::Unknown,
                        },
                        ..desired
                    },
                ),
            },
            observed: Some(readback(value, now)),
        }
    }

    /// A fresh observation departs from the desired value.
    pub open spec fn drifts(self, value: T, now: Timestamp) -> bool {
        self.desired matches Some(desired) && !confirms(desired, value, now)
    }

    /// The desired value is confirmed by a readback that is still on record.
    pub open spec fn is_confirmed(self) -> bool {
        &&& self.desired matches Some(desired)
        &&& desired.verification.application == ApplicationVerification::ReadbackVerified
        &&& self.observed matches Some(observed)
        &&& observed.value == desired.value
    }

    /// The same evidence with another claim to persistence.
    pub open spec fn with_persistence(self, persistence: PersistenceVerification) -> ResourceState<
        T,
    > {
        match self.desired {
            None => self,
            Some(desired) => ResourceState {
                desired: Some(
                    DesiredState {
                        verification: Verification { persistence, ..desired.verification },
                        ..desired
                    },
                ),
                ..self
            },
        }
    }

    pub fn empty() -> (r: Self)
        ensures
            r == ResourceState::<T>::nothing(),
    {
        ResourceState { desired: None, observed: None }
    }
}

impl<T: Copy + SameValue> ResourceState<T> {
    /// Records a write that was acknowledged and not read back.
    pub fn record_ack_write(&mut self, value: T, source: DesiredSource, now: Timestamp)
        ensures
            *final(self) == old(self).acknowledged(value, source, now),
    {
        self.desired = Some(
            DesiredState {
                value,
                source,
                verification: Verification {
                    application: ApplicationVerification::Acknowledged,
                    persistence: PersistenceVerification::Unknown,
                },
                updated_at: now,
            },
        );
    }

    /// Records a write with immediate readback.
    pub fn record_readback_write(
        &mut self,
        desired: T,
        observed: T,
        source: DesiredSource,
        now: Timestamp,
    )
        ensures
            *final(self) == old(self).read_back(desired, observed, source, now),
    {
        let application = if observed.same(&desired) {
            ApplicationVerification::ReadbackVerified
        } else {
            ApplicationVerification::Mismatch
        };
        self.desired = Some(
            DesiredState {
                value: desired,
                source,
                verification: Verification {
                    application,
                    persistence: PersistenceVerification::Unknown,
                },
                updated_at: now,
            },
        );
        self.observed = Some(
            ObservedState {
                value: observed,
                source: ObservationSource::UsbReadback,
                observed_at: now,
            },
        );
    }

    /// Stores a fresh observation and judges the desired value by it; true
    /// when the desired value is not confirmed.
    pub fn reconcile_observation(&mut self, value: T, now: Timestamp) -> (drift: bool)
        ensures
            *final(self) == old(self).reconciled(value, now),
            drift == old(self).drifts(value, now),
    {
        let mut drift: bool = false;
        if let Some(desired) = self.desired {
            let confirmed: bool = value.same(&desired.value) && now.unix_seconds
                >= desired.updated_at.unix_seconds;
            drift = !confirmed;
            self.desired = Some(
                DesiredState {
                    value: desired.value,
                    source: desired.source,
                    verification: Verification {
                        application: if confirmed {
                            ApplicationVerification::ReadbackVerified
                        } else {
                            ApplicationVerification::Mismatch
                        },
                        persistence: PersistenceVerification::Unknown,
                    },
                    updated_at: desired.updated_at,
                },
            );
        }
        self.observed = Some(
            ObservedState { value, source: ObservationSource::UsbReadback, observed_at: now },
        );
        drift
    }

    fn try_mark(&mut self, persistence: PersistenceVerification) -> (r: bool)
        ensures
            r == old(self).is_confirmed(),
            r ==> *final(self) == old(self).with_persistence(persistence),
            !r ==> *final(self) == *old(self),
    {
        if let Some(desired) = self.desired {
            if let Some(observed) = self.observed {
                if desired.verification.application == ApplicationVerification::ReadbackVerified
                    && observed.value.same(&desired.value) {
                    self.desired = Some(
                        DesiredState {
                            value: desired.value,
                            source: desired.source,
                            verification: Verification {
                                application: desired.verification.application,
                                persistence,
                            },
                            updated_at: desired.updated_at,
                        },
                    );
                    return true;
                }
            }
        }
        false
    }

    /// Claims that the value survived a profile reload; refused without a
    /// matching readback on record.
    pub fn try_mark_profile_reload_verified(&mut self, verified_at: Timestamp) -> (r: bool)
        ensures
            r == old(self).is_confirmed(),
            r ==> *final(self) == old(self).with_persistence(
                PersistenceVerification::ProfileReloadVerified { verified_at },
            ),
            !r ==> *final(self) == *old(self),
    {
        self.try_mark(PersistenceVerification::ProfileReloadVerified { verified_at })
    }

    /// Claims that the value survived a power cycle; refused without a
    /// matching readback on record.
    pub fn try_mark_power_cycle_verified(&mut self, verified_at: Timestamp) -> (r: bool)
        ensures
            r == old(self).is_confirmed(),
            r ==> *final(self) == old(self).with_persistence(
                PersistenceVerification::PowerCycleVerified { verified_at },
            ),
            !r ==> *final(self) == *old(self),
    {
        self.try_mark(PersistenceVerification::PowerCycleVerified { verified_at })
    }

    /// Withdraws every claim to persistence.
    pub fn invalidate_persistence(&mut self)
        ensures
            *final(self) == old(self).with_persistence(PersistenceVerification::Unknown),
    {
        if let Some(desired) = self.desired {
            self.desired = Some(
                DesiredState {
                    value: desired.value,
                    source: desired.source,
                    verification: Verification {
                        application: desired.verification.application,
                        persistence: PersistenceVerification::Unknown,
                    },
                    updated_at: desired.updated_at,
                },
            );
        }
    }
}

/// Evidence stays honest: after a write or an observation nothing is claimed
/// about persistence, an acknowledged write keeps the old observation, a
/// readback counts as verified exactly when it equals the wanted value, and an
/// observation neither creates nor changes a wanted value.
pub proof fn law_evidence_is_honest<T>(
    resource: ResourceState<T>,
    value: T,
    seen: T,
    source: DesiredSource,
    now: Timestamp,
)
    ensures
        resource.acknowledged(value, source, now).desired->0.verification.persistence is Unknown,
        resource.acknowledged(value, source, now).observed == resource.observed,
        resource.read_back(value, seen, source, now).desired->0.verification.persistence is Unknown,
        resource.read_back(value, seen, source, now).desired->0.verification.application
            is ReadbackVerified <==> seen == value,
        resource.read_back(value, seen, source, now).is_confirmed() <==> seen == value,
        resource.reconciled(value, now).desired is Some <==> resource.desired is Some,
        resource.desired matches Some(desired) ==> {
            let after = resource.reconciled(value, now).desired->0;
            &&& after.value == desired.value
            &&& after.source == desired.source
            &&& after.updated_at == desired.updated_at
            &&& after.verification.persistence is Unknown
            &&& after.verification.application is ReadbackVerified <==> !resource.drifts(value, now)
        },
{
}

/// A persistence claim needs a matching readback, and the next observation or
/// write withdraws it.
pub proof fn law_persistence_needs_readback<T>(
    resource: ResourceState<T>,
    claim: PersistenceVerification,
    value: T,
    source: DesiredSource,
    now: Timestamp,
)
    ensures
        !resource.acknowledged(value, source, now).is_confirmed(),
        resource.with_persistence(claim).reconciled(value, now) == resource.reconciled(value, now),
        resource.with_persistence(claim).acknowledged(value, source, now) == resource.acknowledged(
            value,
            source,
            now,
        ),
        resource.with_persistence(claim).is_confirmed() == resource.is_confirmed(),
{
}

/// The four resources of one profile.
#[derive(Clone, Copy, Debug, PartialEq, Eq)]
pub struct ProfileState {
    pub dpi: ResourceState<DpiState>,
    pub preferences: ResourceState<PreferencesState>,
    pub buttons: ResourceState<ButtonsState>,
    pub polling_rate: ResourceState<PollingRate>,
}

impl SameValue for ProfileState {
    fn same(&self, other: &Self) -> (r: bool) {
        self.dpi.same(&other.dpi) && self.preferences.same(&other.preferences) && self.buttons.same(
            &other.buttons,
        ) && self.polling_rate.same(&other.polling_rate)
    }
}

impl ProfileState {
    pub open spec fn nothing() -> ProfileState {
        ProfileState {
            dpi: ResourceState::nothing(),
            preferences: ResourceState::nothing(),
            buttons: ResourceState::nothing(),
            polling_rate: ResourceState::nothing(),
        }
    }

    pub open spec fn has_evidence(self) -> bool {
        self.dpi.has_evidence() || self.preferences.has_evidence() || self.buttons.has_evidence()
            || self.polling_rate.has_evidence()
    }

    pub open spec fn unproven(self) -> ProfileState {
        ProfileState {
            dpi: self.dpi.with_persistence(PersistenceVerification::Unknown),
            preferences: self.preferences.with_persistence(PersistenceVerification::Unknown),
            buttons: self.buttons.with_persistence(PersistenceVerification::Unknown),
            polling_rate: self.polling_rate.with_persistence(PersistenceVerification::Unknown),
        }
    }

    pub fn empty() -> (r: Self)
        ensures
            r == ProfileState::nothing(),
    {
        ProfileState {
            dpi: ResourceState::empty(),
            preferences: ResourceState::empty(),
            buttons: ResourceState::empty(),
            polling_rate: ResourceState::empty(),
        }
    }

    fn invalidate_persistence(&mut self)
        ensures
            *final(self) == old(self).unproven(),
    {
        self.dpi.invalidate_persistence();
        self.preferences.invalidate_persistence();
        self.buttons.invalidate_persistence();
        self.polling_rate.invalidate_persistence();
    }
}

impl Default for ProfileState {
    fn default() -> (r: Self)
        ensures
            r == ProfileState::nothing(),
    {
        ProfileState::empty()
    }
}

/// The state of a profile slot, empty where nothing was recorded yet.
pub open spec fn profile_or_empty(
    profiles: ProfileMap<ProfileState>,
    profile: ProfileId,
) -> ProfileState {
    match profiles.at(profile) {
        Some(state) => state,
        None => ProfileState::nothing(),
    }
}

/// Reads a profile slot, empty where nothing was recorded yet.
pub fn profile_entry(
    profiles: &ProfileMap<ProfileState>,
    profile: ProfileId,
) -> (r: ProfileState)
    ensures
        r == profile_or_empty(*profiles, profile),
{
    match profiles.get(profile) {
        Some(state) => *state,
        None => ProfileState::empty(),
    }
}

/// The profiles and metadata captured from a presented mouse.
#[derive(Clone, Copy, Debug, PartialEq, Eq)]
pub struct CapturedProfileImage {
    pub profile_metadata: ResourceState<ProfileMetadata>,
    pub profiles: ProfileMap<ProfileState>,
}

/// One logical mouse with its evidence.
#[derive(Debug, PartialEq, Eq)]
pub struct DeviceState {
    pub identity: DeviceIdentity,
    pub profile_metadata: ResourceState<ProfileMetadata>,
    pub profiles: ProfileMap<ProfileState>,
    pub profile_names: ProfileMap<String>,
}

/// Copies a map of names.
pub fn clone_names(names: &ProfileMap<String>) -> (r: ProfileMap<String>)
    ensures
        r == *names,
{
    ProfileMap {
        one: names.one.clone(),
        two: names.two.clone(),
        three: names.three.clone(),
        four: names.four.clone(),
        five: names.five.clone(),
    }
}

impl Clone for DeviceState {
    fn clone(&self) -> (r: Self)
        ensures
            r == *self,
    {
        DeviceState {
            identity: self.identity.clone(),
            profile_metadata: self.profile_metadata,
            profiles: self.profiles,
            profile_names: clone_names(&self.profile_names),
        }
    }
}

pub open spec fn any_profile_evidence(profiles: ProfileMap<ProfileState>) -> bool {
    ||| profiles.one matches Some(p) && p.has_evidence()
    ||| profiles.two matches Some(p) && p.has_evidence()
    ||| profiles.three matches Some(p) && p.has_evidence()
    ||| profiles.four matches Some(p) && p.has_evidence()
    ||| profiles.five matches Some(p) && p.has_evidence()
}

pub open spec fn unproven_slot(slot: Option<ProfileState>) -> Option<ProfileState> {
    match slot {
        Some(state) => Some(state.unproven()),
        None => None,
    }
}

fn invalidate_slot(slot: &mut Option<ProfileState>)
    ensures
        *final(slot) == unproven_slot(*old(slot)),
{
    if let Some(state) = *slot {
        let mut changed = state;
        changed.invalidate_persistence();
        *slot = Some(changed);
    }
}

impl DeviceState {
    pub open spec fn fresh(identity: DeviceIdentity) -> DeviceState {
        DeviceState {
            identity,
            profile_metadata: ResourceState::nothing(),
            profiles: ProfileMap::empty(),
            profile_names: ProfileMap::empty(),
        }
    }

    /// Any configuration evidence is recorded.
    pub open spec fn has_evidence(self) -> bool {
        self.profile_metadata.has_evidence() || any_profile_evidence(self.profiles)
    }

    /// The same device with every persistence claim withdrawn.
    pub open spec fn unproven(self) -> DeviceState {
        DeviceState {
            profile_metadata: self.profile_metadata.with_persistence(
                PersistenceVerification::Unknown,
            ),
            profiles: ProfileMap {
                one: unproven_slot(self.profiles.one),
                two: unproven_slot(self.profiles.two),
                three: unproven_slot(self.profiles.three),
                four: unproven_slot(self.profiles.four),
                five: unproven_slot(self.profiles.five),
            },
            ..self
        }
    }

    pub fn new(identity: DeviceIdentity) -> (r: Self)
        ensures
            r == DeviceState::fresh(identity),
    {
        DeviceState {
            identity,
            profile_metadata: ResourceState::empty(),
            profiles: ProfileMap::new(),
            profile_names: ProfileMap::new(),
        }
    }

    /// Withdraws every persistence claim and keeps every value.
    pub fn invalidate_persistence(&mut self)
        ensures
            *final(self) == old(self).unproven(),
    {
        self.profile_metadata.invalidate_persistence();
        invalidate_slot(&mut self.profiles.one);
        invalidate_slot(&mut self.profiles.two);
        invalidate_slot(&mut self.profiles.three);
        invalidate_slot(&mut self.profiles.four);
        invalidate_slot(&mut self.profiles.five);
    }
}

fn profile_has_evidence(slot: &Option<ProfileState>) -> (r: bool)
    ensures
        r == (*slot matches Some(p) && p.has_evidence()),
{
    match slot {
        None => false,
        Some(state) => state.dpi.desired.is_some() || state.dpi.observed.is_some()
            || state.preferences.desired.is_some() || state.preferences.observed.is_some()
            || state.buttons.desired.is_some() || state.buttons.observed.is_some()
            || state.polling_rate.desired.is_some() || state.polling_rate.observed.is_some(),
    }
}

/// Tells whether any configuration evidence is recorded for a device.
pub fn device_has_evidence(state: &DeviceState) -> (r: bool)
    ensures
        r == state.has_evidence(),
{
    state.profile_metadata.desired.is_some() || state.profile_metadata.observed.is_some()
        || profile_has_evidence(&state.profiles.one) || profile_has_evidence(&state.profiles.two)
        || profile_has_evidence(&state.profiles.three) || profile_has_evidence(&state.profiles.four)
        || profile_has_evidence(&state.profiles.five)
}

/// Withdrawing a persistence claim keeps the wanted and the observed value.
pub proof fn law_withdrawn_claim_keeps_values<T>(resource: ResourceState<T>)
    ensures
        ({
            let after = resource.with_persistence(PersistenceVerification::Unknown);
            &&& after.observed == resource.observed
            &&& after.desired is Some <==> resource.desired is Some
            &&& resource.desired matches Some(d) ==> {
                &&& after.desired->0.value == d.value
                &&& after.desired->0.source == d.source
                &&& after.desired->0.updated_at == d.updated_at
                &&& after.desired->0.verification.application == d.verification.application
                &&& after.desired->0.verification.persistence is Unknown
            }
            &&& after.with_persistence(PersistenceVerification::Unknown) == after
        }),
{
}

proof fn lemma_unproven_idempotent(slot: Option<ProfileState>)
    ensures
        unproven_slot(unproven_slot(slot)) == unproven_slot(slot),
{
    if let Some(state) = slot {
        law_withdrawn_claim_keeps_values(state.dpi);
        law_withdrawn_claim_keeps_values(state.preferences);
        law_withdrawn_claim_keeps_values(state.buttons);
        law_withdrawn_claim_keeps_values(state.polling_rate);
    }
}

/// Invalidating a device withdraws the persistence claims of its metadata and
/// of every profile slot, touches neither identity nor names, and is
/// idempotent.
pub proof fn law_invalidation_covers_device(
    device: DeviceState,
    profile: ProfileId,
)
    ensures
        device.unproven().identity == device.identity,
        device.unproven().profile_names == device.profile_names,
        device.unproven().profile_metadata == device.profile_metadata.with_persistence(
            PersistenceVerification::Unknown,
        ),
        device.unproven().profiles.at(profile) == unproven_slot(device.profiles.at(profile)),
        device.unproven().unproven() == device.unproven(),
{
    law_withdrawn_claim_keeps_values(device.profile_metadata);
    lemma_unproven_idempotent(device.profiles.one);
    lemma_unproven_idempotent(device.profiles.two);
    lemma_unproven_idempotent(device.profiles.three);
    lemma_unproven_idempotent(device.profiles.four);
    lemma_unproven_idempotent(device.profiles.five);
}

/// Whether mice are told apart by a physical token.
#[derive(Clone, Copy, Debug, PartialEq, Eq, Hash, Structural)]
pub enum IdentityMode {
    Legacy,
    Persistent,
}

impl IdentityMode {
    pub fn is_legacy(self) -> (r: bool)
        ensures
            r == (self is Legacy),
    {
        match self {
            IdentityMode::Legacy => true,
            IdentityMode::Persistent => false,
        }
    }
}

/// Which ceremony a journal belongs to.
#[derive(Clone, Copy, Debug, PartialEq, Eq, Hash, Structural)]
pub enum IdentitySetupPhase {
    InitialEnrollment,
    AddMouse,
    Restore,
    ForeignAdoption,
    BleAssociation,
}

/// How far a ceremony has come.
#[derive(Clone, Copy, Debug, PartialEq, Eq, Hash, Structural)]
pub enum IdentitySetupStage {
    AwaitingCapture,
    Stamping,
    Finalizing,
}

/// How far one profile of a presented mouse has come.
#[derive(Clone, Copy, Debug, PartialEq, Eq, Hash, Structural)]
pub enum IdentityStampProgress {
    Captured,
    Stamped,
}

/// One presented mouse in a ceremony.
#[derive(Debug, PartialEq, Eq)]
pub struct IdentitySetupSubject {
    pub endpoint: DeviceEndpoint,
    pub device_id: Option<DeviceId>,
    pub token: Option<PhysicalId>,
    pub old_token: Option<PhysicalId>,
    pub captured: Option<CapturedProfileImage>,
    pub stamp_progress: ProfileMap<IdentityStampProgress>,
}

impl Clone for IdentitySetupSubject {
    fn clone(&self) -> (r: Self)
        ensures
            r == *self,
    {
        IdentitySetupSubject {
            endpoint: self.endpoint.clone(),
            device_id: self.device_id.clone(),
            token: self.token,
            old_token: self.old_token,
            captured: self.captured,
            stamp_progress: self.stamp_progress,
        }
    }
}

/// A slot that is empty or stamped.
pub open spec fn slot_done(slot: Option<IdentityStampProgress>) -> bool {
    slot is None || slot == Some(IdentityStampProgress::Stamped)
}

impl IdentitySetupSubject {
    /// There are profiles, and every one of them is stamped.
    pub open spec fn fully_stamped(self) -> bool {
        let p = self.stamp_progress;
        &&& p != ProfileMap::<IdentityStampProgress>::empty()
        &&& slot_done(p.one) && slot_done(p.two) && slot_done(p.three) && slot_done(p.four)
            && slot_done(p.five)
    }

    /// Some profile is stamped.
    pub open spec fn any_stamped(self) -> bool {
        let p = self.stamp_progress;
        let done = Some(IdentityStampProgress::Stamped);
        p.one == done || p.two == done || p.three == done || p.four == done || p.five == done
    }

    pub fn is_fully_stamped(&self) -> (r: bool)
        ensures
            r == self.fully_stamped(),
    {
        !self.stamp_progress.is_empty() && is_done(self.stamp_progress.one) && is_done(
            self.stamp_progress.two,
        ) && is_done(self.stamp_progress.three) && is_done(self.stamp_progress.four) && is_done(
            self.stamp_progress.five,
        )
    }

    pub fn has_stamp(&self) -> (r: bool)
        ensures
            r == self.any_stamped(),
    {
        is_stamped(self.stamp_progress.one) || is_stamped(self.stamp_progress.two) || is_stamped(
            self.stamp_progress.three,
        ) || is_stamped(self.stamp_progress.four) || is_stamped(self.stamp_progress.five)
    }
}

fn is_done(slot: Option<IdentityStampProgress>) -> (r: bool)
    ensures
        r == slot_done(slot),
{
    match slot {
        None => true,
        Some(progress) => progress == IdentityStampProgress::Stamped,
    }
}

pub fn is_stamped(slot: Option<IdentityStampProgress>) -> (r: bool)
    ensures
        r == (slot == Some(IdentityStampProgress::Stamped)),
{
    match slot {
        None => false,
        Some(progress) => progress == IdentityStampProgress::Stamped,
    }
}

/// The durable record of a running ceremony.
#[derive(Debug, PartialEq, Eq)]
pub struct IdentitySetupJournal {
    pub phase: IdentitySetupPhase,
    pub stage: IdentitySetupStage,
    pub subjects: Vec<IdentitySetupSubject>,
}

impl IdentitySetupJournal {
    /// The two journals record the same.
    pub open spec fn agrees(self, other: IdentitySetupJournal) -> bool {
        &&& self.phase == other.phase
        &&& self.stage == other.stage
        &&& self.subjects@ == other.subjects@
    }
}

impl Clone for IdentitySetupJournal {
    fn clone(&self) -> (r: Self)
        ensures
            r.agrees(*self),
    {
        let subjects = self.subjects.clone();
        assert(subjects@ =~= self.subjects@);
        IdentitySetupJournal { phase: self.phase, stage: self.stage, subjects }
    }
}

/// Everything an installation remembers.
#[derive(Debug, PartialEq, Eq)]
pub struct StateFile {
    pub next_device_number: u64,
    pub selected_device: Option<DeviceId>,
    pub devices: DeviceMap,
    pub identity_mode: IdentityMode,
    pub identity_setup: Option<IdentitySetupJournal>,
}

/// A name in the form in which names are stored: trimmed, not blank and not
/// too long.
pub open spec fn name_stored_form(name: Seq<char>) -> bool {
    !is_blank(name) && trimmed(name) == name && name.len() <= MAX_PROFILE_NAME_CHARS
}

pub open spec fn name_slot_ok(slot: Option<String>) -> bool {
    slot matches Some(name) ==> name_stored_form(name@)
}

pub open spec fn names_ok(names: ProfileMap<String>) -> bool {
    name_slot_ok(names.one) && name_slot_ok(names.two) && name_slot_ok(names.three) && name_slot_ok(
        names.four,
    ) && name_slot_ok(names.five)
}

/// What is wrong with a stored device, if anything.
pub open spec fn device_defect(key: Seq<char>, device: DeviceState) -> Option<Seq<char>> {
    if device.identity.id@ != key {
        Some("device key "@ + key + " does not match identity "@ + device.identity.id@)
    } else if device.identity.defect() is Some {
        device.identity.defect()
    } else if !names_ok(device.profile_names) {
        Some("profile name of device "@ + key + " is not in stored form"@)
    } else {
        None
    }
}

fn is_name_slot_ok(slot: &Option<String>) -> (r: bool)
    ensures
        r == name_slot_ok(*slot),
{
    match slot {
        None => true,
        Some(name) => {
            let inner = trim(name.as_str());
            !inner.is_empty() && same_text(inner, name.as_str()) && name.as_str().unicode_len()
                <= MAX_PROFILE_NAME_CHARS
        },
    }
}

fn find_device_defect(key: &DeviceId, device: &DeviceState) -> (r: Result<(), StateError>)
    ensures
        state_result(r) == (match device_defect(key@, *device) {
            Some(detail) => Err(StateErrorView::InvalidState(detail)),
            None => Ok::<(), StateErrorView>(()),
        }),
{
    if !device.identity.id.same_key(key) {
        let mut detail = "device key ".to_owned();
        detail.append(key.as_str());
        detail.append(" does not match identity ");
        detail.append(device.identity.id.as_str());
        return Err(StateError::InvalidState(detail));
    }
    match device.identity.validate() {
        Ok(_) => {},
        Err(error) => {
            return Err(error);
        },
    }
    let names = &device.profile_names;
    if is_name_slot_ok(&names.one) && is_name_slot_ok(&names.two) && is_name_slot_ok(&names.three)
        && is_name_slot_ok(&names.four) && is_name_slot_ok(&names.five) {
        Ok(())
    } else {
        let mut detail = "profile name of device ".to_owned();
        detail.append(key.as_str());
        detail.append(" is not in stored form");
        Err(StateError::InvalidState(detail))
    }
}

/// The device with a key has this defect.
pub open spec fn defect_at(devices: Map<Seq<char>, DeviceState>, key: Seq<char>) -> Option<
    Seq<char>,
> {
    if devices.dom().contains(key) {
        device_defect(key, devices[key])
    } else {
        None
    }
}

impl StateFile {
    /// Every device is stored under its own key, and the next number is larger
    /// than every number in use.
    pub open spec fn inventory(self) -> bool {
        forall|key: Seq<char>| #[trigger]
            self.devices@.dom().contains(key) ==> {
                &&& self.devices@[key].identity.id@ == key
                &&& logical_number(key) matches Some(n)
                &&& n < self.next_device_number
            }
    }

    /// Nothing but the devices differs.
    pub open spec fn same_but_devices(self, other: StateFile) -> bool {
        &&& self.next_device_number == other.next_device_number
        &&& self.selected_device == other.selected_device
        &&& self.identity_mode == other.identity_mode
        &&& self.identity_setup == other.identity_setup
    }

    /// Both files record the same.
    pub open spec fn agrees(self, other: StateFile) -> bool {
        self.same_but_devices(other) && self.devices@ == other.devices@
    }

    /// No stored device has a defect.
    pub open spec fn is_valid(self) -> bool {
        forall|key: Seq<char>| #[trigger]
            self.devices@.dom().contains(key) ==> device_defect(key, self.devices@[key]) is None
    }

    /// The file of a new installation.
    pub fn new() -> (r: StateFile)
        ensures
            r.next_device_number == 1,
            r.selected_device is None,
            r.devices@ == Map::<Seq<char>, DeviceState>::empty(),
            r.identity_mode is Legacy,
            r.identity_setup is None,
            r.inventory(),
    {
        StateFile {
            next_device_number: 1,
            selected_device: None,
            devices: DeviceMap::new(),
            identity_mode: IdentityMode::Legacy,
            identity_setup: None,
        }
    }

    /// Hands out the next logical key. Nothing changes when the numbers have
    /// run out.
    pub fn allocate_device_id(&mut self) -> (r: Result<DeviceId, StateError>)
        ensures
            match r {
                Ok(id) => {
                    &&& 0 < old(self).next_device_number < u64::MAX
                    &&& id@ == logical_key(old(self).next_device_number as nat)
                    &&& *final(self) == (StateFile {
                        next_device_number: (old(self).next_device_number + 1) as u64,
                        ..*old(self)
                    })
                },
                Err(error) => {
                    &&& *final(self) == *old(self)
                    &&& error@ == allocation_error(old(self).next_device_number)
                    &&& !(0 < old(self).next_device_number < u64::MAX)
                },
            },
    {
        let number: u64 = self.next_device_number;
        if number == u64::MAX {
            return Err(StateError::invalid_state("nextDeviceNumber overflow"));
        }
        match DeviceId::from_number(number) {
            Ok(id) => {
                self.next_device_number = number + 1;
                Ok(id)
            },
            Err(error) => Err(error),
        }
    }

    /// Checks every device, in key order, and reports the first defect.
    pub fn validate(&self) -> (r: Result<(), StateError>)
        ensures
            r is Ok <==> self.is_valid(),
            r matches Err(error) ==> exists|key: Seq<char>|
                {
                    &&& #[trigger] defect_at(self.devices@, key) matches Some(detail)
                    &&& error@ == StateErrorView::InvalidState(detail)
                    &&& forall|other: Seq<char>|
                        crate::text::lex_less(other, key) ==> #[trigger] defect_at(
                            self.devices@,
                            other,
                        ) is None
                },
    {
        let len: usize = self.devices.len();
        let mut i: usize = 0;
        while i < len
            invariant
                i <= len,
                len == self.devices.keys().len(),
                self.devices.listed(),
                forall|j: int|
                    0 <= j < i ==> defect_at(
                        self.devices@,
                        #[trigger] self.devices.keys()[j],
                    ) is None,
            decreases len - i,
        {
            let ghost key = self.devices.keys()[i as int];
            assert(self.devices@.dom().contains(key));
            match find_device_defect(self.devices.key_at(i), self.devices.state_at(i)) {
                Ok(_) => {},
                Err(error) => {
                    proof {
                        let detail = defect_at(self.devices@, key)->0;
                        assert forall|other: Seq<char>|
                            crate::text::lex_less(other, key) implies #[trigger] defect_at(
                            self.devices@,
                            other,
                        ) is None by {
                            if self.devices@.dom().contains(other) {
                                let j = choose|j: int|
                                    0 <= j < len && #[trigger] self.devices.keys()[j] == other;
                                if i < j {
                                    crate::text::lemma_lex_transitive(other, key, other);
                                    crate::text::lemma_lex_irreflexive(other);
                                } else if i == j {
                                    crate::text::lemma_lex_irreflexive(other);
                                }
                            }
                        }
                    }
                    return Err(error);
                },
            }
            i = i + 1;
        }
        proof {
            assert forall|key: Seq<char>| #[trigger]
                self.devices@.dom().contains(key) implies device_defect(
                key,
                self.devices@[key],
            ) is None by {
                let j = choose|j: int| 0 <= j < len && #[trigger] self.devices.keys()[j] == key;
                assert(defect_at(self.devices@, self.devices.keys()[j]) is None);
            }
        }
        Ok(())
    }
}

/// Why a key cannot be handed out for a number.
pub open spec fn allocation_error(number: u64) -> StateErrorView {
    if number == u64::MAX {
        StateErrorView::InvalidState("nextDeviceNumber overflow"@)
    } else {
        StateErrorView::InvalidState("device number must be >= 1"@)
    }
}

/// A key that was just handed out belongs to no stored device, and storing a
/// device under it keeps the inventory in order.
pub proof fn law_allocated_key_is_fresh(before: StateFile, after: StateFile, device: DeviceState)
    requires
        before.inventory(),
        0 < before.next_device_number < u64::MAX,
        after.next_device_number == before.next_device_number + 1,
        device.identity.id@ == logical_key(before.next_device_number as nat),
        after.devices@ == before.devices@.insert(device.identity.id@, device),
    ensures
        !before.devices@.dom().contains(device.identity.id@),
        after.inventory(),
{
    let n = before.next_device_number;
    crate::device::lemma_logical_number(device.identity.id@, n);
}

/// A key that is in use is never handed out again, not even after its mouse is
/// forgotten: numbers are only ever handed out upwards.
pub proof fn law_keys_are_never_reused(state: StateFile, key: Seq<char>, later: u64)
    requires
        state.inventory(),
        state.devices@.dom().contains(key),
        later >= state.next_device_number,
    ensures
        key != logical_key(later as nat),
{
    if key == logical_key(later as nat) {
        crate::device::lemma_logical_number(key, later);
    }
}

/// A write puts its value on record as the wanted one, with its source and its
/// time; a readback is put on record as what was seen, whatever was seen.
pub proof fn law_writes_are_put_on_record<T>(
    resource: ResourceState<T>,
    value: T,
    seen: T,
    source: DesiredSource,
    now: Timestamp,
)
    ensures
        resource.acknowledged(value, source, now).desired matches Some(wanted) && {
            &&& wanted.value == value
            &&& wanted.source == source
            &&& wanted.updated_at == now
            &&& wanted.verification.application is Acknowledged
        },
        resource.read_back(value, seen, source, now).desired matches Some(wanted) && {
            &&& wanted.value == value
            &&& wanted.source == source
            &&& wanted.updated_at == now
            &&& wanted.verification.application is Mismatch <==> seen != value
        },
        resource.read_back(value, seen, source, now).observed matches Some(observation) && {
            &&& observation.value == seen
            &&& observation.observed_at == now
            &&& observation.source is UsbReadback
        },
{
}

/// A fresh observation is put on record with its time, whatever was known
/// before. It departs from a wanted value exactly when it differs from it or is
/// older, and only then the wanted value counts as a mismatch.
pub proof fn law_observations_are_put_on_record<T>(
    resource: ResourceState<T>,
    value: T,
    now: Timestamp,
)
    ensures
        resource.reconciled(value, now).observed matches Some(observation) && {
            &&& observation.value == value
            &&& observation.observed_at == now
            &&& observation.source is UsbReadback
        },
        resource.desired is None ==> !resource.drifts(value, now) && resource.reconciled(
            value,
            now,
        ).desired is None,
        resource.desired matches Some(wanted) ==> {
            &&& resource.drifts(value, now) <==> value != wanted.value || now.unix_seconds
                < wanted.updated_at.unix_seconds
            &&& resource.drifts(value, now) <==> resource.reconciled(
                value,
                now,
            ).desired->0.verification.application is Mismatch
        },
{
}

/// A claim to persistence is put on a wanted value and changes nothing else;
/// it is granted where the value was just read back as it was sent, and never
/// while what was last seen differs from what is wanted.
pub proof fn law_claims_rest_on_what_was_seen<T>(
    resource: ResourceState<T>,
    claim: PersistenceVerification,
    value: T,
    source: DesiredSource,
    now: Timestamp,
)
    ensures
        resource.desired matches Some(wanted) ==> {
            let after = resource.with_persistence(claim);
            &&& after.observed == resource.observed
            &&& after.desired == Some(
                DesiredState {
                    verification: Verification {
                        application: wanted.verification.application,
                        persistence: claim,
                    },
                    ..wanted
                },
            )
        },
        resource.desired is None ==> resource.with_persistence(claim) == resource,
        resource.read_back(value, value, source, now).is_confirmed(),
        resource.is_confirmed() ==> resource.desired is Some && resource.observed is Some
            && resource.observed->0.value == resource.desired->0.value
            && resource.desired->0.verification.application is ReadbackVerified,
        resource.desired is Some && value == resource.desired->0.value && now.unix_seconds
            >= resource.desired->0.updated_at.unix_seconds ==> resource.reconciled(
            value,
            now,
        ).is_confirmed(),
        resource.desired is Some && value != resource.desired->0.value ==> !resource.reconciled(
            value,
            now,
        ).is_confirmed(),
{
}

/// The resource holds neither a wanted nor an observed value.
pub open spec fn is_bare<T>(resource: ResourceState<T>) -> bool {
    resource.desired is None && resource.observed is None
}

/// A device carries evidence exactly when its metadata or some resource of some
/// profile slot holds a wanted or an observed value.
pub proof fn law_evidence_is_any_value(device: DeviceState, profile: ProfileId)
    ensures
        !is_bare(device.profile_metadata) ==> device.has_evidence(),
        device.profiles.at(profile) matches Some(slot) && !(is_bare(slot.dpi) && is_bare(
            slot.preferences,
        ) && is_bare(slot.buttons) && is_bare(slot.polling_rate)) ==> device.has_evidence(),
        device.has_evidence() ==> !is_bare(device.profile_metadata) || exists|p: ProfileId|
            {
                &&& #[trigger] device.profiles.at(p) matches Some(slot)
                &&& !is_bare(slot.dpi) || !is_bare(slot.preferences) || !is_bare(slot.buttons)
                    || !is_bare(slot.polling_rate)
            },
        !DeviceState::fresh(device.identity).has_evidence(),
        DeviceState::fresh(device.identity).identity == device.identity,
        DeviceState::fresh(device.identity).profile_names.at(profile) is None,
        is_bare(ResourceState::<PollingRate>::nothing()),
        ProfileState::nothing() == profile_or_empty(
            DeviceState::fresh(device.identity).profiles,
            profile,
        ),
        is_bare(ProfileState::nothing().dpi) && is_bare(ProfileState::nothing().preferences)
            && is_bare(ProfileState::nothing().buttons) && is_bare(
            ProfileState::nothing().polling_rate,
        ),
        device.profiles.at(profile) matches Some(slot) ==> profile_or_empty(
            device.profiles,
            profile,
        ) == slot,
{
    if device.has_evidence() && is_bare(device.profile_metadata) {
        if device.profiles.one matches Some(p) && p.has_evidence() {
            assert(device.profiles.at(ProfileId::One) is Some);
        } else if device.profiles.two matches Some(p) && p.has_evidence() {
            assert(device.profiles.at(ProfileId::Two) is Some);
        } else if device.profiles.three matches Some(p) && p.has_evidence() {
            assert(device.profiles.at(ProfileId::Three) is Some);
        } else if device.profiles.four matches Some(p) && p.has_evidence() {
            assert(device.profiles.at(ProfileId::Four) is Some);
        } else {
            assert(device.profiles.at(ProfileId::Five) is Some);
        }
    }
}

/// Nothing but the claim to persistence differs, and that claim is gone.
pub open spec fn only_claim_withdrawn<T>(before: ResourceState<T>, after: ResourceState<T>) -> bool {
    &&& after.observed == before.observed
    &&& after.desired is Some <==> before.desired is Some
    &&& before.desired matches Some(wanted) ==> after.desired == Some(
        DesiredState {
            verification: Verification {
                application: wanted.verification.application,
                persistence: PersistenceVerification::Unknown,
            },
            ..wanted
        },
    )
}

/// Invalidating a device withdraws the claim of its metadata and of every
/// resource of every profile slot, and changes nothing else.
pub proof fn law_invalidation_withdraws_every_claim(device: DeviceState, profile: ProfileId)
    ensures
        only_claim_withdrawn(device.profile_metadata, device.unproven().profile_metadata),
        device.profiles.at(profile) is None <==> device.unproven().profiles.at(profile) is None,
        device.profiles.at(profile) matches Some(before) ==> {
            &&& device.unproven().profiles.at(profile) matches Some(after)
            &&& only_claim_withdrawn(before.dpi, after.dpi)
            &&& only_claim_withdrawn(before.preferences, after.preferences)
            &&& only_claim_withdrawn(before.buttons, after.buttons)
            &&& only_claim_withdrawn(before.polling_rate, after.polling_rate)
        },
{
}

/// A presented mouse is fully stamped when at least one profile was captured
/// and none of those that were is still without its stamp.
pub proof fn law_stamps_are_counted_per_profile(subject: IdentitySetupSubject, profile: ProfileId)
    ensures
        subject.fully_stamped() <==> {
            &&& exists|p: ProfileId| (#[trigger] subject.stamp_progress.at(p)) is Some
            &&& forall|p: ProfileId|
                (#[trigger] subject.stamp_progress.at(p)) != Some(IdentityStampProgress::Captured)
        },
        subject.any_stamped() <==> exists|p: ProfileId|
            (#[trigger] subject.stamp_progress.at(p)) == Some(IdentityStampProgress::Stamped),
        subject.stamp_progress.at(profile) == Some(IdentityStampProgress::Captured)
            ==> !subject.fully_stamped(),
        subject.fully_stamped() ==> subject.any_stamped(),
{
    let p = subject.stamp_progress;
    crate::slots::law_profile_slots_are_separate(p, profile, None, profile);
    assert(p.at(ProfileId::One) == p.one);
    assert(p.at(ProfileId::Two) == p.two);
    assert(p.at(ProfileId::Three) == p.three);
    assert(p.at(ProfileId::Four) == p.four);
    assert(p.at(ProfileId::Five) == p.five);
    let some = exists|slot: ProfileId| (#[trigger] p.at(slot)) is Some;
    assert(some <==> p != ProfileMap::<IdentityStampProgress>::empty());
    let none_left = forall|slot: ProfileId|
        (#[trigger] p.at(slot)) != Some(IdentityStampProgress::Captured);
    let all_done = slot_done(p.one) && slot_done(p.two) && slot_done(p.three) && slot_done(p.four)
        && slot_done(p.five);
    if none_left {
        lemma_slot_done(p.at(ProfileId::One));
        lemma_slot_done(p.at(ProfileId::Two));
        lemma_slot_done(p.at(ProfileId::Three));
        lemma_slot_done(p.at(ProfileId::Four));
        lemma_slot_done(p.at(ProfileId::Five));
        assert(all_done);
    }
    if all_done {
        assert forall|slot: ProfileId|
            (#[trigger] p.at(slot)) != Some(IdentityStampProgress::Captured) by {
            match slot {
                ProfileId::One => {},
                ProfileId::Two => {},
                ProfileId::Three => {},
                ProfileId::Four => {},
                ProfileId::Five => {},
            }
        }
    }
}

proof fn lemma_slot_done(slot: Option<IdentityStampProgress>)
    ensures
        slot_done(slot) <==> slot != Some(IdentityStampProgress::Captured),
{
    match slot {
        None => {},
        Some(IdentityStampProgress::Captured) => {},
        Some(IdentityStampProgress::Stamped) => {},
    }
}

/// A stored device is sound exactly when it stands under its own key, its
/// identity has no defect, and each of its profile names is trimmed, not blank
/// and not too long.
pub proof fn law_sound_devices(key: Seq<char>, device: DeviceState, profile: ProfileId)
    ensures
        device_defect(key, device) is None ==> {
            &&& device.identity.id@ == key
            &&& device.identity.defect() is None
            &&& device.profile_names.at(profile) matches Some(name) ==> {
                &&& trimmed(name@) == name@
                &&& 0 < name@.len() <= 64
            }
        },
        device_defect(key, device) is Some ==> device.identity.id@ != key
            || device.identity.defect() is Some || exists|p: ProfileId|
            {
                &&& #[trigger] device.profile_names.at(p) matches Some(name)
                &&& trimmed(name@) != name@ || name@.len() == 0 || name@.len() > 64
            },
{
    let names = device.profile_names;
    if device_defect(key, device) is Some && device.identity.id@ == key
        && device.identity.defect() is None {
        if !name_slot_ok(names.one) {
            assert(names.at(ProfileId::One) is Some);
        } else if !name_slot_ok(names.two) {
            assert(names.at(ProfileId::Two) is Some);
        } else if !name_slot_ok(names.three) {
            assert(names.at(ProfileId::Three) is Some);
        } else if !name_slot_ok(names.four) {
            assert(names.at(ProfileId::Four) is Some);
        } else {
            assert(names.at(ProfileId::Five) is Some);
        }
    }
}

/// A claim to persistence is granted exactly where the wanted value was
/// verified by a readback and what was last observed is still that value. It
/// then carries its own time and changes nothing else; a refused claim changes
/// nothing.
pub proof fn law_claims_need_a_matching_readback<T: Copy + SameValue>(
    reloaded: &mut ResourceState<T>,
    cycled: &mut ResourceState<T>,
    verified_at: Timestamp,
    after_reload: bool,
    after_cycle: bool,
)
    requires
        *old(reloaded) == *old(cycled),
        call_ensures(
            ResourceState::<T>::try_mark_profile_reload_verified,
            (reloaded, verified_at),
            after_reload,
        ),
        call_ensures(
            ResourceState::<T>::try_mark_power_cycle_verified,
            (cycled, verified_at),
            after_cycle,
        ),
    ensures
        ({
            let before = *old(reloaded);
            let verified = before.desired is Some && before.observed is Some
                && before.desired->0.verification.application is ReadbackVerified
                && before.observed->0.value == before.desired->0.value;
            &&& after_reload <==> verified
            &&& after_cycle <==> verified
            &&& !verified ==> *final(reloaded) == before && *final(cycled) == before
            &&& verified ==> {
                &&& final(reloaded).observed == before.observed
                &&& final(cycled).observed == before.observed
                &&& final(reloaded).desired matches Some(wanted) && wanted.value
                    == before.desired->0.value && wanted.source == before.desired->0.source
                    && wanted.updated_at == before.desired->0.updated_at
                    && wanted.verification.application is ReadbackVerified
                    && wanted.verification.persistence
                    == (PersistenceVerification::ProfileReloadVerified { verified_at })
                &&& final(cycled).desired matches Some(wanted) && wanted.value
                    == before.desired->0.value && wanted.source == before.desired->0.source
                    && wanted.updated_at == before.desired->0.updated_at
                    && wanted.verification.application is ReadbackVerified
                    && wanted.verification.persistence
                    == (PersistenceVerification::PowerCycleVerified { verified_at })
            }
        }),
{
}

/// A state file is valid exactly when every mouse stands under its own key with
/// a sound identity and with names that are trimmed, not blank and not longer
/// than 64 code points.
pub proof fn law_files_are_checked_whole(
    state: &StateFile,
    r: Result<(), StateError>,
    key: Seq<char>,
    profile: ProfileId,
)
    requires
        call_ensures(StateFile::validate, (state,), r),
    ensures
        r is Ok && state.devices@.dom().contains(key) ==> {
            let device = state.devices@[key];
            &&& device.identity.id@ == key
            &&& device.identity.defect() is None
            &&& device.profile_names.at(profile) matches Some(name) ==> trimmed(name@) == name@
                && 0 < name@.len() <= 64
        },
        r is Err ==> exists|bad: Seq<char>|
            {
                &&& #[trigger] state.devices@.dom().contains(bad)
                &&& state.devices@[bad].identity.id@ != bad || state.devices@[bad].identity.defect()
                    is Some || exists|p: ProfileId|
                    {
                        &&& #[trigger] state.devices@[bad].profile_names.at(p) matches Some(name)
                        &&& trimmed(name@) != name@ || name@.len() == 0 || name@.len() > 64
                    }
            },
{
    if r is Ok && state.devices@.dom().contains(key) {
        law_sound_devices(key, state.devices@[key], profile);
    }
    if r is Err {
        let bad = choose|bad: Seq<char>| #[trigger]
            state.devices@.dom().contains(bad) && device_defect(bad, state.devices@[bad]) is Some;
        law_sound_devices(bad, state.devices@[bad], profile);
    }
}

} // verus!
