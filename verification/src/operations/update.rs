//! Writes of one resource.

use vstd::pervasive::unreached;
use vstd::prelude::*;

use crate::device::DeviceId;
use crate::error::{viewed, ManagerError, ManagerErrorView};
use crate::manager::{not_found, DeviceManager};
use crate::operation::{UpdatePolicy, VerificationMethod, WriteOutcome};
use crate::operations::baseline::{
    baseline_choice, baseline_result, choose_baseline_source, find_resource, missing_baseline,
    stored_baseline, stored_resource, BaselineChoice,
};
use crate::protocol::{
    ButtonsState, DpiState, PhysicalId, PreferencesState, ProfileId, TransportKind,
};
use crate::resources::buttons::{apply_slot_delta, rebound, ButtonSlotDelta};
use crate::resources::evidence::{
    buttons_of, buttons_on_record, dpi_of, dpi_on_record, is_put, is_reported, lemma_one_mouse,
    nothing_changes, only_mouse_changes, only_slot_changes, preferences_of, preferences_on_record,
    rate_of, starts_from,
};
use crate::resources::settings::{
    captured_preferences, merge_preferences_delta, merged_preferences, PreferencesDelta,
};
use crate::resources::state::{
    finish_write, finished, outcome_of, persist_write, resource_at, with_resource, written,
    ProfileResource,
};
use crate::session::{is_written_form, SessionReply, SessionRequest, SessionWrite, Step};
use crate::state::{StateFile, Timestamp};

verus! {

/// A write is recorded whatever came of it, and reported.
pub open spec fn write_ends<T: ProfileResource>(
    before: StateFile,
    after: StateFile,
    device: Seq<char>,
    profile: ProfileId,
    desired: T,
    write: SessionWrite<T>,
    name: Seq<char>,
    now: Timestamp,
    r: Result<WriteOutcome<T>, ManagerError>,
) -> bool {
    &&& after.same_but_devices(before)
    &&& if before.devices@.dom().contains(device) {
        let state = before.devices@[device];
        &&& viewed(r) == finished(outcome_of(desired, write), name, profile)
        &&& after.devices@ == before.devices@.insert(
            device,
            with_resource::<T>(
                state,
                profile,
                written(resource_at::<T>(state, profile), desired, write, now),
            ),
        )
    } else {
        &&& viewed(r) == Err::<WriteOutcome<T>, ManagerErrorView>(not_found(device))
        &&& after.devices@ == before.devices@
    }
}

pub(crate) fn end_write<T: ProfileResource>(
    state: &mut StateFile,
    device: &DeviceId,
    profile: ProfileId,
    desired: T,
    write: SessionWrite<T>,
    name: &'static str,
    now: Timestamp,
) -> (r: Result<WriteOutcome<T>, ManagerError>)
    ensures
        write_ends(*old(state), *final(state), device@, profile, desired, write, name@, now, r),
{
    match persist_write(state, device, profile, desired, write, now) {
        Ok(outcome) => finish_write(outcome, name, profile),
        Err(error) => Err(error),
    }
}

/// The image targets another profile than the request does.
pub open spec fn profile_conflict(
    image: ProfileId,
    requested: ProfileId,
    detail: Seq<char>,
) -> Result<(), ManagerErrorView> {
    if image == requested {
        Ok(())
    } else {
        Err(ManagerErrorView::InvalidUpdate(detail))
    }
}

fn require_profile(image: ProfileId, requested: ProfileId, detail: &str) -> (r: Result<
    (),
    ManagerError,
>)
    ensures
        viewed(r) == profile_conflict(image, requested, detail@),
{
    if image != requested {
        return Err(ManagerError::InvalidUpdate(detail.to_owned()));
    }
    Ok(())
}

/// Refuses a sensitivity image for another profile; to be asked before the
/// mouse is opened.
pub fn check_dpi_update(profile: ProfileId, desired: &DpiState) -> (r: Result<(), ManagerError>)
    ensures
        viewed(r) == profile_conflict(
            desired.profile,
            profile,
            "DPI state profile does not match requested profile"@,
        ),
{
    require_profile(
        desired.profile,
        profile,
        "DPI state profile does not match requested profile",
    )
}

/// Refuses a preferences image for another profile; to be asked before the
/// mouse is opened.
pub fn check_preferences_update(profile: ProfileId, desired: &PreferencesState) -> (r: Result<
    (),
    ManagerError,
>)
    ensures
        viewed(r) == profile_conflict(
            desired.profile,
            profile,
            "preferences state profile does not match requested profile"@,
        ),
{
    require_profile(
        desired.profile,
        profile,
        "preferences state profile does not match requested profile",
    )
}

/// An empty partial update is refused.
pub open spec fn preferences_delta_check(delta: PreferencesDelta) -> Result<(), ManagerErrorView> {
    if delta.names_nothing() {
        Err(
            ManagerErrorView::InvalidUpdate(
                "preferences delta must provide at least one field"@,
            ),
        )
    } else {
        Ok(())
    }
}

/// Refuses an empty partial update; to be asked before the mouse is opened.
pub fn check_preferences_delta(delta: PreferencesDelta) -> (r: Result<(), ManagerError>)
    ensures
        viewed(r) == preferences_delta_check(delta),
{
    if delta.is_empty() {
        return Err(
            ManagerError::InvalidUpdate(
                "preferences delta must provide at least one field".to_owned(),
            ),
        );
    }
    Ok(())
}

/// Over BLE a complete image may replace an unknown one only with explicit
/// authorization.
pub open spec fn overwrites_unknown<T: ProfileResource>(
    state: StateFile,
    device: Seq<char>,
    profile: ProfileId,
    transport: TransportKind,
    policy: UpdatePolicy,
) -> bool {
    transport is Ble && !policy.allow_explicit_defaults && !stored_resource::<T>(
        state,
        device,
        profile,
    ).has_evidence()
}

/// Tells whether anything is on record for a resource.
pub fn has_baseline<T: ProfileResource>(
    state: &StateFile,
    device: &DeviceId,
    profile: ProfileId,
) -> (r: bool)
    ensures
        r == stored_resource::<T>(*state, device@, profile).has_evidence(),
{
    let resource = find_resource::<T>(state, device, profile);
    resource.desired.is_some() || resource.observed.is_some()
}

/// A write of a complete sensitivity image that waits for its outcome.
#[derive(Debug, PartialEq, Eq)]
pub struct DpiUpdate {
    pub device: DeviceId,
    pub profile: ProfileId,
    /// The image that was handed out to be written.
    pub sent: DpiState,
    /// The token with which it was to be stamped.
    pub stamp: Option<PhysicalId>,
}

/// Over USB the image is read back; over BLE it is only acknowledged.
pub open spec fn strongest(transport: TransportKind) -> VerificationMethod {
    if transport.is_usb() {
        VerificationMethod::Readback
    } else {
        VerificationMethod::Transport
    }
}

impl DpiUpdate {
    /// The reply is about the image that was handed out.
    pub open spec fn accepts(self, reply: SessionReply) -> bool {
        ||| reply is Failed
        ||| {
            &&& reply matches SessionReply::DpiWritten { desired, .. }
            &&& is_written_form(self.sent, self.stamp, desired)
        }
    }

    /// Records the outcome. The wanted image is the one that was sent, with
    /// the watermark of the mouse.
    pub fn finish(self, manager: &mut DeviceManager, reply: SessionReply, now: Timestamp) -> (r:
        Result<WriteOutcome<DpiState>, ManagerError>)
        requires
            self.accepts(reply),
        ensures
            final(manager).identity_cache == old(manager).identity_cache,
            match reply {
                SessionReply::DpiWritten { desired, write, .. } => write_ends(
                    old(manager).state,
                    final(manager).state,
                    self.device@,
                    self.profile,
                    desired,
                    write,
                    "DPI"@,
                    now,
                    r,
                ),
                SessionReply::Failed(error) => r == Err::<WriteOutcome<DpiState>, ManagerError>(
                    error,
                ) && final(manager).state == old(manager).state,
                _ => true,
            },
    {
        match reply {
            SessionReply::DpiWritten { desired, write, watermark: _ } => end_write(
                &mut manager.state,
                &self.device,
                self.profile,
                desired,
                write,
                "DPI",
                now,
            ),
            SessionReply::Failed(error) => Err(error),
            _ => unreached(),
        }
    }
}

/// How far an update of one section has come.
#[derive(Clone, Copy, Debug, PartialEq, Eq)]
pub enum SectionStage<D, V> {
    /// The image to start from is being read.
    Baseline { delta: D, verification: VerificationMethod },
    /// The complete image is being written.
    Write { desired: V },
}

/// An update of one profile's preferences under way.
#[derive(Debug, PartialEq, Eq)]
pub struct PreferencesUpdate {
    pub device: DeviceId,
    pub profile: ProfileId,
    pub stage: SectionStage<PreferencesDelta, PreferencesState>,
}

impl PreferencesUpdate {
    /// The reply is one that the update waits for.
    pub open spec fn accepts(self, reply: SessionReply) -> bool {
        ||| reply is Failed
        ||| match self.stage {
            SectionStage::Baseline { .. } => reply is Preferences,
            SectionStage::Write { .. } => reply is PreferencesWritten,
        }
    }

    /// The complete image is sent.
    pub open spec fn sends(
        device: DeviceId,
        profile: ProfileId,
        desired: PreferencesState,
        verification: VerificationMethod,
    ) -> Step<PreferencesUpdate, WriteOutcome<PreferencesState>> {
        Step::Ask {
            request: SessionRequest::WritePreferences { state: desired, verification },
            next: PreferencesUpdate { device, profile, stage: SectionStage::Write { desired } },
        }
    }

    fn send(
        device: DeviceId,
        profile: ProfileId,
        desired: PreferencesState,
        verification: VerificationMethod,
    ) -> (r: Step<PreferencesUpdate, WriteOutcome<PreferencesState>>)
        ensures
            r == PreferencesUpdate::sends(device, profile, desired, verification),
    {
        Step::Ask {
            request: SessionRequest::WritePreferences { state: desired, verification },
            next: PreferencesUpdate { device, profile, stage: SectionStage::Write { desired } },
        }
    }

    /// How a reply takes the update on.
    pub open spec fn follows(
        self,
        before: StateFile,
        after: StateFile,
        reply: SessionReply,
        now: Timestamp,
        step: Step<PreferencesUpdate, WriteOutcome<PreferencesState>>,
    ) -> bool {
        match (self.stage, reply) {
            (_, SessionReply::Failed(error)) => {
                &&& step == Step::<PreferencesUpdate, WriteOutcome<PreferencesState>>::Done(
                    Err(error),
                )
                &&& after == before
            },
            (
                SectionStage::Baseline { delta, verification },
                SessionReply::Preferences(baseline),
            ) => {
                &&& step == PreferencesUpdate::sends(
                    self.device,
                    self.profile,
                    merged_preferences(baseline, delta),
                    verification,
                )
                &&& after == before
            },
            (SectionStage::Write { desired }, SessionReply::PreferencesWritten(write)) => {
                &&& step matches Step::Done(outcome)
                &&& write_ends(
                    before,
                    after,
                    self.device@,
                    self.profile,
                    desired,
                    write,
                    "preferences"@,
                    now,
                    outcome,
                )
            },
            _ => true,
        }
    }

    /// Goes on with the reply to the request that was handed out last.
    pub fn resume(self, manager: &mut DeviceManager, reply: SessionReply, now: Timestamp) -> (r: Step<
        PreferencesUpdate,
        WriteOutcome<PreferencesState>,
    >)
        requires
            self.accepts(reply),
        ensures
            final(manager).identity_cache == old(manager).identity_cache,
            self.follows(old(manager).state, final(manager).state, reply, now, r),
    {
        match (self.stage, reply) {
            (_, SessionReply::Failed(error)) => Step::Done(Err(error)),
            (
                SectionStage::Baseline { delta, verification },
                SessionReply::Preferences(baseline),
            ) => PreferencesUpdate::send(
                self.device,
                self.profile,
                merge_preferences_delta(baseline, delta),
                verification,
            ),
            (SectionStage::Write { desired }, SessionReply::PreferencesWritten(write)) =>
                Step::Done(
                end_write(
                    &mut manager.state,
                    &self.device,
                    self.profile,
                    desired,
                    write,
                    "preferences",
                    now,
                ),
            ),
            _ => unreached(),
        }
    }
}

/// A table with one slot rebound.
pub open spec fn is_rebound(
    baseline: ButtonsState,
    deltas: Seq<ButtonSlotDelta>,
    desired: ButtonsState,
) -> bool {
    &&& desired.profile == baseline.profile
    &&& desired.slots@ == rebound(baseline.slots@, deltas)
}

/// An update of one button slot under way.
#[derive(Debug, PartialEq, Eq)]
pub struct ButtonsUpdate {
    pub device: DeviceId,
    pub stage: SectionStage<ButtonSlotDelta, ButtonsState>,
}

impl ButtonsUpdate {
    /// The reply is one that the update waits for.
    pub open spec fn accepts(self, reply: SessionReply) -> bool {
        ||| reply is Failed
        ||| match self.stage {
            SectionStage::Baseline { .. } => reply is Buttons,
            SectionStage::Write { .. } => reply is ButtonsWritten,
        }
    }

    /// The complete table is sent, with the one slot rebound.
    pub open spec fn sends(
        device: DeviceId,
        baseline: ButtonsState,
        delta: ButtonSlotDelta,
        verification: VerificationMethod,
        step: Step<ButtonsUpdate, WriteOutcome<ButtonsState>>,
    ) -> bool {
        &&& step matches Step::Ask { request, next }
        &&& next.device == device
        &&& next.stage matches SectionStage::Write { desired }
        &&& is_rebound(baseline, seq![delta], desired)
        &&& request == (SessionRequest::WriteButtons { state: desired, verification })
    }

    fn send(
        device: DeviceId,
        baseline: ButtonsState,
        delta: ButtonSlotDelta,
        verification: VerificationMethod,
    ) -> (r: Step<ButtonsUpdate, WriteOutcome<ButtonsState>>)
        ensures
            ButtonsUpdate::sends(device, baseline, delta, verification, r),
    {
        let desired = apply_slot_delta(baseline, delta);
        proof {
            reveal_with_fuel(rebound, 2);
            assert(seq![delta].drop_last() =~= Seq::<ButtonSlotDelta>::empty());
            assert(seq![delta].last() == delta);
        }
        Step::Ask {
            request: SessionRequest::WriteButtons { state: desired, verification },
            next: ButtonsUpdate { device, stage: SectionStage::Write { desired } },
        }
    }

    /// How a reply takes the update on. The write is recorded under the
    /// profile that the table itself names.
    pub open spec fn follows(
        self,
        before: StateFile,
        after: StateFile,
        reply: SessionReply,
        now: Timestamp,
        step: Step<ButtonsUpdate, WriteOutcome<ButtonsState>>,
    ) -> bool {
        match (self.stage, reply) {
            (_, SessionReply::Failed(error)) => {
                &&& step == Step::<ButtonsUpdate, WriteOutcome<ButtonsState>>::Done(Err(error))
                &&& after == before
            },
            (SectionStage::Baseline { delta, verification }, SessionReply::Buttons(baseline)) => {
                &&& ButtonsUpdate::sends(self.device, baseline, delta, verification, step)
                &&& after == before
            },
            (SectionStage::Write { desired }, SessionReply::ButtonsWritten(write)) => {
                &&& step matches Step::Done(outcome)
                &&& write_ends(
                    before,
                    after,
                    self.device@,
                    desired.profile,
                    desired,
                    write,
                    "buttons"@,
                    now,
                    outcome,
                )
            },
            _ => true,
        }
    }

    /// Goes on with the reply to the request that was handed out last.
    pub fn resume(self, manager: &mut DeviceManager, reply: SessionReply, now: Timestamp) -> (r: Step<
        ButtonsUpdate,
        WriteOutcome<ButtonsState>,
    >)
        requires
            self.accepts(reply),
        ensures
            final(manager).identity_cache == old(manager).identity_cache,
            self.follows(old(manager).state, final(manager).state, reply, now, r),
    {
        match (self.stage, reply) {
            (_, SessionReply::Failed(error)) => Step::Done(Err(error)),
            (SectionStage::Baseline { delta, verification }, SessionReply::Buttons(baseline)) =>
                ButtonsUpdate::send(self.device, baseline, delta, verification),
            (SectionStage::Write { desired }, SessionReply::ButtonsWritten(write)) => Step::Done(
                end_write(
                    &mut manager.state,
                    &self.device,
                    desired.profile,
                    desired,
                    write,
                    "buttons",
                    now,
                ),
            ),
            _ => unreached(),
        }
    }
}

impl DeviceManager {
    /// The token that marks a stored mouse, where it has one.
    pub(crate) fn own_marker(&self, device: &DeviceId) -> (r: Result<
        Option<PhysicalId>,
        ManagerError,
    >)
        ensures
            viewed(r) == (if self.state.devices@.dom().contains(device@) {
                Ok(self.state.devices@[device@].identity.physical_id)
            } else {
                Err(not_found(device@))
            }),
    {
        match self.state.devices.get(device) {
            Some(stored) => Ok(stored.identity.physical_id),
            None => Err(ManagerError::DeviceNotFound(device.clone())),
        }
    }

    /// Begins to write a complete sensitivity image, stamped with the token
    /// of the mouse where it has one.
    pub fn update_dpi(
        &self,
        device: &DeviceId,
        profile: ProfileId,
        desired: DpiState,
        policy: UpdatePolicy,
        transport: TransportKind,
    ) -> (r: Step<DpiUpdate, WriteOutcome<DpiState>>)
        ensures
            if desired.profile != profile {
                r matches Step::Done(Err(error)) && error@ == ManagerErrorView::InvalidUpdate(
                    "DPI state profile does not match requested profile"@,
                )
            } else if !self.state.devices@.dom().contains(device@) {
                r matches Step::Done(Err(error)) && error@ == not_found(device@)
            } else if overwrites_unknown::<DpiState>(
                self.state,
                device@,
                profile,
                transport,
                policy,
            ) {
                r matches Step::Done(Err(error)) && error@ == missing_baseline("DPI"@, profile)
            } else {
                let stamp = self.state.devices@[device@].identity.physical_id;
                r == (Step::<DpiUpdate, WriteOutcome<DpiState>>::Ask {
                    request: SessionRequest::WriteDpi {
                        state: desired,
                        stamp,
                        verification: strongest(transport),
                    },
                    next: DpiUpdate { device: *device, profile, sent: desired, stamp },
                })
            },
    {
        if let Err(error) = check_dpi_update(profile, &desired) {
            return Step::Done(Err(error));
        }
        let stamp = match self.own_marker(device) {
            Ok(stamp) => stamp,
            Err(error) => {
                return Step::Done(Err(error));
            },
        };
        let verification = match transport {
            TransportKind::Ble => {
                if !policy.allow_explicit_defaults && !has_baseline::<DpiState>(
                    &self.state,
                    device,
                    profile,
                ) {
                    return Step::Done(
                        Err(
                            ManagerError::MissingBaseline {
                                resource: "DPI",
                                profile: Some(profile),
                            },
                        ),
                    );
                }
                VerificationMethod::Transport
            },
            TransportKind::Wired | TransportKind::Receiver => VerificationMethod::Readback,
        };
        Step::Ask {
            request: SessionRequest::WriteDpi { state: desired, stamp, verification },
            next: DpiUpdate { device: device.clone(), profile, sent: desired, stamp },
        }
    }

    /// Begins to write a complete preferences image with the requested
    /// verification.
    pub fn update_preferences(
        &self,
        device: &DeviceId,
        profile: ProfileId,
        desired: PreferencesState,
        policy: UpdatePolicy,
        transport: TransportKind,
    ) -> (r: Step<PreferencesUpdate, WriteOutcome<PreferencesState>>)
        ensures
            if desired.profile != profile {
                r matches Step::Done(Err(error)) && error@ == ManagerErrorView::InvalidUpdate(
                    "preferences state profile does not match requested profile"@,
                )
            } else if overwrites_unknown::<PreferencesState>(
                self.state,
                device@,
                profile,
                transport,
                policy,
            ) {
                r matches Step::Done(Err(error)) && error@ == missing_baseline(
                    "preferences"@,
                    profile,
                )
            } else {
                r == PreferencesUpdate::sends(*device, profile, desired, policy.verification)
            },
    {
        if let Err(error) = check_preferences_update(profile, &desired) {
            return Step::Done(Err(error));
        }
        let ble: bool = match transport {
            TransportKind::Ble => true,
            _ => false,
        };
        if ble && !policy.allow_explicit_defaults && !has_baseline::<PreferencesState>(
            &self.state,
            device,
            profile,
        ) {
            return Step::Done(
                Err(
                    ManagerError::MissingBaseline {
                        resource: "preferences",
                        profile: Some(profile),
                    },
                ),
            );
        }
        PreferencesUpdate::send(device.clone(), profile, desired, policy.verification)
    }

    /// Begins to lay a partial update over the preferences, after finding a
    /// complete image to start from.
    pub fn update_preferences_delta(
        &self,
        device: &DeviceId,
        profile: ProfileId,
        delta: PreferencesDelta,
        policy: UpdatePolicy,
        transport: TransportKind,
    ) -> (r: Step<PreferencesUpdate, WriteOutcome<PreferencesState>>)
        ensures
            if delta.names_nothing() {
                r matches Step::Done(outcome) && outcome matches Err(error)
                    && preferences_delta_check(delta) == Err::<(), ManagerErrorView>(error@)
            } else {
                match baseline_choice(transport, policy) {
                    BaselineChoice::Live => r == (Step::<
                        PreferencesUpdate,
                        WriteOutcome<PreferencesState>,
                    >::Ask {
                        request: SessionRequest::ReadPreferences(profile),
                        next: PreferencesUpdate {
                            device: *device,
                            profile,
                            stage: SectionStage::Baseline {
                                delta,
                                verification: policy.verification,
                            },
                        },
                    }),
                    BaselineChoice::Stored { allow_explicit_defaults } => match baseline_result(
                        stored_baseline(
                            stored_resource::<PreferencesState>(self.state, device@, profile),
                            allow_explicit_defaults,
                            captured_preferences(profile),
                        ),
                        "preferences"@,
                        profile,
                    ) {
                        Ok(baseline) => r == PreferencesUpdate::sends(
                            *device,
                            profile,
                            merged_preferences(baseline, delta),
                            policy.verification,
                        ),
                        Err(refusal) => r matches Step::Done(Err(error)) && error@ == refusal,
                    },
                }
            },
    {
        if let Err(error) = check_preferences_delta(delta) {
            return Step::Done(Err(error));
        }
        match choose_baseline_source(transport, policy) {
            BaselineChoice::Live => Step::Ask {
                request: SessionRequest::ReadPreferences(profile),
                next: PreferencesUpdate {
                    device: device.clone(),
                    profile,
                    stage: SectionStage::Baseline { delta, verification: policy.verification },
                },
            },
            BaselineChoice::Stored { allow_explicit_defaults } =>
                match self.load_stored_preferences_baseline(
                device,
                profile,
                allow_explicit_defaults,
            ) {
                Ok(baseline) => PreferencesUpdate::send(
                    device.clone(),
                    profile,
                    merge_preferences_delta(baseline, delta),
                    policy.verification,
                ),
                Err(error) => Step::Done(Err(error)),
            },
        }
    }

    /// Begins to rebind one button slot, after finding a complete table to
    /// start from.
    pub fn update_button_slot(
        &self,
        device: &DeviceId,
        profile: ProfileId,
        delta: ButtonSlotDelta,
        policy: UpdatePolicy,
        transport: TransportKind,
        default_image: ButtonsState,
    ) -> (r: Step<ButtonsUpdate, WriteOutcome<ButtonsState>>)
        ensures
            match baseline_choice(transport, policy) {
                BaselineChoice::Live => r == (Step::<ButtonsUpdate, WriteOutcome<ButtonsState>>::Ask {
                    request: SessionRequest::ReadButtons(profile),
                    next: ButtonsUpdate {
                        device: *device,
                        stage: SectionStage::Baseline { delta, verification: policy.verification },
                    },
                }),
                BaselineChoice::Stored { allow_explicit_defaults } => match baseline_result(
                    stored_baseline(
                        stored_resource::<ButtonsState>(self.state, device@, profile),
                        allow_explicit_defaults,
                        default_image,
                    ),
                    "buttons"@,
                    profile,
                ) {
                    Ok(baseline) => ButtonsUpdate::sends(
                        *device,
                        baseline,
                        delta,
                        policy.verification,
                        r,
                    ),
                    Err(refusal) => r matches Step::Done(Err(error)) && error@ == refusal,
                },
            },
    {
        match choose_baseline_source(transport, policy) {
            BaselineChoice::Live => Step::Ask {
                request: SessionRequest::ReadButtons(profile),
                next: ButtonsUpdate {
                    device: device.clone(),
                    stage: SectionStage::Baseline { delta, verification: policy.verification },
                },
            },
            BaselineChoice::Stored { allow_explicit_defaults } =>
                match self.load_stored_buttons_baseline(
                device,
                profile,
                allow_explicit_defaults,
                default_image,
            ) {
                Ok(baseline) => ButtonsUpdate::send(
                    device.clone(),
                    baseline,
                    delta,
                    policy.verification,
                ),
                Err(error) => Step::Done(Err(error)),
            },
        }
    }
}

/// The image has each field that the update names as the update says and every
/// other one as the baseline has it.
pub open spec fn is_overlay(
    baseline: PreferencesState,
    delta: PreferencesDelta,
    image: PreferencesState,
) -> bool {
    &&& image.profile == baseline.profile
    &&& image.light_mode == (if delta.light_mode is Some {
        delta.light_mode->0
    } else {
        baseline.light_mode
    })
    &&& image.configuration == (if delta.configuration is Some {
        delta.configuration->0
    } else {
        baseline.configuration
    })
    &&& image.deep_sleep == (if delta.deep_sleep is Some {
        delta.deep_sleep->0
    } else {
        baseline.deep_sleep
    })
    &&& image.host_color == (if delta.host_color is Some {
        delta.host_color->0
    } else {
        baseline.host_color
    })
    &&& image.sleep_timer == (if delta.sleep_timer is Some {
        delta.sleep_timer->0
    } else {
        baseline.sleep_timer
    })
    &&& image.debounce == (if delta.debounce is Some {
        delta.debounce->0
    } else {
        baseline.debounce
    })
}

/// The table has the one slot bound as the update says and every other slot as
/// the baseline has it.
pub open spec fn binds_one(
    baseline: ButtonsState,
    delta: ButtonSlotDelta,
    table: ButtonsState,
) -> bool {
    let at = delta.target().position() as int;
    &&& table.profile == baseline.profile
    &&& 0 <= at < table.slots@.len()
    &&& table.slots@[at] == delta.bound().triplet()
    &&& forall|other: int|
        0 <= other < baseline.slots@.len() && other != at ==> #[trigger] table.slots@[other]
            == baseline.slots@[other]
}

proof fn lemma_binds_one(baseline: ButtonsState, delta: ButtonSlotDelta, table: ButtonsState)
    requires
        is_rebound(baseline, seq![delta], table),
    ensures
        binds_one(baseline, delta, table),
{
    reveal_with_fuel(rebound, 2);
    assert(seq![delta].drop_last() =~= Seq::<ButtonSlotDelta>::empty());
    assert(seq![delta].last() == delta);
    crate::resources::buttons::law_slots_are_distinct(delta.target(), delta.target());
}

/// A complete sensitivity image is sent as it was given, with the token of the
/// mouse, and read back over USB. It is refused for another profile, for an
/// unknown mouse, and over BLE where nothing is on record and defaults are not
/// authorized.
pub proof fn law_dpi_updates_send_the_image(
    manager: &DeviceManager,
    device: &DeviceId,
    profile: ProfileId,
    desired: DpiState,
    policy: UpdatePolicy,
    transport: TransportKind,
    r: Step<DpiUpdate, WriteOutcome<DpiState>>,
)
    requires
        call_ensures(
            DeviceManager::update_dpi,
            (manager, device, profile, desired, policy, transport),
            r,
        ),
    ensures
        ({
            let stored = manager.state.devices@.dom().contains(device@);
            let record = dpi_on_record(manager.state, device@, profile);
            let known = record.desired is Some || record.observed is Some;
            let token = manager.state.devices@[device@].identity.physical_id;
            &&& r is Ask <==> desired.profile == profile && stored && (!(transport is Ble) || known
                || policy.allow_explicit_defaults)
            &&& r matches Step::Ask { request, next } ==> {
                &&& request matches SessionRequest::WriteDpi { state, stamp, verification }
                &&& state == desired
                &&& stamp == token
                &&& verification is Readback <==> !(transport is Ble)
                &&& next == (DpiUpdate { device: *device, profile, sent: desired, stamp: token })
            }
            &&& r matches Step::Done(outcome) ==> {
                &&& outcome matches Err(error)
                &&& desired.profile != profile ==> error@ is InvalidUpdate
                &&& desired.profile == profile && !stored ==> error@
                    == ManagerErrorView::DeviceNotFound(device@)
                &&& desired.profile == profile && stored ==> error@
                    == (ManagerErrorView::MissingBaseline {
                    resource: "DPI"@,
                    profile: Some(profile),
                })
            }
        }),
{
}

/// The outcome of a sensitivity write is recorded for the profile whatever it
/// is, with the image that was sent as the wanted one, and reported.
pub proof fn law_dpi_writes_are_recorded(
    update: DpiUpdate,
    manager: &mut DeviceManager,
    reply: SessionReply,
    now: Timestamp,
    r: Result<WriteOutcome<DpiState>, ManagerError>,
)
    requires
        call_ensures(DpiUpdate::finish, (update, manager, reply, now), r),
        reply is DpiWritten || reply is Failed,
    ensures
        only_mouse_changes(old(manager).state, final(manager).state, update.device@),
        reply matches SessionReply::Failed(error) ==> nothing_changes(
            old(manager).state,
            final(manager).state,
        ) && r == Err::<WriteOutcome<DpiState>, ManagerError>(error),
        reply matches SessionReply::DpiWritten { desired, write, watermark } ==> ({
            let before = old(manager).state.devices@[update.device@];
            let after = final(manager).state.devices@[update.device@];
            if old(manager).state.devices@.dom().contains(update.device@) {
                &&& is_put(
                    dpi_of(before, update.profile),
                    desired,
                    write,
                    now,
                    dpi_of(after, update.profile),
                )
                &&& is_reported(desired, write, "DPI"@, update.profile, r)
                &&& preferences_of(after, update.profile) == preferences_of(before, update.profile)
                &&& buttons_of(after, update.profile) == buttons_of(before, update.profile)
                &&& rate_of(after, update.profile) == rate_of(before, update.profile)
                &&& after.profile_metadata == before.profile_metadata
                &&& only_slot_changes(before, after, update.profile)
            } else {
                viewed(r) == Err::<WriteOutcome<DpiState>, ManagerErrorView>(
                    ManagerErrorView::DeviceNotFound(update.device@),
                )
            }
        }),
{
    if old(manager).state.devices@.dom().contains(update.device@) {
        lemma_one_mouse(
            old(manager).state.devices@,
            update.device@,
            final(manager).state.devices@[update.device@],
        );
    }
}

/// A complete preferences image is sent as it was given, with the verification
/// that was asked for. It is refused for another profile, and over BLE where
/// nothing is on record and defaults are not authorized.
pub proof fn law_preferences_updates_send_the_image(
    manager: &DeviceManager,
    device: &DeviceId,
    profile: ProfileId,
    desired: PreferencesState,
    policy: UpdatePolicy,
    transport: TransportKind,
    r: Step<PreferencesUpdate, WriteOutcome<PreferencesState>>,
)
    requires
        call_ensures(
            DeviceManager::update_preferences,
            (manager, device, profile, desired, policy, transport),
            r,
        ),
    ensures
        ({
            let record = preferences_on_record(manager.state, device@, profile);
            let known = record.desired is Some || record.observed is Some;
            &&& r is Ask <==> desired.profile == profile && (!(transport is Ble) || known
                || policy.allow_explicit_defaults)
            &&& r matches Step::Ask { request, next } ==> {
                &&& request == (SessionRequest::WritePreferences {
                    state: desired,
                    verification: policy.verification,
                })
                &&& next == (PreferencesUpdate {
                    device: *device,
                    profile,
                    stage: SectionStage::Write { desired },
                })
            }
            &&& r matches Step::Done(outcome) ==> {
                &&& outcome matches Err(error)
                &&& desired.profile != profile ==> error@ is InvalidUpdate
                &&& desired.profile == profile ==> error@ == (ManagerErrorView::MissingBaseline {
                    resource: "preferences"@,
                    profile: Some(profile),
                })
            }
        }),
{
}

/// A partial preferences update that names a field reads the profile's image
/// where it can be read and the policy asks for it, and elsewhere lays the
/// update over the image on record. One that names no field is refused, and so
/// is one without an image to start from.
pub proof fn law_partial_preferences_start_from_an_image(
    manager: &DeviceManager,
    device: &DeviceId,
    profile: ProfileId,
    delta: PreferencesDelta,
    policy: UpdatePolicy,
    transport: TransportKind,
    r: Step<PreferencesUpdate, WriteOutcome<PreferencesState>>,
)
    requires
        call_ensures(
            DeviceManager::update_preferences_delta,
            (manager, device, profile, delta, policy, transport),
            r,
        ),
    ensures
        ({
            let empty = delta.light_mode is None && delta.configuration is None
                && delta.deep_sleep is None && delta.host_color is None && delta.sleep_timer is None
                && delta.debounce is None;
            let live = !(transport is Ble) && policy.baseline is Live;
            &&& empty ==> (r matches Step::Done(Err(error)) && error@ is InvalidUpdate)
            &&& !empty && live ==> (r matches Step::Ask { request, next } && request
                == SessionRequest::ReadPreferences(profile) && next == (PreferencesUpdate {
                device: *device,
                profile,
                stage: SectionStage::Baseline { delta, verification: policy.verification },
            }))
            &&& !empty && !live ==> exists|image: Option<PreferencesState>| #[trigger]
                starts_from(
                    preferences_on_record(manager.state, device@, profile),
                    policy.allow_explicit_defaults,
                    captured_preferences(profile),
                    image,
                ) && match image {
                    Some(baseline) => {
                        &&& r matches Step::Ask { request, next }
                        &&& request matches SessionRequest::WritePreferences {
                            state,
                            verification,
                        }
                        &&& is_overlay(baseline, delta, state)
                        &&& verification == policy.verification
                        &&& next == (PreferencesUpdate {
                            device: *device,
                            profile,
                            stage: SectionStage::Write { desired: state },
                        })
                    },
                    None => r matches Step::Done(Err(error)) && error@
                        == (ManagerErrorView::MissingBaseline {
                        resource: "preferences"@,
                        profile: Some(profile),
                    }),
                }
        }),
{
    let record = preferences_on_record(manager.state, device@, profile);
    let image = stored_baseline(
        record,
        policy.allow_explicit_defaults,
        captured_preferences(profile),
    );
    assert(record == stored_resource::<PreferencesState>(manager.state, device@, profile));
    assert(starts_from(
        record,
        policy.allow_explicit_defaults,
        captured_preferences(profile),
        image,
    ));
}

/// An image that was read for a partial preferences update is sent with the
/// update laid over it; nothing is recorded before it was written. What comes of
/// the write is recorded for the profile, and nothing else changes.
pub proof fn law_preferences_writes_are_recorded(
    update: PreferencesUpdate,
    manager: &mut DeviceManager,
    reply: SessionReply,
    now: Timestamp,
    r: Step<PreferencesUpdate, WriteOutcome<PreferencesState>>,
)
    requires
        call_ensures(PreferencesUpdate::resume, (update, manager, reply, now), r),
        reply is Failed || (update.stage is Baseline && reply is Preferences) || (update.stage
            is Write && reply is PreferencesWritten),
    ensures
        only_mouse_changes(old(manager).state, final(manager).state, update.device@),
        reply matches SessionReply::Failed(error) ==> nothing_changes(
            old(manager).state,
            final(manager).state,
        ) && r == Step::<PreferencesUpdate, WriteOutcome<PreferencesState>>::Done(Err(error)),
        reply matches SessionReply::Preferences(baseline) ==> {
            &&& nothing_changes(old(manager).state, final(manager).state)
            &&& update.stage matches SectionStage::Baseline { delta, verification }
            &&& r matches Step::Ask { request, next }
            &&& request matches SessionRequest::WritePreferences { state, verification: asked }
            &&& is_overlay(baseline, delta, state)
            &&& asked == verification
            &&& next == (PreferencesUpdate {
                stage: SectionStage::Write { desired: state },
                ..update
            })
        },
        reply matches SessionReply::PreferencesWritten(write) ==> ({
            let before = old(manager).state.devices@[update.device@];
            let after = final(manager).state.devices@[update.device@];
            &&& update.stage matches SectionStage::Write { desired }
            &&& r matches Step::Done(outcome)
            &&& if old(manager).state.devices@.dom().contains(update.device@) {
                &&& is_put(
                    preferences_of(before, update.profile),
                    desired,
                    write,
                    now,
                    preferences_of(after, update.profile),
                )
                &&& is_reported(desired, write, "preferences"@, update.profile, outcome)
                &&& dpi_of(after, update.profile) == dpi_of(before, update.profile)
                &&& buttons_of(after, update.profile) == buttons_of(before, update.profile)
                &&& rate_of(after, update.profile) == rate_of(before, update.profile)
                &&& after.profile_metadata == before.profile_metadata
                &&& only_slot_changes(before, after, update.profile)
            } else {
                viewed(outcome) == Err::<WriteOutcome<PreferencesState>, ManagerErrorView>(
                    ManagerErrorView::DeviceNotFound(update.device@),
                )
            }
        }),
{
    if old(manager).state.devices@.dom().contains(update.device@) {
        lemma_one_mouse(
            old(manager).state.devices@,
            update.device@,
            final(manager).state.devices@[update.device@],
        );
    }
}

/// Rebinding one slot reads the profile's table where it can be read and the
/// policy asks for it, and elsewhere starts from the table on record; without
/// one it is refused.
pub proof fn law_button_updates_start_from_a_table(
    manager: &DeviceManager,
    device: &DeviceId,
    profile: ProfileId,
    delta: ButtonSlotDelta,
    policy: UpdatePolicy,
    transport: TransportKind,
    default_image: ButtonsState,
    r: Step<ButtonsUpdate, WriteOutcome<ButtonsState>>,
)
    requires
        call_ensures(
            DeviceManager::update_button_slot,
            (manager, device, profile, delta, policy, transport, default_image),
            r,
        ),
    ensures
        ({
            let live = !(transport is Ble) && policy.baseline is Live;
            &&& live ==> (r matches Step::Ask { request, next } && request
                == SessionRequest::ReadButtons(profile) && next == (ButtonsUpdate {
                device: *device,
                stage: SectionStage::Baseline { delta, verification: policy.verification },
            }))
            &&& !live ==> exists|image: Option<ButtonsState>| #[trigger]
                starts_from(
                    buttons_on_record(manager.state, device@, profile),
                    policy.allow_explicit_defaults,
                    default_image,
                    image,
                ) && match image {
                    Some(baseline) => {
                        &&& r matches Step::Ask { request, next }
                        &&& request matches SessionRequest::WriteButtons { state, verification }
                        &&& binds_one(baseline, delta, state)
                        &&& verification == policy.verification
                        &&& next == (ButtonsUpdate {
                            device: *device,
                            stage: SectionStage::Write { desired: state },
                        })
                    },
                    None => r matches Step::Done(Err(error)) && error@
                        == (ManagerErrorView::MissingBaseline {
                        resource: "buttons"@,
                        profile: Some(profile),
                    }),
                }
        }),
{
    let record = buttons_on_record(manager.state, device@, profile);
    let image = stored_baseline(record, policy.allow_explicit_defaults, default_image);
    assert(record == stored_resource::<ButtonsState>(manager.state, device@, profile));
    assert(starts_from(record, policy.allow_explicit_defaults, default_image, image));
    if let Some(baseline) = image {
        if transport is Ble || !(policy.baseline is Live) {
            assert(ButtonsUpdate::sends(*device, baseline, delta, policy.verification, r));
            if let Step::Ask { request, next } = r {
                if let SectionStage::Write { desired } = next.stage {
                    lemma_binds_one(baseline, delta, desired);
                }
            }
        }
    }
}

/// A table that was read for a button update is sent with the one slot rebound.
/// What comes of the write is recorded for the profile that the table names,
/// and nothing else changes.
pub proof fn law_button_writes_are_recorded(
    update: ButtonsUpdate,
    manager: &mut DeviceManager,
    reply: SessionReply,
    now: Timestamp,
    r: Step<ButtonsUpdate, WriteOutcome<ButtonsState>>,
)
    requires
        call_ensures(ButtonsUpdate::resume, (update, manager, reply, now), r),
        reply is Failed || (update.stage is Baseline && reply is Buttons) || (update.stage
            is Write && reply is ButtonsWritten),
    ensures
        only_mouse_changes(old(manager).state, final(manager).state, update.device@),
        reply matches SessionReply::Failed(error) ==> nothing_changes(
            old(manager).state,
            final(manager).state,
        ) && r == Step::<ButtonsUpdate, WriteOutcome<ButtonsState>>::Done(Err(error)),
        reply matches SessionReply::Buttons(baseline) ==> {
            &&& nothing_changes(old(manager).state, final(manager).state)
            &&& update.stage matches SectionStage::Baseline { delta, verification }
            &&& r matches Step::Ask { request, next }
            &&& request matches SessionRequest::WriteButtons { state, verification: asked }
            &&& binds_one(baseline, delta, state)
            &&& asked == verification
            &&& next == (ButtonsUpdate { stage: SectionStage::Write { desired: state }, ..update })
        },
        reply matches SessionReply::ButtonsWritten(write) ==> ({
            let before = old(manager).state.devices@[update.device@];
            let after = final(manager).state.devices@[update.device@];
            &&& update.stage matches SectionStage::Write { desired }
            &&& r matches Step::Done(outcome)
            &&& if old(manager).state.devices@.dom().contains(update.device@) {
                &&& is_put(
                    buttons_of(before, desired.profile),
                    desired,
                    write,
                    now,
                    buttons_of(after, desired.profile),
                )
                &&& is_reported(desired, write, "buttons"@, desired.profile, outcome)
                &&& dpi_of(after, desired.profile) == dpi_of(before, desired.profile)
                &&& preferences_of(after, desired.profile) == preferences_of(
                    before,
                    desired.profile,
                )
                &&& rate_of(after, desired.profile) == rate_of(before, desired.profile)
                &&& after.profile_metadata == before.profile_metadata
                &&& only_slot_changes(before, after, desired.profile)
            } else {
                viewed(outcome) == Err::<WriteOutcome<ButtonsState>, ManagerErrorView>(
                    ManagerErrorView::DeviceNotFound(update.device@),
                )
            }
        }),
{
    if old(manager).state.devices@.dom().contains(update.device@) {
        lemma_one_mouse(
            old(manager).state.devices@,
            update.device@,
            final(manager).state.devices@[update.device@],
        );
    }
    if let SessionReply::Buttons(baseline) = reply {
        if let SectionStage::Baseline { delta, verification } = update.stage {
            if let Step::Ask { request, next } = r {
                if let SectionStage::Write { desired } = next.stage {
                    lemma_binds_one(baseline, delta, desired);
                }
            }
        }
    }
}

/// An image for another profile is refused before anything is opened, and so
/// is a partial update that names no field.
pub proof fn law_updates_are_checked_beforehand(
    profile: ProfileId,
    dpi: &DpiState,
    preferences: &PreferencesState,
    delta: PreferencesDelta,
    dpi_checked: Result<(), ManagerError>,
    preferences_checked: Result<(), ManagerError>,
    delta_checked: Result<(), ManagerError>,
)
    requires
        call_ensures(check_dpi_update, (profile, dpi), dpi_checked),
        call_ensures(check_preferences_update, (profile, preferences), preferences_checked),
        call_ensures(check_preferences_delta, (delta,), delta_checked),
    ensures
        dpi_checked is Ok <==> dpi.profile == profile,
        preferences_checked is Ok <==> preferences.profile == profile,
        delta_checked is Ok <==> delta.light_mode is Some || delta.configuration is Some
            || delta.deep_sleep is Some || delta.host_color is Some || delta.sleep_timer is Some
            || delta.debounce is Some,
        dpi_checked is Err ==> (viewed(dpi_checked) matches Err(error) && error is InvalidUpdate),
        preferences_checked is Err ==> (viewed(preferences_checked) matches Err(error)
            && error is InvalidUpdate),
        delta_checked is Err ==> (viewed(delta_checked) matches Err(error)
            && error is InvalidUpdate),
{
}

/// Applying one slot update binds its slot and no other.
pub proof fn law_slot_updates_bind_one_slot(
    baseline: ButtonsState,
    delta: ButtonSlotDelta,
    r: ButtonsState,
)
    requires
        call_ensures(apply_slot_delta, (baseline, delta), r),
    ensures
        binds_one(baseline, delta, r),
{
    crate::resources::buttons::law_slots_are_distinct(delta.target(), delta.target());
}

} // verus!
