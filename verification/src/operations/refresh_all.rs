//! Recording a capture of all profiles.

use vstd::prelude::*;

use crate::device::DeviceId;
use crate::error::{viewed, ManagerError, ManagerErrorView};
use crate::manager::{not_found, DeviceManager};
use crate::operation::{FullProfileRefreshOutcome, ProfileResourceKind, RefreshedProfile};
use crate::protocol::{ProfileId, TransportKind};
use crate::refresh::{capture_all_profiles, Capture, ProfileCapture};
use crate::resources::evidence::{
    buttons_of, dpi_of, is_seen, lemma_one_mouse, lemma_reconciled_is_seen, only_mouse_changes,
    preferences_of, rate_of,
};
use crate::session::{SessionRequest, Step};
use crate::slots::{lemma_in_sum, ProfileMap};
use crate::state::{DeviceState, ProfileState, ResourceState, Timestamp};

verus! {

/// A profile after all four of its resources were observed.
pub open spec fn profile_refreshed(
    state: ProfileState,
    seen: RefreshedProfile,
    now: Timestamp,
) -> ProfileState {
    ProfileState {
        dpi: state.dpi.reconciled(seen.dpi, now),
        preferences: state.preferences.reconciled(seen.preferences, now),
        buttons: state.buttons.reconciled(seen.buttons, now),
        polling_rate: state.polling_rate.reconciled(seen.polling_rate, now),
    }
}

/// A profile slot after a refresh; one that was not captured stays as it is.
pub open spec fn slot_refreshed(
    slot: Option<ProfileState>,
    seen: Option<RefreshedProfile>,
    now: Timestamp,
) -> Option<ProfileState> {
    match (slot, seen) {
        (_, None) => slot,
        (Some(state), Some(seen)) => Some(profile_refreshed(state, seen, now)),
        (None, Some(seen)) => Some(profile_refreshed(ProfileState::nothing(), seen, now)),
    }
}

pub open spec fn if_drifted(drifted: bool, kind: ProfileResourceKind) -> Seq<ProfileResourceKind> {
    if drifted {
        seq![kind]
    } else {
        seq![]
    }
}

/// The resources of a profile whose observation departs from what is wanted.
pub open spec fn profile_drift(
    state: ProfileState,
    seen: RefreshedProfile,
    now: Timestamp,
) -> Seq<ProfileResourceKind> {
    if_drifted(state.dpi.drifts(seen.dpi, now), ProfileResourceKind::Dpi) + if_drifted(
        state.preferences.drifts(seen.preferences, now),
        ProfileResourceKind::Preferences,
    ) + if_drifted(
        state.buttons.drifts(seen.buttons, now),
        ProfileResourceKind::Buttons,
    ) + if_drifted(
        state.polling_rate.drifts(seen.polling_rate, now),
        ProfileResourceKind::PollingRate,
    )
}

/// The drift of a slot, empty where the slot was not captured.
pub open spec fn slot_drift(
    slot: Option<ProfileState>,
    seen: Option<RefreshedProfile>,
    now: Timestamp,
) -> Seq<ProfileResourceKind> {
    match (slot, seen) {
        (Some(state), Some(seen)) => profile_drift(state, seen, now),
        _ => seq![],
    }
}

/// A slot of the drift report: present exactly where something drifted.
pub open spec fn reports_drift(
    report: Option<Vec<ProfileResourceKind>>,
    drift: Seq<ProfileResourceKind>,
) -> bool {
    match report {
        Some(list) => list@ == drift && drift.len() > 0,
        None => drift.len() == 0,
    }
}

fn refresh_slot(
    slot: &mut Option<ProfileState>,
    seen: Option<RefreshedProfile>,
    now: Timestamp,
) -> (r: Option<Vec<ProfileResourceKind>>)
    ensures
        *final(slot) == slot_refreshed(*old(slot), seen, now),
        reports_drift(r, slot_drift(*old(slot), seen, now)),
{
    let seen = match seen {
        Some(seen) => seen,
        None => {
            return None;
        },
    };
    let mut state = match *slot {
        Some(state) => state,
        None => ProfileState::empty(),
    };
    let ghost before = state;
    let mut drift: Vec<ProfileResourceKind> = Vec::new();
    if state.dpi.reconcile_observation(seen.dpi, now) {
        drift.push(ProfileResourceKind::Dpi);
    }
    if state.preferences.reconcile_observation(seen.preferences, now) {
        drift.push(ProfileResourceKind::Preferences);
    }
    if state.buttons.reconcile_observation(seen.buttons, now) {
        drift.push(ProfileResourceKind::Buttons);
    }
    if state.polling_rate.reconcile_observation(seen.polling_rate, now) {
        drift.push(ProfileResourceKind::PollingRate);
    }
    assert(drift@ =~= profile_drift(before, seen, now));
    assert(slot_drift(*slot, Some(seen), now) =~= drift@);
    *slot = Some(state);
    if drift.len() == 0 {
        None
    } else {
        Some(drift)
    }
}

/// A device after a capture was recorded. Wanted values are never replaced.
pub open spec fn device_refreshed(
    device: DeviceState,
    capture: ProfileCapture,
    now: Timestamp,
) -> DeviceState {
    DeviceState {
        profile_metadata: device.profile_metadata.reconciled(capture.restored_metadata, now),
        profiles: ProfileMap {
            one: slot_refreshed(device.profiles.one, capture.profiles.one, now),
            two: slot_refreshed(device.profiles.two, capture.profiles.two, now),
            three: slot_refreshed(device.profiles.three, capture.profiles.three, now),
            four: slot_refreshed(device.profiles.four, capture.profiles.four, now),
            five: slot_refreshed(device.profiles.five, capture.profiles.five, now),
        },
        ..device
    }
}

/// What recording a capture reports.
pub open spec fn refresh_report(
    device: DeviceState,
    capture: ProfileCapture,
    now: Timestamp,
    report: FullProfileRefreshOutcome,
) -> bool {
    &&& report.original_metadata == capture.original_metadata
    &&& report.restored_metadata == capture.restored_metadata
    &&& report.temporarily_expanded == capture.temporarily_expanded
    &&& report.profiles == capture.profiles
    &&& report.profile_metadata_drift == device.profile_metadata.drifts(
        capture.restored_metadata,
        now,
    )
    &&& forall|profile: ProfileId|
        reports_drift(
            #[trigger] report.drift.at(profile),
            slot_drift(device.profiles.at(profile), capture.profiles.at(profile), now),
        )
}

impl DeviceManager {
    /// Begins to capture all profiles of a USB mouse.
    pub fn refresh_all_profiles(&self, transport: TransportKind) -> (r: Step<
        Capture,
        ProfileCapture,
    >)
        ensures
            if transport is Ble {
                r matches Step::Done(outcome) && viewed(outcome) == Err::<
                    ProfileCapture,
                    ManagerErrorView,
                >(
                    ManagerErrorView::UnsupportedOperation {
                        operation: "refresh-all-profiles"@,
                        transport,
                    },
                )
            } else {
                r matches Step::Ask { request, next } && request
                    == SessionRequest::ReadProfileMetadata && next.wf() && next.stage
                    is ReadingMetadata
            },
    {
        match transport {
            TransportKind::Ble => Step::Done(
                Err(
                    ManagerError::UnsupportedOperation {
                        operation: "refresh-all-profiles",
                        transport,
                    },
                ),
            ),
            TransportKind::Wired | TransportKind::Receiver => capture_all_profiles(transport),
        }
    }

    /// Records a complete capture: every observation is stored, wanted values
    /// are judged by it and kept, and what departs from them is reported.
    pub fn persist_profile_refresh(
        &mut self,
        device: &DeviceId,
        capture: ProfileCapture,
        now: Timestamp,
    ) -> (r: Result<FullProfileRefreshOutcome, ManagerError>)
        ensures
            final(self).identity_cache == old(self).identity_cache,
            final(self).state.same_but_devices(old(self).state),
            ({
                let before = old(self).state.devices@;
                let after = final(self).state.devices@;
                if before.dom().contains(device@) {
                    &&& r matches Ok(report)
                    &&& refresh_report(before[device@], capture, now, report)
                    &&& after == before.insert(
                        device@,
                        device_refreshed(before[device@], capture, now),
                    )
                } else {
                    &&& viewed(r) == Err::<FullProfileRefreshOutcome, ManagerErrorView>(
                        not_found(device@),
                    )
                    &&& after == before
                }
            }),
    {
        let ghost before = self.state.devices@;
        match self.state.devices.remove(device) {
            None => {
                assert(self.state.devices@ =~= before);
                Err(ManagerError::DeviceNotFound(device.clone()))
            },
            Some(mut device_state) => {
                let profile_metadata_drift: bool =
                    device_state.profile_metadata.reconcile_observation(
                    capture.restored_metadata,
                    now,
                );
                let one = refresh_slot(&mut device_state.profiles.one, capture.profiles.one, now);
                let two = refresh_slot(&mut device_state.profiles.two, capture.profiles.two, now);
                let three = refresh_slot(
                    &mut device_state.profiles.three,
                    capture.profiles.three,
                    now,
                );
                let four = refresh_slot(&mut device_state.profiles.four, capture.profiles.four, now);
                let five = refresh_slot(&mut device_state.profiles.five, capture.profiles.five, now);
                self.state.devices.insert(device.clone(), device_state);
                assert(self.state.devices@ =~= before.insert(
                    device@,
                    device_refreshed(before[device@], capture, now),
                ));
                Ok(
                    FullProfileRefreshOutcome {
                        original_metadata: capture.original_metadata,
                        restored_metadata: capture.restored_metadata,
                        temporarily_expanded: capture.temporarily_expanded,
                        profiles: capture.profiles,
                        drift: ProfileMap { one, two, three, four, five },
                        profile_metadata_drift,
                    },
                )
            },
        }
    }
}

/// A refresh never replaces a wanted value, it clears what was known about
/// persistence, and a resource is reported as drifted exactly where its wanted
/// value is no longer confirmed.
pub proof fn law_refresh_keeps_wanted_values(
    state: ProfileState,
    seen: RefreshedProfile,
    now: Timestamp,
)
    ensures
        ({
            let after = profile_refreshed(state, seen, now);
            &&& state.dpi.desired is Some ==> after.dpi.desired is Some
                && after.dpi.desired->0.value == state.dpi.desired->0.value
                && after.dpi.desired->0.verification.persistence is Unknown
            &&& state.preferences.desired is Some ==> after.preferences.desired is Some
                && after.preferences.desired->0.value == state.preferences.desired->0.value
                && after.preferences.desired->0.verification.persistence is Unknown
            &&& state.buttons.desired is Some ==> after.buttons.desired is Some
                && after.buttons.desired->0.value == state.buttons.desired->0.value
                && after.buttons.desired->0.verification.persistence is Unknown
            &&& state.polling_rate.desired is Some ==> after.polling_rate.desired is Some
                && after.polling_rate.desired->0.value == state.polling_rate.desired->0.value
                && after.polling_rate.desired->0.verification.persistence is Unknown
            &&& after.dpi.observed->0.value == seen.dpi
            &&& after.preferences.observed->0.value == seen.preferences
            &&& after.buttons.observed->0.value == seen.buttons
            &&& after.polling_rate.observed->0.value == seen.polling_rate
            &&& profile_drift(state, seen, now).contains(ProfileResourceKind::Dpi)
                <==> state.dpi.desired is Some && !after.dpi.is_confirmed()
            &&& profile_drift(state, seen, now).contains(ProfileResourceKind::Preferences)
                <==> state.preferences.desired is Some && !after.preferences.is_confirmed()
            &&& profile_drift(state, seen, now).contains(ProfileResourceKind::Buttons)
                <==> state.buttons.desired is Some && !after.buttons.is_confirmed()
            &&& profile_drift(state, seen, now).contains(ProfileResourceKind::PollingRate)
                <==> state.polling_rate.desired is Some && !after.polling_rate.is_confirmed()
        }),
{
    let a = if_drifted(state.dpi.drifts(seen.dpi, now), ProfileResourceKind::Dpi);
    let b = if_drifted(
        state.preferences.drifts(seen.preferences, now),
        ProfileResourceKind::Preferences,
    );
    let c = if_drifted(state.buttons.drifts(seen.buttons, now), ProfileResourceKind::Buttons);
    let d = if_drifted(
        state.polling_rate.drifts(seen.polling_rate, now),
        ProfileResourceKind::PollingRate,
    );
    assert forall|kind: ProfileResourceKind| #[trigger]
        (a + b + c + d).contains(kind) <==> a.contains(kind) || b.contains(kind) || c.contains(kind)
            || d.contains(kind) by {
        lemma_in_sum(a, b, kind);
        lemma_in_sum(a + b, c, kind);
        lemma_in_sum(a + b + c, d, kind);
    }
    assert(state.dpi.drifts(seen.dpi, now) ==> a[0] == ProfileResourceKind::Dpi);
    assert(state.preferences.drifts(seen.preferences, now) ==> b[0]
        == ProfileResourceKind::Preferences);
    assert(state.buttons.drifts(seen.buttons, now) ==> c[0] == ProfileResourceKind::Buttons);
    assert(state.polling_rate.drifts(seen.polling_rate, now) ==> d[0]
        == ProfileResourceKind::PollingRate);
}

/// Recording a capture puts every part of every captured profile on record as
/// observed, and the restored metadata with them; a profile that was not
/// captured keeps its evidence.
pub proof fn law_refreshes_record_every_profile(
    manager: &mut DeviceManager,
    device: &DeviceId,
    capture: ProfileCapture,
    now: Timestamp,
    profile: ProfileId,
    r: Result<FullProfileRefreshOutcome, ManagerError>,
)
    requires
        call_ensures(
            DeviceManager::persist_profile_refresh,
            (manager, device, capture, now),
            r,
        ),
    ensures
        only_mouse_changes(old(manager).state, final(manager).state, device@),
        !old(manager).state.devices@.dom().contains(device@) ==> viewed(r) == Err::<
            FullProfileRefreshOutcome,
            ManagerErrorView,
        >(ManagerErrorView::DeviceNotFound(device@)),
        old(manager).state.devices@.dom().contains(device@) ==> ({
            let before = old(manager).state.devices@[device@];
            let after = final(manager).state.devices@[device@];
            &&& after.identity == before.identity
            &&& after.profile_names == before.profile_names
            &&& is_seen(
                before.profile_metadata,
                capture.restored_metadata,
                now,
                after.profile_metadata,
            )
            &&& capture.profiles.at(profile) is None ==> after.profiles.at(profile)
                == before.profiles.at(profile)
            &&& capture.profiles.at(profile) matches Some(seen) ==> {
                &&& is_seen(dpi_of(before, profile), seen.dpi, now, dpi_of(after, profile))
                &&& is_seen(
                    preferences_of(before, profile),
                    seen.preferences,
                    now,
                    preferences_of(after, profile),
                )
                &&& is_seen(
                    buttons_of(before, profile),
                    seen.buttons,
                    now,
                    buttons_of(after, profile),
                )
                &&& is_seen(rate_of(before, profile), seen.polling_rate, now, rate_of(after, profile))
            }
        }),
{
    if old(manager).state.devices@.dom().contains(device@) {
        let before = old(manager).state.devices@[device@];
        let after = final(manager).state.devices@[device@];
        lemma_one_mouse(old(manager).state.devices@, device@, after);
        assert(after == device_refreshed(before, capture, now));
        lemma_reconciled_is_seen(before.profile_metadata, capture.restored_metadata, now);
        let slot = before.profiles.at(profile);
        let seen = capture.profiles.at(profile);
        assert(after.profiles.at(profile) == slot_refreshed(slot, seen, now)) by {
            match profile {
                ProfileId::One => {},
                ProfileId::Two => {},
                ProfileId::Three => {},
                ProfileId::Four => {},
                ProfileId::Five => {},
            }
        }
        if let Some(seen) = seen {
            lemma_reconciled_is_seen(dpi_of(before, profile), seen.dpi, now);
            lemma_reconciled_is_seen(preferences_of(before, profile), seen.preferences, now);
            lemma_reconciled_is_seen(buttons_of(before, profile), seen.buttons, now);
            lemma_reconciled_is_seen(rate_of(before, profile), seen.polling_rate, now);
        }
    }
}

/// A value is wanted that what was just seen does not confirm.
pub open spec fn departs<T>(resource: ResourceState<T>) -> bool {
    resource.desired matches Some(wanted) && wanted.verification.application is Mismatch
}

proof fn lemma_drift(state: ProfileState, seen: RefreshedProfile, now: Timestamp)
    ensures
        ({
            let after = profile_refreshed(state, seen, now);
            let list = profile_drift(state, seen, now);
            &&& list.contains(ProfileResourceKind::Dpi) <==> departs(after.dpi)
            &&& list.contains(ProfileResourceKind::Preferences) <==> departs(after.preferences)
            &&& list.contains(ProfileResourceKind::Buttons) <==> departs(after.buttons)
            &&& list.contains(ProfileResourceKind::PollingRate) <==> departs(after.polling_rate)
            &&& list.no_duplicates()
            &&& list.len() == 0 <==> !departs(after.dpi) && !departs(after.preferences) && !departs(
                after.buttons,
            ) && !departs(after.polling_rate)
        }),
{
    law_refresh_keeps_wanted_values(state, seen, now);
    let list = profile_drift(state, seen, now);
    let a = if_drifted(state.dpi.drifts(seen.dpi, now), ProfileResourceKind::Dpi);
    let b = if_drifted(
        state.preferences.drifts(seen.preferences, now),
        ProfileResourceKind::Preferences,
    );
    let c = if_drifted(state.buttons.drifts(seen.buttons, now), ProfileResourceKind::Buttons);
    let d = if_drifted(
        state.polling_rate.drifts(seen.polling_rate, now),
        ProfileResourceKind::PollingRate,
    );
    assert(list == a + b + c + d);
    if list.len() > 0 {
        assert(list.contains(list[0]));
    }
}

/// The report of a refresh says what was captured. It names a resource of a
/// captured profile as drifted, once, exactly where a value is wanted that the
/// capture does not confirm, and it has no entry for a profile without drift.
pub proof fn law_refreshes_report_drift(
    manager: &mut DeviceManager,
    device: &DeviceId,
    capture: ProfileCapture,
    now: Timestamp,
    profile: ProfileId,
    r: Result<FullProfileRefreshOutcome, ManagerError>,
)
    requires
        call_ensures(
            DeviceManager::persist_profile_refresh,
            (manager, device, capture, now),
            r,
        ),
        old(manager).state.devices@.dom().contains(device@),
    ensures
        ({
            let after = final(manager).state.devices@[device@];
            &&& r matches Ok(report)
            &&& report.original_metadata == capture.original_metadata
            &&& report.restored_metadata == capture.restored_metadata
            &&& report.temporarily_expanded == capture.temporarily_expanded
            &&& report.profiles == capture.profiles
            &&& report.profile_metadata_drift <==> departs(after.profile_metadata)
            &&& report.drift.at(profile) is Some <==> capture.profiles.at(profile) is Some && (
            departs(dpi_of(after, profile)) || departs(preferences_of(after, profile)) || departs(
                buttons_of(after, profile),
            ) || departs(rate_of(after, profile)))
            &&& report.drift.at(profile) matches Some(list) ==> {
                &&& list@.contains(ProfileResourceKind::Dpi) <==> departs(dpi_of(after, profile))
                &&& list@.contains(ProfileResourceKind::Preferences) <==> departs(
                    preferences_of(after, profile),
                )
                &&& list@.contains(ProfileResourceKind::Buttons) <==> departs(
                    buttons_of(after, profile),
                )
                &&& list@.contains(ProfileResourceKind::PollingRate) <==> departs(
                    rate_of(after, profile),
                )
                &&& list@.no_duplicates()
            }
        }),
{
    let before = old(manager).state.devices@[device@];
    let after = final(manager).state.devices@[device@];
    let report = r->Ok_0;
    let slot = before.profiles.at(profile);
    assert(after == device_refreshed(before, capture, now));
    assert(refresh_report(before, capture, now, report));
    assert(reports_drift(
        report.drift.at(profile),
        slot_drift(slot, capture.profiles.at(profile), now),
    ));
    if let Some(seen) = capture.profiles.at(profile) {
        let state = match slot {
            Some(state) => state,
            None => ProfileState::nothing(),
        };
        assert(after.profiles.at(profile) == Some(profile_refreshed(state, seen, now)));
        lemma_drift(state, seen, now);
        if slot is None {
            assert(profile_drift(state, seen, now).len() == 0);
        }
    }
}

/// A refresh begins with the metadata, over USB only.
pub proof fn law_refreshes_begin_with_the_metadata(
    manager: &DeviceManager,
    transport: TransportKind,
    r: Step<Capture, ProfileCapture>,
    captured: Step<Capture, ProfileCapture>,
)
    requires
        call_ensures(DeviceManager::refresh_all_profiles, (manager, transport), r),
        call_ensures(capture_all_profiles, (transport,), captured),
    ensures
        transport is Ble ==> (r matches Step::Done(Err(error)) && error@
            == (ManagerErrorView::UnsupportedOperation {
            operation: "refresh-all-profiles"@,
            transport,
        })),
        transport is Ble ==> (captured matches Step::Done(Err(error)) && error@
            == (ManagerErrorView::UnsupportedOperation {
            operation: "capture-all-profiles"@,
            transport,
        })),
        !(transport is Ble) ==> (r matches Step::Ask { request, next } && request
            is ReadProfileMetadata && next.stage is ReadingMetadata),
        !(transport is Ble) ==> (captured matches Step::Ask { request, next } && request
            is ReadProfileMetadata && next.stage is ReadingMetadata),
{
}

} // verus!
