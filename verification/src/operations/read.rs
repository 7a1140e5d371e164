//! Reads of single resources and of a whole profile.

use vstd::pervasive::unreached;
use vstd::prelude::*;

use crate::device::DeviceId;
use crate::error::{profile_number, profile_text, viewed, ManagerError, ManagerErrorView};
use crate::manager::{not_found, DeviceManager};
use crate::operation::ResourceSnapshot;
use crate::protocol::{
    is_usb_transport, ButtonsState, DpiState, PollingRate, PreferencesState, ProfileId,
    ProfileSnapshot, TransportKind,
};
use crate::resources::evidence::{
    buttons_of, dpi_of, is_seen, lemma_one_mouse, nothing_changes, only_mouse_changes,
    only_slot_changes, preferences_of, rate_of,
};
use crate::resources::state::{
    observe_resource, reconcile_observed, resource_at, with_profile, with_resource, ProfileResource,
};
use crate::session::{SessionReply, SessionRequest, Step};
use crate::state::{
    profile_entry, profile_or_empty, readback, ObservationSource, ObservedState, ProfileState,
    ResourceState, StateFile, Timestamp,
};

verus! {

/// A read of one resource that waits for its value.
#[derive(Debug, PartialEq, Eq)]
pub struct ResourceRead {
    pub device: DeviceId,
    pub profile: ProfileId,
}

/// The state records a fresh observation of a resource, judged against what is
/// wanted, and the evidence is handed out.
pub open spec fn observes<T: ProfileResource>(
    before: StateFile,
    after: StateFile,
    device: Seq<char>,
    profile: ProfileId,
    value: T,
    now: Timestamp,
    r: Result<ResourceSnapshot<T>, ManagerError>,
) -> bool {
    &&& after.same_but_devices(before)
    &&& if before.devices@.dom().contains(device) {
        let resource = resource_at::<T>(before.devices@[device], profile).reconciled(value, now);
        &&& r == Ok::<ResourceSnapshot<T>, ManagerError>(ResourceSnapshot { resource })
        &&& after.devices@ == before.devices@.insert(
            device,
            with_resource::<T>(before.devices@[device], profile, resource),
        )
    } else {
        &&& viewed(r) == Err::<ResourceSnapshot<T>, ManagerErrorView>(not_found(device))
        &&& after.devices@ == before.devices@
    }
}

/// A read that only USB can do begins with one request.
pub open spec fn read_begins<T>(
    transport: TransportKind,
    operation: Seq<char>,
    device: DeviceId,
    profile: ProfileId,
    request: SessionRequest,
    step: Step<ResourceRead, T>,
) -> bool {
    if transport is Ble {
        step matches Step::Done(outcome) && viewed(outcome) == Err::<T, ManagerErrorView>(
            ManagerErrorView::UnsupportedOperation { operation, transport },
        )
    } else {
        step == Step::<ResourceRead, T>::Ask { request, next: ResourceRead { device, profile } }
    }
}

fn begin_read<T>(
    transport: TransportKind,
    operation: &'static str,
    device: &DeviceId,
    profile: ProfileId,
    request: SessionRequest,
) -> (r: Step<ResourceRead, T>)
    ensures
        read_begins(transport, operation@, *device, profile, request, r),
{
    match transport {
        TransportKind::Ble => Step::Done(
            Err(ManagerError::UnsupportedOperation { operation, transport }),
        ),
        TransportKind::Wired | TransportKind::Receiver => Step::Ask {
            request,
            next: ResourceRead { device: device.clone(), profile },
        },
    }
}

pub open spec fn wrong_button_profile(found: ProfileId, wanted: ProfileId) -> ManagerErrorView {
    ManagerErrorView::InvalidUpdate(
        "button readback targets profile "@ + profile_number(found)
            + " instead of requested profile "@ + profile_number(wanted),
    )
}

/// A resource with a fresh observation and its wanted value as it was.
pub open spec fn reobserved<T>(resource: ResourceState<T>, value: T, now: Timestamp) -> ResourceState<
    T,
> {
    ResourceState { observed: Some(readback(value, now)), ..resource }
}

impl DeviceManager {
    /// Begins to read a profile's complete sensitivity image.
    pub fn read_dpi(&self, device: &DeviceId, profile: ProfileId, transport: TransportKind) -> (r:
        Step<ResourceRead, ResourceSnapshot<DpiState>>)
        ensures
            read_begins(
                transport,
                "read_dpi"@,
                *device,
                profile,
                SessionRequest::ReadDpi(profile),
                r,
            ),
    {
        begin_read(transport, "read_dpi", device, profile, SessionRequest::ReadDpi(profile))
    }

    /// Records the sensitivity image that was read. The wanted value and its
    /// evidence are left as they are.
    pub fn finish_read_dpi(&mut self, read: &ResourceRead, reply: SessionReply, now: Timestamp) -> (r:
        Result<ResourceSnapshot<DpiState>, ManagerError>)
        requires
            reply.fits(SessionRequest::ReadDpi(read.profile)),
        ensures
            final(self).identity_cache == old(self).identity_cache,
            final(self).state.same_but_devices(old(self).state),
            ({
                let before = old(self).state.devices@;
                let after = final(self).state.devices@;
                let device = read.device@;
                match reply {
                    SessionReply::Dpi { state, watermark } => if before.dom().contains(device) {
                        let resource = reobserved(
                            resource_at::<DpiState>(before[device], read.profile),
                            state,
                            now,
                        );
                        &&& r == Ok::<ResourceSnapshot<DpiState>, ManagerError>(
                            ResourceSnapshot { resource },
                        )
                        &&& after == before.insert(
                            device,
                            with_resource::<DpiState>(before[device], read.profile, resource),
                        )
                    } else {
                        &&& viewed(r) == Err::<ResourceSnapshot<DpiState>, ManagerErrorView>(
                            not_found(device),
                        )
                        &&& after == before
                    },
                    SessionReply::Failed(error) => r == Err::<
                        ResourceSnapshot<DpiState>,
                        ManagerError,
                    >(error) && after == before,
                    _ => true,
                }
            }),
    {
        let value = match reply {
            SessionReply::Dpi { state, watermark: _ } => state,
            SessionReply::Failed(error) => {
                return Err(error);
            },
            _ => unreached(),
        };
        let ghost before = self.state.devices@;
        match self.state.devices.remove(&read.device) {
            None => {
                assert(self.state.devices@ =~= before);
                Err(ManagerError::DeviceNotFound(read.device.clone()))
            },
            Some(mut device_state) => {
                let mut profile_state = profile_entry(&device_state.profiles, read.profile);
                profile_state.dpi.observed = Some(
                    ObservedState {
                        value,
                        source: ObservationSource::UsbReadback,
                        observed_at: now,
                    },
                );
                let resource = profile_state.dpi;
                device_state.profiles.insert(read.profile, profile_state);
                self.state.devices.insert(read.device.clone(), device_state);
                assert(self.state.devices@ =~= before.insert(
                    read.device@,
                    with_resource::<DpiState>(before[read.device@], read.profile, resource),
                ));
                Ok(ResourceSnapshot { resource })
            },
        }
    }

    /// Begins to read a profile's complete preferences image.
    pub fn read_preferences(
        &self,
        device: &DeviceId,
        profile: ProfileId,
        transport: TransportKind,
    ) -> (r: Step<ResourceRead, ResourceSnapshot<PreferencesState>>)
        ensures
            read_begins(
                transport,
                "read_preferences"@,
                *device,
                profile,
                SessionRequest::ReadPreferences(profile),
                r,
            ),
    {
        begin_read(
            transport,
            "read_preferences",
            device,
            profile,
            SessionRequest::ReadPreferences(profile),
        )
    }

    /// Records the preferences image that was read.
    pub fn finish_read_preferences(
        &mut self,
        read: &ResourceRead,
        reply: SessionReply,
        now: Timestamp,
    ) -> (r: Result<ResourceSnapshot<PreferencesState>, ManagerError>)
        requires
            reply.fits(SessionRequest::ReadPreferences(read.profile)),
        ensures
            final(self).identity_cache == old(self).identity_cache,
            match reply {
                SessionReply::Preferences(value) => observes(
                    old(self).state,
                    final(self).state,
                    read.device@,
                    read.profile,
                    value,
                    now,
                    r,
                ),
                SessionReply::Failed(error) => r == Err::<
                    ResourceSnapshot<PreferencesState>,
                    ManagerError,
                >(error) && final(self).state == old(self).state,
                _ => true,
            },
    {
        match reply {
            SessionReply::Preferences(value) => observe_resource(
                &mut self.state,
                &read.device,
                read.profile,
                value,
                now,
            ),
            SessionReply::Failed(error) => Err(error),
            _ => unreached(),
        }
    }

    /// Begins to read a profile's complete button table.
    pub fn read_buttons(
        &self,
        device: &DeviceId,
        profile: ProfileId,
        transport: TransportKind,
    ) -> (r: Step<ResourceRead, ResourceSnapshot<ButtonsState>>)
        ensures
            read_begins(
                transport,
                "read_buttons"@,
                *device,
                profile,
                SessionRequest::ReadButtons(profile),
                r,
            ),
    {
        begin_read(transport, "read_buttons", device, profile, SessionRequest::ReadButtons(profile))
    }

    /// Records the button table that was read; one for another profile is
    /// refused.
    pub fn finish_read_buttons(
        &mut self,
        read: &ResourceRead,
        reply: SessionReply,
        now: Timestamp,
    ) -> (r: Result<ResourceSnapshot<ButtonsState>, ManagerError>)
        requires
            reply.fits(SessionRequest::ReadButtons(read.profile)),
        ensures
            final(self).identity_cache == old(self).identity_cache,
            match reply {
                SessionReply::Buttons(value) => if value.profile == read.profile {
                    observes(
                        old(self).state,
                        final(self).state,
                        read.device@,
                        read.profile,
                        value,
                        now,
                        r,
                    )
                } else {
                    &&& viewed(r) == Err::<ResourceSnapshot<ButtonsState>, ManagerErrorView>(
                        wrong_button_profile(value.profile, read.profile),
                    )
                    &&& final(self).state == old(self).state
                },
                SessionReply::Failed(error) => r == Err::<
                    ResourceSnapshot<ButtonsState>,
                    ManagerError,
                >(error) && final(self).state == old(self).state,
                _ => true,
            },
    {
        match reply {
            SessionReply::Buttons(value) => {
                if value.profile != read.profile {
                    let mut text = "button readback targets profile ".to_owned();
                    let found = profile_text(value.profile);
                    text.append(found.as_str());
                    text.append(" instead of requested profile ");
                    let wanted = profile_text(read.profile);
                    text.append(wanted.as_str());
                    return Err(ManagerError::InvalidUpdate(text));
                }
                observe_resource(&mut self.state, &read.device, read.profile, value, now)
            },
            SessionReply::Failed(error) => Err(error),
            _ => unreached(),
        }
    }

    /// Begins to read the polling rate of a profile: the profile is loaded
    /// first, because the rate that is read is always the live one.
    pub fn read_polling_rate(
        &self,
        device: &DeviceId,
        profile: ProfileId,
        transport: TransportKind,
    ) -> (r: Step<RateRead, ResourceSnapshot<PollingRate>>)
        ensures
            if transport is Ble {
                r matches Step::Done(outcome) && viewed(outcome) == Err::<
                    ResourceSnapshot<PollingRate>,
                    ManagerErrorView,
                >(
                    ManagerErrorView::UnsupportedOperation {
                        operation: "read_live_polling_rate"@,
                        transport,
                    },
                )
            } else {
                r == (Step::<RateRead, ResourceSnapshot<PollingRate>>::Ask {
                    request: SessionRequest::ReadProfile(profile),
                    next: RateRead {
                        read: ResourceRead { device: *device, profile },
                        loaded: false,
                    },
                })
            },
    {
        match transport {
            TransportKind::Ble => Step::Done(
                Err(
                    ManagerError::UnsupportedOperation {
                        operation: "read_live_polling_rate",
                        transport,
                    },
                ),
            ),
            TransportKind::Wired | TransportKind::Receiver => Step::Ask {
                request: SessionRequest::ReadProfile(profile),
                next: RateRead {
                    read: ResourceRead { device: device.clone(), profile },
                    loaded: false,
                },
            },
        }
    }

    /// Asks for the battery level.
    pub fn read_battery(&self) -> (r: SessionRequest)
        ensures
            r == SessionRequest::ReadBattery,
    {
        SessionRequest::ReadBattery
    }

    /// Hands out the battery level that was read.
    pub fn finish_read_battery(&self, reply: SessionReply) -> (r: Result<u8, ManagerError>)
        requires
            reply.fits(SessionRequest::ReadBattery),
        ensures
            r == (match reply {
                SessionReply::Battery(level) => Ok(level),
                SessionReply::Failed(error) => Err(error),
                _ => r,
            }),
    {
        match reply {
            SessionReply::Battery(level) => Ok(level),
            SessionReply::Failed(error) => Err(error),
            _ => unreached(),
        }
    }

    /// Asks for a complete profile.
    pub fn read_profile(&self, profile: ProfileId) -> (r: SessionRequest)
        ensures
            r == SessionRequest::ReadProfile(profile),
    {
        SessionRequest::ReadProfile(profile)
    }

    /// Records a complete profile that was read over USB and hands it out.
    pub fn finish_read_profile(
        &mut self,
        read: &ResourceRead,
        transport: TransportKind,
        reply: SessionReply,
        now: Timestamp,
    ) -> (r: Result<ProfileSnapshot, ManagerError>)
        requires
            reply.fits(SessionRequest::ReadProfile(read.profile)),
        ensures
            final(self).identity_cache == old(self).identity_cache,
            final(self).state.same_but_devices(old(self).state),
            ({
                let before = old(self).state.devices@;
                let after = final(self).state.devices@;
                let device = read.device@;
                match reply {
                    SessionReply::Profile(snapshot) => if !transport.is_usb() {
                        r == Ok::<ProfileSnapshot, ManagerError>(snapshot) && after == before
                    } else if before.dom().contains(device) {
                        &&& r == Ok::<ProfileSnapshot, ManagerError>(snapshot)
                        &&& after == before.insert(
                            device,
                            with_profile(
                                before[device],
                                read.profile,
                                sections_seen(
                                    profile_or_empty(before[device].profiles, read.profile),
                                    snapshot,
                                    now,
                                ),
                            ),
                        )
                    } else {
                        &&& viewed(r) == Err::<ProfileSnapshot, ManagerErrorView>(
                            not_found(device),
                        )
                        &&& after == before
                    },
                    SessionReply::Failed(error) => r == Err::<ProfileSnapshot, ManagerError>(error)
                        && after == before,
                    _ => true,
                }
            }),
    {
        let snapshot = match reply {
            SessionReply::Profile(snapshot) => snapshot,
            SessionReply::Failed(error) => {
                return Err(error);
            },
            _ => unreached(),
        };
        if !is_usb_transport(transport) {
            return Ok(snapshot);
        }
        let ghost before = self.state.devices@;
        match self.state.devices.remove(&read.device) {
            None => {
                assert(self.state.devices@ =~= before);
                Err(ManagerError::DeviceNotFound(read.device.clone()))
            },
            Some(mut device_state) => {
                let mut profile_state = profile_entry(&device_state.profiles, read.profile);
                see_sections(&mut profile_state, &snapshot, now);
                device_state.profiles.insert(read.profile, profile_state);
                self.state.devices.insert(read.device.clone(), device_state);
                assert(self.state.devices@ =~= before.insert(
                    read.device@,
                    with_profile(before[read.device@], read.profile, profile_state),
                ));
                Ok(snapshot)
            },
        }
    }
}

/// A profile after its three sections were observed.
pub open spec fn sections_seen(
    state: ProfileState,
    snapshot: ProfileSnapshot,
    now: Timestamp,
) -> ProfileState {
    ProfileState {
        dpi: state.dpi.reconciled(snapshot.dpi, now),
        preferences: state.preferences.reconciled(snapshot.preferences, now),
        buttons: state.buttons.reconciled(snapshot.buttons, now),
        polling_rate: state.polling_rate,
    }
}

pub(crate) fn see_sections(state: &mut ProfileState, snapshot: &ProfileSnapshot, now: Timestamp)
    ensures
        *final(state) == sections_seen(*old(state), *snapshot, now),
{
    reconcile_observed(&mut state.dpi, snapshot.dpi, now);
    reconcile_observed(&mut state.preferences, snapshot.preferences, now);
    reconcile_observed(&mut state.buttons, snapshot.buttons, now);
}

/// A read of the polling rate, before or after the profile was loaded.
#[derive(Debug, PartialEq, Eq)]
pub struct RateRead {
    pub read: ResourceRead,
    pub loaded: bool,
}

impl RateRead {
    pub open spec fn request(self) -> SessionRequest {
        if self.loaded {
            SessionRequest::ReadLivePollingRate(self.read.profile)
        } else {
            SessionRequest::ReadProfile(self.read.profile)
        }
    }

    /// Goes on with the reply to the request that was handed out last.
    pub fn resume(self, manager: &mut DeviceManager, reply: SessionReply, now: Timestamp) -> (r: Step<
        RateRead,
        ResourceSnapshot<PollingRate>,
    >)
        requires
            reply.fits(self.request()),
        ensures
            final(manager).identity_cache == old(manager).identity_cache,
            match reply {
                SessionReply::Failed(error) => {
                    &&& r == Step::<RateRead, ResourceSnapshot<PollingRate>>::Done(Err(error))
                    &&& final(manager).state == old(manager).state
                },
                SessionReply::Profile(_) => {
                    &&& r == (Step::<RateRead, ResourceSnapshot<PollingRate>>::Ask {
                        request: SessionRequest::ReadLivePollingRate(self.read.profile),
                        next: RateRead { loaded: true, ..self },
                    })
                    &&& final(manager).state == old(manager).state
                },
                SessionReply::PollingRate(rate) => {
                    &&& r matches Step::Done(outcome)
                    &&& observes(
                        old(manager).state,
                        final(manager).state,
                        self.read.device@,
                        self.read.profile,
                        rate,
                        now,
                        outcome,
                    )
                },
                _ => true,
            },
    {
        match reply {
            SessionReply::Failed(error) => Step::Done(Err(error)),
            SessionReply::Profile(_) => {
                let profile = self.read.profile;
                Step::Ask {
                    request: SessionRequest::ReadLivePollingRate(profile),
                    next: RateRead { read: self.read, loaded: true },
                }
            },
            SessionReply::PollingRate(rate) => Step::Done(
                observe_resource(
                    &mut manager.state,
                    &self.read.device,
                    self.read.profile,
                    rate,
                    now,
                ),
            ),
            _ => unreached(),
        }
    }
}

/// A sensitivity image that was read is recorded as observed for its profile
/// and handed out with what is wanted; the wanted value and all its evidence
/// stay as they are. A failed read or an unknown mouse changes nothing.
pub proof fn law_dpi_reads_are_recorded(
    manager: &mut DeviceManager,
    read: &ResourceRead,
    reply: SessionReply,
    now: Timestamp,
    r: Result<ResourceSnapshot<DpiState>, ManagerError>,
)
    requires
        reply is Dpi || reply is Failed,
        call_ensures(DeviceManager::finish_read_dpi, (manager, read, reply, now), r),
    ensures
        only_mouse_changes(old(manager).state, final(manager).state, read.device@),
        reply matches SessionReply::Failed(error) ==> r
            == Err::<ResourceSnapshot<DpiState>, ManagerError>(error) && nothing_changes(
            old(manager).state,
            final(manager).state,
        ),
        reply matches SessionReply::Dpi { state, watermark } ==> (if old(
            manager,
        ).state.devices@.dom().contains(read.device@) {
            let before = old(manager).state.devices@[read.device@];
            let after = final(manager).state.devices@[read.device@];
            &&& dpi_of(after, read.profile).desired == dpi_of(before, read.profile).desired
            &&& dpi_of(after, read.profile).observed matches Some(observed)
            &&& observed.value == state && observed.source is UsbReadback && observed.observed_at
                == now
            &&& r == Ok::<ResourceSnapshot<DpiState>, ManagerError>(
                ResourceSnapshot { resource: dpi_of(after, read.profile) },
            )
            &&& preferences_of(after, read.profile) == preferences_of(before, read.profile)
            &&& buttons_of(after, read.profile) == buttons_of(before, read.profile)
            &&& rate_of(after, read.profile) == rate_of(before, read.profile)
            &&& after.profile_metadata == before.profile_metadata
            &&& only_slot_changes(before, after, read.profile)
        } else {
            viewed(r) == Err::<ResourceSnapshot<DpiState>, ManagerErrorView>(
                ManagerErrorView::DeviceNotFound(read.device@),
            )
        }),
{
    if old(manager).state.devices@.dom().contains(read.device@) {
        lemma_one_mouse(
            old(manager).state.devices@,
            read.device@,
            final(manager).state.devices@[read.device@],
        );
    }
}

/// Preferences that were read are recorded as observed for their profile,
/// judge what is wanted there, and are handed out with it. A failed read or an
/// unknown mouse changes nothing.
pub proof fn law_preferences_reads_are_recorded(
    manager: &mut DeviceManager,
    read: &ResourceRead,
    reply: SessionReply,
    now: Timestamp,
    r: Result<ResourceSnapshot<PreferencesState>, ManagerError>,
)
    requires
        reply is Preferences || reply is Failed,
        call_ensures(DeviceManager::finish_read_preferences, (manager, read, reply, now), r),
    ensures
        only_mouse_changes(old(manager).state, final(manager).state, read.device@),
        reply matches SessionReply::Failed(error) ==> r
            == Err::<ResourceSnapshot<PreferencesState>, ManagerError>(error) && nothing_changes(
            old(manager).state,
            final(manager).state,
        ),
        reply matches SessionReply::Preferences(value) ==> (if old(
            manager,
        ).state.devices@.dom().contains(read.device@) {
            let before = old(manager).state.devices@[read.device@];
            let after = final(manager).state.devices@[read.device@];
            &&& is_seen(
                preferences_of(before, read.profile),
                value,
                now,
                preferences_of(after, read.profile),
            )
            &&& r == Ok::<ResourceSnapshot<PreferencesState>, ManagerError>(
                ResourceSnapshot { resource: preferences_of(after, read.profile) },
            )
            &&& dpi_of(after, read.profile) == dpi_of(before, read.profile)
            &&& buttons_of(after, read.profile) == buttons_of(before, read.profile)
            &&& rate_of(after, read.profile) == rate_of(before, read.profile)
            &&& after.profile_metadata == before.profile_metadata
            &&& only_slot_changes(before, after, read.profile)
        } else {
            viewed(r) == Err::<ResourceSnapshot<PreferencesState>, ManagerErrorView>(
                ManagerErrorView::DeviceNotFound(read.device@),
            )
        }),
{
    if old(manager).state.devices@.dom().contains(read.device@) {
        lemma_one_mouse(
            old(manager).state.devices@,
            read.device@,
            final(manager).state.devices@[read.device@],
        );
    }
}

/// A button table that was read is recorded as observed for its profile,
/// judges what is wanted there, and is handed out with it. A table for another
/// profile, a failed read or an unknown mouse changes nothing and is an error.
pub proof fn law_button_reads_are_recorded(
    manager: &mut DeviceManager,
    read: &ResourceRead,
    reply: SessionReply,
    now: Timestamp,
    r: Result<ResourceSnapshot<ButtonsState>, ManagerError>,
)
    requires
        reply is Buttons || reply is Failed,
        call_ensures(DeviceManager::finish_read_buttons, (manager, read, reply, now), r),
    ensures
        only_mouse_changes(old(manager).state, final(manager).state, read.device@),
        r is Err ==> nothing_changes(old(manager).state, final(manager).state),
        reply matches SessionReply::Failed(error) ==> r
            == Err::<ResourceSnapshot<ButtonsState>, ManagerError>(error),
        reply matches SessionReply::Buttons(value) ==> {
            &&& value.profile != read.profile ==> (viewed(r) matches Err(error)
                && error is InvalidUpdate)
            &&& r is Ok <==> value.profile == read.profile && old(
                manager,
            ).state.devices@.dom().contains(read.device@)
            &&& r is Ok ==> ({
                let before = old(manager).state.devices@[read.device@];
                let after = final(manager).state.devices@[read.device@];
                &&& is_seen(
                    buttons_of(before, read.profile),
                    value,
                    now,
                    buttons_of(after, read.profile),
                )
                &&& r == Ok::<ResourceSnapshot<ButtonsState>, ManagerError>(
                    ResourceSnapshot { resource: buttons_of(after, read.profile) },
                )
                &&& dpi_of(after, read.profile) == dpi_of(before, read.profile)
                &&& preferences_of(after, read.profile) == preferences_of(before, read.profile)
                &&& rate_of(after, read.profile) == rate_of(before, read.profile)
                &&& after.profile_metadata == before.profile_metadata
                &&& only_slot_changes(before, after, read.profile)
            })
            &&& value.profile == read.profile && r is Err ==> viewed(r) == Err::<
                ResourceSnapshot<ButtonsState>,
                ManagerErrorView,
            >(ManagerErrorView::DeviceNotFound(read.device@))
        },
{
    if old(manager).state.devices@.dom().contains(read.device@) {
        lemma_one_mouse(
            old(manager).state.devices@,
            read.device@,
            final(manager).state.devices@[read.device@],
        );
    }
}

/// The live rate that was read after its profile was loaded is recorded as
/// observed for that profile, judges what is wanted there, and is handed out
/// with it. Loading the profile puts nothing on record.
pub proof fn law_rate_reads_are_recorded(
    read: RateRead,
    manager: &mut DeviceManager,
    reply: SessionReply,
    now: Timestamp,
    r: Step<RateRead, ResourceSnapshot<PollingRate>>,
)
    requires
        reply is Profile || reply is PollingRate || reply is Failed,
        call_ensures(RateRead::resume, (read, manager, reply, now), r),
    ensures
        only_mouse_changes(old(manager).state, final(manager).state, read.read.device@),
        !(reply is PollingRate) ==> nothing_changes(old(manager).state, final(manager).state),
        reply matches SessionReply::Failed(error) ==> (r matches Step::Done(Err(given)) && given
            == error),
        reply is Profile ==> (r matches Step::Ask { request, next } && request
            == SessionRequest::ReadLivePollingRate(read.read.profile) && next.read == read.read
            && next.loaded),
        reply matches SessionReply::PollingRate(rate) ==> (if old(
            manager,
        ).state.devices@.dom().contains(read.read.device@) {
            let before = old(manager).state.devices@[read.read.device@];
            let after = final(manager).state.devices@[read.read.device@];
            let profile = read.read.profile;
            &&& is_seen(rate_of(before, profile), rate, now, rate_of(after, profile))
            &&& r == Step::<RateRead, ResourceSnapshot<PollingRate>>::Done(
                Ok(ResourceSnapshot { resource: rate_of(after, profile) }),
            )
            &&& dpi_of(after, profile) == dpi_of(before, profile)
            &&& preferences_of(after, profile) == preferences_of(before, profile)
            &&& buttons_of(after, profile) == buttons_of(before, profile)
            &&& after.profile_metadata == before.profile_metadata
            &&& only_slot_changes(before, after, profile)
        } else {
            r matches Step::Done(Err(error)) && error@ == ManagerErrorView::DeviceNotFound(
                read.read.device@,
            )
        }),
{
    if old(manager).state.devices@.dom().contains(read.read.device@) {
        lemma_one_mouse(
            old(manager).state.devices@,
            read.read.device@,
            final(manager).state.devices@[read.read.device@],
        );
    }
}

/// A complete profile that was read over USB is handed out as it was read, and
/// each of its three sections is recorded as observed for that profile; the
/// rate is not part of it. Over BLE nothing is recorded.
pub proof fn law_profile_reads_are_recorded(
    manager: &mut DeviceManager,
    read: &ResourceRead,
    transport: TransportKind,
    reply: SessionReply,
    now: Timestamp,
    r: Result<ProfileSnapshot, ManagerError>,
)
    requires
        reply is Profile || reply is Failed,
        call_ensures(
            DeviceManager::finish_read_profile,
            (manager, read, transport, reply, now),
            r,
        ),
    ensures
        only_mouse_changes(old(manager).state, final(manager).state, read.device@),
        r is Err || transport is Ble ==> nothing_changes(old(manager).state, final(manager).state),
        reply matches SessionReply::Failed(error) ==> r == Err::<ProfileSnapshot, ManagerError>(
            error,
        ),
        reply matches SessionReply::Profile(snapshot) ==> {
            &&& r is Ok ==> r == Ok::<ProfileSnapshot, ManagerError>(snapshot)
            &&& r is Ok <==> transport is Ble || old(manager).state.devices@.dom().contains(
                read.device@,
            )
            &&& r is Ok && !(transport is Ble) ==> ({
                let before = old(manager).state.devices@[read.device@];
                let after = final(manager).state.devices@[read.device@];
                let profile = read.profile;
                &&& is_seen(dpi_of(before, profile), snapshot.dpi, now, dpi_of(after, profile))
                &&& is_seen(
                    preferences_of(before, profile),
                    snapshot.preferences,
                    now,
                    preferences_of(after, profile),
                )
                &&& is_seen(
                    buttons_of(before, profile),
                    snapshot.buttons,
                    now,
                    buttons_of(after, profile),
                )
                &&& rate_of(after, profile) == rate_of(before, profile)
                &&& after.profile_metadata == before.profile_metadata
                &&& only_slot_changes(before, after, profile)
            })
        },
{
    if old(manager).state.devices@.dom().contains(read.device@) {
        lemma_one_mouse(
            old(manager).state.devices@,
            read.device@,
            final(manager).state.devices@[read.device@],
        );
    }
}

/// A read of a section asks for that section of that profile, over USB only.
/// The rate is read after its profile was loaded. Battery level and complete
/// profile are asked for on every transport.
pub proof fn law_reads_ask_for_their_section(
    manager: &DeviceManager,
    device: &DeviceId,
    profile: ProfileId,
    transport: TransportKind,
    dpi: Step<ResourceRead, ResourceSnapshot<DpiState>>,
    preferences: Step<ResourceRead, ResourceSnapshot<PreferencesState>>,
    buttons: Step<ResourceRead, ResourceSnapshot<ButtonsState>>,
    rate: Step<RateRead, ResourceSnapshot<PollingRate>>,
    battery: SessionRequest,
    whole: SessionRequest,
)
    requires
        call_ensures(DeviceManager::read_dpi, (manager, device, profile, transport), dpi),
        call_ensures(
            DeviceManager::read_preferences,
            (manager, device, profile, transport),
            preferences,
        ),
        call_ensures(DeviceManager::read_buttons, (manager, device, profile, transport), buttons),
        call_ensures(
            DeviceManager::read_polling_rate,
            (manager, device, profile, transport),
            rate,
        ),
        call_ensures(DeviceManager::read_battery, (manager,), battery),
        call_ensures(DeviceManager::read_profile, (manager, profile), whole),
    ensures
        battery is ReadBattery,
        whole == SessionRequest::ReadProfile(profile),
        transport is Ble ==> {
            &&& dpi matches Step::Done(Err(error)) && error@
                == (ManagerErrorView::UnsupportedOperation { operation: "read_dpi"@, transport })
            &&& preferences matches Step::Done(Err(error)) && error@
                == (ManagerErrorView::UnsupportedOperation {
                operation: "read_preferences"@,
                transport,
            })
            &&& buttons matches Step::Done(Err(error)) && error@
                == (ManagerErrorView::UnsupportedOperation { operation: "read_buttons"@, transport })
            &&& rate matches Step::Done(Err(error)) && error@
                == (ManagerErrorView::UnsupportedOperation {
                operation: "read_live_polling_rate"@,
                transport,
            })
        },
        !(transport is Ble) ==> {
            &&& dpi matches Step::Ask { request, next } && request == SessionRequest::ReadDpi(
                profile,
            ) && next.device == *device && next.profile == profile
            &&& preferences matches Step::Ask { request, next } && request
                == SessionRequest::ReadPreferences(profile) && next.device == *device
                && next.profile == profile
            &&& buttons matches Step::Ask { request, next } && request
                == SessionRequest::ReadButtons(profile) && next.device == *device && next.profile
                == profile
            &&& rate matches Step::Ask { request, next } && request == SessionRequest::ReadProfile(
                profile,
            ) && next.read.device == *device && next.read.profile == profile && !next.loaded
        },
{
}

/// A battery level that was read is handed out as it was read, and a failure
/// as it came.
pub proof fn law_battery_levels_are_handed_out(
    manager: &DeviceManager,
    level: u8,
    error: ManagerError,
    read: Result<u8, ManagerError>,
    failed: Result<u8, ManagerError>,
)
    requires
        call_ensures(
            DeviceManager::finish_read_battery,
            (manager, SessionReply::Battery(level)),
            read,
        ),
        call_ensures(
            DeviceManager::finish_read_battery,
            (manager, SessionReply::Failed(error)),
            failed,
        ),
    ensures
        read == Ok::<u8, ManagerError>(level),
        failed == Err::<u8, ManagerError>(error),
{
}

} // verus!
