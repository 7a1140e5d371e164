//! Reads of a device's status and of its live profile.

use vstd::pervasive::unreached;
use vstd::prelude::*;

use crate::device::{DeviceId, DeviceIdentity};
use crate::error::{viewed, ManagerError, ManagerErrorView};
use crate::manager::{not_found, DeviceManager};
use crate::operation::{DeviceStatus, LiveProfileSnapshot, ResourceSnapshot};
use crate::operations::read::{see_sections, sections_seen};
use crate::protocol::{
    is_usb_transport, PollingRate, ProfileId, ProfileMetadata, ProfileSnapshot, TransportKind,
};
use crate::resources::evidence::{
    buttons_of, dpi_of, is_seen, lemma_one_mouse, nothing_changes, only_mouse_changes,
    only_slot_changes, preferences_of, rate_of,
};
use crate::resources::state::{
    observe_metadata, observe_resource, reconcile_observed, resource_at, with_metadata,
    with_profile, with_resource,
};
use crate::session::{SessionReply, SessionRequest, Step};
use crate::state::{
    profile_entry, profile_or_empty, DeviceState, ProfileState, StateFile, Timestamp,
};

verus! {

/// What a status read waits for.
#[derive(Clone, Copy, Debug, PartialEq, Eq, Structural)]
pub enum StatusStage {
    Battery,
    Metadata,
    Profile(ProfileId),
    Rate(ProfileId),
}

/// A status read under way, with what it has learned so far.
#[derive(Debug, PartialEq, Eq)]
pub struct StatusRead {
    pub device: DeviceId,
    pub identity: DeviceIdentity,
    pub transport: TransportKind,
    pub battery: Option<u8>,
    pub profile_metadata: Option<ResourceSnapshot<ProfileMetadata>>,
    pub stage: StatusStage,
}

fn is_unsupported(error: &ManagerError) -> (r: bool)
    ensures
        r == (*error is UnsupportedOperation),
{
    match error {
        ManagerError::UnsupportedOperation { .. } => true,
        _ => false,
    }
}

impl StatusRead {
    pub open spec fn request(self) -> SessionRequest {
        match self.stage {
            StatusStage::Battery => SessionRequest::ReadBattery,
            StatusStage::Metadata => SessionRequest::ReadProfileMetadata,
            StatusStage::Profile(profile) => SessionRequest::ReadProfile(profile),
            StatusStage::Rate(profile) => SessionRequest::ReadLivePollingRate(profile),
        }
    }

    pub open spec fn at(self, stage: StatusStage) -> Step<StatusRead, DeviceStatus> {
        let next = StatusRead { stage, ..self };
        Step::Ask { request: next.request(), next }
    }

    /// The status with what is known and the given polling rate.
    pub open spec fn status(
        self,
        polling_rate: Option<ResourceSnapshot<PollingRate>>,
    ) -> DeviceStatus {
        DeviceStatus {
            identity: self.identity,
            battery: self.battery,
            profile_metadata: self.profile_metadata,
            polling_rate,
        }
    }

    /// How a reply takes the read on. What the transport cannot do is left out
    /// of the status; any other failure ends the read. Metadata and rate that
    /// were seen over USB are recorded.
    pub open spec fn follows(
        self,
        before: StateFile,
        after: StateFile,
        reply: SessionReply,
        now: Timestamp,
        step: Step<StatusRead, DeviceStatus>,
    ) -> bool {
        let known = before.devices@.dom().contains(self.device@);
        let device = before.devices@[self.device@];
        match reply {
            SessionReply::Failed(error) if !(error is UnsupportedOperation) => {
                &&& step == Step::<StatusRead, DeviceStatus>::Done(Err(error))
                &&& after == before
            },
            SessionReply::Battery(level) => {
                &&& step == (StatusRead { battery: Some(level), ..self }).at(StatusStage::Metadata)
                &&& after == before
            },
            SessionReply::ProfileMetadata(metadata) if self.transport.is_usb() => {
                &&& after.same_but_devices(before)
                &&& if known {
                    let resource = device.profile_metadata.reconciled(metadata, now);
                    &&& step == (StatusRead {
                        profile_metadata: Some(ResourceSnapshot { resource }),
                        ..self
                    }).at(StatusStage::Profile(metadata.current_profile))
                    &&& after.devices@ == before.devices@.insert(
                        self.device@,
                        with_metadata(device, resource),
                    )
                } else {
                    &&& step matches Step::Done(outcome)
                    &&& viewed(outcome) == Err::<DeviceStatus, ManagerErrorView>(
                        not_found(self.device@),
                    )
                    &&& after.devices@ == before.devices@
                }
            },
            SessionReply::Profile(_) => {
                &&& self.stage matches StatusStage::Profile(profile)
                &&& step == self.at(StatusStage::Rate(profile))
                &&& after == before
            },
            SessionReply::PollingRate(rate) => {
                &&& self.stage matches StatusStage::Rate(profile)
                &&& after.same_but_devices(before)
                &&& if known {
                    let resource = resource_at::<PollingRate>(device, profile).reconciled(
                        rate,
                        now,
                    );
                    &&& step == Step::<StatusRead, DeviceStatus>::Done(
                        Ok(self.status(Some(ResourceSnapshot { resource }))),
                    )
                    &&& after.devices@ == before.devices@.insert(
                        self.device@,
                        with_resource::<PollingRate>(device, profile, resource),
                    )
                } else {
                    &&& step matches Step::Done(outcome)
                    &&& viewed(outcome) == Err::<DeviceStatus, ManagerErrorView>(
                        not_found(self.device@),
                    )
                    &&& after.devices@ == before.devices@
                }
            },
            _ => {
                &&& after == before
                &&& if self.stage is Battery {
                    step == self.at(StatusStage::Metadata)
                } else {
                    step == Step::<StatusRead, DeviceStatus>::Done(Ok(self.status(None)))
                }
            },
        }
    }

    /// Goes on with the reply to the request that was handed out last.
    pub fn resume(self, manager: &mut DeviceManager, reply: SessionReply, now: Timestamp) -> (r: Step<
        StatusRead,
        DeviceStatus,
    >)
        requires
            reply.fits(self.request()),
        ensures
            final(manager).identity_cache == old(manager).identity_cache,
            self.follows(old(manager).state, final(manager).state, reply, now, r),
    {
        match reply {
            SessionReply::Failed(error) => {
                if !is_unsupported(&error) {
                    return Step::Done(Err(error));
                }
                match self.stage {
                    StatusStage::Battery => self.ask(StatusStage::Metadata),
                    _ => Step::Done(Ok(self.into_status(None))),
                }
            },
            SessionReply::Battery(level) => StatusRead { battery: Some(level), ..self }.ask(
                StatusStage::Metadata,
            ),
            SessionReply::ProfileMetadata(metadata) => {
                if !is_usb_transport(self.transport) {
                    return Step::Done(Ok(self.into_status(None)));
                }
                match observe_metadata(&mut manager.state, &self.device, metadata, now) {
                    Err(error) => Step::Done(Err(error)),
                    Ok(snapshot) => StatusRead { profile_metadata: Some(snapshot), ..self }.ask(
                        StatusStage::Profile(metadata.current()),
                    ),
                }
            },
            SessionReply::Profile(_) => match self.stage {
                StatusStage::Profile(profile) => self.ask(StatusStage::Rate(profile)),
                _ => unreached(),
            },
            SessionReply::PollingRate(rate) => match self.stage {
                StatusStage::Rate(profile) => match observe_resource(
                    &mut manager.state,
                    &self.device,
                    profile,
                    rate,
                    now,
                ) {
                    Err(error) => Step::Done(Err(error)),
                    Ok(snapshot) => Step::Done(Ok(self.into_status(Some(snapshot)))),
                },
                _ => unreached(),
            },
            _ => unreached(),
        }
    }

    fn ask(self, stage: StatusStage) -> (r: Step<StatusRead, DeviceStatus>)
        ensures
            r == self.at(stage),
    {
        let request = match stage {
            StatusStage::Battery => SessionRequest::ReadBattery,
            StatusStage::Metadata => SessionRequest::ReadProfileMetadata,
            StatusStage::Profile(profile) => SessionRequest::ReadProfile(profile),
            StatusStage::Rate(profile) => SessionRequest::ReadLivePollingRate(profile),
        };
        Step::Ask { request, next: StatusRead { stage, ..self } }
    }

    fn into_status(self, polling_rate: Option<ResourceSnapshot<PollingRate>>) -> (r: DeviceStatus)
        ensures
            r == self.status(polling_rate),
    {
        DeviceStatus {
            identity: self.identity,
            battery: self.battery,
            profile_metadata: self.profile_metadata,
            polling_rate,
        }
    }
}

impl DeviceManager {
    /// Begins to read a device's status. A wired mouse reports no battery
    /// level, so none is asked for.
    pub fn read_status(
        &self,
        device: &DeviceId,
        identity: DeviceIdentity,
        transport: TransportKind,
    ) -> (r: Step<StatusRead, DeviceStatus>)
        ensures
            r == (StatusRead {
                device: *device,
                identity,
                transport,
                battery: None,
                profile_metadata: None,
                stage: StatusStage::Battery,
            }).at(
                if transport is Wired {
                    StatusStage::Metadata
                } else {
                    StatusStage::Battery
                },
            ),
    {
        let read = StatusRead {
            device: device.clone(),
            identity,
            transport,
            battery: None,
            profile_metadata: None,
            stage: StatusStage::Battery,
        };
        match transport {
            TransportKind::Wired => read.ask(StatusStage::Metadata),
            TransportKind::Receiver | TransportKind::Ble => read.ask(StatusStage::Battery),
        }
    }

    /// Begins to read the current or the requested profile over USB, loading
    /// it exactly once.
    pub fn read_live_profile(
        &self,
        device: &DeviceId,
        identity: DeviceIdentity,
        requested: Option<ProfileId>,
        transport: TransportKind,
    ) -> (r: Step<LiveRead, LiveProfileSnapshot>)
        ensures
            if transport is Ble {
                r matches Step::Done(outcome) && viewed(outcome) == Err::<
                    LiveProfileSnapshot,
                    ManagerErrorView,
                >(
                    ManagerErrorView::UnsupportedOperation {
                        operation: "read-live-profile"@,
                        transport,
                    },
                )
            } else {
                r == (LiveRead {
                    device: *device,
                    identity,
                    requested,
                    battery: None,
                    stage: LiveStage::Battery,
                }).at(
                    if transport is Receiver {
                        LiveStage::Battery
                    } else {
                        LiveStage::Metadata
                    },
                )
            },
    {
        let stage = match transport {
            TransportKind::Ble => {
                return Step::Done(
                    Err(
                        ManagerError::UnsupportedOperation {
                            operation: "read-live-profile",
                            transport,
                        },
                    ),
                );
            },
            TransportKind::Receiver => LiveStage::Battery,
            TransportKind::Wired => LiveStage::Metadata,
        };
        LiveRead {
            device: device.clone(),
            identity,
            requested,
            battery: None,
            stage: LiveStage::Battery,
        }.ask(stage)
    }
}

/// What a live-profile read waits for, with what it has read.
#[derive(Clone, Copy, Debug, PartialEq, Eq)]
pub enum LiveStage {
    Battery,
    Metadata,
    Profile { metadata: ProfileMetadata, target: ProfileId },
    Rate { metadata: ProfileMetadata, target: ProfileId, profile: ProfileSnapshot },
}

/// A live-profile read under way.
#[derive(Debug, PartialEq, Eq)]
pub struct LiveRead {
    pub device: DeviceId,
    pub identity: DeviceIdentity,
    pub requested: Option<ProfileId>,
    pub battery: Option<u8>,
    pub stage: LiveStage,
}

/// The profile that is read: the requested one where it is enabled, else the
/// current one.
pub open spec fn live_target(requested: Option<ProfileId>, metadata: ProfileMetadata) -> ProfileId {
    match requested {
        Some(profile) if profile.index() <= metadata.maximum_profile.index() => profile,
        _ => metadata.current_profile,
    }
}

/// A device after its metadata and one complete profile were observed.
pub open spec fn live_seen(
    device: DeviceState,
    metadata: ProfileMetadata,
    target: ProfileId,
    profile: ProfileSnapshot,
    rate: PollingRate,
    now: Timestamp,
) -> DeviceState {
    let sections = sections_seen(profile_or_empty(device.profiles, target), profile, now);
    with_profile(
        with_metadata(device, device.profile_metadata.reconciled(metadata, now)),
        target,
        ProfileState { polling_rate: sections.polling_rate.reconciled(rate, now), ..sections },
    )
}

impl LiveRead {
    pub open spec fn request(self) -> SessionRequest {
        match self.stage {
            LiveStage::Battery => SessionRequest::ReadBattery,
            LiveStage::Metadata => SessionRequest::ReadProfileMetadata,
            LiveStage::Profile { target, .. } => SessionRequest::ReadProfile(target),
            LiveStage::Rate { target, .. } => SessionRequest::ReadLivePollingRate(target),
        }
    }

    pub open spec fn at(self, stage: LiveStage) -> Step<LiveRead, LiveProfileSnapshot> {
        let next = LiveRead { stage, ..self };
        Step::Ask { request: next.request(), next }
    }

    /// How a reply takes the read on. Only a battery level may be missing;
    /// nothing is recorded before everything was read.
    pub open spec fn follows(
        self,
        before: StateFile,
        after: StateFile,
        reply: SessionReply,
        now: Timestamp,
        step: Step<LiveRead, LiveProfileSnapshot>,
    ) -> bool {
        match (self.stage, reply) {
            (LiveStage::Battery, SessionReply::Battery(level)) => {
                &&& step == (LiveRead { battery: Some(level), ..self }).at(LiveStage::Metadata)
                &&& after == before
            },
            (LiveStage::Battery, SessionReply::Failed(error)) if error is UnsupportedOperation => {
                &&& step == self.at(LiveStage::Metadata)
                &&& after == before
            },
            (_, SessionReply::Failed(error)) => {
                &&& step == Step::<LiveRead, LiveProfileSnapshot>::Done(Err(error))
                &&& after == before
            },
            (LiveStage::Metadata, SessionReply::ProfileMetadata(metadata)) => {
                &&& step == self.at(
                    LiveStage::Profile { metadata, target: live_target(self.requested, metadata) },
                )
                &&& after == before
            },
            (LiveStage::Profile { metadata, target }, SessionReply::Profile(profile)) => {
                &&& step == self.at(LiveStage::Rate { metadata, target, profile })
                &&& after == before
            },
            (LiveStage::Rate { metadata, target, profile }, SessionReply::PollingRate(rate)) => {
                &&& after.same_but_devices(before)
                &&& if before.devices@.dom().contains(self.device@) {
                    &&& step == Step::<LiveRead, LiveProfileSnapshot>::Done(
                        Ok(
                            LiveProfileSnapshot {
                                identity: self.identity,
                                battery: self.battery,
                                profile_metadata: metadata,
                                profile,
                                polling_rate: rate,
                            },
                        ),
                    )
                    &&& after.devices@ == before.devices@.insert(
                        self.device@,
                        live_seen(
                            before.devices@[self.device@],
                            metadata,
                            target,
                            profile,
                            rate,
                            now,
                        ),
                    )
                } else {
                    &&& step matches Step::Done(outcome)
                    &&& viewed(outcome) == Err::<LiveProfileSnapshot, ManagerErrorView>(
                        not_found(self.device@),
                    )
                    &&& after.devices@ == before.devices@
                }
            },
            _ => true,
        }
    }

    fn ask(self, stage: LiveStage) -> (r: Step<LiveRead, LiveProfileSnapshot>)
        ensures
            r == self.at(stage),
    {
        let request = match stage {
            LiveStage::Battery => SessionRequest::ReadBattery,
            LiveStage::Metadata => SessionRequest::ReadProfileMetadata,
            LiveStage::Profile { target, metadata: _ } => SessionRequest::ReadProfile(target),
            LiveStage::Rate { target, metadata: _, profile: _ } =>
                SessionRequest::ReadLivePollingRate(target),
        };
        Step::Ask { request, next: LiveRead { stage, ..self } }
    }

    /// Goes on with the reply to the request that was handed out last.
    pub fn resume(self, manager: &mut DeviceManager, reply: SessionReply, now: Timestamp) -> (r: Step<
        LiveRead,
        LiveProfileSnapshot,
    >)
        requires
            reply.fits(self.request()),
        ensures
            final(manager).identity_cache == old(manager).identity_cache,
            self.follows(old(manager).state, final(manager).state, reply, now, r),
    {
        match (self.stage, reply) {
            (LiveStage::Battery, SessionReply::Battery(level)) => LiveRead {
                battery: Some(level),
                ..self
            }.ask(LiveStage::Metadata),
            (LiveStage::Battery, SessionReply::Failed(error)) => if is_unsupported(&error) {
                self.ask(LiveStage::Metadata)
            } else {
                Step::Done(Err(error))
            },
            (_, SessionReply::Failed(error)) => Step::Done(Err(error)),
            (LiveStage::Metadata, SessionReply::ProfileMetadata(metadata)) => {
                let target = match self.requested {
                    Some(profile) => if profile.get() <= metadata.maximum().get() {
                        profile
                    } else {
                        metadata.current()
                    },
                    None => metadata.current(),
                };
                self.ask(LiveStage::Profile { metadata, target })
            },
            (LiveStage::Profile { metadata, target }, SessionReply::Profile(profile)) => self.ask(
                LiveStage::Rate { metadata, target, profile },
            ),
            (LiveStage::Rate { metadata, target, profile }, SessionReply::PollingRate(rate)) => {
                let ghost before = manager.state.devices@;
                match manager.state.devices.remove(&self.device) {
                    None => {
                        assert(manager.state.devices@ =~= before);
                        Step::Done(Err(ManagerError::DeviceNotFound(self.device.clone())))
                    },
                    Some(mut device_state) => {
                        reconcile_observed(&mut device_state.profile_metadata, metadata, now);
                        let mut profile_state = profile_entry(&device_state.profiles, target);
                        see_sections(&mut profile_state, &profile, now);
                        reconcile_observed(&mut profile_state.polling_rate, rate, now);
                        device_state.profiles.insert(target, profile_state);
                        manager.state.devices.insert(self.device.clone(), device_state);
                        assert(manager.state.devices@ =~= before.insert(
                            self.device@,
                            live_seen(before[self.device@], metadata, target, profile, rate, now),
                        ));
                        Step::Done(
                            Ok(
                                LiveProfileSnapshot {
                                    identity: self.identity,
                                    battery: self.battery,
                                    profile_metadata: metadata,
                                    profile,
                                    polling_rate: rate,
                                },
                            ),
                        )
                    },
                }
            },
            _ => unreached(),
        }
    }
}

/// The profile that a live read asks for is the requested one wherever one is
/// requested that is not above the maximum that was read. It is the current
/// one exactly where none is requested or the requested one is above the
/// maximum, or where the two are the same.
pub proof fn law_requested_profile_is_read(
    read: LiveRead,
    manager: &mut DeviceManager,
    metadata: ProfileMetadata,
    now: Timestamp,
    r: Step<LiveRead, LiveProfileSnapshot>,
)
    requires
        read.stage is Metadata,
        call_ensures(
            LiveRead::resume,
            (read, manager, SessionReply::ProfileMetadata(metadata), now),
            r,
        ),
    ensures
        nothing_changes(old(manager).state, final(manager).state),
        ({
            &&& r matches Step::Ask { request, next }
            &&& request matches SessionRequest::ReadProfile(profile)
            &&& next.request() == request
            &&& next.device == read.device && next.identity == read.identity && next.battery
                == read.battery
            &&& next.stage matches LiveStage::Profile { metadata: kept, target }
            &&& kept == metadata
            &&& target == profile
            &&& match read.requested {
                Some(wanted) => if wanted.index() <= metadata.maximum_profile.index() {
                    profile == wanted
                } else {
                    profile == metadata.current_profile
                },
                None => profile == metadata.current_profile,
            }
        }),
{
}

/// A profile that was loaded for a live read is followed by the rate of the
/// same profile, and what was read so far is kept.
pub proof fn law_live_rate_follows_its_profile(
    read: LiveRead,
    manager: &mut DeviceManager,
    metadata: ProfileMetadata,
    target: ProfileId,
    profile: ProfileSnapshot,
    now: Timestamp,
    r: Step<LiveRead, LiveProfileSnapshot>,
)
    requires
        read.stage == (LiveStage::Profile { metadata, target }),
        call_ensures(LiveRead::resume, (read, manager, SessionReply::Profile(profile), now), r),
    ensures
        nothing_changes(old(manager).state, final(manager).state),
        r matches Step::Ask { request, next } && request == SessionRequest::ReadLivePollingRate(
            target,
        ) && next.stage == (LiveStage::Rate { metadata, target, profile }) && next.device
            == read.device && next.identity == read.identity && next.battery == read.battery,
{
}

/// A live read that has all its parts hands each of them out as it was read
/// and puts each on record: the metadata for the mouse, the three sections and
/// the rate for the profile that was read. No other profile and no other mouse
/// changes, and an unknown mouse is an error.
pub proof fn law_live_reads_are_recorded(
    read: LiveRead,
    manager: &mut DeviceManager,
    metadata: ProfileMetadata,
    target: ProfileId,
    profile: ProfileSnapshot,
    rate: PollingRate,
    now: Timestamp,
    r: Step<LiveRead, LiveProfileSnapshot>,
)
    requires
        read.stage == (LiveStage::Rate { metadata, target, profile }),
        call_ensures(LiveRead::resume, (read, manager, SessionReply::PollingRate(rate), now), r),
    ensures
        only_mouse_changes(old(manager).state, final(manager).state, read.device@),
        final(manager).identity_cache == old(manager).identity_cache,
        old(manager).state.devices@.dom().contains(read.device@) ==> ({
            let before = old(manager).state.devices@[read.device@];
            let after = final(manager).state.devices@[read.device@];
            &&& r matches Step::Done(Ok(snapshot))
            &&& snapshot.identity == read.identity
            &&& snapshot.battery == read.battery
            &&& snapshot.profile_metadata == metadata
            &&& snapshot.profile == profile
            &&& snapshot.polling_rate == rate
            &&& is_seen(before.profile_metadata, metadata, now, after.profile_metadata)
            &&& is_seen(dpi_of(before, target), profile.dpi, now, dpi_of(after, target))
            &&& is_seen(
                preferences_of(before, target),
                profile.preferences,
                now,
                preferences_of(after, target),
            )
            &&& is_seen(buttons_of(before, target), profile.buttons, now, buttons_of(after, target))
            &&& is_seen(rate_of(before, target), rate, now, rate_of(after, target))
            &&& only_slot_changes(before, after, target)
        }),
        !old(manager).state.devices@.dom().contains(read.device@) ==> (r matches Step::Done(
            Err(error),
        ) && error@ == ManagerErrorView::DeviceNotFound(read.device@)),
{
    if old(manager).state.devices@.dom().contains(read.device@) {
        lemma_one_mouse(
            old(manager).state.devices@,
            read.device@,
            final(manager).state.devices@[read.device@],
        );
    }
}

/// A live read asks for a battery level over the receiver only, goes on to the
/// metadata with or without one, and ends with any failure but an unsupported
/// battery read. A failure puts nothing on record.
pub proof fn law_live_reads_may_lack_a_battery_level(
    read: LiveRead,
    manager: &mut DeviceManager,
    reply: SessionReply,
    now: Timestamp,
    r: Step<LiveRead, LiveProfileSnapshot>,
)
    requires
        call_ensures(LiveRead::resume, (read, manager, reply, now), r),
        reply is Failed || (read.stage is Battery && reply is Battery),
    ensures
        nothing_changes(old(manager).state, final(manager).state),
        reply matches SessionReply::Failed(error) ==> (if read.stage is Battery
            && error is UnsupportedOperation {
            r matches Step::Ask { request, next } && request is ReadProfileMetadata && next
                == (LiveRead { stage: LiveStage::Metadata, ..read })
        } else {
            r matches Step::Done(Err(given)) && given == error
        }),
        reply matches SessionReply::Battery(level) ==> (r matches Step::Ask { request, next }
            && request is ReadProfileMetadata && next == (LiveRead {
            stage: LiveStage::Metadata,
            battery: Some(level),
            ..read
        })),
{
}

/// A live read begins with the battery level over the receiver and with the
/// metadata over the cable, and it keeps what was requested; BLE is refused.
pub proof fn law_live_reads_begin(
    manager: &DeviceManager,
    device: &DeviceId,
    identity: DeviceIdentity,
    requested: Option<ProfileId>,
    transport: TransportKind,
    r: Step<LiveRead, LiveProfileSnapshot>,
)
    requires
        call_ensures(
            DeviceManager::read_live_profile,
            (manager, device, identity, requested, transport),
            r,
        ),
    ensures
        transport is Ble ==> (r matches Step::Done(Err(error)) && error@
            == (ManagerErrorView::UnsupportedOperation {
            operation: "read-live-profile"@,
            transport,
        })),
        !(transport is Ble) ==> (r matches Step::Ask { request, next } && next.device == *device
            && next.identity == identity && next.requested == requested && next.battery is None && (
        if transport is Receiver {
            request is ReadBattery && next.stage is Battery
        } else {
            request is ReadProfileMetadata && next.stage is Metadata
        })),
{
}

/// A status read begins with the battery level, except over the cable, where
/// none is asked for.
pub proof fn law_status_reads_begin(
    manager: &DeviceManager,
    device: &DeviceId,
    identity: DeviceIdentity,
    transport: TransportKind,
    r: Step<StatusRead, DeviceStatus>,
)
    requires
        call_ensures(DeviceManager::read_status, (manager, device, identity, transport), r),
    ensures
        r matches Step::Ask { request, next } && next.device == *device && next.identity == identity
            && next.transport == transport && next.battery is None && next.profile_metadata is None
            && (if transport is Wired {
            request is ReadProfileMetadata && next.stage is Metadata
        } else {
            request is ReadBattery && next.stage is Battery
        }),
{
}

/// A status read records the metadata that it sees over USB, asks for the
/// current profile next, and hands the evidence on; over BLE it ends without
/// recording anything.
pub proof fn law_status_metadata_is_recorded(
    read: StatusRead,
    manager: &mut DeviceManager,
    metadata: ProfileMetadata,
    now: Timestamp,
    r: Step<StatusRead, DeviceStatus>,
)
    requires
        read.stage is Metadata,
        call_ensures(
            StatusRead::resume,
            (read, manager, SessionReply::ProfileMetadata(metadata), now),
            r,
        ),
    ensures
        only_mouse_changes(old(manager).state, final(manager).state, read.device@),
        read.transport is Ble ==> nothing_changes(old(manager).state, final(manager).state) && r
            == Step::<StatusRead, DeviceStatus>::Done(
            Ok(
                DeviceStatus {
                    identity: read.identity,
                    battery: read.battery,
                    profile_metadata: read.profile_metadata,
                    polling_rate: None,
                },
            ),
        ),
        !(read.transport is Ble) && old(manager).state.devices@.dom().contains(read.device@) ==> ({
            let before = old(manager).state.devices@[read.device@];
            let after = final(manager).state.devices@[read.device@];
            &&& is_seen(before.profile_metadata, metadata, now, after.profile_metadata)
            &&& after.identity == before.identity
            &&& after.profiles == before.profiles
            &&& after.profile_names == before.profile_names
            &&& r matches Step::Ask { request, next }
            &&& request == SessionRequest::ReadProfile(metadata.current_profile)
            &&& next.stage == StatusStage::Profile(metadata.current_profile)
            &&& next.profile_metadata == Some(
                ResourceSnapshot { resource: after.profile_metadata },
            )
            &&& next.battery == read.battery && next.identity == read.identity && next.device
                == read.device && next.transport == read.transport
        }),
        !(read.transport is Ble) && !old(manager).state.devices@.dom().contains(read.device@) ==> (
        r matches Step::Done(Err(error)) && error@ == ManagerErrorView::DeviceNotFound(
            read.device@,
        )),
{
    if old(manager).state.devices@.dom().contains(read.device@) {
        lemma_one_mouse(
            old(manager).state.devices@,
            read.device@,
            final(manager).state.devices@[read.device@],
        );
    }
}

/// A status read ends with the live rate of the profile that was loaded: it is
/// recorded for that profile alone and handed out with everything that was
/// read before.
pub proof fn law_status_rate_is_recorded(
    read: StatusRead,
    manager: &mut DeviceManager,
    profile: ProfileId,
    rate: PollingRate,
    now: Timestamp,
    r: Step<StatusRead, DeviceStatus>,
)
    requires
        read.stage == StatusStage::Rate(profile),
        call_ensures(StatusRead::resume, (read, manager, SessionReply::PollingRate(rate), now), r),
    ensures
        only_mouse_changes(old(manager).state, final(manager).state, read.device@),
        old(manager).state.devices@.dom().contains(read.device@) ==> ({
            let before = old(manager).state.devices@[read.device@];
            let after = final(manager).state.devices@[read.device@];
            &&& is_seen(rate_of(before, profile), rate, now, rate_of(after, profile))
            &&& dpi_of(after, profile) == dpi_of(before, profile)
            &&& preferences_of(after, profile) == preferences_of(before, profile)
            &&& buttons_of(after, profile) == buttons_of(before, profile)
            &&& after.profile_metadata == before.profile_metadata
            &&& only_slot_changes(before, after, profile)
            &&& r matches Step::Done(Ok(status))
            &&& status.identity == read.identity
            &&& status.battery == read.battery
            &&& status.profile_metadata == read.profile_metadata
            &&& status.polling_rate == Some(
                ResourceSnapshot { resource: rate_of(after, profile) },
            )
        }),
        !old(manager).state.devices@.dom().contains(read.device@) ==> (r matches Step::Done(
            Err(error),
        ) && error@ == ManagerErrorView::DeviceNotFound(read.device@)),
{
    if old(manager).state.devices@.dom().contains(read.device@) {
        lemma_one_mouse(
            old(manager).state.devices@,
            read.device@,
            final(manager).state.devices@[read.device@],
        );
    }
}

/// In a status read the transport may lack anything: what it cannot do is left
/// out, with the battery level missing the read goes on, and any other failure
/// ends it. The rate that is asked for is that of the profile just loaded.
pub proof fn law_status_leaves_out_what_is_missing(
    read: StatusRead,
    manager: &mut DeviceManager,
    reply: SessionReply,
    now: Timestamp,
    r: Step<StatusRead, DeviceStatus>,
)
    requires
        call_ensures(StatusRead::resume, (read, manager, reply, now), r),
        reply is Failed || reply is Battery || reply is Profile,
    ensures
        nothing_changes(old(manager).state, final(manager).state),
        reply matches SessionReply::Failed(error) ==> (if !(error is UnsupportedOperation) {
            r matches Step::Done(Err(given)) && given == error
        } else if read.stage is Battery {
            r matches Step::Ask { request, next } && request is ReadProfileMetadata && next
                == (StatusRead { stage: StatusStage::Metadata, ..read })
        } else {
            r matches Step::Done(Ok(status)) && status.identity == read.identity && status.battery
                == read.battery && status.profile_metadata == read.profile_metadata
                && status.polling_rate is None
        }),
        reply matches SessionReply::Battery(level) ==> (r matches Step::Ask { request, next }
            && request is ReadProfileMetadata && next == (StatusRead {
            stage: StatusStage::Metadata,
            battery: Some(level),
            ..read
        })),
        reply is Profile ==> (read.stage matches StatusStage::Profile(profile) && (
        r matches Step::Ask { request, next } && request == SessionRequest::ReadLivePollingRate(
            profile,
        ) && next == (StatusRead { stage: StatusStage::Rate(profile), ..read }))),
{
}

} // verus!
