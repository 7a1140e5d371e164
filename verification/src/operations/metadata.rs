//! Writes of the profile metadata.

use vstd::pervasive::unreached;
use vstd::prelude::*;

use crate::device::DeviceId;
use crate::error::{viewed, DriverError, ManagerError, ManagerErrorView};
use crate::manager::{not_found, DeviceManager};
use crate::protocol::{
    is_usb_transport, later_profile, max_profile, ProfileId, ProfileMetadata, TransportKind,
};
use crate::resources::evidence::{
    is_put, lemma_one_mouse, nothing_changes, only_mouse_changes,
};
use crate::resources::state::{record_ack, record_readback, with_metadata};
use crate::session::{SessionReply, SessionRequest, SessionWrite, Step};
use crate::state::{DesiredSource, ResourceState, StateFile, Timestamp};

verus! {

/// How far a metadata write has come.
#[derive(Clone, Copy, Debug, PartialEq, Eq, Structural)]
pub enum MetadataUpdateStage {
    /// The metadata is read, so that enabled profiles stay enabled.
    Read { profile: ProfileId },
    /// The metadata is written.
    Write { target: ProfileMetadata },
}

/// A metadata write under way.
#[derive(Debug, PartialEq, Eq)]
pub struct MetadataUpdate {
    pub device: DeviceId,
    pub transport: TransportKind,
    pub stage: MetadataUpdateStage,
}

/// The evidence after a metadata write. Only USB reads back; anything else
/// counts as acknowledged.
pub open spec fn metadata_recorded(
    resource: ResourceState<ProfileMetadata>,
    transport: TransportKind,
    target: ProfileMetadata,
    write: SessionWrite<ProfileMetadata>,
    now: Timestamp,
) -> ResourceState<ProfileMetadata> {
    match write {
        SessionWrite::ReadbackVerified(actual) if transport.is_usb() => resource.read_back(
            target,
            actual,
            DesiredSource::UserWrite,
            now,
        ),
        _ => resource.acknowledged(target, DesiredSource::UserWrite, now),
    }
}

/// What a metadata write gives: what is in the mouse now, as far as is known.
pub open spec fn metadata_result(
    transport: TransportKind,
    target: ProfileMetadata,
    write: SessionWrite<ProfileMetadata>,
) -> Result<ProfileMetadata, ManagerErrorView> {
    match write {
        SessionWrite::ReadbackVerified(actual) => if transport.is_usb() && actual != target {
            Err(
                ManagerErrorView::VerificationMismatch {
                    resource: "profile metadata"@,
                    profile: Some(target.current_profile),
                },
            )
        } else {
            Ok(actual)
        },
        SessionWrite::Acknowledged => Ok(target),
    }
}

impl MetadataUpdate {
    /// The reply is one that the update waits for.
    pub open spec fn accepts(self, reply: SessionReply) -> bool {
        ||| reply is Failed
        ||| match self.stage {
            MetadataUpdateStage::Read { .. } => reply is ProfileMetadata,
            MetadataUpdateStage::Write { .. } => reply is ProfileMetadataWritten,
        }
    }

    pub open spec fn sends(
        device: DeviceId,
        transport: TransportKind,
        target: ProfileMetadata,
    ) -> Step<MetadataUpdate, ProfileMetadata> {
        Step::Ask {
            request: SessionRequest::WriteProfileMetadata(target),
            next: MetadataUpdate {
                device,
                transport,
                stage: MetadataUpdateStage::Write { target },
            },
        }
    }

    fn send(device: DeviceId, transport: TransportKind, target: ProfileMetadata) -> (r: Step<
        MetadataUpdate,
        ProfileMetadata,
    >)
        ensures
            r == MetadataUpdate::sends(device, transport, target),
    {
        Step::Ask {
            request: SessionRequest::WriteProfileMetadata(target),
            next: MetadataUpdate {
                device,
                transport,
                stage: MetadataUpdateStage::Write { target },
            },
        }
    }

    /// Sends metadata with the given parts, or refuses parts that do not fit
    /// together.
    pub open spec fn sends_parts(
        device: DeviceId,
        transport: TransportKind,
        current: ProfileId,
        maximum: ProfileId,
    ) -> Step<MetadataUpdate, ProfileMetadata> {
        match ProfileMetadata::built(current, maximum) {
            Ok(target) => MetadataUpdate::sends(device, transport, target),
            Err(error) => Step::Done(Err(ManagerError::Driver(DriverError::Protocol(error)))),
        }
    }

    fn send_parts(
        device: DeviceId,
        transport: TransportKind,
        current: ProfileId,
        maximum: ProfileId,
    ) -> (r: Step<MetadataUpdate, ProfileMetadata>)
        ensures
            r == MetadataUpdate::sends_parts(device, transport, current, maximum),
    {
        match ProfileMetadata::new(current, maximum) {
            Ok(target) => MetadataUpdate::send(device, transport, target),
            Err(error) => Step::Done(Err(ManagerError::Driver(DriverError::Protocol(error)))),
        }
    }

    /// How a reply takes the write on.
    pub open spec fn follows(
        self,
        before: StateFile,
        after: StateFile,
        reply: SessionReply,
        now: Timestamp,
        step: Step<MetadataUpdate, ProfileMetadata>,
    ) -> bool {
        match (self.stage, reply) {
            (_, SessionReply::Failed(error)) => {
                &&& step == Step::<MetadataUpdate, ProfileMetadata>::Done(Err(error))
                &&& after == before
            },
            (MetadataUpdateStage::Read { profile }, SessionReply::ProfileMetadata(metadata)) => {
                &&& step == MetadataUpdate::sends(
                    self.device,
                    self.transport,
                    ProfileMetadata {
                        current_profile: profile,
                        maximum_profile: later_profile(metadata.maximum_profile, profile),
                    },
                )
                &&& after == before
            },
            (
                MetadataUpdateStage::Write { target },
                SessionReply::ProfileMetadataWritten(write),
            ) => {
                &&& step matches Step::Done(outcome)
                &&& after.same_but_devices(before)
                &&& if before.devices@.dom().contains(self.device@) {
                    let device = before.devices@[self.device@];
                    &&& viewed(outcome) == metadata_result(self.transport, target, write)
                    &&& after.devices@ == before.devices@.insert(
                        self.device@,
                        with_metadata(
                            device,
                            metadata_recorded(
                                device.profile_metadata,
                                self.transport,
                                target,
                                write,
                                now,
                            ),
                        ),
                    )
                } else {
                    &&& viewed(outcome) == Err::<ProfileMetadata, ManagerErrorView>(
                        not_found(self.device@),
                    )
                    &&& after.devices@ == before.devices@
                }
            },
            _ => true,
        }
    }

    /// Goes on with the reply to the request that was handed out last.
    pub fn resume(self, manager: &mut DeviceManager, reply: SessionReply, now: Timestamp) -> (r: Step<
        MetadataUpdate,
        ProfileMetadata,
    >)
        requires
            self.accepts(reply),
        ensures
            final(manager).identity_cache == old(manager).identity_cache,
            self.follows(old(manager).state, final(manager).state, reply, now, r),
    {
        match (self.stage, reply) {
            (_, SessionReply::Failed(error)) => Step::Done(Err(error)),
            (MetadataUpdateStage::Read { profile }, SessionReply::ProfileMetadata(metadata)) => {
                let maximum = max_profile(metadata.maximum(), profile);
                MetadataUpdate::send_parts(self.device, self.transport, profile, maximum)
            },
            (
                MetadataUpdateStage::Write { target },
                SessionReply::ProfileMetadataWritten(write),
            ) => Step::Done(self.write_profile_metadata(manager, target, write, now)),
            _ => unreached(),
        }
    }

    /// Records the outcome of a metadata write.
    fn write_profile_metadata(
        self,
        manager: &mut DeviceManager,
        target: ProfileMetadata,
        write: SessionWrite<ProfileMetadata>,
        now: Timestamp,
    ) -> (r: Result<ProfileMetadata, ManagerError>)
        ensures
            final(manager).identity_cache == old(manager).identity_cache,
            final(manager).state.same_but_devices(old(manager).state),
            ({
                let before = old(manager).state.devices@;
                let after = final(manager).state.devices@;
                if before.dom().contains(self.device@) {
                    let device = before[self.device@];
                    &&& viewed(r) == metadata_result(self.transport, target, write)
                    &&& after == before.insert(
                        self.device@,
                        with_metadata(
                            device,
                            metadata_recorded(
                                device.profile_metadata,
                                self.transport,
                                target,
                                write,
                                now,
                            ),
                        ),
                    )
                } else {
                    &&& viewed(r) == Err::<ProfileMetadata, ManagerErrorView>(
                        not_found(self.device@),
                    )
                    &&& after == before
                }
            }),
    {
        let usb: bool = is_usb_transport(self.transport);
        let (actual, observed): (ProfileMetadata, Option<ProfileMetadata>) = match write {
            SessionWrite::ReadbackVerified(actual) => if usb {
                (actual, Some(actual))
            } else {
                (actual, None)
            },
            SessionWrite::Acknowledged => (target, None),
        };
        let ghost before = manager.state.devices@;
        match manager.state.devices.remove(&self.device) {
            None => {
                assert(manager.state.devices@ =~= before);
                return Err(ManagerError::DeviceNotFound(self.device.clone()));
            },
            Some(mut device_state) => {
                match observed {
                    Some(seen) => record_readback(
                        &mut device_state.profile_metadata,
                        target,
                        seen,
                        now,
                    ),
                    None => record_ack(&mut device_state.profile_metadata, target, now),
                }
                let ghost resource = device_state.profile_metadata;
                manager.state.devices.insert(self.device.clone(), device_state);
                assert(manager.state.devices@ =~= before.insert(
                    self.device@,
                    with_metadata(before[self.device@], resource),
                ));
            },
        }
        if usb && actual != target {
            return Err(
                ManagerError::VerificationMismatch {
                    resource: "profile metadata",
                    profile: Some(target.current()),
                },
            );
        }
        Ok(actual)
    }
}

impl DeviceManager {
    /// Begins to make a profile the current one, keeping the enabled profiles
    /// enabled. Over BLE the metadata cannot be read, so all are enabled.
    pub fn activate_profile(
        &self,
        device: &DeviceId,
        profile: ProfileId,
        transport: TransportKind,
    ) -> (r: Step<MetadataUpdate, ProfileMetadata>)
        ensures
            r == (if transport.is_usb() {
                Step::Ask {
                    request: SessionRequest::ReadProfileMetadata,
                    next: MetadataUpdate {
                        device: *device,
                        transport,
                        stage: MetadataUpdateStage::Read { profile },
                    },
                }
            } else {
                MetadataUpdate::sends(
                    *device,
                    transport,
                    ProfileMetadata {
                        current_profile: profile,
                        maximum_profile: ProfileId::Five,
                    },
                )
            }),
    {
        if is_usb_transport(transport) {
            return Step::Ask {
                request: SessionRequest::ReadProfileMetadata,
                next: MetadataUpdate {
                    device: device.clone(),
                    transport,
                    stage: MetadataUpdateStage::Read { profile },
                },
            };
        }
        MetadataUpdate::send_parts(device.clone(), transport, profile, ProfileId::MAX_ID)
    }

    /// Begins to set the current profile and the enabled ones.
    pub fn set_profile_metadata(
        &self,
        device: &DeviceId,
        current: ProfileId,
        maximum: ProfileId,
        transport: TransportKind,
    ) -> (r: Step<MetadataUpdate, ProfileMetadata>)
        ensures
            r == MetadataUpdate::sends_parts(*device, transport, current, maximum),
    {
        MetadataUpdate::send_parts(device.clone(), transport, current, maximum)
    }
}

/// Activating a profile over USB never disables one that was enabled, and what
/// is sent is always sound.
pub proof fn law_activation_keeps_profiles_enabled(metadata: ProfileMetadata, profile: ProfileId)
    ensures
        ({
            let target = ProfileMetadata {
                current_profile: profile,
                maximum_profile: later_profile(metadata.maximum_profile, profile),
            };
            &&& target.wf()
            &&& target.maximum_profile.index() >= metadata.maximum_profile.index()
            &&& ProfileMetadata::built(profile, target.maximum_profile) == Ok::<
                ProfileMetadata,
                crate::protocol::ProtocolError,
            >(target)
        }),
{
}

/// Activating a profile over USB asks for the metadata first and writes that
/// profile as the current one with the larger of its number and the maximum
/// that was read; over BLE every profile is enabled at once.
pub proof fn law_activation_makes_the_profile_current(
    manager: &DeviceManager,
    device: &DeviceId,
    profile: ProfileId,
    transport: TransportKind,
    r: Step<MetadataUpdate, ProfileMetadata>,
)
    requires
        call_ensures(DeviceManager::activate_profile, (manager, device, profile, transport), r),
    ensures
        r matches Step::Ask { request, next } && {
            &&& next.device == *device
            &&& next.transport == transport
            &&& if transport is Ble {
                &&& request matches SessionRequest::WriteProfileMetadata(sent)
                &&& sent.current_profile == profile
                &&& sent.maximum_profile is Five
                &&& next.stage == (MetadataUpdateStage::Write { target: sent })
            } else {
                request is ReadProfileMetadata && next.stage == (MetadataUpdateStage::Read {
                    profile,
                })
            }
        },
{
}

/// What is written after the metadata was read names the profile that is to be
/// activated, enables it and every profile that was enabled, and no more.
pub proof fn law_activation_enables_no_more(
    update: MetadataUpdate,
    manager: &mut DeviceManager,
    profile: ProfileId,
    metadata: ProfileMetadata,
    now: Timestamp,
    r: Step<MetadataUpdate, ProfileMetadata>,
)
    requires
        update.stage == (MetadataUpdateStage::Read { profile }),
        call_ensures(
            MetadataUpdate::resume,
            (update, manager, SessionReply::ProfileMetadata(metadata), now),
            r,
        ),
    ensures
        nothing_changes(old(manager).state, final(manager).state),
        r matches Step::Ask { request, next } && {
            &&& next.device == update.device
            &&& next.transport == update.transport
            &&& request matches SessionRequest::WriteProfileMetadata(sent)
            &&& next.stage == (MetadataUpdateStage::Write { target: sent })
            &&& sent.current_profile == profile
            &&& sent.maximum_profile.index() >= profile.index()
            &&& sent.maximum_profile.index() >= metadata.maximum_profile.index()
            &&& sent.maximum_profile == profile || sent.maximum_profile == metadata.maximum_profile
        },
{
}

/// Metadata are set exactly as asked where the current profile is an enabled
/// one, and refused elsewhere.
pub proof fn law_metadata_are_set_as_asked(
    manager: &DeviceManager,
    device: &DeviceId,
    current: ProfileId,
    maximum: ProfileId,
    transport: TransportKind,
    r: Step<MetadataUpdate, ProfileMetadata>,
)
    requires
        call_ensures(
            DeviceManager::set_profile_metadata,
            (manager, device, current, maximum, transport),
            r,
        ),
    ensures
        current.index() <= maximum.index() ==> (r matches Step::Ask { request, next } && {
            &&& request matches SessionRequest::WriteProfileMetadata(sent)
            &&& sent.current_profile == current
            &&& sent.maximum_profile == maximum
            &&& next == (MetadataUpdate {
                device: *device,
                transport,
                stage: MetadataUpdateStage::Write { target: sent },
            })
        }),
        current.index() > maximum.index() ==> (r matches Step::Done(Err(ManagerError::Driver(_)))),
{
}

/// A metadata write is recorded as what the user wants, whatever came back:
/// with the readback over USB, as acknowledged elsewhere. It succeeds unless
/// the mouse read back something else over USB, and gives what the mouse holds
/// as far as is known. No profile and no other mouse changes.
pub proof fn law_metadata_writes_are_recorded(
    update: MetadataUpdate,
    manager: &mut DeviceManager,
    target: ProfileMetadata,
    write: SessionWrite<ProfileMetadata>,
    now: Timestamp,
    r: Step<MetadataUpdate, ProfileMetadata>,
)
    requires
        update.stage == (MetadataUpdateStage::Write { target }),
        call_ensures(
            MetadataUpdate::resume,
            (update, manager, SessionReply::ProfileMetadataWritten(write), now),
            r,
        ),
    ensures
        only_mouse_changes(old(manager).state, final(manager).state, update.device@),
        r is Done,
        !old(manager).state.devices@.dom().contains(update.device@) ==> (r matches Step::Done(
            Err(error),
        ) && error@ == ManagerErrorView::DeviceNotFound(update.device@)),
        old(manager).state.devices@.dom().contains(update.device@) ==> ({
            let before = old(manager).state.devices@[update.device@];
            let after = final(manager).state.devices@[update.device@];
            let usb = update.transport is Wired || update.transport is Receiver;
            &&& after.identity == before.identity
            &&& after.profiles == before.profiles
            &&& after.profile_names == before.profile_names
            &&& usb ==> is_put(before.profile_metadata, target, write, now, after.profile_metadata)
            &&& !usb ==> is_put(
                before.profile_metadata,
                target,
                SessionWrite::Acknowledged,
                now,
                after.profile_metadata,
            )
            &&& write is Acknowledged ==> r == Step::<MetadataUpdate, ProfileMetadata>::Done(
                Ok(target),
            )
            &&& write matches SessionWrite::ReadbackVerified(seen) ==> (if usb && seen != target {
                r matches Step::Done(Err(error)) && (
                error@ matches ManagerErrorView::VerificationMismatch { resource, profile }
                    && profile == Some(target.current_profile) && resource
                    == "profile metadata"@)
            } else {
                r == Step::<MetadataUpdate, ProfileMetadata>::Done(Ok(seen))
            })
        }),
{
    if old(manager).state.devices@.dom().contains(update.device@) {
        lemma_one_mouse(
            old(manager).state.devices@,
            update.device@,
            final(manager).state.devices@[update.device@],
        );
    }
}

} // verus!
