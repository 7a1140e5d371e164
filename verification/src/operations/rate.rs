//! Writes of the polling rate.
//!
//! The rate report skips the profile loader, and its deferred writer can
//! persist the complete live image under the target profile. A rate is
//! therefore written over USB only when every other section of the freshly
//! read profile equals the wanted image.

use vstd::pervasive::unreached;
use vstd::prelude::*;

use crate::device::DeviceId;
use crate::error::{viewed, ManagerError, ManagerErrorView};
use crate::exact::SameValue;
use crate::manager::DeviceManager;
use crate::operation::{UpdatePolicy, VerificationMethod, WriteOutcome};
use crate::operations::baseline::{complete_image, missing_baseline, CompleteDesiredImage};
use crate::operations::update::{end_write, write_ends};
use crate::protocol::{PollingRate, ProfileId, ProfileSnapshot, TransportKind};
use crate::resources::evidence::{
    buttons_of, dpi_of, is_put, is_reported, lemma_one_mouse, nothing_changes, only_mouse_changes,
    only_slot_changes, preferences_of, rate_of,
};
use crate::session::{SessionReply, SessionRequest, SessionWrite, Step};
use crate::state::{StateFile, Timestamp};

verus! {

/// How far a polling-rate write has come.
#[derive(Clone, Copy, Debug, PartialEq, Eq)]
pub enum RateStage {
    /// The complete profile is read, to be compared with the wanted image.
    Profile { image: CompleteDesiredImage },
    /// The live rate is read.
    Rate,
    /// The rate is written.
    Write,
}

/// A polling-rate write under way.
#[derive(Debug, PartialEq, Eq)]
pub struct RateUpdate {
    pub device: DeviceId,
    pub profile: ProfileId,
    pub desired: PollingRate,
    pub verification: VerificationMethod,
    /// The mouse itself must name the profile as the current one.
    pub require_current: bool,
    pub stage: RateStage,
}

/// The first thing in a freshly read profile that stands against writing the
/// rate, if there is one.
pub open spec fn rate_refusal(
    profile: ProfileId,
    require_current: bool,
    image: CompleteDesiredImage,
    snapshot: ProfileSnapshot,
) -> Option<ManagerErrorView> {
    if require_current && snapshot.persistent_metadata.current_profile != profile {
        Some(
            ManagerErrorView::VerificationMismatch {
                resource: "profile metadata"@,
                profile: Some(profile),
            },
        )
    } else if snapshot.dpi != image.dpi {
        Some(missing_baseline("DPI"@, profile))
    } else if snapshot.preferences != image.preferences {
        Some(missing_baseline("preferences"@, profile))
    } else if snapshot.buttons != image.buttons {
        Some(missing_baseline("buttons"@, profile))
    } else {
        None
    }
}

/// Compares a freshly read profile with the wanted image.
pub fn check_rate_preflight(
    profile: ProfileId,
    require_current: bool,
    image: &CompleteDesiredImage,
    snapshot: &ProfileSnapshot,
) -> (r: Result<(), ManagerError>)
    ensures
        viewed(r) == (match rate_refusal(profile, require_current, *image, *snapshot) {
            Some(refusal) => Err(refusal),
            None => Ok(()),
        }),
{
    if require_current && snapshot.persistent_metadata.current() != profile {
        return Err(
            ManagerError::VerificationMismatch {
                resource: "profile metadata",
                profile: Some(profile),
            },
        );
    }
    if !snapshot.dpi.same(&image.dpi) {
        return Err(ManagerError::MissingBaseline { resource: "DPI", profile: Some(profile) });
    }
    if !snapshot.preferences.same(&image.preferences) {
        return Err(
            ManagerError::MissingBaseline { resource: "preferences", profile: Some(profile) },
        );
    }
    if !snapshot.buttons.same(&image.buttons) {
        return Err(ManagerError::MissingBaseline { resource: "buttons", profile: Some(profile) });
    }
    Ok(())
}

impl RateUpdate {
    pub open spec fn request(self) -> SessionRequest {
        match self.stage {
            RateStage::Profile { .. } => SessionRequest::ReadProfile(self.profile),
            RateStage::Rate => SessionRequest::ReadLivePollingRate(self.profile),
            RateStage::Write => SessionRequest::WritePollingRate {
                profile: self.profile,
                rate: self.desired,
                verification: self.verification,
            },
        }
    }

    pub open spec fn at(self, stage: RateStage) -> Step<RateUpdate, WriteOutcome<PollingRate>> {
        let next = RateUpdate { stage, ..self };
        Step::Ask { request: next.request(), next }
    }

    fn ask(self, stage: RateStage) -> (r: Step<RateUpdate, WriteOutcome<PollingRate>>)
        ensures
            r == self.at(stage),
    {
        let request = match stage {
            RateStage::Profile { image: _ } => SessionRequest::ReadProfile(self.profile),
            RateStage::Rate => SessionRequest::ReadLivePollingRate(self.profile),
            RateStage::Write => SessionRequest::WritePollingRate {
                profile: self.profile,
                rate: self.desired,
                verification: self.verification,
            },
        };
        Step::Ask { request, next: RateUpdate { stage, ..self } }
    }

    /// How a reply takes the write on. A rate that is already there is not
    /// written again: the fresh read is its evidence.
    pub open spec fn follows(
        self,
        before: StateFile,
        after: StateFile,
        reply: SessionReply,
        now: Timestamp,
        step: Step<RateUpdate, WriteOutcome<PollingRate>>,
    ) -> bool {
        match (self.stage, reply) {
            (_, SessionReply::Failed(error)) => {
                &&& step == Step::<RateUpdate, WriteOutcome<PollingRate>>::Done(Err(error))
                &&& after == before
            },
            (RateStage::Profile { image }, SessionReply::Profile(snapshot)) => {
                &&& after == before
                &&& match rate_refusal(self.profile, self.require_current, image, snapshot) {
                    Some(refusal) => step matches Step::Done(Err(error)) && error@ == refusal,
                    None => step == self.at(RateStage::Rate),
                }
            },
            (RateStage::Rate, SessionReply::PollingRate(current)) => if current == self.desired {
                &&& step matches Step::Done(outcome)
                &&& write_ends(
                    before,
                    after,
                    self.device@,
                    self.profile,
                    self.desired,
                    SessionWrite::ReadbackVerified(current),
                    "polling rate"@,
                    now,
                    outcome,
                )
            } else {
                &&& step == self.at(RateStage::Write)
                &&& after == before
            },
            (RateStage::Write, SessionReply::PollingRateWritten(write)) => {
                &&& step matches Step::Done(outcome)
                &&& write_ends(
                    before,
                    after,
                    self.device@,
                    self.profile,
                    self.desired,
                    write,
                    "polling rate"@,
                    now,
                    outcome,
                )
            },
            _ => true,
        }
    }

    /// Goes on with the reply to the request that was handed out last.
    pub fn resume(self, manager: &mut DeviceManager, reply: SessionReply, now: Timestamp) -> (r: Step<
        RateUpdate,
        WriteOutcome<PollingRate>,
    >)
        requires
            reply.fits(self.request()),
        ensures
            final(manager).identity_cache == old(manager).identity_cache,
            self.follows(old(manager).state, final(manager).state, reply, now, r),
    {
        match (self.stage, reply) {
            (_, SessionReply::Failed(error)) => Step::Done(Err(error)),
            (RateStage::Profile { image }, SessionReply::Profile(snapshot)) =>
                match check_rate_preflight(
                self.profile,
                self.require_current,
                &image,
                &snapshot,
            ) {
                Ok(()) => self.ask(RateStage::Rate),
                Err(error) => Step::Done(Err(error)),
            },
            (RateStage::Rate, SessionReply::PollingRate(current)) => if current == self.desired {
                Step::Done(
                    end_write(
                        &mut manager.state,
                        &self.device,
                        self.profile,
                        self.desired,
                        SessionWrite::ReadbackVerified(current),
                        "polling rate",
                        now,
                    ),
                )
            } else {
                self.ask(RateStage::Write)
            },
            (RateStage::Write, SessionReply::PollingRateWritten(write)) => Step::Done(
                end_write(
                    &mut manager.state,
                    &self.device,
                    self.profile,
                    self.desired,
                    write,
                    "polling rate",
                    now,
                ),
            ),
            _ => unreached(),
        }
    }
}

/// How a safe rate write begins: never over BLE, and only with the complete
/// wanted image on record.
pub open spec fn rate_begins(
    state: StateFile,
    device: DeviceId,
    profile: ProfileId,
    desired: PollingRate,
    policy: UpdatePolicy,
    transport: TransportKind,
    require_current: bool,
    step: Step<RateUpdate, WriteOutcome<PollingRate>>,
) -> bool {
    if transport is Ble {
        step matches Step::Done(Err(error)) && error@
            == (ManagerErrorView::ExplicitAuthorizationRequired {
            operation: "update_polling_rate"@,
            transport: TransportKind::Ble,
        })
    } else {
        match complete_image(state, device@, profile) {
            Err(refusal) => step matches Step::Done(Err(error)) && error@ == refusal,
            Ok(image) => step == (RateUpdate {
                device,
                profile,
                desired,
                verification: policy.verification,
                require_current,
                stage: RateStage::Rate,
            }).at(RateStage::Profile { image }),
        }
    }
}

impl DeviceManager {
    pub(crate) fn begin_rate_update(
        &self,
        device: &DeviceId,
        profile: ProfileId,
        desired: PollingRate,
        policy: UpdatePolicy,
        transport: TransportKind,
        require_current: bool,
    ) -> (r: Step<RateUpdate, WriteOutcome<PollingRate>>)
        ensures
            rate_begins(
                self.state,
                *device,
                profile,
                desired,
                policy,
                transport,
                require_current,
                r,
            ),
    {
        match transport {
            TransportKind::Ble => {
                return Step::Done(
                    Err(
                        ManagerError::ExplicitAuthorizationRequired {
                            operation: "update_polling_rate",
                            transport: TransportKind::Ble,
                        },
                    ),
                );
            },
            TransportKind::Wired | TransportKind::Receiver => {},
        }
        match self.require_complete_desired_image(device, profile) {
            Err(error) => Step::Done(Err(error)),
            Ok(image) => RateUpdate {
                device: device.clone(),
                profile,
                desired,
                verification: policy.verification,
                require_current,
                stage: RateStage::Rate,
            }.ask(RateStage::Profile { image }),
        }
    }

    /// Begins to write the polling rate of a profile through the safe USB
    /// path. BLE is refused until the caller opts into the unverified write.
    pub fn update_polling_rate(
        &self,
        device: &DeviceId,
        profile: ProfileId,
        desired: PollingRate,
        policy: UpdatePolicy,
        transport: TransportKind,
    ) -> (r: Step<RateUpdate, WriteOutcome<PollingRate>>)
        ensures
            rate_begins(self.state, *device, profile, desired, policy, transport, false, r),
    {
        self.begin_rate_update(device, profile, desired, policy, transport, false)
    }

    /// Begins a direct rate write over BLE, which proves submission only.
    /// Other transports and readback are refused before any write.
    pub fn update_polling_rate_unverified_ble(
        &self,
        device: &DeviceId,
        profile: ProfileId,
        desired: PollingRate,
        policy: UpdatePolicy,
        transport: TransportKind,
    ) -> (r: Step<RateUpdate, WriteOutcome<PollingRate>>)
        ensures
            if transport is Ble && policy.verification is Transport {
                r == (RateUpdate {
                    device: *device,
                    profile,
                    desired,
                    verification: VerificationMethod::Transport,
                    require_current: false,
                    stage: RateStage::Write,
                }).at(RateStage::Write)
            } else {
                r matches Step::Done(Err(error)) && error@
                    == (ManagerErrorView::UnsupportedOperation {
                    operation: "update_polling_rate_unverified_ble"@,
                    transport,
                })
            },
    {
        match (transport, policy.verification) {
            (TransportKind::Ble, VerificationMethod::Transport) => RateUpdate {
                device: device.clone(),
                profile,
                desired,
                verification: VerificationMethod::Transport,
                require_current: false,
                stage: RateStage::Write,
            }.ask(RateStage::Write),
            _ => Step::Done(
                Err(
                    ManagerError::UnsupportedOperation {
                        operation: "update_polling_rate_unverified_ble",
                        transport,
                    },
                ),
            ),
        }
    }
}

/// The safe path writes a rate only after it has seen, in the same session, a
/// profile whose every other section equals the wanted image, and a live rate
/// that differs from the wanted one.
pub proof fn law_rate_write_is_guarded(
    update: RateUpdate,
    before: StateFile,
    after: StateFile,
    reply: SessionReply,
    now: Timestamp,
    step: Step<RateUpdate, WriteOutcome<PollingRate>>,
)
    requires
        reply.fits(update.request()),
        update.follows(before, after, reply, now, step),
    ensures
        (step matches Step::Ask { request, .. } && request is WritePollingRate) ==> {
            &&& update.stage is Rate
            &&& reply matches SessionReply::PollingRate(current)
            &&& current != update.desired
        },
        (step matches Step::Ask { request, .. } && request is ReadLivePollingRate) ==> {
            &&& update.stage matches RateStage::Profile { image }
            &&& reply matches SessionReply::Profile(snapshot)
            &&& snapshot.dpi == image.dpi
            &&& snapshot.preferences == image.preferences
            &&& snapshot.buttons == image.buttons
        },
        step is Ask ==> after == before,
{
}

/// A rate is asked for only after a profile was read that agrees with the
/// wanted image in all three sections and, where that is required, names the
/// profile as the current one. The first thing that disagrees is the error.
pub proof fn law_rate_preflight_compares_everything(
    profile: ProfileId,
    require_current: bool,
    image: &CompleteDesiredImage,
    snapshot: &ProfileSnapshot,
    r: Result<(), ManagerError>,
)
    requires
        call_ensures(check_rate_preflight, (profile, require_current, image, snapshot), r),
    ensures
        r is Ok <==> snapshot.dpi == image.dpi && snapshot.preferences == image.preferences
            && snapshot.buttons == image.buttons && (require_current
            ==> snapshot.persistent_metadata.current_profile == profile),
        r is Err && require_current && snapshot.persistent_metadata.current_profile != profile ==> (
        r matches Err(ManagerError::VerificationMismatch { resource, profile: of }) && of == Some(
            profile,
        )),
        r is Err && !(require_current && snapshot.persistent_metadata.current_profile != profile)
            ==> (r matches Err(ManagerError::MissingBaseline { resource, profile: of }) && of
            == Some(profile)),
{
}

/// A safe rate write begins by reading the very profile, and only over USB with
/// the complete wanted image on record; it remembers what to write and how.
pub proof fn law_rate_writes_begin_with_a_read(
    manager: &DeviceManager,
    device: &DeviceId,
    profile: ProfileId,
    desired: PollingRate,
    policy: UpdatePolicy,
    transport: TransportKind,
    image: Result<CompleteDesiredImage, ManagerError>,
    r: Step<RateUpdate, WriteOutcome<PollingRate>>,
)
    requires
        call_ensures(
            DeviceManager::update_polling_rate,
            (manager, device, profile, desired, policy, transport),
            r,
        ),
        call_ensures(
            DeviceManager::require_complete_desired_image,
            (manager, device, profile),
            image,
        ),
    ensures
        transport is Ble ==> (r matches Step::Done(Err(error)) && error@
            == (ManagerErrorView::ExplicitAuthorizationRequired {
            operation: "update_polling_rate"@,
            transport: TransportKind::Ble,
        })),
        !(transport is Ble) ==> match image {
            Err(refusal) => r matches Step::Done(Err(error)) && error@ == refusal@,
            Ok(image) => r matches Step::Ask { request, next } && {
                &&& request == SessionRequest::ReadProfile(profile)
                &&& next.device == *device
                &&& next.profile == profile
                &&& next.desired == desired
                &&& next.verification == policy.verification
                &&& !next.require_current
                &&& next.stage == (RateStage::Profile { image })
            },
        },
{
}

/// The direct rate write is for BLE without readback and nothing else; it asks
/// for exactly the write that was requested.
pub proof fn law_unverified_writes_are_for_ble(
    manager: &DeviceManager,
    device: &DeviceId,
    profile: ProfileId,
    desired: PollingRate,
    policy: UpdatePolicy,
    transport: TransportKind,
    r: Step<RateUpdate, WriteOutcome<PollingRate>>,
)
    requires
        call_ensures(
            DeviceManager::update_polling_rate_unverified_ble,
            (manager, device, profile, desired, policy, transport),
            r,
        ),
    ensures
        r is Ask <==> transport is Ble && policy.verification is Transport,
        r matches Step::Ask { request, next } ==> {
            &&& request matches SessionRequest::WritePollingRate { profile: of, rate, verification }
            &&& of == profile && rate == desired && verification is Transport
            &&& next.device == *device && next.profile == profile && next.desired == desired
            &&& next.stage is Write
        },
        r is Done ==> (r matches Step::Done(Err(error)) && error@
            == (ManagerErrorView::UnsupportedOperation {
            operation: "update_polling_rate_unverified_ble"@,
            transport,
        })),
{
}

/// After the profile was read and found to agree, the live rate of that profile
/// is read; nothing is recorded before.
pub proof fn law_rate_is_read_before_it_is_written(
    update: RateUpdate,
    manager: &mut DeviceManager,
    image: CompleteDesiredImage,
    snapshot: ProfileSnapshot,
    now: Timestamp,
    r: Step<RateUpdate, WriteOutcome<PollingRate>>,
)
    requires
        update.stage == (RateStage::Profile { image }),
        call_ensures(RateUpdate::resume, (update, manager, SessionReply::Profile(snapshot), now), r),
    ensures
        nothing_changes(old(manager).state, final(manager).state),
        r is Ask <==> snapshot.dpi == image.dpi && snapshot.preferences == image.preferences
            && snapshot.buttons == image.buttons && (update.require_current
            ==> snapshot.persistent_metadata.current_profile == update.profile),
        r matches Step::Ask { request, next } ==> request == SessionRequest::ReadLivePollingRate(
            update.profile,
        ) && next == (RateUpdate { stage: RateStage::Rate, ..update }),
        r is Done ==> (r matches Step::Done(Err(_))),
{
}

/// A live rate that differs is overwritten with the wanted one; one that is
/// there already is recorded as read back and not written again. Whatever comes
/// of a write is recorded for the profile, and nothing else changes.
pub proof fn law_rate_writes_are_recorded(
    update: RateUpdate,
    manager: &mut DeviceManager,
    reply: SessionReply,
    now: Timestamp,
    r: Step<RateUpdate, WriteOutcome<PollingRate>>,
)
    requires
        call_ensures(RateUpdate::resume, (update, manager, reply, now), r),
        (update.stage is Rate && reply is PollingRate) || (update.stage is Write
            && reply is PollingRateWritten),
    ensures
        only_mouse_changes(old(manager).state, final(manager).state, update.device@),
        reply matches SessionReply::PollingRate(current) ==> current != update.desired ==> {
            &&& nothing_changes(old(manager).state, final(manager).state)
            &&& r matches Step::Ask { request, next }
            &&& request matches SessionRequest::WritePollingRate { profile, rate, verification }
            &&& profile == update.profile && rate == update.desired && verification
                == update.verification
            &&& next == (RateUpdate { stage: RateStage::Write, ..update })
        },
        reply != SessionReply::PollingRate(update.desired) && reply is PollingRate || {
            let write = match reply {
                SessionReply::PollingRateWritten(write) => write,
                _ => SessionWrite::ReadbackVerified(update.desired),
            };
            let before = old(manager).state.devices@[update.device@];
            let after = final(manager).state.devices@[update.device@];
            &&& r matches Step::Done(outcome)
            &&& if old(manager).state.devices@.dom().contains(update.device@) {
                &&& is_put(
                    rate_of(before, update.profile),
                    update.desired,
                    write,
                    now,
                    rate_of(after, update.profile),
                )
                &&& is_reported(
                    update.desired,
                    write,
                    "polling rate"@,
                    update.profile,
                    outcome,
                )
                &&& dpi_of(after, update.profile) == dpi_of(before, update.profile)
                &&& preferences_of(after, update.profile) == preferences_of(before, update.profile)
                &&& buttons_of(after, update.profile) == buttons_of(before, update.profile)
                &&& after.profile_metadata == before.profile_metadata
                &&& only_slot_changes(before, after, update.profile)
            } else {
                viewed(outcome) == Err::<WriteOutcome<PollingRate>, ManagerErrorView>(
                    ManagerErrorView::DeviceNotFound(update.device@),
                )
            }
        },
{
    if old(manager).state.devices@.dom().contains(update.device@) {
        lemma_one_mouse(
            old(manager).state.devices@,
            update.device@,
            final(manager).state.devices@[update.device@],
        );
    }
}

} // verus!
