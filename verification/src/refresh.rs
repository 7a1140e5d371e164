//! Capturing the complete profile configuration of a USB mouse.
//!
//! Every profile slot is enabled and activated in turn, each complete live
//! image is read, and the original metadata is always restored, even when the
//! capture fails.

use vstd::pervasive::unreached;
use vstd::prelude::*;

use crate::error::{error_text, viewed, ManagerError, ManagerErrorView};
use crate::operation::RefreshedProfile;
use crate::protocol::{
    PollingRate, ProfileId, ProfileMetadata, ProfileSnapshot, TransportKind,
};
use crate::session::{
    exact_outcome, require_exact_metadata, SessionReply, SessionRequest, SessionWrite, Step,
};
use crate::slots::ProfileMap;
use crate::state::{
    readback, CapturedProfileImage, ObservationSource, ObservedState, ProfileState, ResourceState,
    Timestamp,
};

verus! {

/// Metadata and all five complete profile images of one mouse.
#[derive(Clone, Copy, Debug, PartialEq, Eq)]
pub struct ProfileCapture {
    pub original_metadata: ProfileMetadata,
    pub restored_metadata: ProfileMetadata,
    pub temporarily_expanded: bool,
    pub profiles: ProfileMap<RefreshedProfile>,
}

/// A resource that carries a fresh observation and nothing else.
pub open spec fn observed_only<T>(value: T, now: Timestamp) -> ResourceState<T> {
    ResourceState { desired: None, observed: Some(readback(value, now)) }
}

/// Builds a resource that carries a fresh observation and nothing else.
pub fn observed<T>(value: T, now: Timestamp) -> (r: ResourceState<T>)
    ensures
        r == observed_only(value, now),
{
    let mut resource = ResourceState::empty();
    resource.observed = Some(
        ObservedState { value, source: ObservationSource::UsbReadback, observed_at: now },
    );
    resource
}

/// A captured profile as observed-only evidence.
pub open spec fn profile_evidence(profile: RefreshedProfile, now: Timestamp) -> ProfileState {
    ProfileState {
        dpi: observed_only(profile.dpi, now),
        preferences: observed_only(profile.preferences, now),
        buttons: observed_only(profile.buttons, now),
        polling_rate: observed_only(profile.polling_rate, now),
    }
}

pub open spec fn slot_evidence(slot: Option<RefreshedProfile>, now: Timestamp) -> Option<
    ProfileState,
> {
    match slot {
        Some(profile) => Some(profile_evidence(profile, now)),
        None => None,
    }
}

fn slot_into_evidence(slot: Option<RefreshedProfile>, now: Timestamp) -> (r: Option<ProfileState>)
    ensures
        r == slot_evidence(slot, now),
{
    match slot {
        Some(profile) => Some(
            ProfileState {
                dpi: observed(profile.dpi, now),
                preferences: observed(profile.preferences, now),
                buttons: observed(profile.buttons, now),
                polling_rate: observed(profile.polling_rate, now),
            },
        ),
        None => None,
    }
}

impl ProfileCapture {
    /// The capture as observed-only evidence.
    pub open spec fn evidence(self, now: Timestamp) -> CapturedProfileImage {
        CapturedProfileImage {
            profile_metadata: observed_only(self.restored_metadata, now),
            profiles: ProfileMap {
                one: slot_evidence(self.profiles.one, now),
                two: slot_evidence(self.profiles.two, now),
                three: slot_evidence(self.profiles.three, now),
                four: slot_evidence(self.profiles.four, now),
                five: slot_evidence(self.profiles.five, now),
            },
        }
    }

    /// Materializes the capture as observed-only evidence, the form that is
    /// kept in ceremony journals.
    pub fn into_evidence(self, now: Timestamp) -> (r: CapturedProfileImage)
        ensures
            r == self.evidence(now),
    {
        CapturedProfileImage {
            profile_metadata: observed(self.restored_metadata, now),
            profiles: ProfileMap {
                one: slot_into_evidence(self.profiles.one, now),
                two: slot_into_evidence(self.profiles.two, now),
                three: slot_into_evidence(self.profiles.three, now),
                four: slot_into_evidence(self.profiles.four, now),
                five: slot_into_evidence(self.profiles.five, now),
            },
        }
    }
}

/// The profile that is captured at a position: the active one first, then the
/// others in slot order.
pub open spec fn capture_order(original: ProfileId, position: int) -> ProfileId {
    if position <= 0 {
        original
    } else if position < original.index() {
        ProfileId::of_index(position as u8)->0
    } else {
        ProfileId::of_index((position + 1) as u8)->0
    }
}

fn capture_target(original: ProfileId, position: usize) -> (r: ProfileId)
    requires
        position < 5,
    ensures
        r == capture_order(original, position as int),
{
    if position == 0 {
        return original;
    }
    let number: u8 = if (position as u8) < original.get() {
        position as u8
    } else {
        position as u8 + 1
    };
    match ProfileId::new(number) {
        Some(profile) => profile,
        None => original,
    }
}

/// Every slot is captured, and at one position only.
pub proof fn law_capture_order_covers_slots(original: ProfileId, profile: ProfileId, a: int, b: int)
    requires
        0 <= a < 5,
        0 <= b < 5,
    ensures
        capture_order(original, a) == capture_order(original, b) ==> a == b,
        exists|position: int|
            0 <= position < 5 && #[trigger] capture_order(original, position) == profile,
{
    let i = original.index() as int;
    let p = profile.index() as int;
    let position = if p == i { 0 } else if p < i { p } else { p - 1 };
    assert(capture_order(original, position) == profile);
}

/// Where a capture stands.
#[derive(Debug, PartialEq, Eq)]
pub enum CaptureStage {
    /// The original metadata is being read.
    ReadingMetadata,
    /// All slots are being enabled.
    Expanding,
    /// The next profile is being activated.
    Activating,
    /// The next profile is being read.
    ReadingProfile,
    /// The live rate of the profile just read is being read.
    ReadingRate(ProfileSnapshot),
    /// The original metadata is being restored, after a failure or after a
    /// complete capture.
    Restoring(Option<ManagerError>),
}

/// A capture in progress.
#[derive(Debug, PartialEq, Eq)]
pub struct Capture {
    pub stage: CaptureStage,
    /// The metadata to restore; meaningless until it was read.
    pub original: ProfileMetadata,
    pub position: usize,
    pub profiles: ProfileMap<RefreshedProfile>,
}

/// Metadata with every slot enabled.
pub open spec fn all_enabled(current: ProfileId) -> ProfileMetadata {
    ProfileMetadata { current_profile: current, maximum_profile: ProfileId::Five }
}

fn enable_all(current: ProfileId) -> (r: ProfileMetadata)
    ensures
        r == all_enabled(current),
        r.wf(),
{
    ProfileMetadata { current_profile: current, maximum_profile: ProfileId::MAX_ID }
}

impl Capture {
    /// The profile that is captured next.
    pub open spec fn target(self) -> ProfileId {
        capture_order(self.original.current_profile, self.position as int)
    }

    /// Exactly the profiles at the positions passed are captured.
    pub open spec fn captured_so_far(self) -> bool {
        forall|position: int|
            0 <= position < 5 ==> (self.profiles.at(
                #[trigger] capture_order(self.original.current_profile, position),
            ) is Some <==> position < self.position)
    }

    pub open spec fn wf(self) -> bool {
        match self.stage {
            CaptureStage::ReadingMetadata => true,
            CaptureStage::Expanding => self.position == 0 && self.captured_so_far(),
            CaptureStage::Activating => 0 < self.position < 5 && self.captured_so_far(),
            CaptureStage::ReadingProfile => self.position < 5 && self.captured_so_far(),
            CaptureStage::ReadingRate(_) => self.position < 5 && self.captured_so_far(),
            CaptureStage::Restoring(failure) => self.captured_so_far() && (failure is None
                ==> self.position == 5),
        }
    }

    /// What is being asked of the session.
    pub open spec fn request(self) -> SessionRequest {
        match self.stage {
            CaptureStage::ReadingMetadata => SessionRequest::ReadProfileMetadata,
            CaptureStage::Expanding => SessionRequest::WriteProfileMetadata(
                all_enabled(self.original.current_profile),
            ),
            CaptureStage::Activating => SessionRequest::WriteProfileMetadata(
                all_enabled(self.target()),
            ),
            CaptureStage::ReadingProfile => SessionRequest::ReadProfile(self.target()),
            CaptureStage::ReadingRate(_) => SessionRequest::ReadLivePollingRate(self.target()),
            CaptureStage::Restoring(_) => SessionRequest::WriteProfileMetadata(self.original),
        }
    }

    pub open spec fn expanded(self) -> bool {
        self.original.maximum_profile != ProfileId::Five
    }

    pub open spec fn finished(self) -> ProfileCapture {
        ProfileCapture {
            original_metadata: self.original,
            restored_metadata: self.original,
            temporarily_expanded: self.expanded(),
            profiles: self.profiles,
        }
    }

    /// The capture goes on at another stage.
    pub open spec fn moves_to(self, stage: CaptureStage, step: Step<Capture, ProfileCapture>) -> bool {
        &&& step matches Step::Ask { request, next }
        &&& next == (Capture { stage, ..self })
        &&& request == next.request()
    }

    /// The capture has failed and restores the original metadata.
    pub open spec fn gives_up(
        self,
        failure: ManagerErrorView,
        step: Step<Capture, ProfileCapture>,
    ) -> bool {
        &&& step matches Step::Ask { request, next }
        &&& next.stage matches CaptureStage::Restoring(Some(error))
        &&& error@ == failure
        &&& next == (Capture { stage: next.stage, ..self })
        &&& request == SessionRequest::WriteProfileMetadata(self.original)
    }

    /// What follows from a reply.
    pub open spec fn follows(self, reply: SessionReply, step: Step<Capture, ProfileCapture>) -> bool {
        match (self.stage, reply) {
            (CaptureStage::ReadingMetadata, SessionReply::ProfileMetadata(original)) => {
                let begun = Capture {
                    stage: self.stage,
                    original,
                    position: 0,
                    profiles: ProfileMap::empty(),
                };
                if begun.expanded() {
                    begun.moves_to(CaptureStage::Expanding, step)
                } else {
                    begun.moves_to(CaptureStage::ReadingProfile, step)
                }
            },
            (CaptureStage::ReadingMetadata, SessionReply::Failed(error)) => step == Step::<
                Capture,
                ProfileCapture,
            >::Done(Err(error)),
            (CaptureStage::Expanding, SessionReply::ProfileMetadataWritten(write)) => {
                match exact_outcome(all_enabled(self.original.current_profile), write) {
                    Ok(_) => self.moves_to(CaptureStage::ReadingProfile, step),
                    Err(failure) => self.gives_up(failure, step),
                }
            },
            (CaptureStage::Activating, SessionReply::ProfileMetadataWritten(write)) => {
                match exact_outcome(all_enabled(self.target()), write) {
                    Ok(_) => self.moves_to(CaptureStage::ReadingProfile, step),
                    Err(failure) => self.gives_up(failure, step),
                }
            },
            (CaptureStage::ReadingProfile, SessionReply::Profile(snapshot)) => {
                if snapshot.persistent_metadata == all_enabled(self.target()) {
                    self.moves_to(CaptureStage::ReadingRate(snapshot), step)
                } else {
                    self.gives_up(
                        ManagerErrorView::VerificationMismatch {
                            resource: "complete profile refresh"@,
                            profile: Some(self.target()),
                        },
                        step,
                    )
                }
            },
            (CaptureStage::ReadingRate(snapshot), SessionReply::PollingRate(rate)) => {
                let filled = Capture {
                    stage: self.stage,
                    original: self.original,
                    position: (self.position + 1) as usize,
                    profiles: self.profiles.with(
                        self.target(),
                        Some(
                            RefreshedProfile {
                                dpi: snapshot.dpi,
                                preferences: snapshot.preferences,
                                buttons: snapshot.buttons,
                                polling_rate: rate,
                            },
                        ),
                    ),
                };
                if filled.position == 5 {
                    filled.moves_to(CaptureStage::Restoring(None), step)
                } else {
                    filled.moves_to(CaptureStage::Activating, step)
                }
            },
            (CaptureStage::Restoring(failure), SessionReply::ProfileMetadataWritten(write)) => {
                match (failure, exact_outcome(self.original, write)) {
                    (None, Ok(_)) => step == Step::<Capture, ProfileCapture>::Done(
                        Ok(self.finished()),
                    ),
                    (Some(error), Ok(_)) => step == Step::<Capture, ProfileCapture>::Done(
                        Err(error),
                    ),
                    (failure, Err(restore)) => step matches Step::Done(Err(error)) && error@
                        == restoration_failure(failure, restore),
                }
            },
            (CaptureStage::Restoring(failure), SessionReply::Failed(restore)) => step matches Step::Done(
                Err(error),
            ) && error@ == restoration_failure(failure, restore@),
            (_, SessionReply::Failed(error)) => self.gives_up(error@, step),
            _ => true,
        }
    }
}

/// The error when the original metadata could not be restored.
pub open spec fn restoration_failure(
    failure: Option<ManagerError>,
    restore: ManagerErrorView,
) -> ManagerErrorView {
    match failure {
        None => ManagerErrorView::RefreshRestorationFailed { restore: error_text(restore) },
        Some(refresh) => ManagerErrorView::RefreshRestoreFailed {
            refresh: error_text(refresh@),
            restore: error_text(restore),
        },
    }
}

fn restoration_failed(failure: Option<ManagerError>, restore: ManagerError) -> (r: ManagerError)
    ensures
        r@ == restoration_failure(failure, restore@),
{
    match failure {
        None => ManagerError::RefreshRestorationFailed { restore: restore.message() },
        Some(refresh) => ManagerError::RefreshRestoreFailed {
            refresh: refresh.message(),
            restore: restore.message(),
        },
    }
}

/// Begins a capture; BLE cannot read profiles.
pub fn capture_all_profiles(transport: TransportKind) -> (r: Step<Capture, ProfileCapture>)
    ensures
        match r {
            Step::Ask { request, next } => {
                &&& transport.is_usb()
                &&& next.stage is ReadingMetadata
                &&& next.wf()
                &&& request == next.request()
            },
            Step::Done(outcome) => {
                &&& !transport.is_usb()
                &&& viewed(outcome) == Err::<ProfileCapture, ManagerErrorView>(
                    ManagerErrorView::UnsupportedOperation {
                        operation: "capture-all-profiles"@,
                        transport,
                    },
                )
            },
        },
{
    match transport {
        TransportKind::Ble => Step::Done(
            Err(
                ManagerError::UnsupportedOperation {
                    operation: "capture-all-profiles",
                    transport,
                },
            ),
        ),
        TransportKind::Wired | TransportKind::Receiver => Step::Ask {
            request: SessionRequest::ReadProfileMetadata,
            next: Capture {
                stage: CaptureStage::ReadingMetadata,
                original: enable_all(ProfileId::MIN_ID),
                position: 0,
                profiles: ProfileMap::new(),
            },
        },
    }
}

impl Capture {
    fn give_up(self, error: ManagerError) -> (r: Step<Capture, ProfileCapture>)
        requires
            self.wf(),
            !(self.stage is ReadingMetadata),
        ensures
            self.gives_up(error@, r),
            r matches Step::Ask { next, .. } && next.wf() && next.stage == CaptureStage::Restoring(
                Some(error),
            ),
    {
        let request = SessionRequest::WriteProfileMetadata(self.original);
        let next = Capture {
            stage: CaptureStage::Restoring(Some(error)),
            original: self.original,
            position: self.position,
            profiles: self.profiles,
        };
        Step::Ask { request, next }
    }

    fn read_profile(self) -> (r: Step<Capture, ProfileCapture>)
        requires
            self.position < 5,
            self.captured_so_far(),
        ensures
            self.moves_to(CaptureStage::ReadingProfile, r),
            r matches Step::Ask { next, .. } && next.wf(),
    {
        let target = capture_target(self.original.current(), self.position);
        let next = Capture {
            stage: CaptureStage::ReadingProfile,
            original: self.original,
            position: self.position,
            profiles: self.profiles,
        };
        Step::Ask { request: SessionRequest::ReadProfile(target), next }
    }

    /// Goes on with the reply to the request that was handed out last.
    pub fn resume(self, reply: SessionReply) -> (r: Step<Capture, ProfileCapture>)
        requires
            self.wf(),
            reply.fits(self.request()),
        ensures
            self.follows(reply, r),
            r matches Step::Ask { request, next } ==> next.wf() && request == next.request(),
    {
        let position: usize = self.position;
        let original = self.original;
        let profiles = self.profiles;
        match self.stage {
            CaptureStage::ReadingMetadata => match reply {
                SessionReply::ProfileMetadata(read) => {
                    let begun = Capture {
                        stage: CaptureStage::ReadingMetadata,
                        original: read,
                        position: 0,
                        profiles: ProfileMap::new(),
                    };
                    assert(begun.captured_so_far());
                    if read.maximum() != ProfileId::MAX_ID {
                        let next = Capture {
                            stage: CaptureStage::Expanding,
                            original: read,
                            position: 0,
                            profiles: ProfileMap::new(),
                        };
                        Step::Ask {
                            request: SessionRequest::WriteProfileMetadata(
                                enable_all(read.current()),
                            ),
                            next,
                        }
                    } else {
                        begun.read_profile()
                    }
                },
                SessionReply::Failed(error) => Step::Done(Err(error)),
                _ => unreached(),
            },
            CaptureStage::Expanding | CaptureStage::Activating => {
                let target = capture_target(original.current(), position);
                match reply {
                    SessionReply::ProfileMetadataWritten(write) => {
                        match require_exact_metadata(enable_all(target), write) {
                            Ok(_) => self.read_profile(),
                            Err(error) => self.give_up(error),
                        }
                    },
                    SessionReply::Failed(error) => self.give_up(error),
                    _ => unreached(),
                }
            },
            CaptureStage::ReadingProfile => match reply {
                SessionReply::Profile(snapshot) => {
                    let target = capture_target(original.current(), position);
                    if snapshot.persistent_metadata == enable_all(target) {
                        let next = Capture {
                            stage: CaptureStage::ReadingRate(snapshot),
                            original,
                            position,
                            profiles,
                        };
                        Step::Ask { request: SessionRequest::ReadLivePollingRate(target), next }
                    } else {
                        self.give_up(
                            ManagerError::VerificationMismatch {
                                resource: "complete profile refresh",
                                profile: Some(target),
                            },
                        )
                    }
                },
                SessionReply::Failed(error) => self.give_up(error),
                _ => unreached(),
            },
            CaptureStage::ReadingRate(snapshot) => match reply {
                SessionReply::PollingRate(rate) => {
                    let target = capture_target(original.current(), position);
                    let mut filled = profiles;
                    filled.insert(
                        target,
                        RefreshedProfile {
                            dpi: snapshot.dpi,
                            preferences: snapshot.preferences,
                            buttons: snapshot.buttons,
                            polling_rate: rate,
                        },
                    );
                    let passed: usize = position + 1;
                    let stage = if passed == 5 {
                        CaptureStage::Restoring(None)
                    } else {
                        CaptureStage::Activating
                    };
                    let next = Capture { stage, original, position: passed, profiles: filled };
                    proof {
                        assert forall|p: int| 0 <= p < 5 implies (filled.at(
                            #[trigger] capture_order(original.current_profile, p),
                        ) is Some <==> p < passed) by {
                            law_capture_order_covers_slots(
                                original.current_profile,
                                target,
                                p,
                                position as int,
                            );
                        }
                    }
                    let request = if passed == 5 {
                        SessionRequest::WriteProfileMetadata(original)
                    } else {
                        SessionRequest::WriteProfileMetadata(
                            enable_all(capture_target(original.current(), passed)),
                        )
                    };
                    Step::Ask { request, next }
                },
                SessionReply::Failed(error) => self.give_up(error),
                _ => unreached(),
            },
            CaptureStage::Restoring(failure) => match reply {
                SessionReply::ProfileMetadataWritten(write) => {
                    match require_exact_metadata(original, write) {
                        Ok(restored) => match failure {
                            None => Step::Done(
                                Ok(
                                    ProfileCapture {
                                        original_metadata: original,
                                        restored_metadata: restored,
                                        temporarily_expanded: original.maximum()
                                            != ProfileId::MAX_ID,
                                        profiles,
                                    },
                                ),
                            ),
                            Some(error) => Step::Done(Err(error)),
                        },
                        Err(restore) => Step::Done(Err(restoration_failed(failure, restore))),
                    }
                },
                SessionReply::Failed(restore) => Step::Done(
                    Err(restoration_failed(failure, restore)),
                ),
                _ => unreached(),
            },
        }
    }
}

/// A capture that has begun ends by asking for exactly the original metadata:
/// nothing but a failure to read that metadata ends it earlier.
pub proof fn law_capture_ends_by_restoring(
    capture: Capture,
    reply: SessionReply,
    outcome: Result<ProfileCapture, ManagerError>,
)
    requires
        capture.wf(),
        reply.fits(capture.request()),
        capture.follows(reply, Step::Done(outcome)),
    ensures
        capture.stage is ReadingMetadata && reply is Failed || capture.request()
            == SessionRequest::WriteProfileMetadata(capture.original),
{
}

/// A successful capture holds all five profiles, and the metadata that it found
/// was restored.
pub proof fn law_capture_success_is_complete(
    capture: Capture,
    reply: SessionReply,
    done: ProfileCapture,
    profile: ProfileId,
)
    requires
        capture.wf(),
        reply.fits(capture.request()),
        capture.follows(reply, Step::Done(Ok(done))),
    ensures
        done.profiles.at(profile) is Some,
        done.original_metadata == capture.original,
        done.restored_metadata == capture.original,
        reply == SessionReply::ProfileMetadataWritten(
            SessionWrite::ReadbackVerified(capture.original),
        ),
{
    law_capture_order_covers_slots(capture.original.current_profile, profile, 0, 0);
}

/// A capture of a mouse with valid metadata asks for valid metadata only, and
/// reads the live rate of a profile right after that profile was loaded with
/// every slot enabled.
pub proof fn law_capture_requests_are_valid(
    capture: Capture,
    reply: SessionReply,
    step: Step<Capture, ProfileCapture>,
)
    requires
        capture.wf(),
        capture.original.wf(),
        reply.fits(capture.request()),
        capture.follows(reply, step),
    ensures
        capture.request() matches SessionRequest::WriteProfileMetadata(metadata) ==> metadata.wf(),
        step matches Step::Ask { request: SessionRequest::ReadLivePollingRate(profile), .. } ==> {
            &&& capture.request() == SessionRequest::ReadProfile(profile)
            &&& reply matches SessionReply::Profile(snapshot)
            &&& snapshot.persistent_metadata == all_enabled(profile)
        },
{
}

/// The active profile is captured first, the others follow in slot order.
pub proof fn law_capture_starts_with_the_active_profile(original: ProfileId, a: int, b: int)
    requires
        0 < a < b < 5,
    ensures
        capture_order(original, 0) == original,
        capture_order(original, a).index() < capture_order(original, b).index(),
        capture_order(original, a) != original,
{
}

/// A capture begins by remembering the metadata that it found. Where not every
/// slot is enabled it enables them all and leaves the active profile alone;
/// where every slot is enabled it reads the active profile at once.
pub proof fn law_capture_remembers_the_metadata(
    capture: Capture,
    reply: SessionReply,
    r: Step<Capture, ProfileCapture>,
)
    requires
        capture.stage is ReadingMetadata,
        reply is ProfileMetadata || reply is Failed,
        call_ensures(Capture::resume, (capture, reply), r),
    ensures
        reply matches SessionReply::Failed(error) ==> (r matches Step::Done(Err(given)) && given
            == error),
        reply matches SessionReply::ProfileMetadata(found) ==> {
            &&& r matches Step::Ask { request, next }
            &&& next.original == found
            &&& next.position == 0
            &&& forall|profile: ProfileId| #[trigger] next.profiles.at(profile) is None
            &&& if found.maximum_profile is Five {
                request == SessionRequest::ReadProfile(found.current_profile) && next.stage
                    is ReadingProfile
            } else {
                &&& request matches SessionRequest::WriteProfileMetadata(enabled)
                &&& enabled.current_profile == found.current_profile
                &&& enabled.maximum_profile is Five
                &&& next.stage is Expanding
            }
        },
{
}

/// After the slots were enabled or a profile was activated, that profile is
/// read, but only where the mouse holds exactly what was written; otherwise the
/// capture turns to restoring the metadata that it found.
pub proof fn law_capture_reads_what_it_activated(
    capture: Capture,
    written: ProfileMetadata,
    write: SessionWrite<ProfileMetadata>,
    r: Step<Capture, ProfileCapture>,
)
    requires
        capture.wf(),
        capture.stage is Expanding || capture.stage is Activating,
        capture.request() == SessionRequest::WriteProfileMetadata(written),
        call_ensures(
            Capture::resume,
            (capture, SessionReply::ProfileMetadataWritten(write)),
            r,
        ),
    ensures
        written.maximum_profile is Five,
        r matches Step::Ask { request, next } && {
            &&& next.original == capture.original
            &&& next.profiles == capture.profiles
            &&& next.position == capture.position
            &&& if write == SessionWrite::ReadbackVerified(written) {
                request == SessionRequest::ReadProfile(written.current_profile) && next.stage
                    is ReadingProfile
            } else {
                request == SessionRequest::WriteProfileMetadata(capture.original) && (
                next.stage matches CaptureStage::Restoring(failure) && failure is Some)
            }
        },
{
}

/// A profile image counts only where it was read with that profile active and
/// every slot enabled; its live rate is then read. Any other image ends the
/// capture, as every failure does, by restoring the metadata that was found.
pub proof fn law_capture_checks_each_image(
    capture: Capture,
    profile: ProfileId,
    snapshot: ProfileSnapshot,
    r: Step<Capture, ProfileCapture>,
)
    requires
        capture.wf(),
        capture.stage is ReadingProfile,
        capture.request() == SessionRequest::ReadProfile(profile),
        call_ensures(Capture::resume, (capture, SessionReply::Profile(snapshot)), r),
    ensures
        r matches Step::Ask { request, next } && {
            &&& next.original == capture.original
            &&& next.profiles == capture.profiles
            &&& next.position == capture.position
            &&& if snapshot.persistent_metadata.current_profile == profile
                && snapshot.persistent_metadata.maximum_profile is Five {
                request == SessionRequest::ReadLivePollingRate(profile) && next.stage
                    == CaptureStage::ReadingRate(snapshot)
            } else {
                request == SessionRequest::WriteProfileMetadata(capture.original) && (
                next.stage matches CaptureStage::Restoring(Some(error)) && (
                error@ matches ManagerErrorView::VerificationMismatch { resource, profile: of }
                    && of == Some(profile)))
            }
        },
{
}

/// What was read of a profile is kept under that profile, part by part, and
/// what was captured before stays. The next request activates a profile that
/// was not captured yet or, after the fifth, restores the metadata that was
/// found.
pub proof fn law_capture_keeps_what_was_read(
    capture: Capture,
    profile: ProfileId,
    snapshot: ProfileSnapshot,
    rate: PollingRate,
    other: ProfileId,
    r: Step<Capture, ProfileCapture>,
)
    requires
        capture.wf(),
        capture.stage == CaptureStage::ReadingRate(snapshot),
        capture.request() == SessionRequest::ReadLivePollingRate(profile),
        call_ensures(Capture::resume, (capture, SessionReply::PollingRate(rate)), r),
    ensures
        capture.profiles.at(profile) is None,
        r matches Step::Ask { request, next } && {
            &&& next.original == capture.original
            &&& next.position == capture.position + 1
            &&& next.profiles.at(profile) matches Some(kept)
            &&& kept.dpi == snapshot.dpi
            &&& kept.preferences == snapshot.preferences
            &&& kept.buttons == snapshot.buttons
            &&& kept.polling_rate == rate
            &&& other != profile ==> next.profiles.at(other) == capture.profiles.at(other)
            &&& request matches SessionRequest::WriteProfileMetadata(metadata)
            &&& if next.position < 5 {
                next.profiles.at(metadata.current_profile) is None && metadata.maximum_profile
                    is Five && next.stage is Activating
            } else {
                metadata == capture.original && next.stage == CaptureStage::Restoring(None)
            }
        },
{
    let original = capture.original.current_profile;
    assert(capture_order(original, capture.position as int) == profile);
    if capture.position < 4 {
        let following = capture_order(original, capture.position + 1);
        law_capture_order_covers_slots(
            original,
            profile,
            capture.position as int,
            capture.position + 1,
        );
        assert(capture.profiles.at(following) is None);
    }
}

/// A failure in the middle of a capture is kept while the metadata that was
/// found is restored.
pub proof fn law_capture_failures_are_kept(
    capture: Capture,
    error: ManagerError,
    r: Step<Capture, ProfileCapture>,
)
    requires
        !(capture.stage is ReadingMetadata),
        !(capture.stage is Restoring),
        call_ensures(Capture::resume, (capture, SessionReply::Failed(error)), r),
    ensures
        r matches Step::Ask { request, next } && request == SessionRequest::WriteProfileMetadata(
            capture.original,
        ) && (next.stage matches CaptureStage::Restoring(Some(kept)) && kept@ == error@)
            && next.original == capture.original,
{
}

/// A capture succeeds exactly where nothing failed and the metadata that was
/// found reads back as it was; it then hands out all that it captured. An
/// earlier failure comes out where the metadata was restored, and where that
/// failed too, the error tells so.
pub proof fn law_capture_outcomes(
    capture: Capture,
    failure: Option<ManagerError>,
    reply: SessionReply,
    r: Step<Capture, ProfileCapture>,
)
    requires
        capture.stage == CaptureStage::Restoring(failure),
        reply is ProfileMetadataWritten || reply is Failed,
        call_ensures(Capture::resume, (capture, reply), r),
    ensures
        ({
            let exact = reply == SessionReply::ProfileMetadataWritten(
                SessionWrite::ReadbackVerified(capture.original),
            );
            &&& r matches Step::Done(outcome)
            &&& outcome is Ok <==> exact && failure is None
            &&& outcome matches Ok(done) ==> {
                &&& done.original_metadata == capture.original
                &&& done.restored_metadata == capture.original
                &&& done.profiles == capture.profiles
                &&& done.temporarily_expanded <==> !(capture.original.maximum_profile is Five)
            }
            &&& exact ==> (failure matches Some(error) ==> (outcome matches Err(given) && given
                == error))
            &&& !exact && failure is None ==> (outcome matches Err(given)
                && given@ is RefreshRestorationFailed)
            &&& !exact && failure is Some ==> (outcome matches Err(given)
                && given@ is RefreshRestoreFailed)
        }),
{
}

/// The value was observed and nothing is wanted.
pub open spec fn is_observation<T>(resource: ResourceState<T>, value: T, now: Timestamp) -> bool {
    &&& resource.desired is None
    &&& resource.observed matches Some(observed)
    &&& observed.value == value
    &&& observed.source is UsbReadback
    &&& observed.observed_at == now
}

/// A capture as evidence holds every part of every captured profile as an
/// observation, and nothing is wanted. Its metadata are the restored ones.
pub proof fn law_capture_is_all_observed(
    capture: ProfileCapture,
    now: Timestamp,
    profile: ProfileId,
    r: CapturedProfileImage,
)
    requires
        call_ensures(ProfileCapture::into_evidence, (capture, now), r),
    ensures
        is_observation(r.profile_metadata, capture.restored_metadata, now),
        capture.profiles.at(profile) is Some <==> r.profiles.at(profile) is Some,
        capture.profiles.at(profile) matches Some(read) ==> ({
            let slot = r.profiles.at(profile)->0;
            &&& is_observation(slot.dpi, read.dpi, now)
            &&& is_observation(slot.preferences, read.preferences, now)
            &&& is_observation(slot.buttons, read.buttons, now)
            &&& is_observation(slot.polling_rate, read.polling_rate, now)
        }),
{
}

/// The error of a capture that could not restore the metadata tells why: the
/// failure of the capture, where there was one, and the failure to restore,
/// each in its own place and in its own words.
pub proof fn law_restoration_errors_tell_both_failures(
    capture: Capture,
    failure: ManagerError,
    restore: ManagerError,
    earlier: String,
    later: String,
    r: Step<Capture, ProfileCapture>,
)
    requires
        capture.stage == CaptureStage::Restoring(Some(failure)),
        call_ensures(Capture::resume, (capture, SessionReply::Failed(restore)), r),
        call_ensures(ManagerError::message, (&failure,), earlier),
        call_ensures(ManagerError::message, (&restore,), later),
    ensures
        r matches Step::Done(Err(error)) && (
        error@ matches ManagerErrorView::RefreshRestoreFailed { refresh, restore: told } && refresh
            == earlier@ && told == later@),
{
}

/// Where only restoring failed, the error tells that failure.
pub proof fn law_restoration_errors_tell_the_failure(
    capture: Capture,
    restore: ManagerError,
    later: String,
    r: Step<Capture, ProfileCapture>,
)
    requires
        capture.stage == CaptureStage::Restoring(None),
        call_ensures(Capture::resume, (capture, SessionReply::Failed(restore)), r),
        call_ensures(ManagerError::message, (&restore,), later),
    ensures
        r matches Step::Done(Err(error)) && (
        error@ matches ManagerErrorView::RefreshRestorationFailed { restore: told } && told
            == later@),
{
}

} // verus!
