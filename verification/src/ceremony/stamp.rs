//! Stamping the presented mouse with its token.
//!
//! The token is on record before the first watermark is written, and every
//! profile is marked on record as soon as it is stamped, so an interrupted
//! ceremony goes on where it stopped.

use vstd::pervasive::unreached;
use vstd::prelude::*;

use crate::ceremony::finalize::{finalize_ceremony, finalize_refusal, finalized};
use crate::ceremony::mint::{is_fresh_token, mint_refusal};
use crate::ceremony::progress::{ceremony_progress_from_journal, progress_at, progress_of};
use crate::ceremony::reconnect::journaled;
use crate::ceremony::steps::{misplace, misplaced};
use crate::device::{logical_key, DeviceEndpoint};
use crate::error::{error_text, viewed, ManagerError, ManagerErrorView};
use crate::exact::SameValue;
use crate::manager::DeviceManager;
use crate::operation::{
    IdentityCeremonyAction, IdentityCeremonyProgress, IdentityCeremonyStage, VerificationMethod,
};
use crate::protocol::{
    later_profile, max_profile, DpiState, PhysicalId, ProfileId, ProfileMetadata, WatermarkDecode,
};
use crate::session::{
    exact_outcome, require_exact_metadata, SessionReply, SessionRequest, SessionWrite, Step,
};
use crate::slots::lemma_in_sum;
use crate::state::{
    is_stamped, CapturedProfileImage, IdentitySetupJournal, IdentitySetupPhase, IdentitySetupStage,
    IdentitySetupSubject, IdentityStampProgress, ProfileState, StateFile,
};

verus! {

pub open spec fn pending_slot(
    profile: ProfileId,
    captured: Option<ProfileState>,
    progress: Option<IdentityStampProgress>,
) -> Seq<ProfileId> {
    if captured is Some && progress != Some(IdentityStampProgress::Stamped) {
        seq![profile]
    } else {
        seq![]
    }
}

/// The captured profiles that are not stamped yet, in slot order.
pub open spec fn pending_profiles(subject: IdentitySetupSubject) -> Seq<ProfileId> {
    let captured = subject.captured->0.profiles;
    let progress = subject.stamp_progress;
    pending_slot(ProfileId::One, captured.one, progress.one) + pending_slot(
        ProfileId::Two,
        captured.two,
        progress.two,
    ) + pending_slot(ProfileId::Three, captured.three, progress.three) + pending_slot(
        ProfileId::Four,
        captured.four,
        progress.four,
    ) + pending_slot(ProfileId::Five, captured.five, progress.five)
}

fn list_pending(captured: &CapturedProfileImage, subject: &IdentitySetupSubject) -> (r: Vec<
    ProfileId,
>)
    requires
        subject.captured == Some(*captured),
    ensures
        r@ == pending_profiles(*subject),
{
    let mut pending: Vec<ProfileId> = Vec::new();
    if captured.profiles.one.is_some() && !is_stamped(subject.stamp_progress.one) {
        pending.push(ProfileId::One);
    }
    if captured.profiles.two.is_some() && !is_stamped(subject.stamp_progress.two) {
        pending.push(ProfileId::Two);
    }
    if captured.profiles.three.is_some() && !is_stamped(subject.stamp_progress.three) {
        pending.push(ProfileId::Three);
    }
    if captured.profiles.four.is_some() && !is_stamped(subject.stamp_progress.four) {
        pending.push(ProfileId::Four);
    }
    if captured.profiles.five.is_some() && !is_stamped(subject.stamp_progress.five) {
        pending.push(ProfileId::Five);
    }
    assert(pending@ =~= pending_profiles(*subject));
    pending
}

/// The sensitivity image that was captured for a profile.
pub open spec fn captured_dpi(captured: CapturedProfileImage, profile: ProfileId) -> Option<
    DpiState,
> {
    match captured.profiles.at(profile) {
        Some(state) => match state.dpi.observed {
            Some(observed) => Some(observed.value),
            None => None,
        },
        None => None,
    }
}

fn find_captured_dpi(captured: &CapturedProfileImage, profile: ProfileId) -> (r: Option<DpiState>)
    ensures
        r == captured_dpi(*captured, profile),
{
    match captured.profiles.get(profile) {
        Some(state) => match state.dpi.observed {
            Some(observed) => Some(observed.value),
            None => None,
        },
        None => None,
    }
}

/// The subjects with the latest one changed.
pub open spec fn with_last(
    subjects: Seq<IdentitySetupSubject>,
    subject: IdentitySetupSubject,
) -> Seq<IdentitySetupSubject> {
    subjects.update(subjects.len() - 1, subject)
}

/// A subject with one profile marked as stamped.
pub open spec fn stamped_subject(
    subject: IdentitySetupSubject,
    profile: Option<ProfileId>,
) -> IdentitySetupSubject {
    match profile {
        Some(profile) => IdentitySetupSubject {
            stamp_progress: subject.stamp_progress.with(
                profile,
                Some(IdentityStampProgress::Stamped),
            ),
            ..subject
        },
        None => subject,
    }
}

/// The subjects with one profile of the latest one marked as stamped.
pub open spec fn marked(
    subjects: Seq<IdentitySetupSubject>,
    profile: Option<ProfileId>,
) -> Seq<IdentitySetupSubject> {
    with_last(subjects, stamped_subject(subjects.last(), profile))
}

fn mark_last(subjects: &mut Vec<IdentitySetupSubject>, profile: Option<ProfileId>)
    requires
        old(subjects)@.len() > 0,
    ensures
        final(subjects)@ == marked(old(subjects)@, profile),
{
    let ghost before = subjects@;
    if let Some(mut subject) = subjects.pop() {
        if let Some(profile) = profile {
            subject.stamp_progress.insert(profile, IdentityStampProgress::Stamped);
        }
        subjects.push(subject);
    }
    assert(subjects@ =~= marked(before, profile));
}

/// Why stamping cannot begin, if it cannot.
pub open spec fn stamp_refusal(state: StateFile) -> Option<ManagerErrorView> {
    match state.identity_setup {
        None => Some(ManagerErrorView::NoIdentityCeremony),
        Some(journal) => if !(journal.stage is Stamping) || journal.phase is BleAssociation
            || journal.subjects@.len() == 0 {
            Some(misplaced(IdentityCeremonyAction::Stamp, journal))
        } else {
            None
        },
    }
}

/// Where stamping can begin, the latest mouse was captured.
pub open spec fn is_stampable(state: StateFile) -> bool {
    stamp_refusal(state) is None ==> state.identity_setup->0.subjects@.last().captured is Some
}

/// What a stamping run waits for.
#[derive(Clone, Copy, Debug, PartialEq, Eq, Structural)]
pub enum StampStage {
    /// The metadata, before a profile is activated.
    ReadMetadata,
    /// The activation of the profile.
    WriteMetadata { target: ProfileMetadata },
    /// The stamped image of the profile.
    WriteDpi,
    /// A fresh read of the image, where the write was only acknowledged.
    ReadDpi,
    /// The restoration of the original metadata.
    Restore { original: ProfileMetadata },
}

/// A stamping run: the mouse, its token and the profiles that are left.
#[derive(Debug, PartialEq, Eq)]
pub struct StampRun {
    pub phase: IdentitySetupPhase,
    pub endpoint: DeviceEndpoint,
    pub token: PhysicalId,
    pub captured: CapturedProfileImage,
    pub pending: Vec<ProfileId>,
    pub position: usize,
    pub await_second: bool,
    pub snapshot: IdentitySetupJournal,
    pub stage: StampStage,
}

/// The run that the journal calls for.
pub open spec fn is_run_of(run: StampRun, journal: IdentitySetupJournal) -> bool {
    let subject = journal.subjects@.last();
    &&& journal.subjects@.len() > 0
    &&& subject.captured is Some
    &&& run.phase == journal.phase
    &&& run.endpoint == subject.endpoint
    &&& subject.token == Some(run.token)
    &&& run.captured == subject.captured->0
    &&& run.pending@ == pending_profiles(subject)
    &&& run.position == 0
    &&& run.await_second == (journal.phase is InitialEnrollment && journal.subjects@.len() == 1)
    &&& run.snapshot.agrees(journal)
}

/// How stamping begins: the mouse keeps its token, or gets a fresh one that is
/// put on record.
pub open spec fn stamp_begins(
    before: StateFile,
    after: StateFile,
    r: Result<StampRun, ManagerError>,
) -> bool {
    if stamp_refusal(before) is Some {
        &&& r matches Err(error)
        &&& error@ == stamp_refusal(before)->0
        &&& after == before
    } else {
        let journal = before.identity_setup->0;
        let last = journal.subjects@.last();
        match r {
            Ok(run) => {
                &&& after.identity_setup is Some
                &&& is_run_of(run, after.identity_setup->0)
                &&& if last.token is Some {
                    after == before
                } else {
                    &&& is_fresh_token(before, last.old_token, run.token)
                    &&& journaled(
                        before,
                        after,
                        IdentitySetupStage::Stamping,
                        with_last(
                            journal.subjects@,
                            IdentitySetupSubject { token: Some(run.token), ..last },
                        ),
                    )
                }
            },
            Err(error) => {
                &&& last.token is None
                &&& error@ is TokenGeneration || error@ == mint_refusal(journal.phase)
                &&& after == before
            },
        }
    }
}

impl DeviceManager {
    /// Tells whether the mouse that is to be stamped was captured.
    pub fn can_stamp(&self) -> (r: bool)
        ensures
            r == is_stampable(self.state),
    {
        match &self.state.identity_setup {
            None => true,
            Some(journal) => {
                let stamping: bool = match (journal.stage, journal.phase) {
                    (_, IdentitySetupPhase::BleAssociation) => false,
                    (IdentitySetupStage::Stamping, _) => true,
                    _ => false,
                };
                let count: usize = journal.subjects.len();
                !stamping || count == 0 || journal.subjects[count - 1].captured.is_some()
            },
        }
    }

    /// Tells whether a token has to be minted before stamping, or refuses to
    /// stamp.
    fn needs_token(&self) -> (r: Result<bool, ManagerError>)
        ensures
            viewed(r) == (match stamp_refusal(self.state) {
                Some(refused) => Err(refused),
                None => Ok(self.state.identity_setup->0.subjects@.last().token is None),
            }),
    {
        let journal = match &self.state.identity_setup {
            Some(journal) => journal,
            None => {
                return Err(ManagerError::NoIdentityCeremony);
            },
        };
        let stamping: bool = match (journal.stage, journal.phase) {
            (_, IdentitySetupPhase::BleAssociation) => false,
            (IdentitySetupStage::Stamping, _) => true,
            _ => false,
        };
        let count: usize = journal.subjects.len();
        if !stamping || count == 0 {
            return Err(misplace(IdentityCeremonyAction::Stamp, journal));
        }
        Ok(journal.subjects[count - 1].token.is_none())
    }

    /// Puts the token of the latest mouse on record, unless it has one, and
    /// plans the stamping run.
    pub fn begin_stamp(&mut self, minted: PhysicalId) -> (r: Result<StampRun, ManagerError>)
        requires
            is_stampable(old(self).state),
        ensures
            final(self).identity_cache == old(self).identity_cache,
            ({
                let before = old(self).state;
                let after = final(self).state;
                if stamp_refusal(before) is Some {
                    &&& r matches Err(error)
                    &&& error@ == stamp_refusal(before)->0
                    &&& after == before
                } else {
                    let subjects = before.identity_setup->0.subjects@;
                    let last = subjects.last();
                    &&& r matches Ok(run)
                    &&& after.identity_setup is Some
                    &&& is_run_of(run, after.identity_setup->0)
                    &&& if last.token is Some {
                        after == before
                    } else {
                        journaled(
                            before,
                            after,
                            IdentitySetupStage::Stamping,
                            with_last(
                                subjects,
                                IdentitySetupSubject { token: Some(minted), ..last },
                            ),
                        )
                    }
                }
            }),
    {
        let missing: bool = match self.needs_token() {
            Ok(missing) => missing,
            Err(error) => {
                return Err(error);
            },
        };
        let ghost before = self.state;
        if missing {
            if let Some(mut journal) = self.state.identity_setup.take() {
                let ghost subjects = journal.subjects@;
                if let Some(mut subject) = journal.subjects.pop() {
                    subject.token = Some(minted);
                    journal.subjects.push(subject);
                }
                assert(journal.subjects@ =~= with_last(
                    subjects,
                    IdentitySetupSubject { token: Some(minted), ..subjects.last() },
                ));
                self.state.identity_setup = Some(journal);
            }
        }
        let journal = match &self.state.identity_setup {
            Some(journal) => journal,
            None => unreached(),
        };
        let count: usize = journal.subjects.len();
        let subject = &journal.subjects[count - 1];
        assert(*subject == journal.subjects@.last());
        let token = match subject.token {
            Some(token) => token,
            None => unreached(),
        };
        let captured = match subject.captured {
            Some(captured) => captured,
            None => unreached(),
        };
        let first: bool = match journal.phase {
            IdentitySetupPhase::InitialEnrollment => count == 1,
            _ => false,
        };
        Ok(
            StampRun {
                phase: journal.phase,
                endpoint: subject.endpoint.clone(),
                token,
                captured,
                pending: list_pending(&captured, subject),
                position: 0,
                await_second: first,
                snapshot: journal.clone(),
                stage: StampStage::ReadMetadata,
            },
        )
    }

    /// Plans the stamping of the presented mouse. A mouse without a token gets
    /// a fresh one, which is on record before anything is written; whether one
    /// can be minted depends on the random source.
    pub fn ceremony_stamp(&mut self) -> (r: Result<StampRun, ManagerError>)
        requires
            is_stampable(old(self).state),
        ensures
            final(self).identity_cache == old(self).identity_cache,
            stamp_begins(old(self).state, final(self).state, r),
    {
        match self.needs_token() {
            Err(error) => {
                return Err(error);
            },
            Ok(true) => {},
            Ok(false) => {
                let unused = PhysicalId::from_token_bytes([0;16]);
                return self.begin_stamp(unused);
            },
        }
        let minted = match &self.state.identity_setup {
            Some(journal) => {
                let count: usize = journal.subjects.len();
                self.mint_unique_token(journal.phase, journal.subjects[count - 1].old_token)
            },
            None => unreached(),
        };
        match minted {
            Ok(token) => self.begin_stamp(token),
            Err(error) => Err(error),
        }
    }

    /// Confirms an adoption and plans the stamping of the profiles that do not
    /// carry the adopted token yet.
    pub fn ceremony_adopt(&mut self) -> (r: Result<StampRun, ManagerError>)
        requires
            is_stampable(old(self).state),
        ensures
            final(self).identity_cache == old(self).identity_cache,
            match old(self).state.identity_setup {
                Some(journal) if !(journal.phase is ForeignAdoption) => {
                    &&& r matches Err(error)
                    &&& error@ == misplaced(IdentityCeremonyAction::Adopt, journal)
                    &&& final(self).state == old(self).state
                },
                _ => stamp_begins(old(self).state, final(self).state, r),
            },
    {
        match &self.state.identity_setup {
            None => {
                return Err(ManagerError::NoIdentityCeremony);
            },
            Some(journal) => match journal.phase {
                IdentitySetupPhase::ForeignAdoption => {},
                _ => {
                    return Err(misplace(IdentityCeremonyAction::Adopt, journal));
                },
            },
        }
        self.ceremony_stamp()
    }
}

/// The watermark of a profile could not be confirmed.
pub open spec fn unconfirmed(profile: ProfileId) -> ManagerErrorView {
    ManagerErrorView::VerificationMismatch {
        resource: "physical identity watermark"@,
        profile: Some(profile),
    }
}

impl StampRun {
    /// The profile that is being stamped is pending and was captured.
    pub open spec fn wf(self) -> bool {
        &&& self.position <= self.pending@.len()
        &&& !(self.stage is Restore) ==> {
            &&& self.position < self.pending@.len()
            &&& captured_dpi(self.captured, self.current()) is Some
        }
    }

    /// The profile that is being stamped.
    pub open spec fn current(self) -> ProfileId {
        self.pending@[self.position as int]
    }

    pub open spec fn request(self) -> SessionRequest {
        match self.stage {
            StampStage::ReadMetadata => SessionRequest::ReadProfileMetadata,
            StampStage::WriteMetadata { target } => SessionRequest::WriteProfileMetadata(target),
            StampStage::WriteDpi => SessionRequest::WriteDpi {
                state: captured_dpi(self.captured, self.current())->0,
                stamp: Some(self.token),
                verification: VerificationMethod::Readback,
            },
            StampStage::ReadDpi => SessionRequest::ReadDpi(self.current()),
            StampStage::Restore { original } => SessionRequest::WriteProfileMetadata(original),
        }
    }

    pub open spec fn at(self, stage: StampStage) -> Step<StampRun, IdentityCeremonyProgress> {
        let next = StampRun { stage, ..self };
        Step::Ask { request: next.request(), next }
    }

    pub open spec fn fails(
        step: Step<StampRun, IdentityCeremonyProgress>,
        failure: ManagerErrorView,
    ) -> bool {
        step matches Step::Done(Err(error)) && error@ == failure
    }

    /// The last profile that this run stamped.
    pub open spec fn last_pending(self) -> Option<ProfileId> {
        if self.pending@.len() > 0 {
            Some(self.pending@.last())
        } else {
            None
        }
    }

    /// The ceremony advances once everything is stamped: to the second mouse
    /// of a first enrollment, to its migration choice, or to its end.
    pub open spec fn advances(
        self,
        before: StateFile,
        after: StateFile,
        step: Step<StampRun, IdentityCeremonyProgress>,
    ) -> bool {
        if before.identity_setup is None {
            &&& StampRun::fails(step, ManagerErrorView::NoIdentityCeremony)
            &&& after == before
        } else if before.identity_setup->0.subjects@.len() == 0 {
            &&& StampRun::fails(
                step,
                misplaced(IdentityCeremonyAction::Stamp, before.identity_setup->0),
            )
            &&& after == before
        } else {
            let subjects = marked(before.identity_setup->0.subjects@, self.last_pending());
            if self.await_second || self.phase is InitialEnrollment {
                &&& journaled(
                    before,
                    after,
                    if self.await_second {
                        IdentitySetupStage::AwaitingCapture
                    } else {
                        IdentitySetupStage::Finalizing
                    },
                    subjects,
                )
                &&& step == Step::<StampRun, IdentityCeremonyProgress>::Done(
                    Ok(progress_of(after.identity_setup->0)),
                )
            } else {
                exists|whole: StateFile|
                    {
                        &&& #[trigger] journaled(
                            before,
                            whole,
                            IdentitySetupStage::Finalizing,
                            subjects,
                        )
                        &&& if finalize_refusal(whole) is Some {
                            &&& StampRun::fails(step, finalize_refusal(whole)->0)
                            &&& after == before
                        } else {
                            &&& step == Step::<StampRun, IdentityCeremonyProgress>::Done(
                                Ok(
                                    progress_at(
                                        progress_of(self.snapshot),
                                        IdentityCeremonyStage::Complete,
                                    ),
                                ),
                            )
                            &&& finalized(whole, false, after)
                        }
                    }
            }
        }
    }

    /// The run goes on with the profile at its position, or restores the
    /// metadata and advances the ceremony where none is left.
    pub open spec fn goes_on(
        self,
        before: StateFile,
        after: StateFile,
        step: Step<StampRun, IdentityCeremonyProgress>,
    ) -> bool {
        if self.position < self.pending@.len() {
            &&& after == before
            &&& if captured_dpi(self.captured, self.current()) is None {
                StampRun::fails(
                    step,
                    ManagerErrorView::VerificationMismatch {
                        resource: "physical identity watermark capture"@,
                        profile: Some(self.current()),
                    },
                )
            } else {
                step == self.at(StampStage::ReadMetadata)
            }
        } else {
            match self.captured.profile_metadata.observed {
                Some(observed) => {
                    &&& step == self.at(StampStage::Restore { original: observed.value })
                    &&& after == before
                },
                None => self.advances(before, after, step),
            }
        }
    }

    /// A confirmed profile is marked on record, but for the last one, which is
    /// marked when the ceremony advances; then the run goes on.
    pub open spec fn confirms(
        self,
        before: StateFile,
        after: StateFile,
        step: Step<StampRun, IdentityCeremonyProgress>,
    ) -> bool {
        let next = StampRun { position: (self.position + 1) as usize, ..self };
        if self.position + 1 == self.pending@.len() {
            next.goes_on(before, after, step)
        } else if before.identity_setup is None {
            &&& StampRun::fails(step, ManagerErrorView::NoIdentityCeremony)
            &&& after == before
        } else if before.identity_setup->0.subjects@.len() == 0 {
            &&& StampRun::fails(
                step,
                misplaced(IdentityCeremonyAction::Stamp, before.identity_setup->0),
            )
            &&& after == before
        } else {
            &&& journaled(
                before,
                after,
                before.identity_setup->0.stage,
                marked(before.identity_setup->0.subjects@, Some(self.current())),
            )
            &&& next.goes_on(after, after, step)
        }
    }

    /// How a reply takes the run on.
    pub open spec fn follows(
        self,
        before: StateFile,
        after: StateFile,
        reply: SessionReply,
        step: Step<StampRun, IdentityCeremonyProgress>,
    ) -> bool {
        match (self.stage, reply) {
            (StampStage::Restore { .. }, SessionReply::Failed(error)) => {
                &&& StampRun::fails(
                    step,
                    ManagerErrorView::RefreshRestorationFailed { restore: error_text(error@) },
                )
                &&& after == before
            },
            (
                StampStage::Restore { original },
                SessionReply::ProfileMetadataWritten(write),
            ) => match exact_outcome(original, write) {
                Ok(_) => self.advances(before, after, step),
                Err(restore) => {
                    &&& StampRun::fails(
                        step,
                        ManagerErrorView::RefreshRestorationFailed { restore: error_text(restore) },
                    )
                    &&& after == before
                },
            },
            (_, SessionReply::Failed(error)) => {
                &&& step == Step::<StampRun, IdentityCeremonyProgress>::Done(Err(error))
                &&& after == before
            },
            (StampStage::ReadMetadata, SessionReply::ProfileMetadata(metadata)) => {
                &&& step == self.at(
                    StampStage::WriteMetadata {
                        target: ProfileMetadata {
                            current_profile: self.current(),
                            maximum_profile: later_profile(
                                metadata.maximum_profile,
                                self.current(),
                            ),
                        },
                    },
                )
                &&& after == before
            },
            (
                StampStage::WriteMetadata { target },
                SessionReply::ProfileMetadataWritten(write),
            ) => {
                &&& after == before
                &&& match exact_outcome(target, write) {
                    Ok(_) => step == self.at(StampStage::WriteDpi),
                    Err(failure) => StampRun::fails(step, failure),
                }
            },
            (StampStage::WriteDpi, SessionReply::DpiWritten { write, watermark, .. }) =>
                if write is Acknowledged {
                &&& step == self.at(StampStage::ReadDpi)
                &&& after == before
            } else if watermark == WatermarkDecode::Valid(self.token) {
                self.confirms(before, after, step)
            } else {
                &&& StampRun::fails(step, unconfirmed(self.current()))
                &&& after == before
            },
            (StampStage::ReadDpi, SessionReply::Dpi { watermark, .. }) => if watermark
                == WatermarkDecode::Valid(self.token) {
                self.confirms(before, after, step)
            } else {
                &&& StampRun::fails(step, unconfirmed(self.current()))
                &&& after == before
            },
            _ => true,
        }
    }

    fn ask(self, stage: StampStage) -> (r: Step<StampRun, IdentityCeremonyProgress>)
        requires
            self.position <= self.pending@.len(),
            !(stage is Restore) ==> {
                &&& self.position < self.pending@.len()
                &&& captured_dpi(self.captured, self.current()) is Some
            },
        ensures
            r == self.at(stage),
            r matches Step::Ask { next, .. } && next.wf(),
    {
        let request = match stage {
            StampStage::ReadMetadata => SessionRequest::ReadProfileMetadata,
            StampStage::WriteMetadata { target } => SessionRequest::WriteProfileMetadata(target),
            StampStage::WriteDpi => match find_captured_dpi(
                &self.captured,
                self.pending[self.position],
            ) {
                Some(state) => SessionRequest::WriteDpi {
                    state,
                    stamp: Some(self.token),
                    verification: VerificationMethod::Readback,
                },
                None => unreached(),
            },
            StampStage::ReadDpi => SessionRequest::ReadDpi(self.pending[self.position]),
            StampStage::Restore { original } => SessionRequest::WriteProfileMetadata(original),
        };
        Step::Ask { request, next: StampRun { stage, ..self } }
    }

    fn advance(self, state: &mut StateFile) -> (r: Step<StampRun, IdentityCeremonyProgress>)
        ensures
            self.advances(*old(state), *final(state), r),
            r is Done,
    {
        let mut journal = match &state.identity_setup {
            None => {
                return Step::Done(Err(ManagerError::NoIdentityCeremony));
            },
            Some(journal) => {
                if journal.subjects.len() == 0 {
                    return Step::Done(Err(misplace(IdentityCeremonyAction::Stamp, journal)));
                }
                journal.clone()
            },
        };
        let last: Option<ProfileId> = if self.pending.len() > 0 {
            Some(self.pending[self.pending.len() - 1])
        } else {
            None
        };
        assert(last == self.last_pending());
        let ghost before = *state;
        mark_last(&mut journal.subjects, last);
        let enrolling: bool = match self.phase {
            IdentitySetupPhase::InitialEnrollment => true,
            _ => false,
        };
        if self.await_second || enrolling {
            journal.stage = if self.await_second {
                IdentitySetupStage::AwaitingCapture
            } else {
                IdentitySetupStage::Finalizing
            };
            let progress = ceremony_progress_from_journal(&journal);
            state.identity_setup = Some(journal);
            return Step::Done(Ok(progress));
        }
        journal.stage = IdentitySetupStage::Finalizing;
        let opened = state.identity_setup.take();
        state.identity_setup = Some(journal);
        let ghost whole = *state;
        assert(journaled(
            before,
            whole,
            IdentitySetupStage::Finalizing,
            marked(before.identity_setup->0.subjects@, self.last_pending()),
        ));
        match finalize_ceremony(state, false) {
            Ok(_) => {
                let mut progress = ceremony_progress_from_journal(&self.snapshot);
                progress.stage = IdentityCeremonyStage::Complete;
                Step::Done(Ok(progress))
            },
            Err(error) => {
                state.identity_setup = opened;
                Step::Done(Err(error))
            },
        }
    }

    fn go_on(self, state: &mut StateFile) -> (r: Step<StampRun, IdentityCeremonyProgress>)
        requires
            self.position <= self.pending@.len(),
        ensures
            self.goes_on(*old(state), *final(state), r),
            r matches Step::Ask { next, .. } ==> next.wf(),
    {
        if self.position < self.pending.len() {
            let profile = self.pending[self.position];
            if find_captured_dpi(&self.captured, profile).is_none() {
                return Step::Done(
                    Err(
                        ManagerError::VerificationMismatch {
                            resource: "physical identity watermark capture",
                            profile: Some(profile),
                        },
                    ),
                );
            }
            return self.ask(StampStage::ReadMetadata);
        }
        match self.captured.profile_metadata.observed {
            Some(observed) => self.ask(StampStage::Restore { original: observed.value }),
            None => self.advance(state),
        }
    }

    fn confirm(self, state: &mut StateFile) -> (r: Step<StampRun, IdentityCeremonyProgress>)
        requires
            self.position < self.pending@.len(),
        ensures
            self.confirms(*old(state), *final(state), r),
            r matches Step::Ask { next, .. } ==> next.wf(),
    {
        let profile = self.pending[self.position];
        let count: usize = self.pending.len();
        if self.position + 1 < count {
            let mut journal = match &state.identity_setup {
                None => {
                    return Step::Done(Err(ManagerError::NoIdentityCeremony));
                },
                Some(journal) => {
                    if journal.subjects.len() == 0 {
                        return Step::Done(Err(misplace(IdentityCeremonyAction::Stamp, journal)));
                    }
                    journal.clone()
                },
            };
            mark_last(&mut journal.subjects, Some(profile));
            state.identity_setup = Some(journal);
        }
        let position: usize = self.position + 1;
        StampRun { position, ..self }.go_on(state)
    }

    /// Begins the run on the mouse that was opened.
    pub fn start(self, manager: &mut DeviceManager) -> (r: Step<StampRun, IdentityCeremonyProgress>)
        requires
            self.position <= self.pending@.len(),
        ensures
            final(manager).identity_cache == old(manager).identity_cache,
            self.goes_on(old(manager).state, final(manager).state, r),
            r matches Step::Ask { next, .. } ==> next.wf(),
    {
        self.go_on(&mut manager.state)
    }

    /// Goes on with the reply to the request that was handed out last. The
    /// state has to be stored before the next request is performed.
    pub fn resume(self, manager: &mut DeviceManager, reply: SessionReply) -> (r: Step<
        StampRun,
        IdentityCeremonyProgress,
    >)
        requires
            self.wf(),
            reply.fits(self.request()),
        ensures
            final(manager).identity_cache == old(manager).identity_cache,
            self.follows(old(manager).state, final(manager).state, reply, r),
            r matches Step::Ask { next, .. } ==> next.wf(),
    {
        match (self.stage, reply) {
            (StampStage::Restore { original: _ }, SessionReply::Failed(error)) => Step::Done(
                Err(ManagerError::RefreshRestorationFailed { restore: error.message() }),
            ),
            (
                StampStage::Restore { original },
                SessionReply::ProfileMetadataWritten(write),
            ) => match require_exact_metadata(original, write) {
                Ok(_) => self.advance(&mut manager.state),
                Err(error) => Step::Done(
                    Err(ManagerError::RefreshRestorationFailed { restore: error.message() }),
                ),
            },
            (_, SessionReply::Failed(error)) => Step::Done(Err(error)),
            (StampStage::ReadMetadata, SessionReply::ProfileMetadata(metadata)) => {
                let profile = self.pending[self.position];
                let maximum = max_profile(metadata.maximum(), profile);
                let target = match ProfileMetadata::new(profile, maximum) {
                    Ok(target) => target,
                    Err(_) => unreached(),
                };
                self.ask(StampStage::WriteMetadata { target })
            },
            (
                StampStage::WriteMetadata { target },
                SessionReply::ProfileMetadataWritten(write),
            ) => match require_exact_metadata(target, write) {
                Ok(_) => self.ask(StampStage::WriteDpi),
                Err(error) => Step::Done(Err(error)),
            },
            (
                StampStage::WriteDpi,
                SessionReply::DpiWritten { desired: _, write, watermark },
            ) => match write {
                SessionWrite::Acknowledged => self.ask(StampStage::ReadDpi),
                SessionWrite::ReadbackVerified(_) => self.check(&mut manager.state, watermark),
            },
            (StampStage::ReadDpi, SessionReply::Dpi { state: _, watermark }) => self.check(
                &mut manager.state,
                watermark,
            ),
            _ => unreached(),
        }
    }

    fn check(self, state: &mut StateFile, watermark: WatermarkDecode) -> (r: Step<
        StampRun,
        IdentityCeremonyProgress,
    >)
        requires
            self.position < self.pending@.len(),
        ensures
            if watermark == WatermarkDecode::Valid(self.token) {
                self.confirms(*old(state), *final(state), r)
            } else {
                &&& StampRun::fails(r, unconfirmed(self.current()))
                &&& *final(state) == *old(state)
            },
            r matches Step::Ask { next, .. } ==> next.wf(),
    {
        if watermark.same(&WatermarkDecode::Valid(self.token)) {
            return self.confirm(state);
        }
        Step::Done(
            Err(
                ManagerError::VerificationMismatch {
                    resource: "physical identity watermark",
                    profile: Some(self.pending[self.position]),
                },
            ),
        )
    }
}

/// A profile that is marked as stamped is never in a run, and every captured
/// profile that is not marked is.
pub proof fn law_stamped_profiles_are_never_rewritten(
    subject: IdentitySetupSubject,
    profile: ProfileId,
)
    requires
        subject.captured is Some,
    ensures
        pending_profiles(subject).contains(profile) <==> subject.captured->0.profiles.at(profile)
            is Some && subject.stamp_progress.at(profile) != Some(IdentityStampProgress::Stamped),
{
    let captured = subject.captured->0.profiles;
    let progress = subject.stamp_progress;
    let a = pending_slot(ProfileId::One, captured.one, progress.one);
    let b = pending_slot(ProfileId::Two, captured.two, progress.two);
    let c = pending_slot(ProfileId::Three, captured.three, progress.three);
    let d = pending_slot(ProfileId::Four, captured.four, progress.four);
    let e = pending_slot(ProfileId::Five, captured.five, progress.five);
    lemma_in_sum(a, b, profile);
    lemma_in_sum(a + b, c, profile);
    lemma_in_sum(a + b + c, d, profile);
    lemma_in_sum(a + b + c + d, e, profile);
    lemma_pending_slot(ProfileId::One, captured.one, progress.one, profile);
    lemma_pending_slot(ProfileId::Two, captured.two, progress.two, profile);
    lemma_pending_slot(ProfileId::Three, captured.three, progress.three, profile);
    lemma_pending_slot(ProfileId::Four, captured.four, progress.four, profile);
    lemma_pending_slot(ProfileId::Five, captured.five, progress.five, profile);
}

proof fn lemma_pending_slot(
    slot: ProfileId,
    captured: Option<ProfileState>,
    progress: Option<IdentityStampProgress>,
    profile: ProfileId,
)
    ensures
        pending_slot(slot, captured, progress).contains(profile) <==> slot == profile && captured
            is Some && progress != Some(IdentityStampProgress::Stamped),
{
    let list = pending_slot(slot, captured, progress);
    if captured is Some && progress != Some(IdentityStampProgress::Stamped) {
        assert(list[0] == slot);
    }
}

/// A run that is resumed after an interruption goes on where the marks stop: a
/// mark takes exactly its profile out of what is pending.
pub proof fn law_marks_survive_interruption(
    subject: IdentitySetupSubject,
    done: ProfileId,
    profile: ProfileId,
)
    requires
        subject.captured is Some,
    ensures
        pending_profiles(stamped_subject(subject, Some(done))).contains(profile)
            <==> pending_profiles(subject).contains(profile) && profile != done,
        stamped_subject(subject, Some(done)).token == subject.token,
        stamped_subject(subject, Some(done)).captured == subject.captured,
{
    law_stamped_profiles_are_never_rewritten(subject, profile);
    law_stamped_profiles_are_never_rewritten(stamped_subject(subject, Some(done)), profile);
}

/// Before anything is written the journal describes it: the token, the image
/// and the profile of every write are on record when a run begins, and a mouse
/// that has a token never gets another one.
pub proof fn law_writes_are_on_record_first(
    before: StateFile,
    after: StateFile,
    run: StampRun,
    profile: ProfileId,
)
    requires
        stamp_begins(before, after, Ok(run)),
        run.pending@.contains(profile),
    ensures
        after.identity_setup is Some,
        after.identity_setup->0.subjects@.len() > 0,
        ({
            let subject = after.identity_setup->0.subjects@.last();
            &&& subject.token == Some(run.token)
            &&& subject.captured == Some(run.captured)
            &&& run.captured.profiles.at(profile) is Some
            &&& subject.stamp_progress.at(profile) != Some(IdentityStampProgress::Stamped)
        }),
        before.identity_setup->0.subjects@.last().token matches Some(token) ==> run.token == token,
        before.identity_setup->0.subjects@.last().token is None ==> is_fresh_token(
            before,
            before.identity_setup->0.subjects@.last().old_token,
            run.token,
        ),
{
    law_stamped_profiles_are_never_rewritten(
        after.identity_setup->0.subjects@.last(),
        profile,
    );
}

/// Every image that a run writes is the captured one of a pending profile,
/// stamped with the token on record and read back; a profile is marked only
/// after that token was seen on it.
pub proof fn law_stamps_are_confirmed(
    run: StampRun,
    before: StateFile,
    after: StateFile,
    reply: SessionReply,
    step: Step<StampRun, IdentityCeremonyProgress>,
)
    requires
        run.wf(),
        reply.fits(run.request()),
        run.follows(before, after, reply, step),
    ensures
        step matches Step::Ask { request, .. } ==> (request matches SessionRequest::WriteDpi {
            state,
            stamp,
            verification,
        } ==> {
            &&& captured_dpi(run.captured, run.current()) == Some(state)
            &&& stamp == Some(run.token)
            &&& verification is Readback
        }),
        after.identity_setup != before.identity_setup && !(run.stage is Restore) ==> {
            ||| reply matches SessionReply::Dpi { watermark, .. } && watermark
                == WatermarkDecode::Valid(run.token)
            ||| reply matches SessionReply::DpiWritten { watermark, .. } && watermark
                == WatermarkDecode::Valid(run.token)
        },
{
}

/// A mouse that was put on record can be stamped.
pub proof fn law_recorded_mice_can_be_stamped(
    before: StateFile,
    after: StateFile,
    subject: IdentitySetupSubject,
)
    requires
        before.identity_setup is Some,
        subject.captured is Some,
        journaled(
            before,
            after,
            IdentitySetupStage::Stamping,
            before.identity_setup->0.subjects@.push(subject),
        ),
    ensures
        is_stampable(after),
{
}

/// The mouse to be stamped has to be captured, where there is one.
pub proof fn law_captured_mice_can_be_stamped(manager: &DeviceManager, r: bool)
    requires
        call_ensures(DeviceManager::can_stamp, (manager,), r),
    ensures
        r <==> (manager.state.identity_setup matches Some(journal) ==> journal.stage is Stamping
            ==> !(journal.phase is BleAssociation) ==> journal.subjects@.len() > 0
            ==> journal.subjects@[journal.subjects@.len() - 1].captured is Some),
{
}

/// A run is about the mouse that was presented last: its endpoint, its token,
/// its capture, and exactly those captured profiles that are not stamped, each
/// once and in slot order. A mouse that has a token keeps it, and one without
/// gets the minted one, which is on record.
pub proof fn law_runs_are_about_the_last_mouse(
    manager: &mut DeviceManager,
    minted: PhysicalId,
    r: Result<StampRun, ManagerError>,
    profile: ProfileId,
)
    requires
        call_ensures(DeviceManager::begin_stamp, (manager, minted), r),
    ensures
        ({
            let before = old(manager).state;
            let after = final(manager).state;
            let due = before.identity_setup matches Some(journal) && journal.stage is Stamping && !(
            journal.phase is BleAssociation) && journal.subjects@.len() > 0;
            let had = before.identity_setup->0.subjects@;
            let has = after.identity_setup->0.subjects@;
            let last = had[had.len() - 1];
            &&& r is Ok <==> due
            &&& r is Err ==> after == before
            &&& r matches Ok(run) ==> {
                &&& last.token matches Some(token) ==> run.token == token && after == before
                &&& last.token is None ==> run.token == minted
                &&& has.len() == had.len()
                &&& has[had.len() - 1].token == Some(run.token)
                &&& has[had.len() - 1].captured == last.captured
                &&& has[had.len() - 1].stamp_progress == last.stamp_progress
                &&& has[had.len() - 1].endpoint == last.endpoint
                &&& has[had.len() - 1].device_id == last.device_id
                &&& has[had.len() - 1].old_token == last.old_token
                &&& forall|i: int| 0 <= i < had.len() - 1 ==> #[trigger] has[i] == had[i]
                &&& after.devices == before.devices
                &&& after.identity_mode == before.identity_mode
                &&& run.phase == before.identity_setup->0.phase
                &&& run.endpoint == last.endpoint
                &&& Some(run.captured) == last.captured
                &&& run.position == 0
                &&& run.await_second <==> run.phase is InitialEnrollment && had.len() == 1
                &&& run.pending@.contains(profile) <==> last.captured->0.profiles.at(profile)
                    is Some && last.stamp_progress.at(profile) != Some(
                    IdentityStampProgress::Stamped,
                )
                &&& forall|i: int, j: int|
                    #![trigger run.pending@[i], run.pending@[j]]
                    0 <= i < j < run.pending@.len() ==> run.pending@[i].index()
                        < run.pending@[j].index()
            }
        }),
{
    let after = final(manager).state;
    if r is Ok {
        let subject = after.identity_setup->0.subjects@.last();
        law_stamped_profiles_are_never_rewritten(subject, profile);
        lemma_pending_order(subject);
    }
}

proof fn lemma_pending_order(subject: IdentitySetupSubject)
    ensures
        forall|i: int, j: int|
            #![trigger pending_profiles(subject)[i], pending_profiles(subject)[j]]
            0 <= i < j < pending_profiles(subject).len() ==> pending_profiles(subject)[i].index()
                < pending_profiles(subject)[j].index(),
{
    let captured = subject.captured->0.profiles;
    let progress = subject.stamp_progress;
    let a = pending_slot(ProfileId::One, captured.one, progress.one);
    let b = pending_slot(ProfileId::Two, captured.two, progress.two);
    let c = pending_slot(ProfileId::Three, captured.three, progress.three);
    let d = pending_slot(ProfileId::Four, captured.four, progress.four);
    let e = pending_slot(ProfileId::Five, captured.five, progress.five);
    assert(forall|i: int| 0 <= i < a.len() ==> (#[trigger] a[i]).index() == 1);
    assert(forall|i: int| 0 <= i < b.len() ==> (#[trigger] b[i]).index() == 2);
    assert(forall|i: int| 0 <= i < c.len() ==> (#[trigger] c[i]).index() == 3);
    assert(forall|i: int| 0 <= i < d.len() ==> (#[trigger] d[i]).index() == 4);
    assert(forall|i: int| 0 <= i < e.len() ==> (#[trigger] e[i]).index() == 5);
    assert(a.len() <= 1 && b.len() <= 1 && c.len() <= 1 && d.len() <= 1 && e.len() <= 1);
    assert(pending_profiles(subject) == a + b + c + d + e);
}

/// Only a foreign adoption is confirmed; the confirmation begins a run with the
/// adopted token.
pub proof fn law_adoptions_keep_the_adopted_token(
    manager: &mut DeviceManager,
    r: Result<StampRun, ManagerError>,
)
    requires
        call_ensures(DeviceManager::ceremony_adopt, (manager,), r),
    ensures
        r is Err ==> final(manager).state == old(manager).state,
        r is Ok ==> (old(manager).state.identity_setup matches Some(journal) && journal.phase
            is ForeignAdoption),
        old(manager).state.identity_setup matches Some(journal) ==> !(journal.phase
            is ForeignAdoption) ==> (r matches Err(error) && error is InvalidCeremonyAction),
        r matches Ok(run) ==> ({
            let subjects = old(manager).state.identity_setup->0.subjects@;
            subjects[subjects.len() - 1].token matches Some(token) ==> {
                &&& run.token == token
                &&& final(manager).state == old(manager).state
            }
        }),
{
}

/// The profile at hand is activated first, among the profiles that were enabled
/// and no more; its captured image is then written with the token and read
/// back, but only where the mouse holds the metadata that were written.
pub proof fn law_stamps_are_written_to_the_active_profile(
    run: StampRun,
    manager: &mut DeviceManager,
    reply: SessionReply,
    r: Step<StampRun, IdentityCeremonyProgress>,
)
    requires
        call_ensures(StampRun::resume, (run, manager, reply), r),
        run.position < run.pending@.len(),
        (run.stage is ReadMetadata && reply is ProfileMetadata) || (run.stage is WriteMetadata
            && reply is ProfileMetadataWritten),
    ensures
        ({
            let profile = run.pending@[run.position as int];
            &&& final(manager).state == old(manager).state
            &&& reply matches SessionReply::ProfileMetadata(metadata) ==> {
                &&& r matches Step::Ask { request, next }
                &&& request matches SessionRequest::WriteProfileMetadata(sent)
                &&& sent.current_profile == profile
                &&& sent.maximum_profile.index() >= profile.index()
                &&& sent.maximum_profile.index() >= metadata.maximum_profile.index()
                &&& sent.maximum_profile == profile || sent.maximum_profile
                    == metadata.maximum_profile
                &&& next == (StampRun { stage: StampStage::WriteMetadata { target: sent }, ..run })
            }
            &&& reply matches SessionReply::ProfileMetadataWritten(write) ==> {
                let target = run.stage->WriteMetadata_target;
                if write == SessionWrite::ReadbackVerified(target) {
                    &&& r matches Step::Ask { request, next }
                    &&& request matches SessionRequest::WriteDpi { state, stamp, verification }
                    &&& stamp == Some(run.token)
                    &&& verification is Readback
                    &&& next == (StampRun { stage: StampStage::WriteDpi, ..run })
                    &&& run.captured.profiles.at(profile) matches Some(slot)
                        ==> slot.dpi.observed matches Some(seen) ==> state == seen.value
                } else {
                    r matches Step::Done(Err(error)) && error is VerificationMismatch
                }
            }
        }),
{
}

/// The token was seen on the mouse.
pub open spec fn shows_token(run: StampRun, reply: SessionReply) -> bool {
    match reply {
        SessionReply::DpiWritten { write, watermark, .. } => !(write is Acknowledged) && watermark
            == WatermarkDecode::Valid(run.token),
        SessionReply::Dpi { watermark, .. } => watermark == WatermarkDecode::Valid(run.token),
        _ => false,
    }
}

/// A write that was only acknowledged is followed by a read of the same
/// profile. An image that does not show the token ends the run with an error
/// about its profile, and nothing is marked. An image that shows it takes the
/// run to the next pending profile, or on to the metadata that were captured.
pub proof fn law_stamps_are_checked_one_by_one(
    run: StampRun,
    manager: &mut DeviceManager,
    reply: SessionReply,
    r: Step<StampRun, IdentityCeremonyProgress>,
)
    requires
        call_ensures(StampRun::resume, (run, manager, reply), r),
        run.position < run.pending@.len(),
        (run.stage is WriteDpi && reply is DpiWritten) || (run.stage is ReadDpi && reply is Dpi),
        old(manager).state.identity_setup is Some,
        old(manager).state.identity_setup->0.subjects@.len() > 0,
    ensures
        ({
            let profile = run.pending@[run.position as int];
            let unread = reply matches SessionReply::DpiWritten { desired, write, watermark }
                && write is Acknowledged;
            let last = run.position + 1 == run.pending@.len();
            &&& unread ==> final(manager).state == old(manager).state && (r matches Step::Ask {
                request,
                next,
            } && request == SessionRequest::ReadDpi(profile) && next == (StampRun {
                stage: StampStage::ReadDpi,
                ..run
            }))
            &&& !unread && !shows_token(run, reply) ==> final(manager).state == old(manager).state
                && (r matches Step::Done(Err(ManagerError::VerificationMismatch {
                resource,
                profile: of,
            })) && of == Some(profile))
            &&& shows_token(run, reply) && !last ==> {
                let had = old(manager).state.identity_setup->0.subjects@;
                let has = final(manager).state.identity_setup->0.subjects@;
                &&& final(manager).state.identity_setup is Some
                &&& final(manager).state.devices == old(manager).state.devices
                &&& has.len() == had.len()
                &&& marks_one(had[had.len() - 1], has[had.len() - 1], profile)
                &&& forall|i: int| 0 <= i < had.len() - 1 ==> #[trigger] has[i] == had[i]
                &&& r matches Step::Ask { request, next } ==> request is ReadProfileMetadata && next
                    == (StampRun {
                    position: (run.position + 1) as usize,
                    stage: StampStage::ReadMetadata,
                    ..run
                })
                &&& r matches Step::Done(outcome) ==> outcome is Err
            }
            &&& shows_token(run, reply) && last ==> (
            run.captured.profile_metadata.observed matches Some(seen) ==> final(manager).state
                == old(manager).state && (r matches Step::Ask { request, next } && request
                == SessionRequest::WriteProfileMetadata(seen.value) && next == (StampRun {
                position: (run.position + 1) as usize,
                stage: StampStage::Restore { original: seen.value },
                ..run
            })))
        }),
{
    assert(run.pending@.len() == run.pending.len());
}

/// One profile is marked as stamped and nothing else about the mouse changes.
pub open spec fn marks_one(
    before: IdentitySetupSubject,
    after: IdentitySetupSubject,
    profile: ProfileId,
) -> bool {
    &&& after.stamp_progress.at(profile) == Some(IdentityStampProgress::Stamped)
    &&& forall|other: ProfileId|
        other == profile || #[trigger] after.stamp_progress.at(other)
            == before.stamp_progress.at(other)
    &&& after.endpoint == before.endpoint
    &&& after.device_id == before.device_id
    &&& after.token == before.token
    &&& after.old_token == before.old_token
    &&& after.captured == before.captured
}

/// Metadata that could not be restored end the run without any progress on
/// record. In a first enrollment restored metadata mark the last profile, and
/// the ceremony turns to the second mouse or to the migration choice.
pub proof fn law_enrollments_turn_to_the_second_mouse(
    run: StampRun,
    manager: &mut DeviceManager,
    original: ProfileMetadata,
    reply: SessionReply,
    r: Step<StampRun, IdentityCeremonyProgress>,
)
    requires
        call_ensures(StampRun::resume, (run, manager, reply), r),
        run.stage == (StampStage::Restore { original }),
        reply is ProfileMetadataWritten || reply is Failed,
        old(manager).state.identity_setup is Some,
        old(manager).state.identity_setup->0.subjects@.len() > 0,
    ensures
        ({
            let exact = reply == SessionReply::ProfileMetadataWritten(
                SessionWrite::ReadbackVerified(original),
            );
            let had = old(manager).state.identity_setup->0.subjects@;
            let has = final(manager).state.identity_setup->0.subjects@;
            &&& !exact ==> final(manager).state == old(manager).state && (r matches Step::Done(
                Err(error),
            ) && error is RefreshRestorationFailed)
            &&& exact && run.phase is InitialEnrollment ==> {
                &&& r matches Step::Done(Ok(_))
                &&& final(manager).state.identity_setup matches Some(journal)
                &&& journal.phase == old(manager).state.identity_setup->0.phase
                &&& run.await_second ==> journal.stage is AwaitingCapture
                &&& !run.await_second ==> journal.stage is Finalizing
                &&& has.len() == had.len()
                &&& run.pending@.len() > 0 ==> marks_one(
                    had[had.len() - 1],
                    has[had.len() - 1],
                    run.pending@[run.pending@.len() - 1],
                )
                &&& run.pending@.len() == 0 ==> has[had.len() - 1] == had[had.len() - 1]
                &&& forall|i: int| 0 <= i < had.len() - 1 ==> #[trigger] has[i] == had[i]
                &&& final(manager).state.devices == old(manager).state.devices
                &&& final(manager).state.identity_mode == old(manager).state.identity_mode
            }
        }),
{
}

/// Once everything is stamped and the metadata are restored, an added, adopted
/// or restored mouse is stored with its token and its capture, and the ceremony
/// is over.
pub proof fn law_stamped_mice_are_stored(
    run: StampRun,
    manager: &mut DeviceManager,
    original: ProfileMetadata,
    r: Step<StampRun, IdentityCeremonyProgress>,
    profile: ProfileId,
)
    requires
        call_ensures(
            StampRun::resume,
            (
                run,
                manager,
                SessionReply::ProfileMetadataWritten(SessionWrite::ReadbackVerified(original)),
            ),
            r,
        ),
        run.stage == (StampStage::Restore { original }),
        !run.await_second,
        !(run.phase is InitialEnrollment),
        old(manager).state.identity_setup is Some,
        old(manager).state.identity_setup->0.phase == run.phase,
        old(manager).state.identity_setup->0.subjects@.len() == 1,
        r matches Step::Done(Ok(_)),
        !(run.phase is BleAssociation),
    ensures
        ({
            let before = old(manager).state;
            let after = final(manager).state;
            let subject = before.identity_setup->0.subjects@[0];
            let key = if run.phase is Restore {
                subject.device_id->0@
            } else {
                logical_key(before.next_device_number as nat)
            };
            let stored = after.devices@[key];
            &&& after.identity_setup is None
            &&& after.devices@.dom().contains(key)
            &&& stored.identity.physical_id == subject.token
            &&& stored.identity.endpoints.at(subject.endpoint.transport) == Some(subject.endpoint)
            &&& subject.captured matches Some(image) ==> stored.profile_metadata
                == image.profile_metadata && stored.profiles.at(profile) == image.profiles.at(
                profile,
            )
            &&& r matches Step::Done(Ok(progress)) && progress.stage is Complete
        }),
{
    let before = old(manager).state;
    let after = final(manager).state;
    let subjects = marked(before.identity_setup->0.subjects@, run.last_pending());
    let whole = choose|whole: StateFile|
        {
            &&& #[trigger] journaled(before, whole, IdentitySetupStage::Finalizing, subjects)
            &&& finalize_refusal(whole) is None ==> finalized(whole, false, after)
            &&& finalize_refusal(whole) is Some ==> r matches Step::Done(Err(_))
        };
    assert(finalize_refusal(whole) is None);
    assert(finalized(whole, false, after));
    assert(subjects[0].captured == before.identity_setup->0.subjects@[0].captured);
    assert(subjects[0].token == before.identity_setup->0.subjects@[0].token);
    assert(subjects[0].endpoint == before.identity_setup->0.subjects@[0].endpoint);
    assert(subjects[0].device_id == before.identity_setup->0.subjects@[0].device_id);
}

/// A failure at any other time ends the run with that failure and changes
/// nothing.
pub proof fn law_failed_stamps_change_nothing(
    run: StampRun,
    manager: &mut DeviceManager,
    error: ManagerError,
    r: Step<StampRun, IdentityCeremonyProgress>,
)
    requires
        call_ensures(StampRun::resume, (run, manager, SessionReply::Failed(error)), r),
        !(run.stage is Restore),
    ensures
        final(manager).state == old(manager).state,
        r == Step::<StampRun, IdentityCeremonyProgress>::Done(Err(error)),
{
}

/// A run begins with the metadata for its first pending profile, or with
/// restoring the captured metadata where nothing is pending.
pub proof fn law_runs_begin_with_what_is_pending(
    run: StampRun,
    manager: &mut DeviceManager,
    r: Step<StampRun, IdentityCeremonyProgress>,
)
    requires
        call_ensures(StampRun::start, (run, manager), r),
    ensures
        ({
            let profile = run.pending@[run.position as int];
            let imaged = run.captured.profiles.at(profile) matches Some(slot) && slot.dpi.observed
                is Some;
            &&& run.position < run.pending@.len() && imaged ==> (r matches Step::Ask {
                request,
                next,
            } && request is ReadProfileMetadata && next == (StampRun {
                stage: StampStage::ReadMetadata,
                ..run
            }))
            &&& run.position < run.pending@.len() && !imaged ==> (r matches Step::Done(
                Err(ManagerError::VerificationMismatch { resource, profile: of }),
            ) && of == Some(profile))
            &&& run.position < run.pending@.len() ==> final(manager).state == old(manager).state
            &&& run.position == run.pending@.len() ==> (
            run.captured.profile_metadata.observed matches Some(seen) ==> final(manager).state
                == old(manager).state && (r matches Step::Ask { request, next } && request
                == SessionRequest::WriteProfileMetadata(seen.value) && next == (StampRun {
                stage: StampStage::Restore { original: seen.value },
                ..run
            })))
        }),
{
}

} // verus!
