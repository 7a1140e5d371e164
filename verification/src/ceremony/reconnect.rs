//! Accepting a mouse that was reconnected for a ceremony.
//!
//! The presented mouse is looked at first: an intact marker is never
//! overwritten. Then its complete state is captured and put on record, before
//! any watermark is written.

use vstd::prelude::*;

use crate::ceremony::finalize::{
    finalize_ceremony, finalize_refusal, finalized, refusal, refused,
};
use crate::ceremony::progress::{ceremony_progress_from_journal, progress_of, progress_with};
use crate::ceremony::steps::{misplace, misplaced};
use crate::device::{logical_key, DeviceEndpoint, DeviceId};
use crate::discovery::resolution::{
    carries, is_known, is_known_token, is_reserved_token, journal_reserves,
    journal_reserves_token, sets_aside,
};
use crate::error::{profile_number, profile_text, viewed, ManagerError, ManagerErrorView};
use crate::exact::SameValue;
use crate::manager::{not_found, DeviceManager};
use crate::operation::{IdentityCeremonyAction, IdentityCeremonyProgress, RefreshedProfile};
use crate::protocol::{is_usb_transport, PhysicalId, ProfileId, WatermarkDecode};
use crate::refresh::ProfileCapture;
use crate::slots::ProfileMap;
use crate::state::{
    law_stamps_are_counted_per_profile, CapturedProfileImage, IdentitySetupJournal,
    IdentitySetupPhase, IdentitySetupStage, IdentitySetupSubject, IdentityStampProgress, StateFile,
    Timestamp,
};
use crate::text::{decimal, decimal_text, hex, hex_text};

verus! {

/// A reconnected mouse that was not looked at yet.
#[derive(Debug, PartialEq, Eq)]
pub struct Reconnect {
    pub phase: IdentitySetupPhase,
    pub endpoint: DeviceEndpoint,
    pub target: Option<DeviceId>,
}

/// A reconnected mouse that fits the ceremony.
#[derive(Debug, PartialEq, Eq)]
pub struct Admitted {
    pub phase: IdentitySetupPhase,
    pub endpoint: DeviceEndpoint,
    /// The logical mouse that is restored.
    pub device_id: Option<DeviceId>,
    /// The token that is adopted.
    pub token: Option<PhysicalId>,
    /// The token that a restore replaces.
    pub old_token: Option<PhysicalId>,
}

/// The ceremony waits for a mouse to be presented.
pub open spec fn awaits_mouse(journal: IdentitySetupJournal) -> bool {
    &&& journal.stage is AwaitingCapture
    &&& if journal.phase is InitialEnrollment {
        journal.subjects@.len() <= 1
    } else {
        journal.subjects@.len() == 0
    }
}

/// Why an endpoint cannot be presented, if it cannot.
pub open spec fn reconnect_refusal(state: StateFile, endpoint: DeviceEndpoint) -> Option<
    ManagerErrorView,
> {
    match state.identity_setup {
        None => Some(ManagerErrorView::NoIdentityCeremony),
        Some(journal) => if !awaits_mouse(journal) {
            Some(misplaced(IdentityCeremonyAction::Reconnected, journal))
        } else if !endpoint.transport.is_usb() {
            Some(
                refusal(
                    journal.phase,
                    "requires-usb"@,
                    "physical enrollment and watermark verification require a wired or receiver USB connection"@,
                ),
            )
        } else {
            None
        },
    }
}

/// The token that is adopted from a presented mouse, or why the mouse does not
/// fit. A marked mouse is never stamped again.
pub open spec fn eligibility(
    state: StateFile,
    phase: IdentitySetupPhase,
    endpoint: DeviceEndpoint,
    decode: WatermarkDecode,
) -> Result<Option<PhysicalId>, ManagerErrorView> {
    match decode {
        WatermarkDecode::Valid(token) => if token.is_reserved() {
            Err(ManagerErrorView::ReservedPhysicalId { physical_id: token })
        } else {
            match phase {
                IdentitySetupPhase::ForeignAdoption => if is_known(state.devices@, token) {
                    Err(
                        refusal(
                            phase,
                            "already-registered"@,
                            "token "@ + hex(token.token@)
                                + " already identifies a logical mouse here"@,
                        ),
                    )
                } else if state.identity_setup is Some && journal_reserves(
                    state.identity_setup->0,
                    token,
                ) {
                    Err(
                        refusal(
                            phase,
                            "reserved-by-journal"@,
                            "the presented token is reserved by an in-flight ceremony"@,
                        ),
                    )
                } else {
                    Ok(Some(token))
                },
                IdentitySetupPhase::InitialEnrollment => Err(
                    ManagerErrorView::IntactIdentityMarker {
                        endpoint,
                        detail: "the presented mouse carries a valid watermark "@ + hex(
                            token.token@,
                        ) + "; enrollment would overwrite it — adopt or restore instead"@,
                    },
                ),
                _ => Err(
                    refusal(
                        phase,
                        if is_known(state.devices@, token) {
                            "already-registered"@
                        } else {
                            "adopt-instead"@
                        },
                        "the presented mouse carries a valid watermark "@ + hex(token.token@)
                            + "; a marked device is never re-stamped"@,
                    ),
                ),
            }
        },
        WatermarkDecode::UnsupportedVersion { version } => Err(
            ManagerErrorView::IntactIdentityMarker {
                endpoint,
                detail: "unsupported future watermark version "@ + decimal(version as nat)
                    + "; upgrade required and the marker must not be overwritten"@,
            },
        ),
        WatermarkDecode::Absent | WatermarkDecode::Malformed => Ok(None),
    }
}

/// Why the target of a restore will not do, if it will not.
pub open spec fn restore_refusal(
    state: StateFile,
    phase: IdentitySetupPhase,
    target: Option<DeviceId>,
) -> Option<ManagerErrorView> {
    if !(phase is Restore) {
        None
    } else {
        match target {
            None => Some(
                refusal(
                    phase,
                    "requires-target"@,
                    "restore requires the logical mouse being restored"@,
                ),
            ),
            Some(id) => if !state.devices@.dom().contains(id@) {
                Some(not_found(id@))
            } else if state.devices@[id@].identity.physical_id is None {
                Some(
                    refusal(
                        phase,
                        "requires-physical-id"@,
                        id@ + " has no physical identity to restore"@,
                    ),
                )
            } else {
                None
            },
        }
    }
}

impl DeviceManager {
    /// Checks that the ceremony waits for a mouse and that the endpoint can
    /// show one.
    pub fn ceremony_reconnected(
        &self,
        endpoint: DeviceEndpoint,
        target: Option<DeviceId>,
    ) -> (r: Result<Reconnect, ManagerError>)
        ensures
            match reconnect_refusal(self.state, endpoint) {
                Some(refused) => r matches Err(error) && error@ == refused,
                None => r == Ok::<Reconnect, ManagerError>(
                    Reconnect { phase: self.state.identity_setup->0.phase, endpoint, target },
                ),
            },
    {
        let journal = match &self.state.identity_setup {
            Some(journal) => journal,
            None => {
                return Err(ManagerError::NoIdentityCeremony);
            },
        };
        let waiting: bool = match (journal.stage, journal.phase) {
            (IdentitySetupStage::AwaitingCapture, IdentitySetupPhase::InitialEnrollment) =>
                journal.subjects.len() <= 1,
            (IdentitySetupStage::AwaitingCapture, _) => journal.subjects.len() == 0,
            _ => false,
        };
        if !waiting {
            return Err(misplace(IdentityCeremonyAction::Reconnected, journal));
        }
        if !is_usb_transport(endpoint.transport) {
            return Err(
                refused(
                    journal.phase,
                    "requires-usb",
                    "physical enrollment and watermark verification require a wired or receiver USB connection",
                ),
            );
        }
        Ok(Reconnect { phase: journal.phase, endpoint, target })
    }
}

impl Reconnect {
    /// The ceremony can say something about a mouse with this watermark. An
    /// adoption is about a marked mouse, and a BLE association is not about a
    /// USB mouse at all.
    pub open spec fn is_answerable(self, decode: WatermarkDecode) -> bool {
        match self.phase {
            IdentitySetupPhase::ForeignAdoption => !(decode is Absent) && !(decode is Malformed),
            IdentitySetupPhase::BleAssociation => decode matches WatermarkDecode::Valid(token)
                ==> token.is_reserved(),
            _ => true,
        }
    }

    /// Tells whether the ceremony can say something about the mouse.
    pub fn can_answer(&self, decode: WatermarkDecode) -> (r: bool)
        ensures
            r == self.is_answerable(decode),
    {
        match (self.phase, decode) {
            (IdentitySetupPhase::ForeignAdoption, WatermarkDecode::Absent) => false,
            (IdentitySetupPhase::ForeignAdoption, WatermarkDecode::Malformed) => false,
            (IdentitySetupPhase::BleAssociation, WatermarkDecode::Valid(token)) =>
                is_reserved_token(token),
            _ => true,
        }
    }

    /// Decides whether the presented mouse fits the ceremony.
    pub fn examine(self, manager: &DeviceManager, decode: WatermarkDecode) -> (r: Result<
        Admitted,
        ManagerError,
    >)
        requires
            self.is_answerable(decode),
        ensures
            ({
                let state = manager.state;
                let eligible = eligibility(state, self.phase, self.endpoint, decode);
                if eligible is Err {
                    viewed(r) == Err::<Admitted, ManagerErrorView>(eligible->Err_0)
                } else if restore_refusal(state, self.phase, self.target) is Some {
                    viewed(r) == Err::<Admitted, ManagerErrorView>(
                        restore_refusal(state, self.phase, self.target)->0,
                    )
                } else {
                    r == Ok::<Admitted, ManagerError>(
                        Admitted {
                            phase: self.phase,
                            endpoint: self.endpoint,
                            device_id: if self.phase is Restore {
                                self.target
                            } else {
                                None
                            },
                            token: eligible->Ok_0,
                            old_token: if self.phase is Restore {
                                state.devices@[self.target->0@].identity.physical_id
                            } else {
                                None
                            },
                        },
                    )
                }
            }),
            r matches Ok(admitted) ==> admitted.wf(),
    {
        let token = match self.check_marker(manager, decode) {
            Ok(token) => token,
            Err(error) => {
                return Err(error);
            },
        };
        match self.phase {
            IdentitySetupPhase::Restore => {},
            _ => {
                return Ok(
                    Admitted {
                        phase: self.phase,
                        endpoint: self.endpoint,
                        device_id: None,
                        token,
                        old_token: None,
                    },
                );
            },
        }
        let target_id = match self.target {
            Some(id) => id,
            None => {
                return Err(
                    refused(
                        self.phase,
                        "requires-target",
                        "restore requires the logical mouse being restored",
                    ),
                );
            },
        };
        let old_token = match manager.state.devices.get(&target_id) {
            None => {
                return Err(ManagerError::DeviceNotFound(target_id));
            },
            Some(device) => device.identity.physical_id,
        };
        if old_token.is_none() {
            let mut detail = target_id.as_str().to_owned();
            detail.append(" has no physical identity to restore");
            return Err(refused(self.phase, "requires-physical-id", detail.as_str()));
        }
        Ok(
            Admitted {
                phase: self.phase,
                endpoint: self.endpoint,
                device_id: Some(target_id),
                token,
                old_token,
            },
        )
    }

    fn check_marker(&self, manager: &DeviceManager, decode: WatermarkDecode) -> (r: Result<
        Option<PhysicalId>,
        ManagerError,
    >)
        ensures
            viewed(r) == eligibility(manager.state, self.phase, self.endpoint, decode),
    {
        let token = match decode {
            WatermarkDecode::Absent | WatermarkDecode::Malformed => {
                return Ok(None);
            },
            WatermarkDecode::UnsupportedVersion { version } => {
                let mut detail = "unsupported future watermark version ".to_owned();
                let number = decimal_text(version as u64);
                detail.append(number.as_str());
                detail.append("; upgrade required and the marker must not be overwritten");
                return Err(
                    ManagerError::IntactIdentityMarker { endpoint: self.endpoint.clone(), detail },
                );
            },
            WatermarkDecode::Valid(token) => token,
        };
        if is_reserved_token(token) {
            return Err(ManagerError::ReservedPhysicalId { physical_id: token });
        }
        let known: bool = is_known_token(&manager.state.devices, token);
        let bytes = token.token_bytes();
        let text = hex_text(bytes.as_slice());
        match self.phase {
            IdentitySetupPhase::ForeignAdoption => {
                if known {
                    let mut detail = "token ".to_owned();
                    detail.append(text.as_str());
                    detail.append(" already identifies a logical mouse here");
                    return Err(refused(self.phase, "already-registered", detail.as_str()));
                }
                if let Some(journal) = &manager.state.identity_setup {
                    if journal_reserves_token(journal, token) {
                        return Err(
                            refused(
                                self.phase,
                                "reserved-by-journal",
                                "the presented token is reserved by an in-flight ceremony",
                            ),
                        );
                    }
                }
                Ok(Some(token))
            },
            IdentitySetupPhase::InitialEnrollment => {
                let mut detail = "the presented mouse carries a valid watermark ".to_owned();
                detail.append(text.as_str());
                detail.append("; enrollment would overwrite it — adopt or restore instead");
                Err(ManagerError::IntactIdentityMarker { endpoint: self.endpoint.clone(), detail })
            },
            _ => {
                let mut detail = "the presented mouse carries a valid watermark ".to_owned();
                detail.append(text.as_str());
                detail.append("; a marked device is never re-stamped");
                let reason: &'static str = if known {
                    "already-registered"
                } else {
                    "adopt-instead"
                };
                Err(refused(self.phase, reason, detail.as_str()))
            },
        }
    }
}

/// A captured profile whose marker contradicts the adopted token.
pub open spec fn slot_disagrees(
    adopted: Option<PhysicalId>,
    captured: Option<RefreshedProfile>,
    decode: Option<WatermarkDecode>,
) -> bool {
    &&& adopted is Some
    &&& captured is Some
    &&& decode is Some
    &&& !(decode->0 is Absent)
    &&& decode->0 != WatermarkDecode::Valid(adopted->0)
}

/// Where a captured profile starts: one that carries the adopted token needs
/// no write.
pub open spec fn slot_plan(
    adopted: Option<PhysicalId>,
    captured: Option<RefreshedProfile>,
    decode: Option<WatermarkDecode>,
) -> Option<IdentityStampProgress> {
    if captured is None {
        None
    } else if adopted is Some && decode == Some(WatermarkDecode::Valid(adopted->0)) {
        Some(IdentityStampProgress::Stamped)
    } else {
        Some(IdentityStampProgress::Captured)
    }
}

/// The first profile, in slot order, whose marker contradicts the adopted
/// token.
pub open spec fn first_disagreement(
    adopted: Option<PhysicalId>,
    captured: ProfileMap<RefreshedProfile>,
    decodes: ProfileMap<WatermarkDecode>,
) -> Option<ProfileId> {
    if slot_disagrees(adopted, captured.one, decodes.one) {
        Some(ProfileId::One)
    } else if slot_disagrees(adopted, captured.two, decodes.two) {
        Some(ProfileId::Two)
    } else if slot_disagrees(adopted, captured.three, decodes.three) {
        Some(ProfileId::Three)
    } else if slot_disagrees(adopted, captured.four, decodes.four) {
        Some(ProfileId::Four)
    } else if slot_disagrees(adopted, captured.five, decodes.five) {
        Some(ProfileId::Five)
    } else {
        None
    }
}

pub open spec fn stamp_plan(
    adopted: Option<PhysicalId>,
    captured: ProfileMap<RefreshedProfile>,
    decodes: ProfileMap<WatermarkDecode>,
) -> ProfileMap<IdentityStampProgress> {
    ProfileMap {
        one: slot_plan(adopted, captured.one, decodes.one),
        two: slot_plan(adopted, captured.two, decodes.two),
        three: slot_plan(adopted, captured.three, decodes.three),
        four: slot_plan(adopted, captured.four, decodes.four),
        five: slot_plan(adopted, captured.five, decodes.five),
    }
}

/// How a marker is shown.
pub open spec fn marker_label(decode: WatermarkDecode) -> Seq<char> {
    match decode {
        WatermarkDecode::Absent => "Absent"@,
        WatermarkDecode::Malformed => "Malformed"@,
        WatermarkDecode::UnsupportedVersion { version } => "UnsupportedVersion { version: "@
            + decimal(version as nat) + " }"@,
        WatermarkDecode::Valid(token) => "Valid("@ + hex(token.token@) + ")"@,
    }
}

fn marker_text(decode: WatermarkDecode) -> (r: String)
    ensures
        r@ == marker_label(decode),
{
    match decode {
        WatermarkDecode::Absent => "Absent".to_owned(),
        WatermarkDecode::Malformed => "Malformed".to_owned(),
        WatermarkDecode::UnsupportedVersion { version } => {
            let mut text = "UnsupportedVersion { version: ".to_owned();
            let number = decimal_text(version as u64);
            text.append(number.as_str());
            text.append(" }");
            text
        },
        WatermarkDecode::Valid(token) => {
            let mut text = "Valid(".to_owned();
            let bytes = token.token_bytes();
            let digits = hex_text(bytes.as_slice());
            text.append(digits.as_str());
            text.append(")");
            text
        },
    }
}

/// Different valid tokens on one mouse mean damaged identity.
pub open spec fn disagreement(
    phase: IdentitySetupPhase,
    profile: ProfileId,
    decode: WatermarkDecode,
) -> ManagerErrorView {
    refusal(
        phase,
        "token-disagreement"@,
        "profile "@ + profile_number(profile) + " carries Some("@ + marker_label(decode)
            + "); profiles disagree on the physical token — treat as damaged identity and re-enroll"@,
    )
}

/// The state with a changed journal and nothing else changed.
pub open spec fn journaled(
    before: StateFile,
    after: StateFile,
    stage: IdentitySetupStage,
    subjects: Seq<IdentitySetupSubject>,
) -> bool {
    &&& after.identity_setup is Some
    &&& after.identity_setup->0.phase == before.identity_setup->0.phase
    &&& after.identity_setup->0.stage == stage
    &&& after.identity_setup->0.subjects@ == subjects
    &&& after == (StateFile { identity_setup: after.identity_setup, ..before })
}

fn plan_slot(
    adopted: Option<PhysicalId>,
    captured: &Option<RefreshedProfile>,
    decode: Option<WatermarkDecode>,
) -> (r: Result<Option<IdentityStampProgress>, WatermarkDecode>)
    ensures
        match r {
            Ok(progress) => !slot_disagrees(adopted, *captured, decode) && progress == slot_plan(
                adopted,
                *captured,
                decode,
            ),
            Err(marker) => slot_disagrees(adopted, *captured, decode) && decode == Some(marker),
        },
{
    if captured.is_none() {
        return Ok(None);
    }
    match (adopted, decode) {
        (Some(token), Some(marker)) => {
            if marker.same(&WatermarkDecode::Valid(token)) {
                return Ok(Some(IdentityStampProgress::Stamped));
            }
            match marker {
                WatermarkDecode::Absent => Ok(Some(IdentityStampProgress::Captured)),
                _ => Err(marker),
            }
        },
        _ => Ok(Some(IdentityStampProgress::Captured)),
    }
}

impl Admitted {
    /// A token is adopted exactly in an adoption, and a restore knows its
    /// mouse and the token that is replaced.
    pub open spec fn wf(self) -> bool {
        &&& self.phase is ForeignAdoption <==> self.token is Some
        &&& self.phase is Restore <==> self.device_id is Some
        &&& self.phase is Restore <==> self.old_token is Some
    }

    /// What is put on record about the mouse.
    pub open spec fn subject(
        self,
        capture: ProfileCapture,
        decodes: ProfileMap<WatermarkDecode>,
        now: Timestamp,
    ) -> IdentitySetupSubject {
        IdentitySetupSubject {
            endpoint: self.endpoint,
            device_id: self.device_id,
            token: self.token,
            old_token: self.old_token,
            captured: Some(capture.evidence(now)),
            stamp_progress: stamp_plan(self.token, capture.profiles, decodes),
        }
    }

    fn disagreed(&self, profile: ProfileId, marker: WatermarkDecode) -> (r: ManagerError)
        ensures
            r@ == disagreement(self.phase, profile, marker),
    {
        let mut detail = "profile ".to_owned();
        let number = profile_text(profile);
        detail.append(number.as_str());
        detail.append(" carries Some(");
        let label = marker_text(marker);
        detail.append(label.as_str());
        detail.append(
            "); profiles disagree on the physical token — treat as damaged identity and re-enroll",
        );
        refused(self.phase, "token-disagreement", detail.as_str())
    }

    fn plan_stamps(
        &self,
        captured: &ProfileMap<RefreshedProfile>,
        decodes: &ProfileMap<WatermarkDecode>,
    ) -> (r: Result<ProfileMap<IdentityStampProgress>, ManagerError>)
        ensures
            match first_disagreement(self.token, *captured, *decodes) {
                Some(profile) => r matches Err(error) && error@ == disagreement(
                    self.phase,
                    profile,
                    decodes.at(profile)->0,
                ),
                None => r == Ok::<ProfileMap<IdentityStampProgress>, ManagerError>(
                    stamp_plan(self.token, *captured, *decodes),
                ),
            },
    {
        let one = match plan_slot(self.token, &captured.one, decodes.one) {
            Ok(progress) => progress,
            Err(marker) => {
                return Err(self.disagreed(ProfileId::One, marker));
            },
        };
        let two = match plan_slot(self.token, &captured.two, decodes.two) {
            Ok(progress) => progress,
            Err(marker) => {
                return Err(self.disagreed(ProfileId::Two, marker));
            },
        };
        let three = match plan_slot(self.token, &captured.three, decodes.three) {
            Ok(progress) => progress,
            Err(marker) => {
                return Err(self.disagreed(ProfileId::Three, marker));
            },
        };
        let four = match plan_slot(self.token, &captured.four, decodes.four) {
            Ok(progress) => progress,
            Err(marker) => {
                return Err(self.disagreed(ProfileId::Four, marker));
            },
        };
        let five = match plan_slot(self.token, &captured.five, decodes.five) {
            Ok(progress) => progress,
            Err(marker) => {
                return Err(self.disagreed(ProfileId::Five, marker));
            },
        };
        Ok(ProfileMap { one, two, three, four, five })
    }

    /// How a captured mouse is put on record. A mouse whose every profile
    /// carries the adopted token completes the adoption without any write.
    pub open spec fn records(
        self,
        before: StateFile,
        after: StateFile,
        capture: ProfileCapture,
        decodes: ProfileMap<WatermarkDecode>,
        now: Timestamp,
        r: Result<IdentityCeremonyProgress, ManagerError>,
    ) -> bool {
        let subject = self.subject(capture, decodes, now);
        let damaged = first_disagreement(self.token, capture.profiles, decodes);
        if damaged is Some {
            &&& r matches Err(error)
            &&& error@ == disagreement(self.phase, damaged->0, decodes.at(damaged->0)->0)
            &&& after == before
        } else if before.identity_setup is None {
            &&& r matches Err(error)
            &&& error@ == ManagerErrorView::NoIdentityCeremony
            &&& after == before
        } else {
            let journal = before.identity_setup->0;
            let subjects = journal.subjects@.push(subject);
            if journal.phase != self.phase || !(journal.stage is AwaitingCapture) {
                &&& r matches Err(error)
                &&& error@ == misplaced(IdentityCeremonyAction::Reconnected, journal)
                &&& after == before
            } else if self.phase is ForeignAdoption && subject.fully_stamped() {
                exists|whole: StateFile|
                    {
                        &&& #[trigger] journaled(
                            before,
                            whole,
                            IdentitySetupStage::Finalizing,
                            subjects,
                        )
                        &&& if finalize_refusal(whole) is Some {
                            &&& r matches Err(error)
                            &&& error@ == finalize_refusal(whole)->0
                            &&& after.agrees(before)
                        } else {
                            &&& r == Ok::<IdentityCeremonyProgress, ManagerError>(
                                progress_with(
                                    self.phase,
                                    IdentitySetupStage::Finalizing,
                                    seq![subject],
                                ),
                            )
                            &&& finalized(whole, false, after)
                        }
                    }
            } else {
                &&& journaled(before, after, IdentitySetupStage::Stamping, subjects)
                &&& r == Ok::<IdentityCeremonyProgress, ManagerError>(
                    progress_of(after.identity_setup->0),
                )
            }
        }
    }

    /// Puts the captured mouse on record. `decodes` holds what the tail of
    /// each captured sensitivity image decodes to.
    pub fn record(
        self,
        manager: &mut DeviceManager,
        capture: ProfileCapture,
        decodes: ProfileMap<WatermarkDecode>,
        now: Timestamp,
    ) -> (r: Result<IdentityCeremonyProgress, ManagerError>)
        ensures
            final(manager).identity_cache == old(manager).identity_cache,
            self.records(old(manager).state, final(manager).state, capture, decodes, now, r),
    {
        let stamp_progress = match self.plan_stamps(&capture.profiles, &decodes) {
            Ok(plan) => plan,
            Err(error) => {
                return Err(error);
            },
        };
        let subject = IdentitySetupSubject {
            endpoint: self.endpoint,
            device_id: self.device_id,
            token: self.token,
            old_token: self.old_token,
            captured: Some(capture.into_evidence(now)),
            stamp_progress,
        };
        let mut journal = match &manager.state.identity_setup {
            Some(journal) => journal.clone(),
            None => {
                return Err(ManagerError::NoIdentityCeremony);
            },
        };
        let waiting: bool = match journal.stage {
            IdentitySetupStage::AwaitingCapture => journal.phase == self.phase,
            _ => false,
        };
        if !waiting {
            return Err(misplace(IdentityCeremonyAction::Reconnected, &journal));
        }
        let adoption: bool = match self.phase {
            IdentitySetupPhase::ForeignAdoption => true,
            _ => false,
        };
        let ghost before = manager.state;
        let ghost entry = subject;
        if adoption && subject.is_fully_stamped() {
            let mut alone: Vec<IdentitySetupSubject> = Vec::new();
            alone.push(subject.clone());
            let shown = IdentitySetupJournal {
                phase: self.phase,
                stage: IdentitySetupStage::Finalizing,
                subjects: alone,
            };
            assert(shown.subjects@ =~= seq![entry]);
            let progress = ceremony_progress_from_journal(&shown);
            let opened = manager.state.identity_setup.take();
            journal.subjects.push(subject);
            journal.stage = IdentitySetupStage::Finalizing;
            manager.state.identity_setup = Some(journal);
            let ghost whole = manager.state;
            assert(journaled(
                before,
                whole,
                IdentitySetupStage::Finalizing,
                before.identity_setup->0.subjects@.push(entry),
            ));
            match finalize_ceremony(&mut manager.state, false) {
                Ok(_) => Ok(progress),
                Err(error) => {
                    manager.state.identity_setup = opened;
                    Err(error)
                },
            }
        } else {
            journal.subjects.push(subject);
            journal.stage = IdentitySetupStage::Stamping;
            let progress = ceremony_progress_from_journal(&journal);
            manager.state.identity_setup = Some(journal);
            Ok(progress)
        }
    }
}

/// An intact marker is never overwritten: outside an adoption only an unmarked
/// or damaged mouse is accepted, and an adoption keeps the token it found,
/// which is nobody else's.
pub proof fn law_intact_markers_are_kept(
    state: StateFile,
    phase: IdentitySetupPhase,
    endpoint: DeviceEndpoint,
    decode: WatermarkDecode,
)
    requires
        eligibility(state, phase, endpoint, decode) is Ok,
    ensures
        !(phase is ForeignAdoption) ==> decode is Absent || decode is Malformed,
        decode matches WatermarkDecode::Valid(token) ==> {
            &&& eligibility(state, phase, endpoint, decode) == Ok::<
                Option<PhysicalId>,
                ManagerErrorView,
            >(Some(token))
            &&& !token.is_reserved()
            &&& !is_known(state.devices@, token)
        },
{
}

/// A profile counts as stamped from the start only where it carries the adopted
/// token, and every captured profile is in the plan.
pub proof fn law_plan_trusts_only_the_adopted_token(
    adopted: Option<PhysicalId>,
    captured: ProfileMap<RefreshedProfile>,
    decodes: ProfileMap<WatermarkDecode>,
    profile: ProfileId,
)
    ensures
        stamp_plan(adopted, captured, decodes).at(profile) is Some <==> captured.at(profile)
            is Some,
        stamp_plan(adopted, captured, decodes).at(profile) == Some(IdentityStampProgress::Stamped)
            ==> adopted is Some && decodes.at(profile) == Some(
            WatermarkDecode::Valid(adopted->0),
        ),
{
}

/// A mouse is presented exactly where the ceremony waits for one: the first
/// enrollment for two, every other ceremony for one. Only a USB endpoint can
/// show a mouse.
pub proof fn law_mice_are_presented_in_turn(
    manager: &DeviceManager,
    endpoint: DeviceEndpoint,
    target: Option<DeviceId>,
    r: Result<Reconnect, ManagerError>,
)
    requires
        call_ensures(DeviceManager::ceremony_reconnected, (manager, endpoint, target), r),
    ensures
        ({
            let waits = manager.state.identity_setup matches Some(journal) && journal.stage
                is AwaitingCapture && (journal.subjects@.len() == 0 || (journal.phase
                is InitialEnrollment && journal.subjects@.len() == 1));
            &&& r is Ok <==> waits && !(endpoint.transport is Ble)
            &&& r matches Ok(presented) ==> presented.phase
                == manager.state.identity_setup->0.phase && presented.endpoint == endpoint
                && presented.target == target
            &&& manager.state.identity_setup is None ==> (r matches Err(error)
                && error is NoIdentityCeremony)
            &&& manager.state.identity_setup is Some && !waits ==> (r matches Err(error)
                && error is InvalidCeremonyAction)
        }),
{
}

/// A mouse is admitted exactly where it carries no readable marker, or where it
/// is to be adopted and carries a token that is nobody's; a restore also needs
/// a stored mouse with a token. What is admitted names the endpoint, the
/// adopted token, and the mouse and token of a restore.
pub proof fn law_only_fitting_mice_are_admitted(
    presented: Reconnect,
    manager: &DeviceManager,
    decode: WatermarkDecode,
    r: Result<Admitted, ManagerError>,
)
    requires
        call_ensures(Reconnect::examine, (presented, manager, decode), r),
    ensures
        ({
            let state = manager.state;
            let token = decode->Valid_0;
            let zero = forall|i: int| 0 <= i < 16 ==> #[trigger] token.token[i] == 0;
            let carried = exists|key: Seq<char>| #[trigger] carries(state.devices, key, token);
            let aside = state.identity_setup is Some && sets_aside(state.identity_setup->0, token);
            let restores = presented.phase is Restore;
            let mouse = state.devices@[presented.target->0@];
            let unmarked = decode is Absent || decode is Malformed;
            let adoptable = decode is Valid && presented.phase is ForeignAdoption && !zero
                && !carried && !aside;
            let restorable = presented.target is Some && state.devices@.dom().contains(
                presented.target->0@,
            ) && mouse.identity.physical_id is Some;
            &&& r is Ok <==> (unmarked || adoptable) && (restores ==> restorable)
            &&& r matches Ok(admitted) ==> {
                &&& admitted.phase == presented.phase
                &&& admitted.endpoint == presented.endpoint
                &&& unmarked ==> admitted.token is None
                &&& !unmarked ==> admitted.token == Some(token)
                &&& restores ==> admitted.device_id == presented.target && admitted.old_token
                    == mouse.identity.physical_id
                &&& !restores ==> admitted.device_id is None && admitted.old_token is None
            }
            &&& decode is Valid && zero ==> (r matches Err(error) && error is ReservedPhysicalId)
            &&& decode is UnsupportedVersion ==> (r matches Err(error)
                && error is IntactIdentityMarker)
            &&& decode is Valid && !zero && presented.phase is InitialEnrollment ==> (
            r matches Err(error) && error is IntactIdentityMarker)
        }),
{
    let token = decode->Valid_0;
    let devices = manager.state.devices;
    assert forall|key: Seq<char>| #[trigger] carries(devices, key, token)
        == crate::discovery::resolution::owns(devices@, key, token) by {}
    assert forall|key: Seq<char>| #[trigger] crate::discovery::resolution::owns(
        devices@,
        key,
        token,
    ) == carries(devices, key, token) by {}
    assert(is_known(devices@, token) == (exists|key: Seq<char>| #[trigger]
        carries(devices, key, token)));
    if let Some(journal) = manager.state.identity_setup {
        assert(journal_reserves(journal, token) == sets_aside(journal, token));
    }
    assert(token.is_reserved() == (forall|i: int| 0 <= i < 16 ==> #[trigger] token.token[i] == 0));
}

/// An adoption speaks of marked mice only, and an association of no mouse with
/// a token of its own; every other ceremony can answer for any mouse.
pub proof fn law_ceremonies_answer_for_their_mice(
    presented: &Reconnect,
    decode: WatermarkDecode,
    r: bool,
)
    requires
        call_ensures(Reconnect::can_answer, (presented, decode), r),
    ensures
        presented.phase is ForeignAdoption ==> (r <==> decode is Valid || decode
            is UnsupportedVersion),
        presented.phase is InitialEnrollment || presented.phase is AddMouse || presented.phase
            is Restore ==> r,
        presented.phase is BleAssociation && !(decode is Valid) ==> r,
        presented.phase is BleAssociation ==> (decode matches WatermarkDecode::Valid(token) ==> (r
            <==> forall|i: int| 0 <= i < 16 ==> #[trigger] token.token[i] == 0)),
{
    if let WatermarkDecode::Valid(token) = decode {
        assert(token.is_reserved() == (forall|i: int|
            0 <= i < 16 ==> #[trigger] token.token[i] == 0));
    }
}

/// Some captured profile carries a marker that is neither absent nor that of
/// the adopted token.
pub open spec fn is_damaged(
    token: PhysicalId,
    capture: ProfileCapture,
    decodes: ProfileMap<WatermarkDecode>,
) -> bool {
    exists|profile: ProfileId|
        {
            &&& #[trigger] capture.profiles.at(profile) is Some
            &&& decodes.at(profile) matches Some(decode)
            &&& !(decode is Absent)
            &&& decode != WatermarkDecode::Valid(token)
        }
}

proof fn lemma_damaged(
    adopted: Option<PhysicalId>,
    capture: ProfileCapture,
    decodes: ProfileMap<WatermarkDecode>,
)
    ensures
        first_disagreement(adopted, capture.profiles, decodes) is Some <==> adopted is Some
            && is_damaged(adopted->0, capture, decodes),
{
    let first = first_disagreement(adopted, capture.profiles, decodes);
    if first is Some {
        assert(capture.profiles.at(first->0) is Some);
    }
    if adopted is Some && is_damaged(adopted->0, capture, decodes) {
        let profile = choose|profile: ProfileId|
            {
                &&& #[trigger] capture.profiles.at(profile) is Some
                &&& decodes.at(profile) matches Some(decode)
                &&& !(decode is Absent)
                &&& decode != WatermarkDecode::Valid(adopted->0)
            };
        match profile {
            ProfileId::One => {},
            ProfileId::Two => {},
            ProfileId::Three => {},
            ProfileId::Four => {},
            ProfileId::Five => {},
        }
    }
}

/// The subject is the admitted mouse with its capture. A captured profile is
/// stamped from the start exactly where it carries the adopted token.
pub open spec fn is_subject_of(
    subject: IdentitySetupSubject,
    admitted: Admitted,
    capture: ProfileCapture,
    decodes: ProfileMap<WatermarkDecode>,
    evidence: CapturedProfileImage,
    profile: ProfileId,
) -> bool {
    &&& subject.endpoint == admitted.endpoint
    &&& subject.device_id == admitted.device_id
    &&& subject.token == admitted.token
    &&& subject.old_token == admitted.old_token
    &&& subject.captured == Some(evidence)
    &&& capture.profiles.at(profile) is None ==> subject.stamp_progress.at(profile) is None
    &&& capture.profiles.at(profile) is Some ==> subject.stamp_progress.at(profile) == Some(
        if admitted.token is Some && decodes.at(profile) == Some(
            WatermarkDecode::Valid(admitted.token->0),
        ) {
            IdentityStampProgress::Stamped
        } else {
            IdentityStampProgress::Captured
        },
    )
}

/// A captured mouse is put on record behind the earlier ones, with its capture
/// as evidence, before anything is written; the ceremony then stamps it. A
/// mouse whose profiles contradict the adopted token, or a ceremony that does
/// not wait for it, is refused, and nothing changes.
pub proof fn law_captured_mice_are_put_on_record(
    admitted: Admitted,
    manager: &mut DeviceManager,
    capture: ProfileCapture,
    decodes: ProfileMap<WatermarkDecode>,
    now: Timestamp,
    evidence: CapturedProfileImage,
    profile: ProfileId,
    r: Result<IdentityCeremonyProgress, ManagerError>,
)
    requires
        call_ensures(Admitted::record, (admitted, manager, capture, decodes, now), r),
        call_ensures(ProfileCapture::into_evidence, (capture, now), evidence),
        admitted.phase is ForeignAdoption <==> admitted.token is Some,
    ensures
        ({
            let before = old(manager).state;
            let after = final(manager).state;
            let waits = before.identity_setup matches Some(journal) && journal.phase
                == admitted.phase && journal.stage is AwaitingCapture;
            let damaged = admitted.token is Some && is_damaged(
                admitted.token->0,
                capture,
                decodes,
            );
            let had = before.identity_setup->0.subjects@;
            &&& damaged || !waits ==> r is Err && after == before
            &&& waits && !damaged && !(admitted.phase is ForeignAdoption) ==> {
                &&& r is Ok
                &&& after.identity_setup matches Some(journal)
                &&& journal.phase == admitted.phase
                &&& journal.stage is Stamping
                &&& journal.subjects@.len() == had.len() + 1
                &&& journal.subjects@.drop_last() == had
                &&& is_subject_of(
                    journal.subjects@.last(),
                    admitted,
                    capture,
                    decodes,
                    evidence,
                    profile,
                )
                &&& after.devices == before.devices
                &&& after.identity_mode == before.identity_mode
                &&& after.selected_device == before.selected_device
                &&& after.next_device_number == before.next_device_number
            }
        }),
{
    let before = old(manager).state;
    lemma_damaged(admitted.token, capture, decodes);
    if let Some(journal) = before.identity_setup {
        let subject = admitted.subject(capture, decodes, now);
        assert(journal.subjects@.push(subject).drop_last() =~= journal.subjects@);
        assert(journal.subjects@.push(subject).last() == subject);
    }
}

/// An adopted mouse whose profiles all carry the adopted token is stored at
/// once, with its capture and its token, and the ceremony is over; otherwise it
/// is put on record and stamped where it lacks the token.
pub proof fn law_marked_mice_are_adopted_at_once(
    admitted: Admitted,
    manager: &mut DeviceManager,
    capture: ProfileCapture,
    decodes: ProfileMap<WatermarkDecode>,
    now: Timestamp,
    evidence: CapturedProfileImage,
    profile: ProfileId,
    r: Result<IdentityCeremonyProgress, ManagerError>,
)
    requires
        call_ensures(Admitted::record, (admitted, manager, capture, decodes, now), r),
        call_ensures(ProfileCapture::into_evidence, (capture, now), evidence),
        admitted.phase is ForeignAdoption,
        admitted.token is Some,
        !is_damaged(admitted.token->0, capture, decodes),
        old(manager).state.identity_setup is Some,
        old(manager).state.identity_setup->0.phase is ForeignAdoption,
        old(manager).state.identity_setup->0.stage is AwaitingCapture,
        old(manager).state.identity_setup->0.subjects@.len() == 0,
        0 < old(manager).state.next_device_number < u64::MAX,
    ensures
        ({
            let before = old(manager).state;
            let after = final(manager).state;
            let whole = (exists|p: ProfileId| #[trigger] capture.profiles.at(p) is Some) && forall|
                p: ProfileId,
            | #[trigger]
                capture.profiles.at(p) is Some ==> decodes.at(p) == Some(
                    WatermarkDecode::Valid(admitted.token->0),
                );
            let key = logical_key(before.next_device_number as nat);
            let stored = after.devices@[key];
            &&& r is Ok
            &&& whole ==> {
                &&& after.identity_setup is None
                &&& after.next_device_number == before.next_device_number + 1
                &&& after.devices@.dom().contains(key)
                &&& stored.identity.physical_id == admitted.token
                &&& stored.profile_metadata == evidence.profile_metadata
                &&& stored.profiles.at(profile) == evidence.profiles.at(profile)
                &&& stored.identity.endpoints.at(admitted.endpoint.transport) == Some(
                    admitted.endpoint,
                )
            }
            &&& !whole ==> {
                &&& after.identity_setup matches Some(journal)
                &&& journal.stage is Stamping
                &&& journal.subjects@.len() == 1
                &&& is_subject_of(
                    journal.subjects@[0],
                    admitted,
                    capture,
                    decodes,
                    evidence,
                    profile,
                )
                &&& after.devices == before.devices
            }
        }),
{
    let before = old(manager).state;
    let after = final(manager).state;
    let subject = admitted.subject(capture, decodes, now);
    lemma_damaged(admitted.token, capture, decodes);
    law_stamps_are_counted_per_profile(subject, profile);
    let subjects = before.identity_setup->0.subjects@.push(subject);
    assert(subjects[0] == subject);
    let whole = (exists|p: ProfileId| #[trigger] capture.profiles.at(p) is Some) && forall|
        p: ProfileId,
    | #[trigger]
        capture.profiles.at(p) is Some ==> decodes.at(p) == Some(
            WatermarkDecode::Valid(admitted.token->0),
        );
    assert forall|p: ProfileId| #[trigger]
        subject.stamp_progress.at(p) is Some == capture.profiles.at(p) is Some && (
        subject.stamp_progress.at(p) == Some(IdentityStampProgress::Captured) <==> (
        capture.profiles.at(p) is Some && decodes.at(p) != Some(
            WatermarkDecode::Valid(admitted.token->0),
        ))) by {
        match p {
            ProfileId::One => {},
            ProfileId::Two => {},
            ProfileId::Three => {},
            ProfileId::Four => {},
            ProfileId::Five => {},
        }
    }
    if whole {
        let p = choose|p: ProfileId| #[trigger] capture.profiles.at(p) is Some;
        assert(subject.stamp_progress.at(p) is Some);
        assert(subject.fully_stamped());
        let middle = choose|middle: StateFile|
            {
                &&& #[trigger] journaled(before, middle, IdentitySetupStage::Finalizing, subjects)
                &&& finalize_refusal(middle) is None ==> finalized(middle, false, after)
                &&& finalize_refusal(middle) is Some ==> r is Err
            };
        assert(finalize_refusal(middle) is None);
        assert(finalized(middle, false, after));
    } else {
        if subject.fully_stamped() {
            let p = choose|p: ProfileId| (#[trigger] subject.stamp_progress.at(p)) is Some;
            assert(capture.profiles.at(p) is Some);
            let q = choose|q: ProfileId| #[trigger]
                capture.profiles.at(q) is Some && decodes.at(q) != Some(
                    WatermarkDecode::Valid(admitted.token->0),
                );
            assert(subject.stamp_progress.at(q) == Some(IdentityStampProgress::Captured));
        }
    }
}

/// A mouse that is not admitted is told why in a word.
pub proof fn law_refused_mice_are_told_why(
    presented: Reconnect,
    manager: &DeviceManager,
    token: PhysicalId,
    r: Result<Admitted, ManagerError>,
    known: bool,
)
    requires
        call_ensures(
            Reconnect::examine,
            (presented, manager, WatermarkDecode::Valid(token)),
            r,
        ),
        call_ensures(is_known_token, (&manager.state.devices, token), known),
        exists|i: int| 0 <= i < 16 && #[trigger] token.token[i] != 0,
        r is Err,
    ensures
        ({
            let says = |word: Seq<char>|
                viewed(r) matches Err(
                    ManagerErrorView::IdentityCeremonyRefused { phase, reason, detail },
                ) && reason == word && phase == presented.phase;
            &&& presented.phase is ForeignAdoption && known ==> says("already-registered"@)
            &&& presented.phase is ForeignAdoption && !known ==> says("reserved-by-journal"@)
            &&& presented.phase is AddMouse && known ==> says("already-registered"@)
            &&& presented.phase is AddMouse && !known ==> says("adopt-instead"@)
            &&& presented.phase is Restore && known ==> says("already-registered"@)
            &&& presented.phase is Restore && !known ==> says("adopt-instead"@)
        }),
{
    let i = choose|i: int| 0 <= i < 16 && #[trigger] token.token[i] != 0;
    assert(!token.is_reserved());
}

} // verus!
