//! The ceremony actions that need no hardware.

use vstd::prelude::*;

use crate::ceremony::begin::{has_locator, lemma_reached_by, owns_locator, reached_by};
use crate::ceremony::finalize::{
    associated, finalize_ceremony, finalize_refusal, finalized, refusal,
    refused,
};
use crate::ceremony::progress::{ceremony_progress_from_journal, progress_at, progress_of};
use crate::device::{DeviceEndpoint, DeviceId, LocatorView};
use crate::error::{viewed, ManagerError, ManagerErrorView};
use crate::manager::{not_found, DeviceManager};
use crate::operation::{
    IdentityCeremonyAction, IdentityCeremonyKind, IdentityCeremonyProgress, IdentityCeremonyStage,
};
use crate::protocol::{ProfileId, TransportKind};
use crate::resources::evidence::nothing_changes;
use crate::slots::ProfileMap;
use crate::state::{
    law_stamps_are_counted_per_profile, DeviceState, IdentitySetupJournal, IdentitySetupPhase,
    IdentitySetupStage, IdentitySetupSubject, IdentityStampProgress, StateFile,
};
use crate::text::{lemma_lex_irreflexive, lemma_lex_transitive, lex_less};

verus! {

/// The action does not fit the ceremony.
pub open spec fn misplaced(
    action: IdentityCeremonyAction,
    journal: IdentitySetupJournal,
) -> ManagerErrorView {
    ManagerErrorView::InvalidCeremonyAction { action, phase: journal.phase, stage: journal.stage }
}

pub(crate) fn misplace(action: IdentityCeremonyAction, journal: &IdentitySetupJournal) -> (r:
    ManagerError)
    ensures
        r@ == misplaced(action, *journal),
{
    ManagerError::InvalidCeremonyAction { action, phase: journal.phase, stage: journal.stage }
}

/// Both mice of the first enrollment are captured and stamped, so that only
/// the migration choice is left.
pub open spec fn awaits_migration_choice(journal: IdentitySetupJournal) -> bool {
    &&& journal.phase is InitialEnrollment
    &&& journal.stage is Finalizing
    &&& journal.subjects@.len() == 2
    &&& journal.subjects@[0].fully_stamped()
    &&& journal.subjects@[1].fully_stamped()
}

/// Some profile of some mouse is stamped.
pub open spec fn is_irreversible(journal: IdentitySetupJournal) -> bool {
    exists|i: int|
        0 <= i < journal.subjects@.len() && (#[trigger] journal.subjects@[i]).any_stamped()
}

fn has_stamps(journal: &IdentitySetupJournal) -> (r: bool)
    ensures
        r == is_irreversible(*journal),
{
    let mut i: usize = 0;
    while i < journal.subjects.len()
        invariant
            i <= journal.subjects@.len(),
            forall|j: int| 0 <= j < i ==> !(#[trigger] journal.subjects@[j]).any_stamped(),
        decreases journal.subjects@.len() - i,
    {
        if journal.subjects[i].has_stamp() {
            assert(journal.subjects@[i as int].any_stamped());
            return true;
        }
        i = i + 1;
    }
    false
}

/// Another mouse than the target has an endpoint with the locator.
pub open spec fn takes(
    devices: Map<Seq<char>, DeviceState>,
    key: Seq<char>,
    target: Seq<char>,
    locator: LocatorView,
) -> bool {
    devices.dom().contains(key) && key != target && has_locator(
        devices[key].identity.endpoints,
        locator,
    )
}

/// The first mouse, in key order, that has the endpoint already.
pub open spec fn is_first_taker(
    devices: Map<Seq<char>, DeviceState>,
    key: Seq<char>,
    target: Seq<char>,
    locator: LocatorView,
) -> bool {
    &&& takes(devices, key, target, locator)
    &&& forall|other: Seq<char>| #[trigger]
        takes(devices, other, target, locator) ==> !lex_less(other, key)
}

fn find_taker(state: &StateFile, target: &DeviceId, endpoint: &DeviceEndpoint) -> (r: Option<
    DeviceId,
>)
    ensures
        match r {
            Some(key) => is_first_taker(
                state.devices@,
                key@,
                target@,
                endpoint.locator@,
            ),
            None => forall|key: Seq<char>|
                !#[trigger] takes(state.devices@, key, target@, endpoint.locator@),
        },
{
    let len: usize = state.devices.len();
    let mut i: usize = 0;
    while i < len
        invariant
            i <= len,
            len == state.devices.keys().len(),
            state.devices.listed(),
            forall|j: int|
                0 <= j < i ==> !takes(
                    state.devices@,
                    #[trigger] state.devices.keys()[j],
                    target@,
                    endpoint.locator@,
                ),
        decreases len - i,
    {
        let ghost key = state.devices.keys()[i as int];
        assert(state.devices@.dom().contains(key));
        if !state.devices.key_at(i).same_key(target) && owns_locator(
            &state.devices.state_at(i).identity.endpoints,
            &endpoint.locator,
        ) {
            proof {
                assert forall|other: Seq<char>| #[trigger]
                    takes(state.devices@, other, target@, endpoint.locator@) implies !lex_less(
                    other,
                    key,
                ) by {
                    let j = choose|j: int|
                        0 <= j < len && #[trigger] state.devices.keys()[j] == other;
                    if i < j {
                        if lex_less(other, key) {
                            lemma_lex_transitive(other, key, other);
                            lemma_lex_irreflexive(other);
                        }
                    } else {
                        lemma_lex_irreflexive(other);
                    }
                }
            }
            return Some(state.devices.key_at(i).clone());
        }
        i = i + 1;
    }
    proof {
        assert forall|key: Seq<char>|
            !#[trigger] takes(state.devices@, key, target@, endpoint.locator@) by {
            if state.devices@.dom().contains(key) {
                let j = choose|j: int| 0 <= j < len && #[trigger] state.devices.keys()[j] == key;
                assert(!takes(
                    state.devices@,
                    state.devices.keys()[j],
                    target@,
                    endpoint.locator@,
                ));
            }
        }
    }
    None
}

/// The journal of a BLE association that waits for its endpoint.
pub open spec fn awaits_association(journal: IdentitySetupJournal) -> bool {
    &&& journal.phase is BleAssociation
    &&& journal.stage is AwaitingCapture
    &&& journal.subjects@.len() == 0
}

/// Why an association is refused, as far as there is one answer.
pub open spec fn association_refusal(
    state: StateFile,
    endpoint: DeviceEndpoint,
    target: Option<DeviceId>,
) -> Option<ManagerErrorView> {
    if !(endpoint.transport is Ble) {
        Some(
            refusal(
                IdentitySetupPhase::BleAssociation,
                "requires-ble"@,
                "BLE association requires a BLE endpoint"@,
            ),
        )
    } else if target is None {
        Some(
            refusal(
                IdentitySetupPhase::BleAssociation,
                "requires-target"@,
                "BLE association requires the logical mouse to associate"@,
            ),
        )
    } else if state.identity_setup is None {
        Some(ManagerErrorView::NoIdentityCeremony)
    } else if !awaits_association(state.identity_setup->0) {
        Some(misplaced(IdentityCeremonyAction::Associate, state.identity_setup->0))
    } else {
        None
    }
}

/// The endpoint belongs to the mouse with this key already.
pub open spec fn taken_by(key: Seq<char>) -> ManagerErrorView {
    refusal(
        IdentitySetupPhase::BleAssociation,
        "endpoint-taken"@,
        "BLE endpoint already belongs to "@ + key,
    )
}

impl DeviceManager {
    /// Associates a presented BLE endpoint with the target mouse, in one
    /// atomic step without hardware writes. BLE can never show a watermark;
    /// the platform id is kept as the locator of an explicit association.
    pub fn ceremony_associate(
        &mut self,
        endpoint: DeviceEndpoint,
        target: Option<DeviceId>,
    ) -> (r: Result<IdentityCeremonyProgress, ManagerError>)
        ensures
            final(self).identity_cache == old(self).identity_cache,
            ({
                let before = old(self).state;
                let after = final(self).state;
                let refused = association_refusal(before, endpoint, target);
                if refused is Some {
                    &&& r matches Err(error)
                    &&& error@ == refused->0
                    &&& after.agrees(before)
                } else {
                    let key = target->0@;
                    if exists|other: Seq<char>|
                        #[trigger] takes(before.devices@, other, key, endpoint.locator@) {
                        &&& r matches Err(error)
                        &&& exists|other: Seq<char>|
                            #[trigger] is_first_taker(
                                before.devices@,
                                other,
                                key,
                                endpoint.locator@,
                            ) && error@ == taken_by(other)
                        &&& after.agrees(before)
                    } else if !before.devices@.dom().contains(key) {
                        &&& r matches Err(error)
                        &&& error@ == not_found(key)
                        &&& after.agrees(before)
                    } else {
                        &&& r == Ok::<IdentityCeremonyProgress, ManagerError>(
                            IdentityCeremonyProgress {
                                kind: IdentityCeremonyKind::BleAssociation,
                                stage: IdentityCeremonyStage::Complete,
                                step: Some(1u8),
                                total_steps: Some(1u8),
                                identity: target,
                                physical_id: None,
                                endpoint: Some(endpoint),
                            },
                        )
                        &&& after.devices@ == before.devices@.insert(
                            key,
                            associated(before.devices@[key], endpoint),
                        )
                        &&& after.identity_setup is None
                        &&& after.next_device_number == before.next_device_number
                        &&& after.selected_device == before.selected_device
                        &&& after.identity_mode == before.identity_mode
                    }
                }
            }),
    {
        match endpoint.transport {
            TransportKind::Ble => {},
            _ => {
                return Err(
                    refused(
                        IdentitySetupPhase::BleAssociation,
                        "requires-ble",
                        "BLE association requires a BLE endpoint",
                    ),
                );
            },
        }
        let device_id = match &target {
            Some(id) => id.clone(),
            None => {
                return Err(
                    refused(
                        IdentitySetupPhase::BleAssociation,
                        "requires-target",
                        "BLE association requires the logical mouse to associate",
                    ),
                );
            },
        };
        let waiting: bool = match &self.state.identity_setup {
            None => {
                return Err(ManagerError::NoIdentityCeremony);
            },
            Some(journal) => match (journal.phase, journal.stage) {
                (IdentitySetupPhase::BleAssociation, IdentitySetupStage::AwaitingCapture) =>
                    journal.subjects.len() == 0,
                _ => false,
            },
        };
        if !waiting {
            if let Some(journal) = &self.state.identity_setup {
                return Err(misplace(IdentityCeremonyAction::Associate, journal));
            }
        }
        if let Some(other) = find_taker(&self.state, &device_id, &endpoint) {
            let mut detail = "BLE endpoint already belongs to ".to_owned();
            detail.append(other.as_str());
            assert(takes(self.state.devices@, other@, device_id@, endpoint.locator@));
            return Err(
                refused(IdentitySetupPhase::BleAssociation, "endpoint-taken", detail.as_str()),
            );
        }
        let progress = IdentityCeremonyProgress {
            kind: IdentityCeremonyKind::BleAssociation,
            stage: IdentityCeremonyStage::Complete,
            step: Some(1u8),
            total_steps: Some(1u8),
            identity: target,
            physical_id: None,
            endpoint: Some(endpoint.clone()),
        };
        let opened = self.state.identity_setup.take();
        let mut subjects: Vec<IdentitySetupSubject> = Vec::new();
        subjects.push(
            IdentitySetupSubject {
                endpoint,
                device_id: Some(device_id),
                token: None,
                old_token: None,
                captured: None,
                stamp_progress: ProfileMap::new(),
            },
        );
        self.state.identity_setup = Some(
            IdentitySetupJournal {
                phase: IdentitySetupPhase::BleAssociation,
                stage: IdentitySetupStage::Finalizing,
                subjects,
            },
        );
        match finalize_ceremony(&mut self.state, false) {
            Ok(_) => Ok(progress),
            Err(error) => {
                self.state.identity_setup = opened;
                Err(error)
            },
        }
    }

    /// Applies the final migration choice of the first enrollment, which
    /// finishes it. At any other time the choice is refused; it is never
    /// remembered for later.
    pub fn ceremony_finalize_migration(&mut self, action: IdentityCeremonyAction) -> (r: Result<
        IdentityCeremonyProgress,
        ManagerError,
    >)
        ensures
            final(self).identity_cache == old(self).identity_cache,
            ({
                let before = old(self).state;
                let after = final(self).state;
                match before.identity_setup {
                    None => {
                        &&& r matches Err(error)
                        &&& error@ == ManagerErrorView::NoIdentityCeremony
                        &&& after == before
                    },
                    Some(journal) => if !awaits_migration_choice(journal) {
                        &&& r matches Err(error)
                        &&& error@ == misplaced(action, journal)
                        &&& after == before
                    } else if finalize_refusal(before) is Some {
                        &&& r matches Err(error)
                        &&& error@ == finalize_refusal(before)->0
                        &&& after == before
                    } else {
                        &&& r == Ok::<IdentityCeremonyProgress, ManagerError>(
                            progress_at(progress_of(journal), IdentityCeremonyStage::Complete),
                        )
                        &&& finalized(before, action is SkipMigration, after)
                    },
                }
            }),
    {
        let mut progress = match &self.state.identity_setup {
            None => {
                return Err(ManagerError::NoIdentityCeremony);
            },
            Some(journal) => {
                let placed: bool = match (journal.phase, journal.stage) {
                    (IdentitySetupPhase::InitialEnrollment, IdentitySetupStage::Finalizing) => true,
                    _ => false,
                };
                if !placed || journal.subjects.len() != 2 || !journal.subjects[0].is_fully_stamped()
                    || !journal.subjects[1].is_fully_stamped() {
                    return Err(misplace(action, journal));
                }
                ceremony_progress_from_journal(journal)
            },
        };
        let skip: bool = match action {
            IdentityCeremonyAction::SkipMigration => true,
            _ => false,
        };
        match finalize_ceremony(&mut self.state, skip) {
            Ok(_) => {
                progress.stage = IdentityCeremonyStage::Complete;
                Ok(progress)
            },
            Err(error) => Err(error),
        }
    }

    /// Cancels the running ceremony. Once a profile is stamped the token is
    /// irreversible, and the ceremony has to be completed instead.
    pub fn ceremony_cancel(&mut self) -> (r: Result<IdentityCeremonyProgress, ManagerError>)
        ensures
            final(self).identity_cache == old(self).identity_cache,
            ({
                let before = old(self).state;
                let after = final(self).state;
                match before.identity_setup {
                    None => {
                        &&& r matches Err(error)
                        &&& error@ == ManagerErrorView::NoIdentityCeremony
                        &&& after == before
                    },
                    Some(journal) => if is_irreversible(journal) {
                        &&& r matches Err(error)
                        &&& error@ == refusal(
                            journal.phase,
                            "stamps-irreversible"@,
                            "profiles have already been stamped; complete or resume the ceremony instead of cancelling"@,
                        )
                        &&& after == before
                    } else {
                        &&& r == Ok::<IdentityCeremonyProgress, ManagerError>(
                            progress_at(progress_of(journal), IdentityCeremonyStage::Cancelled),
                        )
                        &&& after == (StateFile { identity_setup: None, ..before })
                    },
                }
            }),
    {
        let mut progress = match &self.state.identity_setup {
            None => {
                return Err(ManagerError::NoIdentityCeremony);
            },
            Some(journal) => {
                if has_stamps(journal) {
                    return Err(
                        refused(
                            journal.phase,
                            "stamps-irreversible",
                            "profiles have already been stamped; complete or resume the ceremony instead of cancelling",
                        ),
                    );
                }
                ceremony_progress_from_journal(journal)
            },
        };
        progress.stage = IdentityCeremonyStage::Cancelled;
        self.state.identity_setup = None;
        Ok(progress)
    }
}

/// A BLE endpoint is associated exactly where it is one, the ceremony waits for
/// it, the target is stored, and no other mouse has its locator. The target
/// then has that endpoint, the ceremony is over, and nothing else changes; a
/// refusal changes nothing.
pub proof fn law_associations_add_one_endpoint(
    manager: &mut DeviceManager,
    endpoint: DeviceEndpoint,
    target: Option<DeviceId>,
    r: Result<IdentityCeremonyProgress, ManagerError>,
    other: Seq<char>,
    transport: TransportKind,
)
    requires
        call_ensures(DeviceManager::ceremony_associate, (manager, endpoint, target), r),
    ensures
        ({
            let before = old(manager).state;
            let after = final(manager).state;
            let key = target->0@;
            let waits = before.identity_setup matches Some(journal) && journal.phase
                is BleAssociation && journal.stage is AwaitingCapture && journal.subjects@.len()
                == 0;
            let taken = exists|k: Seq<char>|
                k != key && #[trigger] before.devices@.dom().contains(k) && reached_by(
                    before.devices@[k],
                    endpoint.locator@,
                );
            let had = before.devices@[key];
            let has = after.devices@[key];
            &&& r is Ok <==> endpoint.transport is Ble && target is Some && waits
                && before.devices@.dom().contains(key) && !taken
            &&& r is Err ==> nothing_changes(before, after)
            &&& r matches Ok(progress) ==> {
                &&& after.identity_setup is None
                &&& after.identity_mode == before.identity_mode
                &&& after.selected_device == before.selected_device
                &&& after.next_device_number == before.next_device_number
                &&& after.devices@.dom().contains(key)
                &&& other != key ==> after.devices@.dom().contains(other)
                    == before.devices@.dom().contains(other) && after.devices@[other]
                    == before.devices@[other]
                &&& has.identity.endpoints.ble == Some(endpoint)
                &&& has.identity.endpoints.wired == had.identity.endpoints.wired
                &&& has.identity.endpoints.receiver == had.identity.endpoints.receiver
                &&& has.identity.physical_id == had.identity.physical_id
                &&& has.identity.display_name == had.identity.display_name
                &&& has.identity.preferred_transport == had.identity.preferred_transport
                &&& has.identity.id == had.identity.id
                &&& has.profile_metadata == had.profile_metadata
                &&& has.profiles == had.profiles
                &&& has.profile_names == had.profile_names
                &&& progress.kind is BleAssociation
                &&& progress.stage is Complete
                &&& progress.identity == target
                &&& progress.endpoint == Some(endpoint)
                &&& progress.physical_id is None
                &&& progress.step == Some(1u8) && progress.total_steps == Some(1u8)
            }
        }),
{
    let before = old(manager).state;
    let key = target->0@;
    assert forall|k: Seq<char>| #[trigger] takes(before.devices@, k, key, endpoint.locator@) == (
    before.devices@.dom().contains(k) && k != key && reached_by(
        before.devices@[k],
        endpoint.locator@,
    )) by {
        lemma_reached_by(before.devices@[k], endpoint.locator@);
    }
    if exists|k: Seq<char>|
        k != key && #[trigger] before.devices@.dom().contains(k) && reached_by(
            before.devices@[k],
            endpoint.locator@,
        ) {
        let k = choose|k: Seq<char>|
            k != key && #[trigger] before.devices@.dom().contains(k) && reached_by(
                before.devices@[k],
                endpoint.locator@,
            );
        assert(takes(before.devices@, k, key, endpoint.locator@));
    }
}

/// Profiles of the mouse were captured, and every one of them is stamped.
pub open spec fn all_stamped(subject: IdentitySetupSubject) -> bool {
    &&& exists|profile: ProfileId| (#[trigger] subject.stamp_progress.at(profile)) is Some
    &&& forall|profile: ProfileId|
        (#[trigger] subject.stamp_progress.at(profile)) != Some(IdentityStampProgress::Captured)
}

/// The migration choice is taken only where it is due: in a first enrollment
/// that has both its mice, fully stamped, and that waits to be finalized. The
/// enrollment is then finalized with that choice; whatever is refused changes
/// nothing.
pub proof fn law_migration_choices_finalize(
    manager: &mut DeviceManager,
    action: IdentityCeremonyAction,
    r: Result<IdentityCeremonyProgress, ManagerError>,
)
    requires
        call_ensures(DeviceManager::ceremony_finalize_migration, (manager, action), r),
    ensures
        ({
            let before = old(manager).state;
            let after = final(manager).state;
            let due = before.identity_setup matches Some(journal) && journal.phase
                is InitialEnrollment && journal.stage is Finalizing && journal.subjects@.len() == 2
                && all_stamped(journal.subjects@[0]) && all_stamped(journal.subjects@[1]);
            let room = before.next_device_number > 0 && before.next_device_number + 2 <= u64::MAX;
            &&& r is Ok <==> due && room
            &&& r is Err ==> after == before
            &&& r is Ok ==> finalized(before, action is SkipMigration, after)
            &&& r matches Ok(progress) ==> progress.stage is Complete && progress.kind
                is InitialEnrollment
            &&& before.identity_setup is None ==> (r matches Err(error)
                && error is NoIdentityCeremony)
            &&& before.identity_setup is Some && !due ==> (r matches Err(error)
                && error is InvalidCeremonyAction)
        }),
{
    if let Some(journal) = old(manager).state.identity_setup {
        if journal.subjects@.len() == 2 {
            law_stamps_are_counted_per_profile(journal.subjects@[0], ProfileId::One);
            law_stamps_are_counted_per_profile(journal.subjects@[1], ProfileId::One);
        }
    }
}

/// A ceremony is cancelled exactly where no profile of any of its mice is
/// stamped; it is then gone and nothing else changes.
pub proof fn law_stamped_ceremonies_cannot_be_cancelled(
    manager: &mut DeviceManager,
    r: Result<IdentityCeremonyProgress, ManagerError>,
)
    requires
        call_ensures(DeviceManager::ceremony_cancel, (manager,), r),
    ensures
        ({
            let before = old(manager).state;
            let after = final(manager).state;
            let stamped = exists|i: int, profile: ProfileId|
                0 <= i < before.identity_setup->0.subjects@.len() && ((
                #[trigger] before.identity_setup->0.subjects@[i].stamp_progress.at(
                    profile,
                )) matches Some(mark) && mark is Stamped);
            &&& r is Ok <==> before.identity_setup is Some && !stamped
            &&& r is Err ==> after == before
            &&& r is Ok ==> after.identity_setup is None && after.devices == before.devices
                && after.identity_mode == before.identity_mode && after.selected_device
                == before.selected_device && after.next_device_number == before.next_device_number
            &&& r matches Ok(progress) ==> progress.stage is Cancelled
        }),
{
    if let Some(journal) = old(manager).state.identity_setup {
        assert forall|i: int| 0 <= i < journal.subjects@.len() implies (
        #[trigger] journal.subjects@[i]).any_stamped() == (exists|profile: ProfileId|
            (#[trigger] journal.subjects@[i].stamp_progress.at(profile)) matches Some(mark) && mark
                is Stamped) by {
            lemma_any_stamped(journal.subjects@[i]);
        }
        if exists|i: int, profile: ProfileId|
            0 <= i < journal.subjects@.len() && ((
            #[trigger] journal.subjects@[i].stamp_progress.at(profile)) matches Some(mark) && mark
                is Stamped) {
            let (i, profile) = choose|i: int, profile: ProfileId|
                0 <= i < journal.subjects@.len() && ((
                #[trigger] journal.subjects@[i].stamp_progress.at(profile)) matches Some(mark)
                    && mark is Stamped);
            assert(journal.subjects@[i].any_stamped());
        }
        if is_irreversible(journal) {
            let i = choose|i: int|
                0 <= i < journal.subjects@.len() && (
                #[trigger] journal.subjects@[i]).any_stamped();
            let profile = choose|profile: ProfileId|
                (#[trigger] journal.subjects@[i].stamp_progress.at(profile)) matches Some(mark)
                    && mark is Stamped;
            assert(journal.subjects@[i].stamp_progress.at(profile) is Some);
        }
    }
}

proof fn lemma_any_stamped(subject: IdentitySetupSubject)
    ensures
        subject.any_stamped() == (exists|profile: ProfileId|
            (#[trigger] subject.stamp_progress.at(profile)) matches Some(mark) && mark is Stamped),
{
    let marks = subject.stamp_progress;
    if subject.any_stamped() {
        assert(marks.at(ProfileId::One) == marks.one);
        assert(marks.at(ProfileId::Two) == marks.two);
        assert(marks.at(ProfileId::Three) == marks.three);
        assert(marks.at(ProfileId::Four) == marks.four);
        assert(marks.at(ProfileId::Five) == marks.five);
    }
}

/// A refused association or cancellation says why in a word.
pub proof fn law_refused_steps_say_why(
    associating: &mut DeviceManager,
    cancelling: &mut DeviceManager,
    endpoint: DeviceEndpoint,
    target: Option<DeviceId>,
    associated: Result<IdentityCeremonyProgress, ManagerError>,
    cancelled: Result<IdentityCeremonyProgress, ManagerError>,
)
    requires
        call_ensures(
            DeviceManager::ceremony_associate,
            (associating, endpoint, target),
            associated,
        ),
        call_ensures(DeviceManager::ceremony_cancel, (cancelling,), cancelled),
        associated is Err,
        cancelled is Err,
    ensures
        ({
            let state = old(associating).state;
            let says = |word: Seq<char>|
                viewed(associated) matches Err(
                    ManagerErrorView::IdentityCeremonyRefused { phase, reason, detail },
                ) && reason == word;
            let waits = state.identity_setup matches Some(journal) && journal.phase
                is BleAssociation && journal.stage is AwaitingCapture && journal.subjects@.len()
                == 0;
            let ble = endpoint.transport is Ble;
            &&& !ble ==> says("requires-ble"@)
            &&& ble && target is None ==> says("requires-target"@)
            &&& ble && target is Some && state.identity_setup is None ==> (
            associated matches Err(error) && error is NoIdentityCeremony)
            &&& ble && target is Some && state.identity_setup is Some && !waits ==> (
            associated matches Err(error) && error is InvalidCeremonyAction)
            &&& ble && target is Some && waits && state.devices@.dom().contains(target->0@) ==> says(
                "endpoint-taken"@,
            )
        }),
        old(cancelling).state.identity_setup is None ==> (cancelled matches Err(error)
            && error is NoIdentityCeremony),
        old(cancelling).state.identity_setup is Some ==> (viewed(cancelled) matches Err(
            ManagerErrorView::IdentityCeremonyRefused { phase, reason, detail },
        ) && reason == "stamps-irreversible"@),
{
}

} // verus!
