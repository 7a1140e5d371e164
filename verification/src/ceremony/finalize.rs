//! Turning a completed ceremony into durable devices.

use vstd::prelude::*;

use crate::device::{
    law_device_id_injective, lemma_logical_number, logical_key, logical_number, DeviceEndpoint,
    DeviceId, DeviceIdentity,
};
use crate::devices::DeviceMap;
use crate::error::{viewed, ManagerError, ManagerErrorView};
use crate::exact::SameValue;
use crate::protocol::{PhysicalId, ProfileId, TransportKind};
use crate::slots::{ProfileMap, TransportMap};
use crate::state::{
    allocation_error, CapturedProfileImage, DeviceState, IdentityMode, IdentitySetupJournal,
    IdentitySetupPhase, IdentitySetupSubject, ProfileState, StateFile,
};
use crate::text::{
    decimal, decimal_text, is_digit, lemma_decimal_round_trip, lemma_trim_fixed, lex_less, nonblank,
    text_of,
};

verus! {

/// The old single-mouse evidence agrees with a capture in every part.
pub open spec fn captures_match(legacy: DeviceState, captured: CapturedProfileImage) -> bool {
    legacy.profile_metadata == captured.profile_metadata && legacy.profiles == captured.profiles
}

/// Tells whether the old single-mouse evidence agrees with a capture exactly.
/// Matching is deliberately not weighted.
pub fn legacy_capture_matches(legacy: &DeviceState, captured: &CapturedProfileImage) -> (r: bool)
    ensures
        r == captures_match(*legacy, *captured),
{
    legacy.profile_metadata.same(&captured.profile_metadata) && legacy.profiles.same(
        &captured.profiles,
    )
}

/// A device with the evidence of a captured image in place of its own.
pub open spec fn with_image(
    device: DeviceState,
    captured: Option<CapturedProfileImage>,
) -> DeviceState {
    match captured {
        Some(image) => DeviceState {
            profile_metadata: image.profile_metadata,
            profiles: image.profiles,
            ..device
        },
        None => device,
    }
}

/// Applies a captured profile image to a fresh or restored device.
pub fn apply_captured_image(
    device_state: &mut DeviceState,
    captured: Option<&CapturedProfileImage>,
)
    ensures
        *final(device_state) == with_image(
            *old(device_state),
            match captured {
                Some(image) => Some(*image),
                None => None,
            },
        ),
{
    if let Some(image) = captured {
        device_state.profile_metadata = image.profile_metadata;
        device_state.profiles = image.profiles;
    }
}

/// A fresh logical mouse made from a presented one: a key, a name, the token,
/// the one endpoint that was presented, and the captured evidence.
pub open spec fn is_enrolled(
    device: DeviceState,
    id: Seq<char>,
    name: Option<Seq<char>>,
    subject: IdentitySetupSubject,
) -> bool {
    &&& device.identity.id@ == id
    &&& text_of(device.identity.display_name) == name
    &&& device.identity.endpoints == TransportMap::<DeviceEndpoint>::empty().with(
        subject.endpoint.transport,
        Some(subject.endpoint),
    )
    &&& device.identity.preferred_transport is None
    &&& device.identity.physical_id == subject.token
    &&& device == with_image(DeviceState::fresh(device.identity), subject.captured)
}

fn enroll(id: DeviceId, name: Option<String>, subject: &IdentitySetupSubject) -> (r: DeviceState)
    ensures
        is_enrolled(r, id@, nonblank(text_of(name)), *subject),
        r.identity.id == id,
{
    let mut identity = DeviceIdentity::new(id, name);
    identity.physical_id = subject.token;
    identity.endpoints.insert(subject.endpoint.transport, subject.endpoint.clone());
    let mut device = DeviceState::new(identity);
    apply_captured_image(&mut device, subject.captured.as_ref());
    device
}

/// The mouse that the fuzzy single-mouse mode knows: the first one.
pub open spec fn legacy_device(devices: DeviceMap) -> Option<DeviceState> {
    if devices.keys().len() > 0 {
        Some(devices@[devices.keys()[0]])
    } else {
        None
    }
}

/// A subject's capture agrees with the old single-mouse evidence.
pub open spec fn subject_matches(legacy: DeviceState, subject: IdentitySetupSubject) -> bool {
    subject.captured matches Some(image) && captures_match(legacy, image)
}

/// Exactly one subject agrees with the old evidence: the one at `index`.
pub open spec fn is_unique_match(
    legacy: DeviceState,
    subjects: Seq<IdentitySetupSubject>,
    index: int,
) -> bool {
    &&& 0 <= index < subjects.len()
    &&& subject_matches(legacy, subjects[index])
    &&& forall|other: int|
        0 <= other < subjects.len() && other != index ==> !subject_matches(
            legacy,
            #[trigger] subjects[other],
        )
}

pub open spec fn mouse_name(index: int) -> Seq<char> {
    "Mouse "@ + decimal((index + 1) as nat)
}

/// The name an enrolled mouse gets: the old name on a unique exact match that
/// was not declined, else `Mouse N`.
pub open spec fn enrolled_name(
    legacy: Option<DeviceState>,
    subjects: Seq<IdentitySetupSubject>,
    skip_migration: bool,
    index: int,
) -> Option<Seq<char>> {
    if !skip_migration && legacy is Some && is_unique_match(legacy->0, subjects, index) {
        nonblank(text_of(legacy->0.identity.display_name))
    } else {
        Some(mouse_name(index))
    }
}

/// The key of the subject at `index` when numbering starts at `first`.
pub open spec fn enrolled_key(first: u64, index: int) -> Seq<char> {
    logical_key((first + index) as nat)
}

/// The number of keys that can still be handed out suffices.
pub open spec fn numbers_suffice(first: u64, count: nat) -> bool {
    count == 0 || (0 < first && first + count <= u64::MAX)
}

/// The devices after both mice of the first enrollment were taken over.
pub open spec fn enrolled_devices(
    before: StateFile,
    subjects: Seq<IdentitySetupSubject>,
    skip_migration: bool,
    after: Map<Seq<char>, DeviceState>,
) -> bool {
    let first = before.next_device_number;
    &&& forall|index: int|
        #![trigger enrolled_key(first, index)]
        0 <= index < subjects.len() ==> {
            &&& after.dom().contains(enrolled_key(first, index))
            &&& is_enrolled(
                after[enrolled_key(first, index)],
                enrolled_key(first, index),
                enrolled_name(
                    legacy_device(before.devices),
                    subjects,
                    skip_migration,
                    index,
                ),
                subjects[index],
            )
        }
    &&& forall|key: Seq<char>| #[trigger]
        after.dom().contains(key) ==> exists|index: int|
            0 <= index < subjects.len() && key == #[trigger] enrolled_key(first, index)
}

proof fn lemma_mouse_name(index: int)
    requires
        index >= 0,
    ensures
        nonblank(Some(mouse_name(index))) == Some(mouse_name(index)),
{
    reveal_strlit("Mouse ");
    let digits = decimal((index + 1) as nat);
    lemma_decimal_round_trip((index + 1) as nat);
    let name = mouse_name(index);
    assert(name[0] == 'M');
    assert(name[name.len() - 1] == digits[digits.len() - 1]);
    assert(is_digit(digits[digits.len() - 1]));
    lemma_trim_fixed(name);
}

/// Finds the one subject whose capture agrees with the old evidence.
fn find_unique_match(legacy: &DeviceState, subjects: &Vec<IdentitySetupSubject>) -> (r: Option<
    usize,
>)
    ensures
        match r {
            Some(index) => is_unique_match(*legacy, subjects@, index as int),
            None => forall|index: int| !#[trigger] is_unique_match(*legacy, subjects@, index),
        },
{
    let mut found: Option<usize> = None;
    let mut several: bool = false;
    let ghost mut second: int = 0;
    let mut i: usize = 0;
    while i < subjects.len()
        invariant
            i <= subjects@.len(),
            match found {
                None => !several && forall|j: int|
                    0 <= j < i ==> !subject_matches(*legacy, #[trigger] subjects@[j]),
                Some(at) => {
                    &&& at < i
                    &&& subject_matches(*legacy, subjects@[at as int])
                    &&& several ==> at < second < i && subject_matches(*legacy, subjects@[second])
                    &&& !several ==> forall|j: int|
                        0 <= j < i && j != at ==> !subject_matches(
                            *legacy,
                            #[trigger] subjects@[j],
                        )
                },
            },
        decreases subjects@.len() - i,
    {
        let matched: bool = match &subjects[i].captured {
            Some(image) => legacy_capture_matches(legacy, image),
            None => false,
        };
        if matched {
            if found.is_none() {
                found = Some(i);
            } else {
                several = true;
                proof {
                    second = i as int;
                }
            }
        }
        i = i + 1;
    }
    if several {
        proof {
            let at = found->0 as int;
            assert forall|index: int| !#[trigger] is_unique_match(*legacy, subjects@, index) by {
                if index == at {
                    assert(subject_matches(*legacy, subjects@[second]));
                } else {
                    assert(subject_matches(*legacy, subjects@[at]));
                }
            }
        }
        None
    } else {
        found
    }
}

/// Completes the first enrollment: the fuzzy mouse makes way for fresh,
/// physically identified mice, and the installation becomes persistent. Where
/// the numbers do not suffice for all of them, nothing changes.
pub fn finalize_initial_enrollment(
    state: &mut StateFile,
    journal: &IdentitySetupJournal,
    skip_migration: bool,
) -> (r: Result<(), ManagerError>)
    ensures
        match r {
            Ok(_) => {
                &&& final(state).identity_setup == old(state).identity_setup
                &&& numbers_suffice(old(state).next_device_number, journal.subjects@.len())
                &&& final(state).next_device_number == old(state).next_device_number
                    + journal.subjects@.len()
                &&& enrolled_devices(
                    *old(state),
                    journal.subjects@,
                    skip_migration,
                    final(state).devices@,
                )
                &&& final(state).identity_mode is Persistent
                &&& match final(state).selected_device {
                    Some(id) => journal.subjects@.len() > 0 && id@ == enrolled_key(
                        old(state).next_device_number,
                        0,
                    ),
                    None => journal.subjects@.len() == 0,
                }
            },
            Err(error) => {
                &&& !numbers_suffice(old(state).next_device_number, journal.subjects@.len())
                &&& error@ == ManagerErrorView::State(
                    allocation_error(
                        if old(state).next_device_number == 0 {
                            0
                        } else {
                            u64::MAX
                        },
                    ),
                )
                &&& *final(state) == *old(state)
            },
        },
{
    let first: u64 = state.next_device_number;
    let ghost subjects = journal.subjects@;
    let legacy: Option<DeviceState> = if state.devices.len() > 0 {
        Some(state.devices.state_at(0).clone())
    } else {
        None
    };
    assert(legacy == legacy_device(old(state).devices));
    let target: Option<usize> = if skip_migration {
        None
    } else {
        match &legacy {
            Some(old_mouse) => find_unique_match(old_mouse, &journal.subjects),
            None => None,
        }
    };
    // Every key is handed out before anything else changes.
    let count: usize = journal.subjects.len();
    let mut ids: Vec<DeviceId> = Vec::new();
    while ids.len() < count
        invariant
            count == subjects.len(),
            subjects == journal.subjects@,
            first == old(state).next_device_number,
            ids@.len() <= count,
            ids@.len() > 0 ==> 0 < first,
            first + ids@.len() <= u64::MAX,
            *state == (StateFile {
                next_device_number: (first + ids@.len()) as u64,
                ..*old(state)
            }),
            forall|i: int|
                0 <= i < ids@.len() ==> (#[trigger] ids@[i])@ == enrolled_key(first, i),
        decreases count - ids@.len(),
    {
        match state.allocate_device_id() {
            Ok(id) => {
                ids.push(id);
            },
            Err(error) => {
                state.next_device_number = first;
                return Err(ManagerError::State(error));
            },
        }
    }
    state.devices.clear();
    let mut selected: Option<DeviceId> = None;
    let mut index: usize = 0;
    while index < count
        invariant
            index <= count,
            count == subjects.len(),
            subjects == journal.subjects@,
            ids@.len() == count,
            first == old(state).next_device_number,
            first + count <= u64::MAX,
            legacy == legacy_device(old(state).devices),
            state.next_device_number == first + count,
            state.identity_setup == old(state).identity_setup,
            match target {
                Some(at) => !skip_migration && legacy is Some && is_unique_match(
                    legacy->0,
                    subjects,
                    at as int,
                ),
                None => skip_migration || legacy is None || forall|i: int|
                    !#[trigger] is_unique_match(legacy->0, subjects, i),
            },
            forall|i: int| 0 <= i < count ==> (#[trigger] ids@[i])@ == enrolled_key(first, i),
            match selected {
                Some(id) => index > 0 && id@ == enrolled_key(first, 0),
                None => index == 0,
            },
            forall|i: int|
                #![trigger enrolled_key(first, i)]
                0 <= i < index ==> {
                    &&& state.devices@.dom().contains(enrolled_key(first, i))
                    &&& is_enrolled(
                        state.devices@[enrolled_key(first, i)],
                        enrolled_key(first, i),
                        enrolled_name(legacy, subjects, skip_migration, i),
                        subjects[i],
                    )
                },
            forall|key: Seq<char>| #[trigger]
                state.devices@.dom().contains(key) ==> exists|i: int|
                    0 <= i < index && key == #[trigger] enrolled_key(first, i),
        decreases count - index,
    {
        let subject = &journal.subjects[index];
        if selected.is_none() {
            selected = Some(ids[index].clone());
        }
        let migrates: bool = match target {
            Some(at) => at == index,
            None => false,
        };
        proof {
            assert(migrates == (!skip_migration && legacy is Some && is_unique_match(
                legacy->0,
                subjects,
                index as int,
            ))) by {
                if let Some(at) = target {
                    if is_unique_match(legacy->0, subjects, index as int) && at != index {
                        assert(!subject_matches(legacy->0, subjects[index as int]));
                    }
                }
            }
            lemma_mouse_name(index as int);
        }
        let name: Option<String> = if migrates {
            match &legacy {
                Some(old_mouse) => old_mouse.identity.display_name.clone(),
                None => None,
            }
        } else {
            let mut text = "Mouse ".to_owned();
            let number = decimal_text(index as u64 + 1);
            text.append(number.as_str());
            Some(text)
        };
        let ghost before = state.devices@;
        let device = enroll(ids[index].clone(), name, subject);
        let ghost fresh = device;
        let ghost key = enrolled_key(first, index as int);
        state.devices.insert(ids[index].clone(), device);
        proof {
            assert(state.devices@ == before.insert(key, fresh));
            assert forall|i: int|
                #![trigger enrolled_key(first, i)]
                0 <= i < index + 1 implies {
                &&& state.devices@.dom().contains(enrolled_key(first, i))
                &&& is_enrolled(
                    state.devices@[enrolled_key(first, i)],
                    enrolled_key(first, i),
                    enrolled_name(legacy, subjects, skip_migration, i),
                    subjects[i],
                )
            } by {
                if i < index {
                    if enrolled_key(first, i) == key {
                        law_device_id_injective((first + i) as u64, (first + index) as u64);
                    }
                }
            }
            assert forall|k: Seq<char>| #[trigger]
                state.devices@.dom().contains(k) implies exists|i: int|
                0 <= i < index + 1 && k == #[trigger] enrolled_key(first, i) by {
                if before.dom().contains(k) {
                    let i = choose|i: int| 0 <= i < index && k == #[trigger] enrolled_key(first, i);
                    assert(k == enrolled_key(first, i));
                } else {
                    assert(k == enrolled_key(first, index as int));
                }
            }
        }
        index = index + 1;
    }
    state.identity_mode = IdentityMode::Persistent;
    state.selected_device = selected;
    Ok(())
}

/// A ceremony that cannot proceed.
pub open spec fn refusal(
    phase: IdentitySetupPhase,
    reason: Seq<char>,
    detail: Seq<char>,
) -> ManagerErrorView {
    ManagerErrorView::IdentityCeremonyRefused { phase, reason, detail }
}

pub fn refused(phase: IdentitySetupPhase, reason: &'static str, detail: &str) -> (r: ManagerError)
    ensures
        r@ == refusal(phase, reason@, detail@),
{
    ManagerError::IdentityCeremonyRefused { phase, reason, detail: detail.to_owned() }
}

/// A mouse after its token was rotated: every old endpoint association and the
/// preference are dropped, and only the presented endpoint stays.
pub open spec fn restored(
    device: DeviceState,
    token: PhysicalId,
    subject: IdentitySetupSubject,
) -> DeviceState {
    with_image(
        DeviceState {
            identity: DeviceIdentity {
                physical_id: Some(token),
                preferred_transport: None,
                endpoints: TransportMap::<DeviceEndpoint>::empty().with(
                    subject.endpoint.transport,
                    Some(subject.endpoint),
                ),
                ..device.identity
            },
            ..device
        },
        subject.captured,
    )
}

/// A mouse with one more endpoint.
pub open spec fn associated(device: DeviceState, endpoint: DeviceEndpoint) -> DeviceState {
    DeviceState {
        identity: DeviceIdentity {
            endpoints: device.identity.endpoints.with(endpoint.transport, Some(endpoint)),
            ..device.identity
        },
        ..device
    }
}

/// Why the ceremony on record cannot be turned into devices, if it cannot.
pub open spec fn finalize_refusal(state: StateFile) -> Option<ManagerErrorView> {
    match state.identity_setup {
        None => Some(ManagerErrorView::NoIdentityCeremony),
        Some(journal) => match journal.phase {
            IdentitySetupPhase::InitialEnrollment => if numbers_suffice(
                state.next_device_number,
                journal.subjects@.len(),
            ) {
                None
            } else {
                Some(
                    ManagerErrorView::State(
                        allocation_error(
                            if state.next_device_number == 0 {
                                0
                            } else {
                                u64::MAX
                            },
                        ),
                    ),
                )
            },
            IdentitySetupPhase::AddMouse | IdentitySetupPhase::ForeignAdoption => {
                if journal.subjects@.len() == 0 {
                    Some(
                        refusal(
                            journal.phase,
                            "no-subject"@,
                            "finalizing requires a captured subject"@,
                        ),
                    )
                } else if journal.subjects@[0].token is None {
                    Some(
                        refusal(
                            journal.phase,
                            "no-token"@,
                            "finalizing requires a reserved token"@,
                        ),
                    )
                } else if !numbers_suffice(state.next_device_number, 1) {
                    Some(ManagerErrorView::State(allocation_error(state.next_device_number)))
                } else {
                    None
                }
            },
            IdentitySetupPhase::Restore => {
                if journal.subjects@.len() == 0 {
                    Some(
                        refusal(
                            journal.phase,
                            "no-subject"@,
                            "finalizing requires a captured subject"@,
                        ),
                    )
                } else if journal.subjects@[0].device_id is None {
                    Some(
                        refusal(
                            journal.phase,
                            "requires-target"@,
                            "restore finalization requires the bound logical mouse"@,
                        ),
                    )
                } else if journal.subjects@[0].token is None {
                    Some(
                        refusal(
                            journal.phase,
                            "no-token"@,
                            "restore finalization requires the rotated-in token"@,
                        ),
                    )
                } else if !state.devices@.dom().contains(journal.subjects@[0].device_id->0@) {
                    Some(ManagerErrorView::DeviceNotFound(journal.subjects@[0].device_id->0@))
                } else {
                    None
                }
            },
            IdentitySetupPhase::BleAssociation => {
                if journal.subjects@.len() == 0 {
                    Some(
                        refusal(
                            journal.phase,
                            "no-subject"@,
                            "finalizing requires a captured subject"@,
                        ),
                    )
                } else if journal.subjects@[0].device_id is None {
                    Some(
                        refusal(
                            journal.phase,
                            "requires-target"@,
                            "BLE association finalization requires the bound logical mouse"@,
                        ),
                    )
                } else if !state.devices@.dom().contains(journal.subjects@[0].device_id->0@) {
                    Some(ManagerErrorView::DeviceNotFound(journal.subjects@[0].device_id->0@))
                } else {
                    None
                }
            },
        },
    }
}

/// `after` is `before` with its ceremony turned into devices.
pub open spec fn finalized(before: StateFile, skip_migration: bool, after: StateFile) -> bool {
    &&& before.identity_setup matches Some(journal)
    &&& after.identity_setup is None
    &&& match journal.phase {
        IdentitySetupPhase::InitialEnrollment => {
            &&& after.next_device_number == before.next_device_number + journal.subjects@.len()
            &&& enrolled_devices(before, journal.subjects@, skip_migration, after.devices@)
            &&& after.identity_mode is Persistent
            &&& match after.selected_device {
                Some(id) => journal.subjects@.len() > 0 && id@ == enrolled_key(
                    before.next_device_number,
                    0,
                ),
                None => journal.subjects@.len() == 0,
            }
        },
        IdentitySetupPhase::AddMouse | IdentitySetupPhase::ForeignAdoption => {
            let key = logical_key(before.next_device_number as nat);
            &&& after.next_device_number == before.next_device_number + 1
            &&& after.selected_device == before.selected_device
            &&& after.identity_mode == before.identity_mode
            &&& after.devices@.dom().contains(key)
            &&& is_enrolled(after.devices@[key], key, None, journal.subjects@[0])
            &&& after.devices@ == before.devices@.insert(key, after.devices@[key])
        },
        IdentitySetupPhase::Restore => {
            let key = journal.subjects@[0].device_id->0@;
            &&& after.next_device_number == before.next_device_number
            &&& after.selected_device == before.selected_device
            &&& after.identity_mode == before.identity_mode
            &&& after.devices@ == before.devices@.insert(
                key,
                restored(
                    before.devices@[key],
                    journal.subjects@[0].token->0,
                    journal.subjects@[0],
                ),
            )
        },
        IdentitySetupPhase::BleAssociation => {
            let key = journal.subjects@[0].device_id->0@;
            &&& after.next_device_number == before.next_device_number
            &&& after.selected_device == before.selected_device
            &&& after.identity_mode == before.identity_mode
            &&& after.devices@ == before.devices@.insert(
                key,
                associated(before.devices@[key], journal.subjects@[0].endpoint),
            )
        },
    }
}

/// Creates the device of an added or adopted mouse.
fn finalize_added(state: &mut StateFile, journal: &IdentitySetupJournal) -> (r: Result<
    (),
    ManagerError,
>)
    requires
        journal.phase is AddMouse || journal.phase is ForeignAdoption,
    ensures
        final(state).identity_setup == old(state).identity_setup,
        ({
            let whole = StateFile { identity_setup: Some(*journal), ..*old(state) };
            let done = StateFile { identity_setup: None, ..*final(state) };
            match r {
                Ok(_) => finalize_refusal(whole) is None && finalized(whole, false, done)
                    && finalized(whole, true, done),
                Err(error) => finalize_refusal(whole) == Some(error@) && *final(state) == *old(
                    state,
                ),
            }
        }),
{
    if journal.subjects.len() == 0 {
        return Err(
            refused(journal.phase, "no-subject", "finalizing requires a captured subject"),
        );
    }
    let subject = &journal.subjects[0];
    if subject.token.is_none() {
        return Err(refused(journal.phase, "no-token", "finalizing requires a reserved token"));
    }
    match state.allocate_device_id() {
        Err(error) => Err(ManagerError::State(error)),
        Ok(id) => {
            let ghost before = state.devices@;
            let device = enroll(id.clone(), None, subject);
            let ghost fresh = device;
            state.devices.insert(id, device);
            assert(state.devices@ == before.insert(fresh.identity.id@, fresh));
            Ok(())
        },
    }
}

/// Rotates the token of a restored mouse.
fn finalize_restored(state: &mut StateFile, journal: &IdentitySetupJournal) -> (r: Result<
    (),
    ManagerError,
>)
    requires
        journal.phase is Restore,
    ensures
        final(state).identity_setup == old(state).identity_setup,
        ({
            let whole = StateFile { identity_setup: Some(*journal), ..*old(state) };
            let done = StateFile { identity_setup: None, ..*final(state) };
            match r {
                Ok(_) => finalize_refusal(whole) is None && finalized(whole, false, done)
                    && finalized(whole, true, done),
                Err(error) => finalize_refusal(whole) == Some(error@) && *final(state) == *old(
                    state,
                ),
            }
        }),
{
    if journal.subjects.len() == 0 {
        return Err(
            refused(journal.phase, "no-subject", "finalizing requires a captured subject"),
        );
    }
    let subject = &journal.subjects[0];
    let device_id = match &subject.device_id {
        Some(id) => id.clone(),
        None => {
            return Err(
                refused(
                    journal.phase,
                    "requires-target",
                    "restore finalization requires the bound logical mouse",
                ),
            );
        },
    };
    let token = match subject.token {
        Some(token) => token,
        None => {
            return Err(
                refused(
                    journal.phase,
                    "no-token",
                    "restore finalization requires the rotated-in token",
                ),
            );
        },
    };
    if !state.devices.contains_key(&device_id) {
        return Err(ManagerError::DeviceNotFound(device_id));
    }
    let ghost before = state.devices@;
    match state.devices.remove(&device_id) {
        None => {},
        Some(mut device) => {
            device.identity.physical_id = Some(token);
            device.identity.preferred_transport = None;
            let mut endpoints: TransportMap<DeviceEndpoint> = TransportMap::new();
            endpoints.insert(subject.endpoint.transport, subject.endpoint.clone());
            device.identity.endpoints = endpoints;
            apply_captured_image(&mut device, subject.captured.as_ref());
            let ghost changed = device;
            let ghost key = device_id@;
            state.devices.insert(device_id, device);
            proof {
                assert(changed == restored(before[key], token, *subject));
                assert(state.devices@ =~= before.insert(key, changed));
            }
        },
    }
    Ok(())
}

/// Adds the presented BLE endpoint to its mouse.
fn finalize_associated(state: &mut StateFile, journal: &IdentitySetupJournal) -> (r: Result<
    (),
    ManagerError,
>)
    requires
        journal.phase is BleAssociation,
    ensures
        final(state).identity_setup == old(state).identity_setup,
        ({
            let whole = StateFile { identity_setup: Some(*journal), ..*old(state) };
            let done = StateFile { identity_setup: None, ..*final(state) };
            match r {
                Ok(_) => finalize_refusal(whole) is None && finalized(whole, false, done)
                    && finalized(whole, true, done),
                Err(error) => finalize_refusal(whole) == Some(error@) && *final(state) == *old(
                    state,
                ),
            }
        }),
{
    if journal.subjects.len() == 0 {
        return Err(
            refused(journal.phase, "no-subject", "finalizing requires a captured subject"),
        );
    }
    let subject = &journal.subjects[0];
    let device_id = match &subject.device_id {
        Some(id) => id.clone(),
        None => {
            return Err(
                refused(
                    journal.phase,
                    "requires-target",
                    "BLE association finalization requires the bound logical mouse",
                ),
            );
        },
    };
    if !state.devices.contains_key(&device_id) {
        return Err(ManagerError::DeviceNotFound(device_id));
    }
    let ghost before = state.devices@;
    match state.devices.remove(&device_id) {
        None => {},
        Some(mut device) => {
            device.identity.endpoints.insert(subject.endpoint.transport, subject.endpoint.clone());
            let ghost changed = device;
            let ghost key = device_id@;
            state.devices.insert(device_id, device);
            proof {
                assert(changed == associated(before[key], subject.endpoint));
                assert(state.devices@ =~= before.insert(key, changed));
            }
        },
    }
    Ok(())
}

/// Applies a completed ceremony to durable state and clears the journal.
///
/// A ceremony is applied as a whole or not at all: an error leaves everything
/// as it was.
pub fn finalize_ceremony(state: &mut StateFile, skip_migration: bool) -> (r: Result<
    (),
    ManagerError,
>)
    ensures
        match r {
            Ok(_) => finalize_refusal(*old(state)) is None && finalized(
                *old(state),
                skip_migration,
                *final(state),
            ),
            Err(error) => finalize_refusal(*old(state)) == Some(error@) && *final(state) == *old(
                state,
            ),
        },
{
    let journal = match state.identity_setup.take() {
        Some(journal) => journal,
        None => {
            return Err(ManagerError::NoIdentityCeremony);
        },
    };
    let outcome = match journal.phase {
        IdentitySetupPhase::InitialEnrollment => finalize_initial_enrollment(
            state,
            &journal,
            skip_migration,
        ),
        IdentitySetupPhase::AddMouse | IdentitySetupPhase::ForeignAdoption => finalize_added(
            state,
            &journal,
        ),
        IdentitySetupPhase::Restore => finalize_restored(state, &journal),
        IdentitySetupPhase::BleAssociation => finalize_associated(state, &journal),
    };
    match outcome {
        Ok(_) => Ok(()),
        Err(error) => {
            state.identity_setup = Some(journal);
            Err(error)
        },
    }
}

/// A finalized ceremony leaves the inventory in order: every device under its
/// own key, and the next number larger than every number in use.
pub proof fn law_finalize_keeps_inventory(before: StateFile, skip_migration: bool, after: StateFile)
    requires
        before.inventory(),
        finalize_refusal(before) is None,
        finalized(before, skip_migration, after),
    ensures
        after.inventory(),
{
    let journal = before.identity_setup->0;
    let first = before.next_device_number;
    if journal.phase is InitialEnrollment {
        assert forall|key: Seq<char>| #[trigger] after.devices@.dom().contains(key) implies {
            &&& after.devices@[key].identity.id@ == key
            &&& logical_number(key) matches Some(n)
            &&& n < after.next_device_number
        } by {
            let index = choose|index: int|
                0 <= index < journal.subjects@.len() && key == #[trigger] enrolled_key(first, index);
            lemma_logical_number(key, (first + index) as u64);
        }
    } else if journal.phase is AddMouse || journal.phase is ForeignAdoption {
        lemma_logical_number(logical_key(first as nat), first);
    }
}

/// After the first enrollment none of the old devices is left: the fresh mice
/// have keys that no old device had.
pub proof fn law_enrollment_replaces_devices(
    before: StateFile,
    skip_migration: bool,
    after: StateFile,
    key: Seq<char>,
)
    requires
        before.inventory(),
        before.identity_setup is Some,
        before.identity_setup->0.phase is InitialEnrollment,
        finalize_refusal(before) is None,
        finalized(before, skip_migration, after),
        before.devices@.dom().contains(key),
    ensures
        !after.devices@.dom().contains(key),
        after.identity_mode is Persistent,
{
    let journal = before.identity_setup->0;
    let first = before.next_device_number;
    if after.devices@.dom().contains(key) {
        let index = choose|index: int|
            0 <= index < journal.subjects@.len() && key == #[trigger] enrolled_key(first, index);
        lemma_logical_number(key, (first + index) as u64);
    }
}

/// A restored mouse keeps its key, its names and its display name, carries the
/// new token, and is reachable through the presented endpoint only; every other
/// mouse is untouched.
pub proof fn law_restore_rotates_one_mouse(
    before: StateFile,
    skip_migration: bool,
    after: StateFile,
    other: Seq<char>,
    transport: TransportKind,
)
    requires
        before.identity_setup is Some,
        before.identity_setup->0.phase is Restore,
        finalize_refusal(before) is None,
        finalized(before, skip_migration, after),
    ensures
        ({
            let subject = before.identity_setup->0.subjects@[0];
            let key = subject.device_id->0@;
            let old_device = before.devices@[key];
            let device = after.devices@[key];
            &&& device.identity.id == old_device.identity.id
            &&& device.identity.display_name == old_device.identity.display_name
            &&& device.profile_names == old_device.profile_names
            &&& device.identity.physical_id == subject.token
            &&& device.identity.endpoints.at(transport) == (if transport
                == subject.endpoint.transport {
                Some(subject.endpoint)
            } else {
                None
            })
            &&& other != key ==> after.devices@.dom().contains(other)
                == before.devices@.dom().contains(other) && after.devices@[other]
                == before.devices@[other]
        }),
{
}

/// Associating a BLE endpoint changes nothing but that one association.
pub proof fn law_association_is_local(
    before: StateFile,
    skip_migration: bool,
    after: StateFile,
    other: Seq<char>,
    transport: TransportKind,
)
    requires
        before.identity_setup is Some,
        before.identity_setup->0.phase is BleAssociation,
        finalize_refusal(before) is None,
        finalized(before, skip_migration, after),
    ensures
        ({
            let subject = before.identity_setup->0.subjects@[0];
            let key = subject.device_id->0@;
            let old_device = before.devices@[key];
            let device = after.devices@[key];
            &&& device == (DeviceState { identity: device.identity, ..old_device })
            &&& device.identity.physical_id == old_device.identity.physical_id
            &&& device.identity.endpoints.at(transport) == (if transport
                == subject.endpoint.transport {
                Some(subject.endpoint)
            } else {
                old_device.identity.endpoints.at(transport)
            })
            &&& other != key ==> after.devices@[other] == before.devices@[other]
        }),
{
}

/// A capture replaces all evidence of a device, whatever the device had on
/// record: its metadata and every profile slot are those of the capture. A
/// device without a capture keeps its evidence, and nothing else ever changes.
pub proof fn law_captures_replace_evidence(
    device: &mut DeviceState,
    captured: Option<&CapturedProfileImage>,
    profile: ProfileId,
)
    requires
        call_ensures(apply_captured_image, (device, captured), ()),
    ensures
        captured matches Some(image) ==> final(device).profile_metadata == image.profile_metadata
            && final(device).profiles.at(profile) == image.profiles.at(profile),
        captured is None ==> final(device).profile_metadata == old(device).profile_metadata
            && final(device).profiles.at(profile) == old(device).profiles.at(profile),
        final(device).identity == old(device).identity,
        final(device).profile_names == old(device).profile_names,
{
}

/// Two pieces of evidence match exactly when their metadata agree and every
/// profile slot agrees.
pub proof fn law_matching_compares_everything(
    legacy: &DeviceState,
    captured: &CapturedProfileImage,
    r: bool,
)
    requires
        call_ensures(legacy_capture_matches, (legacy, captured), r),
    ensures
        r <==> legacy.profile_metadata == captured.profile_metadata && forall|profile: ProfileId|
            #[trigger] legacy.profiles.at(profile) == captured.profiles.at(profile),
{
    if forall|profile: ProfileId| #[trigger]
        legacy.profiles.at(profile) == captured.profiles.at(profile) {
        lemma_same_slots(legacy.profiles, captured.profiles);
    }
}

proof fn lemma_same_slots(a: ProfileMap<ProfileState>, b: ProfileMap<ProfileState>)
    requires
        forall|profile: ProfileId| #[trigger] a.at(profile) == b.at(profile),
    ensures
        a == b,
{
    assert(a.at(ProfileId::One) == b.at(ProfileId::One));
    assert(a.at(ProfileId::Two) == b.at(ProfileId::Two));
    assert(a.at(ProfileId::Three) == b.at(ProfileId::Three));
    assert(a.at(ProfileId::Four) == b.at(ProfileId::Four));
    assert(a.at(ProfileId::Five) == b.at(ProfileId::Five));
}

/// The key under which a finalized ceremony stores the mouse of a subject: the
/// first enrollment hands out numbers in the order of presentation, an added or
/// adopted mouse gets the next number, and the other ceremonies keep the key
/// that the subject is bound to.
pub open spec fn stored_key(before: StateFile, subject: int) -> Seq<char> {
    let journal = before.identity_setup->0;
    if journal.phase is Restore || journal.phase is BleAssociation {
        journal.subjects@[subject].device_id->0@
    } else {
        logical_key((before.next_device_number + subject) as nat)
    }
}

/// After a finalized ceremony the mouse of each subject is stored with the
/// evidence of its capture, whatever the mouse had on record before: the
/// metadata and every profile slot are those of the capture. Without a capture
/// a restored mouse keeps its evidence and a fresh one has none. The mouse
/// carries the subject's token and is reached through the presented endpoint
/// alone.
pub proof fn law_finalized_mice_hold_their_captures(
    state: &mut StateFile,
    skip_migration: bool,
    r: Result<(), ManagerError>,
    subject: int,
    profile: ProfileId,
    transport: TransportKind,
)
    requires
        call_ensures(finalize_ceremony, (state, skip_migration), r),
        r is Ok,
        old(state).identity_setup is Some,
        !(old(state).identity_setup->0.phase is BleAssociation),
        subject == 0 || old(state).identity_setup->0.phase is InitialEnrollment,
        0 <= subject < old(state).identity_setup->0.subjects@.len(),
    ensures
        ({
            let journal = old(state).identity_setup->0;
            let presented = journal.subjects@[subject];
            let key = stored_key(*old(state), subject);
            let had = old(state).devices@[key];
            let stored = final(state).devices@[key];
            &&& final(state).devices@.dom().contains(key)
            &&& presented.captured matches Some(image) ==> stored.profile_metadata
                == image.profile_metadata && stored.profiles.at(profile) == image.profiles.at(
                profile,
            )
            &&& presented.captured is None && journal.phase is Restore ==> stored.profile_metadata
                == had.profile_metadata && stored.profiles.at(profile) == had.profiles.at(profile)
            &&& presented.captured is None && !(journal.phase is Restore)
                ==> stored.profile_metadata.desired is None
                && stored.profile_metadata.observed is None && stored.profiles.at(profile) is None
            &&& stored.identity.physical_id == presented.token
            &&& stored.identity.preferred_transport is None
            &&& transport == presented.endpoint.transport ==> stored.identity.endpoints.at(
                transport,
            ) == Some(presented.endpoint)
            &&& transport != presented.endpoint.transport ==> stored.identity.endpoints.at(
                transport,
            ) is None
            &&& journal.phase is Restore ==> stored.identity.id == had.identity.id
                && stored.identity.display_name == had.identity.display_name
                && stored.profile_names == had.profile_names
            &&& !(journal.phase is Restore) ==> stored.identity.id@ == key
                && stored.profile_names.at(profile) is None
            &&& journal.phase is AddMouse || journal.phase is ForeignAdoption
                ==> stored.identity.display_name is None && !(stored.identity.physical_id is None)
        }),
{
    let journal = old(state).identity_setup->0;
    let first = old(state).next_device_number;
    assert(enrolled_key(first, subject) == logical_key((first + subject) as nat));
    assert(finalized(*old(state), skip_migration, *final(state)));
}

/// A finalized ceremony changes the mice of its subjects and no other: every
/// other mouse stays as it was, except that the first enrollment keeps none.
/// The first enrollment selects the mouse that was presented first and makes
/// the installation persistent; the other ceremonies change neither. The
/// journal is gone, and exactly the numbers that were handed out are used up.
pub proof fn law_finalization_keeps_the_rest(
    state: &mut StateFile,
    skip_migration: bool,
    r: Result<(), ManagerError>,
    key: Seq<char>,
)
    requires
        call_ensures(finalize_ceremony, (state, skip_migration), r),
        r is Ok,
    ensures
        old(state).identity_setup is Some,
        final(state).identity_setup is None,
        ({
            let journal = old(state).identity_setup->0;
            let count = journal.subjects@.len();
            &&& journal.phase is InitialEnrollment ==> {
                &&& final(state).devices@.dom().contains(key) <==> exists|i: int|
                    0 <= i < count && #[trigger] stored_key(*old(state), i) == key
                &&& final(state).identity_mode is Persistent
                &&& final(state).next_device_number == old(state).next_device_number + count
                &&& count == 0 ==> final(state).selected_device is None
                &&& count > 0 ==> final(state).selected_device is Some
                    && final(state).selected_device->0@ == stored_key(*old(state), 0)
            }
            &&& !(journal.phase is InitialEnrollment) ==> {
                &&& count > 0
                &&& key != stored_key(*old(state), 0) ==> final(state).devices@.dom().contains(key)
                    == old(state).devices@.dom().contains(key) && final(state).devices@[key]
                    == old(state).devices@[key]
                &&& final(state).identity_mode == old(state).identity_mode
                &&& final(state).selected_device == old(state).selected_device
            }
            &&& journal.phase is AddMouse || journal.phase is ForeignAdoption ==> {
                final(state).next_device_number == old(state).next_device_number + 1
            }
            &&& journal.phase is Restore || journal.phase is BleAssociation ==> {
                &&& final(state).next_device_number == old(state).next_device_number
                &&& old(state).devices@.dom().contains(stored_key(*old(state), 0))
            }
        }),
{
    let journal = old(state).identity_setup->0;
    let first = old(state).next_device_number;
    assert(finalized(*old(state), skip_migration, *final(state)));
    if journal.phase is InitialEnrollment {
        assert forall|i: int| #[trigger] stored_key(*old(state), i) == enrolled_key(first, i) by {}
        if final(state).devices@.dom().contains(key) {
            let i = choose|i: int|
                0 <= i < journal.subjects@.len() && key == #[trigger] enrolled_key(first, i);
            assert(stored_key(*old(state), i) == key);
        }
    }
}

/// A ceremony is finalized exactly when it can be: one is on record, a subject
/// was captured, an added or adopted mouse has a token and a restored one has a
/// token and a stored target, an associated one has a stored target, and the
/// numbers suffice. What is refused changes nothing.
pub proof fn law_finalization_succeeds_when_complete(
    state: &mut StateFile,
    skip_migration: bool,
    r: Result<(), ManagerError>,
)
    requires
        call_ensures(finalize_ceremony, (state, skip_migration), r),
    ensures
        r is Err ==> *final(state) == *old(state),
        old(state).identity_setup is None <==> viewed(r) == Err::<(), ManagerErrorView>(
            ManagerErrorView::NoIdentityCeremony,
        ),
        old(state).identity_setup matches Some(journal) ==> ({
            let number = old(state).next_device_number;
            let count = journal.subjects@.len();
            let subject = journal.subjects@[0];
            let bound = subject.device_id is Some && old(state).devices@.dom().contains(
                subject.device_id->0@,
            );
            r is Ok <==> match journal.phase {
                IdentitySetupPhase::InitialEnrollment => count == 0 || (number > 0 && number + count
                    <= u64::MAX),
                IdentitySetupPhase::AddMouse | IdentitySetupPhase::ForeignAdoption => count > 0
                    && subject.token is Some && number > 0 && number < u64::MAX,
                IdentitySetupPhase::Restore => count > 0 && bound && subject.token is Some,
                IdentitySetupPhase::BleAssociation => count > 0 && bound,
            }
        }),
        old(state).identity_setup matches Some(journal) ==> !(journal.phase is InitialEnrollment)
            ==> journal.subjects@.len() == 0 ==> (viewed(r) matches Err(
            ManagerErrorView::IdentityCeremonyRefused { phase, reason, detail },
        ) && phase == journal.phase && reason == "no-subject"@),
{
}

/// The name that the first enrollment gives each mouse. Where a mouse was
/// stored before and its evidence agrees in full with the capture of exactly
/// one subject, and taking it over was not declined, that subject keeps the
/// old name. Every other subject is called by its place in the order.
pub proof fn law_enrollment_names(
    state: &mut StateFile,
    skip_migration: bool,
    r: Result<(), ManagerError>,
    old_key: Seq<char>,
    subject: int,
)
    requires
        call_ensures(finalize_ceremony, (state, skip_migration), r),
        r is Ok,
        old(state).devices.listed(),
        old(state).identity_setup is Some,
        old(state).identity_setup->0.phase is InitialEnrollment,
        0 <= subject < old(state).identity_setup->0.subjects@.len(),
        old(state).devices@.dom().contains(old_key),
        forall|key: Seq<char>| #[trigger]
            old(state).devices@.dom().contains(key) && key != old_key ==> lex_less(old_key, key),
    ensures
        ({
            let subjects = old(state).identity_setup->0.subjects@;
            let legacy = old(state).devices@[old_key];
            let name = text_of(
                final(state).devices@[stored_key(*old(state), subject)].identity.display_name,
            );
            let agrees = holds_evidence(subjects[subject], legacy);
            let alone = forall|i: int|
                0 <= i < subjects.len() && i != subject ==> !holds_evidence(
                    #[trigger] subjects[i],
                    legacy,
                );
            &&& !skip_migration && agrees && alone ==> name == nonblank(
                text_of(legacy.identity.display_name),
            )
            &&& skip_migration || !agrees || !alone ==> name == Some(
                "Mouse "@ + decimal((subject + 1) as nat),
            )
        }),
{
    let journal = old(state).identity_setup->0;
    let subjects = journal.subjects@;
    let first = old(state).next_device_number;
    let devices = old(state).devices;
    let legacy = devices@[old_key];
    assert(finalized(*old(state), skip_migration, *final(state)));
    assert(stored_key(*old(state), subject) == enrolled_key(first, subject));
    let at = choose|i: int| 0 <= i < devices.keys().len() && #[trigger] devices.keys()[i] == old_key;
    assert(devices.keys()[at] == old_key);
    if at > 0 {
        let least = devices.keys()[0];
        assert(lex_less(least, old_key));
        assert(devices@.dom().contains(least));
        crate::text::lemma_lex_irreflexive(old_key);
        assert(least != old_key);
        crate::text::lemma_lex_transitive(old_key, least, old_key);
    }
    assert(legacy_device(devices) == Some(legacy));
    assert forall|i: int| 0 <= i < subjects.len() implies #[trigger] subject_matches(
        legacy,
        subjects[i],
    ) == holds_evidence(subjects[i], legacy) by {
        if holds_evidence(subjects[i], legacy) {
            lemma_same_slots(subjects[i].captured->0.profiles, legacy.profiles);
        }
    }
    let alone = forall|i: int|
        0 <= i < subjects.len() && i != subject ==> !holds_evidence(#[trigger] subjects[i], legacy);
    if !alone {
        let i = choose|i: int|
            0 <= i < subjects.len() && i != subject && holds_evidence(#[trigger] subjects[i], legacy);
        assert(subject_matches(legacy, subjects[i]));
    } else {
        assert forall|i: int| 0 <= i < subjects.len() && i != subject implies !subject_matches(
            legacy,
            #[trigger] subjects[i],
        ) by {
            assert(!holds_evidence(subjects[i], legacy));
        }
    }
    assert(subject_matches(legacy, subjects[subject]) == holds_evidence(subjects[subject], legacy));
}

/// The subject's capture holds the evidence of a device.
pub open spec fn holds_evidence(subject: IdentitySetupSubject, device: DeviceState) -> bool {
    &&& subject.captured matches Some(image)
    &&& image.profile_metadata == device.profile_metadata
    &&& forall|profile: ProfileId| #[trigger]
        image.profiles.at(profile) == device.profiles.at(profile)
}

/// Without a stored mouse every enrolled mouse is called by its place in the
/// order.
pub proof fn law_first_mice_are_numbered(
    state: &mut StateFile,
    skip_migration: bool,
    r: Result<(), ManagerError>,
    subject: int,
)
    requires
        call_ensures(finalize_ceremony, (state, skip_migration), r),
        r is Ok,
        old(state).devices.listed(),
        old(state).identity_setup is Some,
        old(state).identity_setup->0.phase is InitialEnrollment,
        0 <= subject < old(state).identity_setup->0.subjects@.len(),
        old(state).devices@.dom() == Set::<Seq<char>>::empty(),
    ensures
        text_of(final(state).devices@[stored_key(*old(state), subject)].identity.display_name)
            == Some("Mouse "@ + decimal((subject + 1) as nat)),
{
    assert(finalized(*old(state), skip_migration, *final(state)));
    assert(stored_key(*old(state), subject) == enrolled_key(
        old(state).next_device_number,
        subject,
    ));
    if old(state).devices.keys().len() > 0 {
        assert(old(state).devices@.dom().contains(old(state).devices.keys()[0]));
    }
}

/// A ceremony that cannot be finalized says why in a word.
pub proof fn law_refused_finalizations_say_why(
    state: &mut StateFile,
    skip_migration: bool,
    r: Result<(), ManagerError>,
)
    requires
        call_ensures(finalize_ceremony, (state, skip_migration), r),
        old(state).identity_setup is Some,
        old(state).identity_setup->0.subjects@.len() > 0,
        r is Err,
    ensures
        ({
            let journal = old(state).identity_setup->0;
            let subject = journal.subjects@[0];
            let fresh = journal.phase is AddMouse || journal.phase is ForeignAdoption;
            let bound = journal.phase is Restore || journal.phase is BleAssociation;
            let says = |word: Seq<char>|
                viewed(r) matches Err(
                    ManagerErrorView::IdentityCeremonyRefused { phase, reason, detail },
                ) && reason == word && phase == journal.phase;
            &&& fresh && subject.token is None ==> says("no-token"@)
            &&& bound && subject.device_id is None ==> says("requires-target"@)
            &&& journal.phase is Restore && subject.device_id is Some && subject.token is None
                ==> says("no-token"@)
            &&& bound && subject.device_id is Some && (subject.token is Some || journal.phase
                is BleAssociation) ==> viewed(r) == Err::<(), ManagerErrorView>(
                ManagerErrorView::DeviceNotFound(subject.device_id->0@),
            )
            &&& journal.phase is InitialEnrollment || (fresh && subject.token is Some) ==> (
            r matches Err(error) && error is State)
        }),
{
}

} // verus!
