//! The device manager: one loaded state file and what is known about the
//! endpoints attached right now.

use vstd::prelude::*;

use crate::cache::IdentityCache;
use crate::device::{logical_key, logical_number, DeviceId, DeviceIdentity, TransportSelection};
use crate::devices::DeviceMap;
use crate::error::{id_texts, viewed, ManagerError, ManagerErrorView, StateError, StateErrorView};
use crate::protocol::{ProfileId, TransportKind};
use crate::resources::evidence::{lemma_one_mouse, nothing_changes, only_mouse_changes};
use crate::state::{device_has_evidence, is_bare, DeviceState, StateFile};
use crate::text::{nonblank, same_text, text_of, trim, trimmed};

verus! {

/// A device manager over a loaded state file.
///
/// The caller loads the state before an operation and stores it afterwards;
/// between two requests of one operation it may load it anew.
#[derive(Debug, PartialEq, Eq)]
pub struct DeviceManager {
    pub state: StateFile,
    pub identity_cache: IdentityCache,
}

/// The key is not that of a stored device.
pub open spec fn not_found(device: Seq<char>) -> ManagerErrorView {
    ManagerErrorView::DeviceNotFound(device)
}

/// A device with another display name.
pub open spec fn renamed(before: DeviceState, after: DeviceState, name: Option<Seq<char>>) -> bool {
    &&& text_of(after.identity.display_name) == name
    &&& after == (DeviceState {
        identity: DeviceIdentity {
            display_name: after.identity.display_name,
            ..before.identity
        },
        ..before
    })
}

/// A device that prefers a transport.
pub open spec fn preferring(device: DeviceState, transport: TransportKind) -> DeviceState {
    DeviceState {
        identity: DeviceIdentity {
            preferred_transport: Some(transport),
            ..device.identity
        },
        ..device
    }
}

impl DeviceManager {
    pub fn new(state: StateFile) -> (r: Result<DeviceManager, ManagerError>)
        ensures
            r matches Ok(manager) && manager.state == state && manager.identity_cache@
                =~= Map::empty(),
    {
        Ok(DeviceManager { state, identity_cache: IdentityCache::new() })
    }

    /// The selected device, if there is one.
    pub fn selected_device(&self) -> (r: Option<DeviceId>)
        ensures
            r == self.state.selected_device,
    {
        self.state.selected_device.clone()
    }

    /// Selects a stored device.
    pub fn select_device(&mut self, device: &DeviceId) -> (r: Result<(), ManagerError>)
        ensures
            final(self).identity_cache == old(self).identity_cache,
            if old(self).state.devices@.dom().contains(device@) {
                &&& r is Ok
                &&& final(self).state == (StateFile {
                    selected_device: Some(*device),
                    ..old(self).state
                })
            } else {
                &&& viewed(r) == Err::<(), ManagerErrorView>(not_found(device@))
                &&& final(self).state == old(self).state
            },
    {
        if !self.state.devices.contains_key(device) {
            return Err(ManagerError::DeviceNotFound(device.clone()));
        }
        self.state.selected_device = Some(device.clone());
        Ok(())
    }

    /// The identity of a stored device.
    pub fn device_identity(&self, device: &DeviceId) -> (r: Result<DeviceIdentity, ManagerError>)
        ensures
            viewed(r) == (if self.state.devices@.dom().contains(device@) {
                Ok(self.state.devices@[device@].identity)
            } else {
                Err(not_found(device@))
            }),
    {
        match self.state.devices.get(device) {
            Some(state) => Ok(state.identity.clone()),
            None => Err(ManagerError::DeviceNotFound(device.clone())),
        }
    }

    /// Adds a device unless its key is taken, and selects it when nothing is
    /// selected.
    pub fn register_device(&mut self, identity: DeviceIdentity) -> (r: Result<(), ManagerError>)
        ensures
            final(self).identity_cache == old(self).identity_cache,
            ({
                let before = old(self).state;
                let after = final(self).state;
                let number = logical_number(identity.id@)->0;
                if before.next_device_number <= number && number == u64::MAX {
                    &&& viewed(r) == Err::<(), ManagerErrorView>(
                        ManagerErrorView::State(
                            StateErrorView::InvalidState("nextDeviceNumber overflow"@),
                        ),
                    )
                    &&& after == before
                } else {
                    &&& r is Ok
                    &&& after.next_device_number == (if before.next_device_number <= number {
                        (number + 1) as u64
                    } else {
                        before.next_device_number
                    })
                    &&& after.selected_device == (if before.selected_device is None {
                        Some(identity.id)
                    } else {
                        before.selected_device
                    })
                    &&& after.devices@ == (if before.devices@.dom().contains(identity.id@) {
                        before.devices@
                    } else {
                        before.devices@.insert(identity.id@, DeviceState::fresh(identity))
                    })
                    &&& after.identity_mode == before.identity_mode
                    &&& after.identity_setup == before.identity_setup
                }
            }),
            old(self).state.inventory() ==> final(self).state.inventory(),
    {
        let number: u64 = match identity.id.number() {
            Some(number) => number,
            None => 0,
        };
        proof {
            crate::device::lemma_logical_number(identity.id@, number);
        }
        if self.state.next_device_number <= number {
            if number == u64::MAX {
                return Err(
                    ManagerError::State(StateError::invalid_state("nextDeviceNumber overflow")),
                );
            }
            self.state.next_device_number = number + 1;
        }
        if self.state.selected_device.is_none() {
            self.state.selected_device = Some(identity.id.clone());
        }
        if !self.state.devices.contains_key(&identity.id) {
            let key = identity.id.clone();
            self.state.devices.insert(key, DeviceState::new(identity));
        }
        Ok(())
    }

    /// Removes a device. One with configuration evidence is kept unless
    /// `force` is set; forgetting the selected device clears the selection.
    pub fn forget_device(&mut self, device: &DeviceId, force: bool) -> (r: Result<
        bool,
        ManagerError,
    >)
        ensures
            final(self).identity_cache == old(self).identity_cache,
            ({
                let before = old(self).state;
                let after = final(self).state;
                if !before.devices@.dom().contains(device@) {
                    viewed(r) == Err::<bool, ManagerErrorView>(not_found(device@)) && after
                        == before
                } else if before.devices@[device@].has_evidence() && !force {
                    r == Ok::<bool, ManagerError>(false) && after == before
                } else {
                    &&& r == Ok::<bool, ManagerError>(true)
                    &&& after.devices@ == before.devices@.remove(device@)
                    &&& after.selected_device == (if before.selected_device is Some
                        && before.selected_device->0@ == device@ {
                        None
                    } else {
                        before.selected_device
                    })
                    &&& after.next_device_number == before.next_device_number
                    &&& after.identity_mode == before.identity_mode
                    &&& after.identity_setup == before.identity_setup
                }
            }),
            old(self).state.inventory() ==> final(self).state.inventory(),
    {
        match self.state.devices.get(device) {
            None => {
                return Err(ManagerError::DeviceNotFound(device.clone()));
            },
            Some(state) => {
                if device_has_evidence(state) && !force {
                    return Ok(false);
                }
            },
        }
        self.state.devices.remove(device);
        let selected: bool = match &self.state.selected_device {
            Some(current) => current.same_key(device),
            None => false,
        };
        if selected {
            self.state.selected_device = None;
        }
        Ok(true)
    }

    /// Sets the presentation-only display name; a blank name clears it.
    pub fn rename_device(&mut self, device: &DeviceId, name: &str) -> (r: Result<(), ManagerError>)
        ensures
            final(self).identity_cache == old(self).identity_cache,
            final(self).state.same_but_devices(old(self).state),
            ({
                let before = old(self).state.devices@;
                let after = final(self).state.devices@;
                if before.dom().contains(device@) {
                    &&& r is Ok
                    &&& after.dom().contains(device@)
                    &&& renamed(before[device@], after[device@], nonblank(Some(name@)))
                    &&& after == before.insert(device@, after[device@])
                } else {
                    viewed(r) == Err::<(), ManagerErrorView>(not_found(device@)) && after == before
                }
            }),
    {
        let inner = trim(name);
        let display_name: Option<String> = if inner.is_empty() {
            None
        } else {
            Some(inner.to_owned())
        };
        let ghost before = self.state.devices@;
        match self.state.devices.remove(device) {
            None => {
                assert(self.state.devices@ =~= before);
                Err(ManagerError::DeviceNotFound(device.clone()))
            },
            Some(mut state) => {
                state.identity.display_name = display_name;
                let ghost changed = state;
                self.state.devices.insert(device.clone(), state);
                assert(self.state.devices@ =~= before.insert(device@, changed));
                Ok(())
            },
        }
    }

    /// Makes a device prefer a transport.
    pub fn set_preferred_transport(&mut self, device: &DeviceId, transport: TransportKind) -> (r:
        Result<(), ManagerError>)
        ensures
            final(self).identity_cache == old(self).identity_cache,
            final(self).state.same_but_devices(old(self).state),
            ({
                let before = old(self).state.devices@;
                let after = final(self).state.devices@;
                if before.dom().contains(device@) {
                    &&& r is Ok
                    &&& after == before.insert(device@, preferring(before[device@], transport))
                } else {
                    viewed(r) == Err::<(), ManagerErrorView>(not_found(device@)) && after == before
                }
            }),
    {
        let ghost before = self.state.devices@;
        match self.state.devices.remove(device) {
            None => {
                assert(self.state.devices@ =~= before);
                Err(ManagerError::DeviceNotFound(device.clone()))
            },
            Some(mut state) => {
                state.identity.preferred_transport = Some(transport);
                self.state.devices.insert(device.clone(), state);
                assert(self.state.devices@ =~= before.insert(
                    device@,
                    preferring(before[device@], transport),
                ));
                Ok(())
            },
        }
    }

    /// Resolves a case-insensitive unique display name to its logical
    /// identity.
    pub fn find_device_by_name(&self, name: &str) -> (r: Result<DeviceId, ManagerError>)
        ensures
            named_device(
                self.state.devices,
                lowered_names(self.state.devices),
                lowercase(trimmed(name@)),
                name@,
                r,
            ),
    {
        let needle = to_lowercase(trim(name));
        let len: usize = self.state.devices.len();
        let mut lowered: Vec<Option<String>> = Vec::new();
        let mut i: usize = 0;
        while i < len
            invariant
                i <= len,
                len == self.state.devices.keys().len(),
                lowered@.len() == i,
                forall|j: int|
                    0 <= j < i ==> text_of(#[trigger] lowered@[j]) == lowered_names(
                        self.state.devices,
                    )[j],
            decreases len - i,
        {
            let device = self.state.devices.state_at(i);
            let text: Option<String> = match &device.identity.display_name {
                Some(display) => Some(to_lowercase(display.as_str())),
                None => None,
            };
            lowered.push(text);
            i = i + 1;
        }
        proof {
            assert(optional_texts(lowered@) =~= lowered_names(self.state.devices));
        }
        choose_by_name(&self.state.devices, &lowered, needle.as_str(), name)
    }
}

/// What `str::to_lowercase` gives for a text.
pub uninterp spec fn lowercase(text: Seq<char>) -> Seq<char>;

/// Calls `str::to_lowercase`: the Unicode lower-case form of a text, which
/// depends on the text alone.
#[verifier::external_body]
fn to_lowercase(text: &str) -> (r: String)
    ensures
        r@ == lowercase(text@),
{
    text.to_lowercase()
}

/// What the debug form of a text is: the text in double quotes, with escapes.
pub uninterp spec fn quoted(text: Seq<char>) -> Seq<char>;

/// Formats a text with the debug formatter of `str`, whose result depends on
/// the text alone.
#[verifier::external_body]
pub(crate) fn quote(text: &str) -> (r: String)
    ensures
        r@ == quoted(text@),
{
    format!("{text:?}")
}

pub open spec fn optional_texts(texts: Seq<Option<String>>) -> Seq<Option<Seq<char>>> {
    Seq::new(texts.len(), |i: int| text_of(texts[i]))
}

/// The lower-case display names of the devices, in key order.
pub open spec fn lowered_names(devices: DeviceMap) -> Seq<Option<Seq<char>>> {
    Seq::new(
        devices.keys().len(),
        |i: int|
            match text_of(devices@[devices.keys()[i]].identity.display_name) {
                Some(name) => Some(lowercase(name)),
                None => None,
            },
    )
}

/// The places, in order, at which a text stands.
pub open spec fn places_of(texts: Seq<Option<Seq<char>>>, text: Seq<char>) -> Seq<int>
    decreases texts.len(),
{
    if texts.len() == 0 {
        Seq::empty()
    } else if texts.last() == Some(text) {
        places_of(texts.drop_last(), text).push(texts.len() - 1)
    } else {
        places_of(texts.drop_last(), text)
    }
}

/// The keys that the devices at some places carry.
pub open spec fn ids_at(devices: DeviceMap, places: Seq<int>) -> Seq<Seq<char>> {
    Seq::new(places.len(), |i: int| devices@[devices.keys()[places[i]]].identity.id@)
}

/// `r` is the outcome of looking for the one device whose lowered name is the
/// needle.
pub open spec fn named_device(
    devices: DeviceMap,
    lowered: Seq<Option<Seq<char>>>,
    needle: Seq<char>,
    name: Seq<char>,
    r: Result<DeviceId, ManagerError>,
) -> bool {
    let places = places_of(lowered, needle);
    if places.len() == 1 {
        r == Ok::<DeviceId, ManagerError>(devices@[devices.keys()[places[0]]].identity.id)
    } else if places.len() == 0 {
        viewed(r) == Err::<DeviceId, ManagerErrorView>(
            ManagerErrorView::InvalidUpdate("no device with display name "@ + quoted(name)),
        )
    } else {
        viewed(r) == Err::<DeviceId, ManagerErrorView>(
            ManagerErrorView::AmbiguousDevice {
                selection: TransportSelection::Auto,
                candidates: ids_at(devices, places),
            },
        )
    }
}

/// Picks the one device whose lowered name is the needle. `lowered` holds the
/// lower-case display names in key order.
pub fn choose_by_name(
    devices: &DeviceMap,
    lowered: &Vec<Option<String>>,
    needle: &str,
    name: &str,
) -> (r: Result<DeviceId, ManagerError>)
    requires
        lowered@.len() == devices.keys().len(),
    ensures
        named_device(*devices, optional_texts(lowered@), needle@, name@, r),
{
    let ghost texts = optional_texts(lowered@);
    let mut found: Vec<DeviceId> = Vec::new();
    let ghost mut places: Seq<int> = Seq::empty();
    let mut i: usize = 0;
    assert(texts.subrange(0, 0) =~= Seq::<Option<Seq<char>>>::empty());
    while i < lowered.len()
        invariant
            i <= lowered@.len(),
            lowered@.len() == devices.keys().len(),
            texts == optional_texts(lowered@),
            places == places_of(texts.subrange(0, i as int), needle@),
            found@.len() == places.len(),
            forall|k: int| 0 <= k < places.len() ==> 0 <= #[trigger] places[k] < i,
            forall|k: int|
                0 <= k < places.len() ==> #[trigger] found@[k] == devices@[devices.keys()[places[k]]].identity.id,
        decreases lowered@.len() - i,
    {
        proof {
            let next = texts.subrange(0, i + 1);
            assert(next.drop_last() =~= texts.subrange(0, i as int));
            assert(next.last() == text_of(lowered@[i as int]));
        }
        let hit: bool = match &lowered[i] {
            Some(text) => same_text(text.as_str(), needle),
            None => false,
        };
        if hit {
            found.push(devices.state_at(i).identity.id.clone());
            proof {
                places = places.push(i as int);
            }
        }
        i = i + 1;
    }
    assert(texts.subrange(0, texts.len() as int) =~= texts);
    if found.len() == 1 {
        Ok(found[0].clone())
    } else if found.len() == 0 {
        let mut detail = "no device with display name ".to_owned();
        let shown = quote(name);
        detail.append(shown.as_str());
        Err(ManagerError::InvalidUpdate(detail))
    } else {
        assert(id_texts(found@) =~= ids_at(*devices, places));
        Err(
            ManagerError::AmbiguousDevice {
                selection: TransportSelection::Auto,
                candidates: found,
            },
        )
    }
}

/// The places of a text are exactly the places where it stands, each once, in
/// order.
pub proof fn lemma_places(texts: Seq<Option<Seq<char>>>, text: Seq<char>)
    ensures
        forall|k: int|
            0 <= k < places_of(texts, text).len() ==> 0 <= #[trigger] places_of(texts, text)[k]
                < texts.len() && texts[places_of(texts, text)[k]] == Some(text),
        forall|i: int|
            0 <= i < texts.len() && #[trigger] texts[i] == Some(text) ==> places_of(
                texts,
                text,
            ).contains(i),
        forall|a: int, b: int|
            #![trigger places_of(texts, text)[a], places_of(texts, text)[b]]
            0 <= a < b < places_of(texts, text).len() ==> places_of(texts, text)[a] < places_of(
                texts,
                text,
            )[b],
    decreases texts.len(),
{
    if texts.len() > 0 {
        let front = texts.drop_last();
        lemma_places(front, text);
        let before = places_of(front, text);
        let after = places_of(texts, text);
        assert forall|i: int| 0 <= i < texts.len() && #[trigger] texts[i] == Some(
            text,
        ) implies after.contains(i) by {
            if i == texts.len() - 1 {
                assert(after[after.len() - 1] == i);
            } else {
                assert(front[i] == texts[i]);
                let k = choose|k: int| 0 <= k < before.len() && before[k] == i;
                assert(after[k] == i);
            }
        }
    }
}

/// A device is found by its name exactly when its name is unique: two stored
/// devices whose names agree but for case are never told apart by guessing.
pub proof fn law_names_are_never_guessed(
    devices: DeviceMap,
    lowered: Seq<Option<Seq<char>>>,
    needle: Seq<char>,
    name: Seq<char>,
    r: Result<DeviceId, ManagerError>,
    a: int,
    b: int,
)
    requires
        named_device(devices, lowered, needle, name, r),
        0 <= a < b < lowered.len(),
        lowered[a] == Some(needle),
        lowered[b] == Some(needle),
    ensures
        r matches Err(error) && error is AmbiguousDevice,
{
    lemma_places(lowered, needle);
    let places = places_of(lowered, needle);
    let k = choose|k: int| 0 <= k < places.len() && places[k] == a;
    let l = choose|l: int| 0 <= l < places.len() && places[l] == b;
    assert(k != l);
}

/// A new mouse is stored under its own key without evidence, a stored one is
/// left alone, the first one becomes the selected one, and the next number is
/// larger than that of the new mouse.
pub proof fn law_registered_mice_are_stored(
    manager: &mut DeviceManager,
    identity: DeviceIdentity,
    r: Result<(), ManagerError>,
    number: u64,
    other: Seq<char>,
    profile: ProfileId,
)
    requires
        call_ensures(DeviceManager::register_device, (manager, identity), r),
        number > 0,
        identity.id@ == logical_key(number as nat),
    ensures
        r is Err ==> final(manager).state == old(manager).state && number == u64::MAX,
        number < u64::MAX ==> r is Ok,
        r is Ok ==> ({
            let before = old(manager).state;
            let after = final(manager).state;
            let stored = after.devices@[identity.id@];
            &&& after.devices@.dom().contains(identity.id@)
            &&& before.devices@.dom().contains(identity.id@) ==> stored
                == before.devices@[identity.id@]
            &&& !before.devices@.dom().contains(identity.id@) ==> {
                &&& stored.identity == identity
                &&& stored.profile_metadata.desired is None
                &&& stored.profile_metadata.observed is None
                &&& stored.profiles.at(profile) is None
                &&& stored.profile_names.at(profile) is None
            }
            &&& other != identity.id@ ==> after.devices@.dom().contains(other)
                == before.devices@.dom().contains(other) && after.devices@[other]
                == before.devices@[other]
            &&& before.selected_device is Some ==> after.selected_device == before.selected_device
            &&& before.selected_device is None ==> after.selected_device == Some(identity.id)
            &&& after.next_device_number > number
            &&& after.next_device_number >= before.next_device_number
            &&& after.next_device_number == before.next_device_number || after.next_device_number
                == number + 1
            &&& after.identity_mode == before.identity_mode
            &&& after.identity_setup == before.identity_setup
        }),
{
    crate::device::lemma_logical_number(identity.id@, number);
}

/// The device holds a wanted or an observed value somewhere.
pub open spec fn holds_anything(device: DeviceState) -> bool {
    ||| device.profile_metadata.desired is Some
    ||| device.profile_metadata.observed is Some
    ||| exists|profile: ProfileId|
        {
            &&& #[trigger] device.profiles.at(profile) matches Some(slot)
            &&& slot.dpi.desired is Some || slot.dpi.observed is Some || slot.preferences.desired
                is Some || slot.preferences.observed is Some || slot.buttons.desired is Some
                || slot.buttons.observed is Some || slot.polling_rate.desired is Some
                || slot.polling_rate.observed is Some
        }
}

/// A stored mouse is forgotten exactly where it holds no evidence or where that
/// is forced; only it goes, and with it the selection where it was selected.
/// Its number is not handed out again.
pub proof fn law_forgetting_needs_force(
    manager: &mut DeviceManager,
    device: &DeviceId,
    force: bool,
    r: Result<bool, ManagerError>,
    other: Seq<char>,
)
    requires
        call_ensures(DeviceManager::forget_device, (manager, device, force), r),
    ensures
        ({
            let before = old(manager).state;
            let after = final(manager).state;
            let stored = before.devices@.dom().contains(device@);
            let kept = stored && holds_anything(before.devices@[device@]) && !force;
            &&& !stored ==> viewed(r) == Err::<bool, ManagerErrorView>(
                ManagerErrorView::DeviceNotFound(device@),
            )
            &&& !stored || kept ==> after == before
            &&& stored ==> r == Ok::<bool, ManagerError>(!kept)
            &&& stored && !kept ==> !after.devices@.dom().contains(device@)
            &&& other != device@ ==> after.devices@.dom().contains(other)
                == before.devices@.dom().contains(other) && (after.devices@.dom().contains(other)
                ==> after.devices@[other] == before.devices@[other])
            &&& stored && !kept ==> (match before.selected_device {
                Some(selected) => if selected@ == device@ {
                    after.selected_device is None
                } else {
                    after.selected_device == before.selected_device
                },
                None => after.selected_device is None,
            })
            &&& after.next_device_number == before.next_device_number
            &&& after.identity_mode == before.identity_mode
            &&& after.identity_setup == before.identity_setup
        }),
{
    let before = old(manager).state;
    if before.devices@.dom().contains(device@) {
        let held = before.devices@[device@];
        crate::state::law_evidence_is_any_value(held, ProfileId::One);
        crate::state::law_evidence_is_any_value(held, ProfileId::Two);
        crate::state::law_evidence_is_any_value(held, ProfileId::Three);
        crate::state::law_evidence_is_any_value(held, ProfileId::Four);
        crate::state::law_evidence_is_any_value(held, ProfileId::Five);
        if holds_anything(held) && !held.has_evidence() {
            let p = choose|profile: ProfileId|
                {
                    &&& #[trigger] held.profiles.at(profile) matches Some(slot)
                    &&& slot.dpi.desired is Some || slot.dpi.observed is Some
                        || slot.preferences.desired is Some || slot.preferences.observed is Some
                        || slot.buttons.desired is Some || slot.buttons.observed is Some
                        || slot.polling_rate.desired is Some || slot.polling_rate.observed is Some
                };
            crate::state::law_evidence_is_any_value(held, p);
        }
        if held.has_evidence() && held.profile_metadata.desired is None
            && held.profile_metadata.observed is None {
            let p = choose|p: ProfileId|
                {
                    &&& #[trigger] held.profiles.at(p) matches Some(slot)
                    &&& !is_bare(slot.dpi) || !is_bare(slot.preferences) || !is_bare(slot.buttons)
                        || !is_bare(slot.polling_rate)
                };
            assert(held.profiles.at(p) is Some);
        }
    }
}

/// Renaming a stored mouse gives it the trimmed name, or none where the name is
/// blank; preferring a transport sets that preference; selecting selects it.
/// Each changes that one thing alone, and an unknown mouse is an error.
pub proof fn law_settings_change_one_thing(
    renaming: &mut DeviceManager,
    preferring: &mut DeviceManager,
    selecting: &mut DeviceManager,
    device: &DeviceId,
    name: &str,
    transport: TransportKind,
    renamed: Result<(), ManagerError>,
    preferred: Result<(), ManagerError>,
    selected: Result<(), ManagerError>,
)
    requires
        call_ensures(DeviceManager::rename_device, (renaming, device, name), renamed),
        call_ensures(
            DeviceManager::set_preferred_transport,
            (preferring, device, transport),
            preferred,
        ),
        call_ensures(DeviceManager::select_device, (selecting, device), selected),
    ensures
        renamed is Ok <==> old(renaming).state.devices@.dom().contains(device@),
        preferred is Ok <==> old(preferring).state.devices@.dom().contains(device@),
        selected is Ok <==> old(selecting).state.devices@.dom().contains(device@),
        renamed is Ok ==> ({
            let before = old(renaming).state.devices@[device@];
            let after = final(renaming).state.devices@[device@];
            &&& only_mouse_changes(old(renaming).state, final(renaming).state, device@)
            &&& trimmed(name@).len() > 0 ==> (after.identity.display_name matches Some(text)
                && text@ == trimmed(name@))
            &&& trimmed(name@).len() == 0 ==> after.identity.display_name is None
            &&& after.identity.id == before.identity.id
            &&& after.identity.endpoints == before.identity.endpoints
            &&& after.identity.preferred_transport == before.identity.preferred_transport
            &&& after.identity.physical_id == before.identity.physical_id
            &&& after.profile_metadata == before.profile_metadata
            &&& after.profiles == before.profiles
            &&& after.profile_names == before.profile_names
        }),
        preferred is Ok ==> ({
            let before = old(preferring).state.devices@[device@];
            let after = final(preferring).state.devices@[device@];
            &&& only_mouse_changes(old(preferring).state, final(preferring).state, device@)
            &&& after.identity.preferred_transport == Some(transport)
            &&& after.identity.id == before.identity.id
            &&& after.identity.endpoints == before.identity.endpoints
            &&& after.identity.display_name == before.identity.display_name
            &&& after.identity.physical_id == before.identity.physical_id
            &&& after.profile_metadata == before.profile_metadata
            &&& after.profiles == before.profiles
            &&& after.profile_names == before.profile_names
        }),
        selected is Ok ==> {
            let before = old(selecting).state;
            let after = final(selecting).state;
            &&& after.selected_device == Some(*device)
            &&& after.devices == before.devices
            &&& after.next_device_number == before.next_device_number
            &&& after.identity_mode == before.identity_mode
            &&& after.identity_setup == before.identity_setup
        },
        renamed is Err ==> nothing_changes(old(renaming).state, final(renaming).state),
        preferred is Err ==> nothing_changes(old(preferring).state, final(preferring).state),
        selected is Err ==> nothing_changes(old(selecting).state, final(selecting).state),
{
    if renamed is Ok {
        lemma_one_mouse(
            old(renaming).state.devices@,
            device@,
            final(renaming).state.devices@[device@],
        );
    }
    if preferred is Ok {
        lemma_one_mouse(
            old(preferring).state.devices@,
            device@,
            final(preferring).state.devices@[device@],
        );
    }
}

/// The stored mouse with this key has a display name whose lower-case form is
/// the given one.
pub open spec fn answers_to(devices: DeviceMap, key: Seq<char>, lowered: Seq<char>) -> bool {
    &&& devices@.dom().contains(key)
    &&& devices@[key].identity.display_name matches Some(name)
    &&& lowercase(name@) == lowered
}

/// A name finds the mouse whose name it is, but for case and outer white space,
/// exactly where there is one such mouse and no other.
pub proof fn law_unique_names_are_found(
    manager: &DeviceManager,
    name: &str,
    r: Result<DeviceId, ManagerError>,
    key: Seq<char>,
)
    requires
        manager.state.devices.listed(),
        call_ensures(DeviceManager::find_device_by_name, (manager, name), r),
    ensures
        ({
            let devices = manager.state.devices;
            let lowered = lowercase(trimmed(name@));
            &&& answers_to(devices, key, lowered) && (forall|other: Seq<char>| #[trigger]
                answers_to(devices, other, lowered) ==> other == key) ==> r == Ok::<
                DeviceId,
                ManagerError,
            >(devices@[key].identity.id)
            &&& r matches Ok(id) ==> exists|found: Seq<char>|
                {
                    &&& #[trigger] answers_to(devices, found, lowered)
                    &&& devices@[found].identity.id == id
                    &&& forall|other: Seq<char>| #[trigger]
                        answers_to(devices, other, lowered) ==> other == found
                }
            &&& (forall|other: Seq<char>| !#[trigger] answers_to(devices, other, lowered)) ==> (
            viewed(r) matches Err(error) && error is InvalidUpdate)
            &&& r is Err && answers_to(devices, key, lowered) ==> (viewed(r) matches Err(error)
                && error is AmbiguousDevice)
        }),
{
    let devices = manager.state.devices;
    let lowered = lowercase(trimmed(name@));
    let names = lowered_names(devices);
    let places = places_of(names, lowered);
    lemma_places(names, lowered);
    assert forall|i: int| 0 <= i < devices.keys().len() implies #[trigger] answers_to(
        devices,
        devices.keys()[i],
        lowered,
    ) == (names[i] == Some(lowered)) by {
        assert(devices@.dom().contains(devices.keys()[i]));
    }
    assert forall|other: Seq<char>| #[trigger] answers_to(devices, other, lowered) implies exists|
        k: int,
    | 0 <= k < places.len() && devices.keys()[#[trigger] places[k]] == other by {
        let i = choose|i: int| 0 <= i < devices.keys().len() && #[trigger] devices.keys()[i] == other;
        assert(answers_to(devices, devices.keys()[i], lowered));
        assert(names[i] == Some(lowered));
        let k = choose|k: int| 0 <= k < places.len() && places[k] == i;
        assert(devices.keys()[places[k]] == other);
    }
    if places.len() > 0 {
        let first = devices.keys()[places[0]];
        assert(names[places[0]] == Some(lowered));
        assert(answers_to(devices, first, lowered));
        if places.len() > 1 {
            let second = devices.keys()[places[1]];
            assert(names[places[1]] == Some(lowered));
            assert(answers_to(devices, second, lowered));
            assert(places[0] < places[1]);
            crate::text::lemma_lex_irreflexive(first);
            assert(first != second);
        }
    }
}

} // verus!
