//! Beginning a ceremony.

use vstd::prelude::*;

use crate::ceremony::finalize::{refusal, refused};
use crate::ceremony::progress::{
    ceremony_phase, ceremony_progress_from_journal, phase_of, progress_of,
};
use crate::device::{DeviceEndpoint, DeviceId, DeviceLocator, LocatorView};
use crate::error::{viewed, ManagerError, ManagerErrorView};
use crate::manager::{not_found, DeviceManager};
use crate::operation::{DiscoveredEndpoint, IdentityCeremonyKind, IdentityCeremonyProgress};
use crate::protocol::{is_usb_transport, TransportKind};
use crate::slots::TransportMap;
use crate::state::{
    DeviceState, IdentityMode, IdentitySetupJournal, IdentitySetupPhase, IdentitySetupStage,
    StateFile,
};

verus! {

/// The key of an optional target.
pub open spec fn target_key(target: Option<DeviceId>) -> Option<Seq<char>> {
    match target {
        Some(id) => Some(id@),
        None => None,
    }
}

/// The logical mouse of a restore or a BLE association, or why it will not do.
pub open spec fn target_refusal(
    state: StateFile,
    phase: IdentitySetupPhase,
    target: Option<Seq<char>>,
) -> Option<ManagerErrorView> {
    match target {
        None => Some(
            refusal(
                phase,
                "requires-target"@,
                "restore and BLE association require the logical mouse to operate on"@,
            ),
        ),
        Some(key) => if !state.devices@.dom().contains(key) {
            Some(not_found(key))
        } else if phase is Restore && state.devices@[key].identity.physical_id is None {
            Some(
                refusal(
                    phase,
                    "requires-physical-id"@,
                    key + " has no physical identity to restore"@,
                ),
            )
        } else {
            None
        },
    }
}

/// Why a ceremony cannot begin, whatever is attached right now.
pub open spec fn begin_refusal(
    state: StateFile,
    kind: IdentityCeremonyKind,
    target: Option<Seq<char>>,
) -> Option<ManagerErrorView> {
    let phase = phase_of(kind);
    if state.identity_setup is Some {
        Some(
            ManagerErrorView::IdentitySetupInProgress { phase: state.identity_setup->0.phase },
        )
    } else if phase is InitialEnrollment && !(state.identity_mode is Legacy) {
        Some(
            refusal(
                phase,
                "already-persistent"@,
                "initial enrollment is the Legacy -> Persistent transition; this installation already has persistent physical identity"@,
            ),
        )
    } else if !(phase is InitialEnrollment) && !(state.identity_mode is Persistent) {
        Some(
            refusal(
                phase,
                "requires-persistent"@,
                "this ceremony requires persistent physical identity"@,
            ),
        )
    } else if phase is Restore || phase is BleAssociation {
        target_refusal(state, phase, target)
    } else {
        None
    }
}

/// One of the endpoints on record has the locator.
pub open spec fn has_locator(
    endpoints: TransportMap<DeviceEndpoint>,
    locator: LocatorView,
) -> bool {
    ||| endpoints.wired matches Some(e) && e.locator@ == locator
    ||| endpoints.receiver matches Some(e) && e.locator@ == locator
    ||| endpoints.ble matches Some(e) && e.locator@ == locator
}

fn slot_has_locator(slot: &Option<DeviceEndpoint>, locator: &DeviceLocator) -> (r: bool)
    ensures
        r == (*slot matches Some(e) && e.locator@ == locator@),
{
    match slot {
        Some(endpoint) => endpoint.locator.same_locator(locator),
        None => false,
    }
}

/// Tells whether one of the endpoints has the locator.
pub(crate) fn owns_locator(
    endpoints: &TransportMap<DeviceEndpoint>,
    locator: &DeviceLocator,
) -> (r: bool)
    ensures
        r == has_locator(*endpoints, locator@),
{
    slot_has_locator(&endpoints.wired, locator) || slot_has_locator(&endpoints.receiver, locator)
        || slot_has_locator(&endpoints.ble, locator)
}

/// One of the endpoints on record is connected over USB.
pub open spec fn still_attached(
    endpoints: TransportMap<DeviceEndpoint>,
    attached: Seq<DiscoveredEndpoint>,
) -> bool {
    exists|i: int|
        #![trigger attached[i]]
        0 <= i < attached.len() && attached[i].connected
            && attached[i].endpoint.transport.is_usb() && has_locator(
            endpoints,
            attached[i].endpoint.locator@,
        )
}

fn is_still_attached(
    endpoints: &TransportMap<DeviceEndpoint>,
    attached: &Vec<DiscoveredEndpoint>,
) -> (r: bool)
    ensures
        r == still_attached(*endpoints, attached@),
{
    let mut i: usize = 0;
    while i < attached.len()
        invariant
            i <= attached@.len(),
            forall|j: int|
                #![trigger attached@[j]]
                0 <= j < i ==> !(attached@[j].connected
                    && attached@[j].endpoint.transport.is_usb() && has_locator(
                    *endpoints,
                    attached@[j].endpoint.locator@,
                )),
        decreases attached@.len() - i,
    {
        if attached[i].connected && is_usb_transport(attached[i].endpoint.transport)
            && owns_locator(endpoints, &attached[i].endpoint.locator) {
            assert(attached@[i as int].connected);
            return true;
        }
        i = i + 1;
    }
    false
}

/// A fresh journal.
pub open spec fn is_opened(journal: IdentitySetupJournal, phase: IdentitySetupPhase) -> bool {
    &&& journal.phase == phase
    &&& journal.stage is AwaitingCapture
    &&& journal.subjects@.len() == 0
}

impl DeviceManager {
    /// Checks what can be checked without looking at the attached mice, and
    /// tells whether the attached USB mice have to be listed as well: only a
    /// restore needs that.
    pub fn check_begin_ceremony(
        &self,
        kind: IdentityCeremonyKind,
        target: &Option<DeviceId>,
    ) -> (r: Result<bool, ManagerError>)
        ensures
            viewed(r) == (match begin_refusal(self.state, kind, target_key(*target)) {
                Some(refused) => Err(refused),
                None => Ok(kind is Restore),
            }),
    {
        let phase = ceremony_phase(kind);
        if let Some(journal) = &self.state.identity_setup {
            return Err(ManagerError::IdentitySetupInProgress { phase: journal.phase });
        }
        let initial: bool = match phase {
            IdentitySetupPhase::InitialEnrollment => true,
            _ => false,
        };
        if initial && self.state.identity_mode != IdentityMode::Legacy {
            return Err(
                refused(
                    phase,
                    "already-persistent",
                    "initial enrollment is the Legacy -> Persistent transition; this installation already has persistent physical identity",
                ),
            );
        }
        if !initial && self.state.identity_mode != IdentityMode::Persistent {
            return Err(
                refused(
                    phase,
                    "requires-persistent",
                    "this ceremony requires persistent physical identity",
                ),
            );
        }
        let restore: bool = match phase {
            IdentitySetupPhase::Restore => true,
            IdentitySetupPhase::BleAssociation => false,
            _ => {
                return Ok(false);
            },
        };
        let target_id = match target {
            Some(id) => id,
            None => {
                return Err(
                    refused(
                        phase,
                        "requires-target",
                        "restore and BLE association require the logical mouse to operate on",
                    ),
                );
            },
        };
        match self.state.devices.get(target_id) {
            None => Err(ManagerError::DeviceNotFound(target_id.clone())),
            Some(device) => {
                if restore && device.identity.physical_id.is_none() {
                    let mut detail = target_id.as_str().to_owned();
                    detail.append(" has no physical identity to restore");
                    return Err(refused(phase, "requires-physical-id", detail.as_str()));
                }
                Ok(restore)
            },
        }
    }

    /// Begins a physical-identity ceremony.
    ///
    /// `target` selects the logical mouse of a restore or a BLE association.
    /// `attached` lists the endpoints that are attached right now; only a
    /// restore looks at the USB ones, because the saved mouse must not be connected:
    /// the reconnect gesture is what authenticates the mouse that gets the
    /// new token.
    pub fn begin_identity_ceremony(
        &mut self,
        kind: IdentityCeremonyKind,
        target: Option<DeviceId>,
        attached: &Vec<DiscoveredEndpoint>,
    ) -> (r: Result<IdentityCeremonyProgress, ManagerError>)
        ensures
            final(self).identity_cache == old(self).identity_cache,
            ({
                let before = old(self).state;
                let after = final(self).state;
                let phase = phase_of(kind);
                if begin_refusal(before, kind, target_key(target)) is Some {
                    &&& r matches Err(error)
                    &&& error@ == begin_refusal(before, kind, target_key(target))->0
                    &&& after == before
                } else if phase is Restore && still_attached(
                    before.devices@[target->0@].identity.endpoints,
                    attached@,
                ) {
                    &&& viewed(r) == Err::<IdentityCeremonyProgress, ManagerErrorView>(
                        refusal(
                            phase,
                            "device-connected"@,
                            "the saved mouse still has a connected USB endpoint; reconnect the physical mouse being assigned"@,
                        ),
                    )
                    &&& after == before
                } else {
                    &&& after.identity_setup matches Some(journal)
                    &&& is_opened(journal, phase)
                    &&& r == Ok::<IdentityCeremonyProgress, ManagerError>(progress_of(journal))
                    &&& after == (StateFile { identity_setup: Some(journal), ..before })
                }
            }),
    {
        let phase = ceremony_phase(kind);
        let restore: bool = match self.check_begin_ceremony(kind, &target) {
            Ok(restore) => restore,
            Err(error) => {
                return Err(error);
            },
        };
        if restore {
            if let Some(id) = &target {
                if let Some(device) = self.state.devices.get(id) {
                    if is_still_attached(&device.identity.endpoints, attached) {
                        return Err(
                            refused(
                                phase,
                                "device-connected",
                                "the saved mouse still has a connected USB endpoint; reconnect the physical mouse being assigned",
                            ),
                        );
                    }
                }
            }
        }
        let journal = IdentitySetupJournal {
            phase,
            stage: IdentitySetupStage::AwaitingCapture,
            subjects: Vec::new(),
        };
        let progress = ceremony_progress_from_journal(&journal);
        self.state.identity_setup = Some(journal);
        Ok(progress)
    }
}

/// Only one ceremony runs at a time, the first enrollment is the only one that
/// begins without persistent identity, and a restore has a mouse with a token
/// to restore.
pub proof fn law_one_ceremony_at_a_time(
    state: StateFile,
    kind: IdentityCeremonyKind,
    target: Option<Seq<char>>,
)
    ensures
        state.identity_setup is Some ==> begin_refusal(state, kind, target) is Some,
        begin_refusal(state, kind, target) is None ==> (kind is InitialEnrollment
            <==> state.identity_mode is Legacy),
        begin_refusal(state, kind, target) is None && (kind is Restore || kind is BleAssociation)
            ==> target is Some && state.devices@.dom().contains(target->0),
        begin_refusal(state, kind, target) is None && kind is Restore
            ==> state.devices@[target->0].identity.physical_id is Some,
{
}

/// A ceremony begins exactly where none is running, the installation is of the
/// right sort, and a restore or an association names a stored mouse; a restore
/// also needs that mouse to have a token and none of its endpoints to be
/// connected over USB. It begins with an empty journal of its own phase, and
/// nothing else changes.
pub proof fn law_ceremonies_begin_when_allowed(
    manager: &mut DeviceManager,
    kind: IdentityCeremonyKind,
    target: Option<DeviceId>,
    attached: &Vec<DiscoveredEndpoint>,
    r: Result<IdentityCeremonyProgress, ManagerError>,
)
    requires
        call_ensures(
            DeviceManager::begin_identity_ceremony,
            (manager, kind, target, attached),
            r,
        ),
    ensures
        ({
            let before = old(manager).state;
            let after = final(manager).state;
            let initial = kind is InitialEnrollment;
            let mouse = before.devices@[target->0@];
            let named = target is Some && before.devices@.dom().contains(target->0@);
            let connected = exists|i: int|
                0 <= i < attached@.len() && (#[trigger] attached@[i]).connected && !(
                attached@[i].endpoint.transport is Ble) && reached_by(
                    mouse,
                    attached@[i].endpoint.locator@,
                );
            &&& r is Ok <==> {
                &&& before.identity_setup is None
                &&& initial <==> before.identity_mode is Legacy
                &&& kind is Restore || kind is BleAssociation ==> named
                &&& kind is Restore ==> mouse.identity.physical_id is Some && !connected
            }
            &&& r is Err ==> after == before
            &&& r is Ok ==> {
                &&& after.identity_setup matches Some(journal)
                &&& journal.stage is AwaitingCapture
                &&& journal.subjects@.len() == 0
                &&& journal.phase is InitialEnrollment <==> kind is InitialEnrollment
                &&& journal.phase is AddMouse <==> kind is AddMouse
                &&& journal.phase is Restore <==> kind is Restore
                &&& journal.phase is ForeignAdoption <==> kind is ForeignAdoption
                &&& journal.phase is BleAssociation <==> kind is BleAssociation
                &&& after.devices == before.devices
                &&& after.identity_mode == before.identity_mode
                &&& after.selected_device == before.selected_device
                &&& after.next_device_number == before.next_device_number
            }
            &&& before.identity_setup matches Some(journal) ==> (viewed(r) matches Err(
                ManagerErrorView::IdentitySetupInProgress { phase },
            ) && phase == journal.phase)
        }),
{
    let before = old(manager).state;
    let mouse = before.devices@[target->0@];
    assert forall|locator: LocatorView| #[trigger] has_locator(
        mouse.identity.endpoints,
        locator,
    ) == reached_by(mouse, locator) by {
        lemma_reached_by(mouse, locator);
    }
    assert(still_attached(mouse.identity.endpoints, attached@) == (exists|i: int|
        0 <= i < attached@.len() && (#[trigger] attached@[i]).connected && !(
        attached@[i].endpoint.transport is Ble) && reached_by(
            mouse,
            attached@[i].endpoint.locator@,
        )));
}

/// Some endpoint of the mouse has the locator.
pub open spec fn reached_by(mouse: DeviceState, locator: LocatorView) -> bool {
    exists|transport: TransportKind|
        {
            &&& #[trigger] mouse.identity.endpoints.at(transport) matches Some(endpoint)
            &&& endpoint.locator@ == locator
        }
}

pub(crate) proof fn lemma_reached_by(mouse: DeviceState, locator: LocatorView)
    ensures
        has_locator(mouse.identity.endpoints, locator) == reached_by(mouse, locator),
{
    let endpoints = mouse.identity.endpoints;
    assert(endpoints.at(TransportKind::Wired) == endpoints.wired);
    assert(endpoints.at(TransportKind::Receiver) == endpoints.receiver);
    assert(endpoints.at(TransportKind::Ble) == endpoints.ble);
}

/// What can be checked beforehand is checked beforehand: where it passes, only
/// a restore can still be refused, because its mouse is connected.
pub proof fn law_only_restores_look_at_the_attached(
    manager: &mut DeviceManager,
    kind: IdentityCeremonyKind,
    target: Option<DeviceId>,
    attached: &Vec<DiscoveredEndpoint>,
    checked: Result<bool, ManagerError>,
    r: Result<IdentityCeremonyProgress, ManagerError>,
)
    requires
        call_ensures(DeviceManager::check_begin_ceremony, (&*old(manager), kind, &target), checked),
        call_ensures(
            DeviceManager::begin_identity_ceremony,
            (manager, kind, target, attached),
            r,
        ),
    ensures
        checked matches Ok(look) ==> (look <==> kind is Restore),
        checked == Ok::<bool, ManagerError>(false) ==> r is Ok,
        checked matches Err(refused) ==> (r matches Err(error) && error@ == refused@),
{
}

/// A refused beginning says why in a word: a second enrollment, a ceremony
/// without persistent identity, a missing target, a target without a token, or
/// a mouse that is still connected.
pub proof fn law_refused_beginnings_say_why(
    manager: &mut DeviceManager,
    kind: IdentityCeremonyKind,
    target: Option<DeviceId>,
    attached: &Vec<DiscoveredEndpoint>,
    r: Result<IdentityCeremonyProgress, ManagerError>,
)
    requires
        call_ensures(
            DeviceManager::begin_identity_ceremony,
            (manager, kind, target, attached),
            r,
        ),
        old(manager).state.identity_setup is None,
        r is Err,
    ensures
        ({
            let state = old(manager).state;
            let legacy = state.identity_mode is Legacy;
            let bound = kind is Restore || kind is BleAssociation;
            let stored = target is Some && state.devices@.dom().contains(target->0@);
            let tokened = state.devices@[target->0@].identity.physical_id is Some;
            let says = |word: Seq<char>|
                viewed(r) matches Err(
                    ManagerErrorView::IdentityCeremonyRefused { phase, reason, detail },
                ) && reason == word;
            &&& kind is InitialEnrollment && !legacy ==> says("already-persistent"@)
            &&& !(kind is InitialEnrollment) && legacy ==> says("requires-persistent"@)
            &&& bound && !legacy && target is None ==> says("requires-target"@)
            &&& bound && !legacy && target is Some && !stored ==> viewed(r) == Err::<
                IdentityCeremonyProgress,
                ManagerErrorView,
            >(ManagerErrorView::DeviceNotFound(target->0@))
            &&& kind is Restore && !legacy && stored && !tokened ==> says("requires-physical-id"@)
            &&& kind is Restore && !legacy && stored && tokened ==> says("device-connected"@)
        }),
{
}

} // verus!
