//! Keeping stored endpoint associations in step with a scan, and summing a
//! scan up per logical mouse.

use vstd::prelude::*;

use crate::device::{DeviceEndpoint, DeviceId, DeviceIdentity, TransportSelection};
use crate::devices::DeviceMap;
use crate::error::{ManagerError, ManagerErrorView};
use crate::operation::{
    DiscoveredDevice, DiscoveredEndpoint, IdentityResolution, ResolvedConnection,
};
use crate::protocol::{ProfileId, TransportKind};
use crate::slots::TransportMap;
use crate::state::{allocation_error, DeviceState, StateFile};
use crate::text::{lex_less, nonblank, text_of};

verus! {

/// The endpoints of a scan by transport, the later ones on top.
pub open spec fn listed_endpoints(discovered: Seq<DiscoveredEndpoint>) -> TransportMap<
    DeviceEndpoint,
>
    decreases discovered.len(),
{
    if discovered.len() == 0 {
        TransportMap::empty()
    } else {
        let last = discovered.last().endpoint;
        listed_endpoints(discovered.drop_last()).with(last.transport, Some(last))
    }
}

/// The one fuzzy mouse that the first discovery of a legacy installation makes.
pub open spec fn is_legacy_mouse(
    device: DeviceState,
    key: Seq<char>,
    discovered: Seq<DiscoveredEndpoint>,
) -> bool {
    &&& device.identity.id@ == key
    &&& text_of(device.identity.display_name) == (if discovered.len() == 0 {
        None
    } else {
        nonblank(text_of(discovered[0].endpoint.display_name))
    })
    &&& device.identity.endpoints == listed_endpoints(discovered)
    &&& device.identity.preferred_transport is None
    &&& device.identity.physical_id is None
    &&& device == DeviceState::fresh(device.identity)
}

/// Makes the one fuzzy mouse of a legacy installation unless a mouse is
/// stored already.
pub fn ensure_legacy_mouse(state: &mut StateFile, discovered: &Vec<DiscoveredEndpoint>) -> (r:
    Result<(), ManagerError>)
    ensures
        ({
            let before = *old(state);
            let after = *final(state);
            let number = before.next_device_number;
            let key = crate::device::logical_key(number as nat);
            if before.devices@ != Map::<Seq<char>, DeviceState>::empty() {
                r is Ok && after == before
            } else if 0 < number < u64::MAX {
                &&& r is Ok
                &&& after.next_device_number == number + 1
                &&& after.selected_device == before.selected_device
                &&& after.identity_mode == before.identity_mode
                &&& after.identity_setup == before.identity_setup
                &&& after.devices@.dom().contains(key)
                &&& is_legacy_mouse(after.devices@[key], key, discovered@)
                &&& after.devices@ == Map::<Seq<char>, DeviceState>::empty().insert(
                    key,
                    after.devices@[key],
                )
            } else {
                &&& after == before
                &&& crate::error::viewed(r) == Err::<(), ManagerErrorView>(
                    ManagerErrorView::State(allocation_error(number)),
                )
            }
        }),
{
    if !state.devices.is_empty() {
        return Ok(());
    }
    let id = match state.allocate_device_id() {
        Ok(id) => id,
        Err(error) => {
            return Err(ManagerError::State(error));
        },
    };
    let display_name: Option<String> = if discovered.len() > 0 {
        discovered[0].endpoint.display_name.clone()
    } else {
        None
    };
    let mut identity = DeviceIdentity::new(id.clone(), display_name);
    let ghost named = identity;
    let mut i: usize = 0;
    assert(discovered@.subrange(0, 0) =~= Seq::<DiscoveredEndpoint>::empty());
    while i < discovered.len()
        invariant
            i <= discovered@.len(),
            identity == (DeviceIdentity {
                endpoints: listed_endpoints(discovered@.subrange(0, i as int)),
                ..named
            }),
        decreases discovered@.len() - i,
    {
        proof {
            let next = discovered@.subrange(0, i + 1);
            assert(next.drop_last() =~= discovered@.subrange(0, i as int));
            assert(next.last() == discovered@[i as int]);
        }
        identity.upsert_endpoint(discovered[i].endpoint.clone());
        i = i + 1;
    }
    assert(discovered@.subrange(0, discovered@.len() as int) =~= discovered@);
    let device = DeviceState::new(identity);
    state.devices.insert(id, device);
    Ok(())
}

/// The row was resolved to the mouse with this key.
pub open spec fn row_of(row: ResolvedConnection, key: Seq<char>) -> bool {
    row.resolution matches IdentityResolution::Resolved { identity } && identity@ == key
}

/// Some row was resolved to the mouse with this key.
pub open spec fn has_row(rows: Seq<ResolvedConnection>, key: Seq<char>) -> bool {
    exists|i: int| 0 <= i < rows.len() && row_of(#[trigger] rows[i], key)
}

/// The endpoints that the rows of one mouse show, the later ones on top of the
/// ones that were there.
pub open spec fn overlaid_rows(
    endpoints: TransportMap<DeviceEndpoint>,
    rows: Seq<ResolvedConnection>,
    key: Seq<char>,
) -> TransportMap<DeviceEndpoint>
    decreases rows.len(),
{
    if rows.len() == 0 {
        endpoints
    } else {
        let before = overlaid_rows(endpoints, rows.drop_last(), key);
        let last = rows.last();
        if row_of(last, key) {
            before.with(last.endpoint.transport, Some(last.endpoint))
        } else {
            before
        }
    }
}

/// The transport is part of the scan.
pub open spec fn is_scanned(selection: TransportSelection, transport: TransportKind) -> bool {
    match selection {
        TransportSelection::Auto => true,
        TransportSelection::Exact(exact) => transport == exact,
    }
}

/// What a scan leaves of stored endpoints: BLE associations and transports that
/// were not scanned.
pub open spec fn undropped(
    endpoints: TransportMap<DeviceEndpoint>,
    selection: TransportSelection,
) -> TransportMap<DeviceEndpoint> {
    TransportMap {
        wired: if is_scanned(selection, TransportKind::Wired) {
            None
        } else {
            endpoints.wired
        },
        receiver: if is_scanned(selection, TransportKind::Receiver) {
            None
        } else {
            endpoints.receiver
        },
        ble: endpoints.ble,
    }
}

/// A mouse after a scan: where some row was resolved to it, its endpoints are
/// those that the scan shows and those that it could not drop.
pub open spec fn synced(
    device: DeviceState,
    key: Seq<char>,
    rows: Seq<ResolvedConnection>,
    selection: TransportSelection,
) -> DeviceState {
    if has_row(rows, key) {
        DeviceState {
            identity: DeviceIdentity {
                endpoints: overlaid_rows(
                    undropped(device.identity.endpoints, selection),
                    rows,
                    key,
                ),
                ..device.identity
            },
            ..device
        }
    } else {
        device
    }
}

/// The stored mice after a scan.
pub open spec fn synced_devices(
    devices: Map<Seq<char>, DeviceState>,
    rows: Seq<ResolvedConnection>,
    selection: TransportSelection,
) -> Map<Seq<char>, DeviceState> {
    devices.map_entries(
        |key: Seq<char>, device: DeviceState| synced(device, key, rows, selection),
    )
}

fn is_row_of(row: &ResolvedConnection, key: &DeviceId) -> (r: bool)
    ensures
        r == row_of(*row, key@),
{
    match &row.resolution {
        IdentityResolution::Resolved { identity } => identity.same_key(key),
        IdentityResolution::Unassociated { .. } => false,
    }
}

fn scans(selection: TransportSelection, transport: TransportKind) -> (r: bool)
    ensures
        r == is_scanned(selection, transport),
{
    match selection {
        TransportSelection::Auto => true,
        TransportSelection::Exact(exact) => transport == exact,
    }
}

fn sync_device(
    device: DeviceState,
    key: &DeviceId,
    rows: &Vec<ResolvedConnection>,
    selection: TransportSelection,
) -> (r: DeviceState)
    ensures
        r == synced(device, key@, rows@, selection),
{
    let mut endpoints: TransportMap<DeviceEndpoint> = TransportMap {
        wired: if scans(selection, TransportKind::Wired) {
            None
        } else {
            device.identity.endpoints.wired.clone()
        },
        receiver: if scans(selection, TransportKind::Receiver) {
            None
        } else {
            device.identity.endpoints.receiver.clone()
        },
        ble: device.identity.endpoints.ble.clone(),
    };
    let ghost kept = endpoints;
    assert(kept == undropped(device.identity.endpoints, selection));
    let mut any: bool = false;
    let mut i: usize = 0;
    assert(rows@.subrange(0, 0) =~= Seq::<ResolvedConnection>::empty());
    while i < rows.len()
        invariant
            i <= rows@.len(),
            any == (exists|j: int| 0 <= j < i && row_of(#[trigger] rows@[j], key@)),
            endpoints == overlaid_rows(kept, rows@.subrange(0, i as int), key@),
        decreases rows@.len() - i,
    {
        proof {
            let next = rows@.subrange(0, i + 1);
            assert(next.drop_last() =~= rows@.subrange(0, i as int));
            assert(next.last() == rows@[i as int]);
        }
        if is_row_of(&rows[i], key) {
            endpoints.insert(rows[i].endpoint.transport, rows[i].endpoint.clone());
            any = true;
            assert(row_of(rows@[i as int], key@));
        }
        i = i + 1;
    }
    assert(rows@.subrange(0, rows@.len() as int) =~= rows@);
    if any {
        let mut changed = device;
        changed.identity.endpoints = endpoints;
        changed
    } else {
        device
    }
}

/// Brings the stored endpoint associations in step with a scan.
pub fn sync_endpoint_associations(
    devices: &mut DeviceMap,
    rows: &Vec<ResolvedConnection>,
    selection: TransportSelection,
)
    ensures
        final(devices)@ == synced_devices(old(devices)@, rows@, selection),
{
    let ghost before = devices@;
    let len: usize = devices.len();
    let mut keys: Vec<DeviceId> = Vec::new();
    while keys.len() < len
        invariant
            keys@.len() <= len,
            *devices == *old(devices),
            len == devices.keys().len(),
            forall|i: int| 0 <= i < keys@.len() ==> (#[trigger] keys@[i])@ == devices.keys()[i],
        decreases len - keys@.len(),
    {
        keys.push(devices.key_at(keys.len()).clone());
    }
    let ghost texts = old(devices).keys();
    let mut i: usize = 0;
    while i < len
        invariant
            i <= len,
            len == texts.len(),
            before == old(devices)@,
            texts == old(devices).keys(),
            old(devices).listed(),
            keys@.len() == len,
            forall|j: int| 0 <= j < len ==> (#[trigger] keys@[j])@ == texts[j],
            forall|k: Seq<char>| devices@.dom().contains(k) == before.dom().contains(k),
            forall|j: int|
                #![trigger texts[j]]
                0 <= j < i ==> devices@[texts[j]] == synced(
                    before[texts[j]],
                    texts[j],
                    rows@,
                    selection,
                ),
            forall|j: int| i <= j < len ==> devices@[#[trigger] texts[j]] == before[texts[j]],
        decreases len - i,
    {
        let key = &keys[i];
        let ghost held = devices@;
        let ghost text = texts[i as int];
        assert(before.dom().contains(text));
        match devices.remove(key) {
            None => {},
            Some(device) => {
                let changed = sync_device(device, key, rows, selection);
                let ghost fresh = changed;
                devices.insert(key.clone(), changed);
                proof {
                    assert(devices@ =~= held.insert(text, fresh));
                    assert forall|j: int|
                        #![trigger texts[j]]
                        0 <= j < len && j != i implies texts[j] != text by {
                        crate::text::lemma_lex_irreflexive(text);
                    }
                }
            },
        }
        i = i + 1;
    }
    proof {
        assert forall|k: Seq<char>| #[trigger] before.dom().contains(k) implies devices@[k]
            == synced(before[k], k, rows@, selection) by {
            let j = choose|j: int| 0 <= j < len && #[trigger] old(devices).keys()[j] == k;
            assert(texts[j] == k);
        }
        assert(devices@ =~= synced_devices(before, rows@, selection));
    }
}

/// The endpoint of a transport after rows were laid over what was there: that
/// of the last row of this mouse with the transport, if there is one.
pub(crate) proof fn lemma_overlaid(
    endpoints: TransportMap<DeviceEndpoint>,
    rows: Seq<ResolvedConnection>,
    key: Seq<char>,
    transport: TransportKind,
)
    ensures
        (forall|i: int|
            0 <= i < rows.len() && row_of(#[trigger] rows[i], key) ==> rows[i].endpoint.transport
                != transport) ==> overlaid_rows(endpoints, rows, key).at(transport)
            == endpoints.at(transport),
        overlaid_rows(endpoints, rows, key).at(transport) != endpoints.at(transport) ==> exists|
            i: int,
        |
            0 <= i < rows.len() && row_of(#[trigger] rows[i], key) && rows[i].endpoint.transport
                == transport && overlaid_rows(endpoints, rows, key).at(transport) == Some(
                rows[i].endpoint,
            ),
    decreases rows.len(),
{
    if rows.len() > 0 {
        let front = rows.drop_last();
        lemma_overlaid(endpoints, front, key, transport);
        let last = rows.last();
        assert(rows[rows.len() - 1] == last);
        assert forall|i: int| 0 <= i < front.len() implies #[trigger] front[i] == rows[i] by {}
        if row_of(last, key) && last.endpoint.transport == transport {
        } else if overlaid_rows(endpoints, rows, key).at(transport) != endpoints.at(transport) {
            let i = choose|i: int|
                0 <= i < front.len() && row_of(#[trigger] front[i], key)
                    && front[i].endpoint.transport == transport && overlaid_rows(
                    endpoints,
                    front,
                    key,
                ).at(transport) == Some(front[i].endpoint);
            assert(row_of(rows[i], key));
        }
    }
}

/// A scan never drops a BLE association nor an endpoint of a transport that it
/// did not scan: such an endpoint is kept or replaced by one that the scan
/// shows. A mouse that the scan did not see is untouched, and nothing but
/// endpoints ever changes.
pub proof fn law_sync_keeps_what_it_cannot_see(
    devices: Map<Seq<char>, DeviceState>,
    rows: Seq<ResolvedConnection>,
    selection: TransportSelection,
    key: Seq<char>,
    transport: TransportKind,
)
    requires
        devices.dom().contains(key),
    ensures
        ({
            let before = devices[key];
            let after = synced_devices(devices, rows, selection)[key];
            &&& synced_devices(devices, rows, selection).dom() == devices.dom()
            &&& !has_row(rows, key) ==> after == before
            &&& after == (DeviceState {
                identity: DeviceIdentity {
                    endpoints: after.identity.endpoints,
                    ..before.identity
                },
                ..before
            })
            &&& (transport is Ble || !is_scanned(selection, transport))
                && before.identity.endpoints.at(transport) is Some
                ==> after.identity.endpoints.at(transport) is Some
        }),
{
    let before = devices[key];
    assert(synced_devices(devices, rows, selection).dom() =~= devices.dom());
    lemma_overlaid(undropped(before.identity.endpoints, selection), rows, key, transport);
}

/// One logical mouse in a scan.
pub struct DiscoveredView {
    pub identity: DeviceIdentity,
    pub connected: bool,
    pub transports: Seq<TransportKind>,
}

impl View for DiscoveredDevice {
    type V = DiscoveredView;

    open spec fn view(&self) -> DiscoveredView {
        DiscoveredView {
            identity: self.identity,
            connected: self.connected,
            transports: self.transports@,
        }
    }
}

/// Some row of the mouse was found on the transport.
pub open spec fn seen_on(
    rows: Seq<ResolvedConnection>,
    key: Seq<char>,
    transport: TransportKind,
) -> bool {
    exists|i: int|
        0 <= i < rows.len() && row_of(#[trigger] rows[i], key) && rows[i].endpoint.transport
            == transport
}

/// Some row of the mouse is connected.
pub open spec fn seen_connected(rows: Seq<ResolvedConnection>, key: Seq<char>) -> bool {
    exists|i: int| 0 <= i < rows.len() && row_of(#[trigger] rows[i], key) && rows[i].connected
}

/// The transports on which the mouse was found, in order and each once.
pub open spec fn seen_transports(rows: Seq<ResolvedConnection>, key: Seq<char>) -> Seq<
    TransportKind,
> {
    (if seen_on(rows, key, TransportKind::Wired) {
        seq![TransportKind::Wired]
    } else {
        seq![]
    }) + (if seen_on(rows, key, TransportKind::Receiver) {
        seq![TransportKind::Receiver]
    } else {
        seq![]
    }) + (if seen_on(rows, key, TransportKind::Ble) {
        seq![TransportKind::Ble]
    } else {
        seq![]
    })
}

/// The scan per mouse, for the mice with the given keys.
pub open spec fn aggregated(
    keys: Seq<Seq<char>>,
    devices: Map<Seq<char>, DeviceState>,
    rows: Seq<ResolvedConnection>,
) -> Seq<DiscoveredView>
    decreases keys.len(),
{
    if keys.len() == 0 {
        Seq::empty()
    } else {
        let key = keys.last();
        let front = aggregated(keys.drop_last(), devices, rows);
        if has_row(rows, key) {
            front.push(
                DiscoveredView {
                    identity: devices[key].identity,
                    connected: seen_connected(rows, key),
                    transports: seen_transports(rows, key),
                },
            )
        } else {
            front
        }
    }
}

pub open spec fn discovered_views(devices: Seq<DiscoveredDevice>) -> Seq<DiscoveredView> {
    Seq::new(devices.len(), |i: int| devices[i]@)
}

fn summarize(key: &DeviceId, device: &DeviceState, rows: &Vec<ResolvedConnection>) -> (r: Option<
    DiscoveredDevice,
>)
    ensures
        match r {
            Some(found) => has_row(rows@, key@) && found@ == (DiscoveredView {
                identity: device.identity,
                connected: seen_connected(rows@, key@),
                transports: seen_transports(rows@, key@),
            }),
            None => !has_row(rows@, key@),
        },
{
    let mut any: bool = false;
    let mut connected: bool = false;
    let mut wired: bool = false;
    let mut receiver: bool = false;
    let mut ble: bool = false;
    let mut i: usize = 0;
    while i < rows.len()
        invariant
            i <= rows@.len(),
            any == (exists|j: int| 0 <= j < i && row_of(#[trigger] rows@[j], key@)),
            connected == (exists|j: int|
                0 <= j < i && row_of(#[trigger] rows@[j], key@) && rows@[j].connected),
            wired == (exists|j: int|
                0 <= j < i && row_of(#[trigger] rows@[j], key@) && rows@[j].endpoint.transport
                    == TransportKind::Wired),
            receiver == (exists|j: int|
                0 <= j < i && row_of(#[trigger] rows@[j], key@) && rows@[j].endpoint.transport
                    == TransportKind::Receiver),
            ble == (exists|j: int|
                0 <= j < i && row_of(#[trigger] rows@[j], key@) && rows@[j].endpoint.transport
                    == TransportKind::Ble),
        decreases rows@.len() - i,
    {
        if is_row_of(&rows[i], key) {
            assert(row_of(rows@[i as int], key@));
            any = true;
            if rows[i].connected {
                connected = true;
            }
            match rows[i].endpoint.transport {
                TransportKind::Wired => {
                    wired = true;
                },
                TransportKind::Receiver => {
                    receiver = true;
                },
                TransportKind::Ble => {
                    ble = true;
                },
            }
        }
        i = i + 1;
    }
    if !any {
        return None;
    }
    let mut transports: Vec<TransportKind> = Vec::new();
    if wired {
        transports.push(TransportKind::Wired);
    }
    if receiver {
        transports.push(TransportKind::Receiver);
    }
    if ble {
        transports.push(TransportKind::Ble);
    }
    assert(transports@ =~= seen_transports(rows@, key@));
    Some(DiscoveredDevice { identity: device.identity.clone(), connected, transports })
}

/// Sums a scan up into one row per logical mouse, in key order.
pub fn aggregate_discovered_devices(devices: &DeviceMap, rows: &Vec<ResolvedConnection>) -> (r: Vec<
    DiscoveredDevice,
>)
    ensures
        discovered_views(r@) == aggregated(devices.keys(), devices@, rows@),
{
    let mut found: Vec<DiscoveredDevice> = Vec::new();
    let len: usize = devices.len();
    let ghost keys = devices.keys();
    let mut i: usize = 0;
    assert(keys.subrange(0, 0) =~= Seq::<Seq<char>>::empty());
    assert(discovered_views(found@) =~= Seq::<DiscoveredView>::empty());
    while i < len
        invariant
            i <= len,
            len == keys.len(),
            keys == devices.keys(),
            discovered_views(found@) == aggregated(keys.subrange(0, i as int), devices@, rows@),
        decreases len - i,
    {
        proof {
            let next = keys.subrange(0, i + 1);
            assert(next.drop_last() =~= keys.subrange(0, i as int));
            assert(next.last() == keys[i as int]);
        }
        let ghost earlier = found@;
        match summarize(devices.key_at(i), devices.state_at(i), rows) {
            Some(device) => {
                let ghost fresh = device;
                found.push(device);
                assert(discovered_views(found@) =~= discovered_views(earlier).push(fresh@));
            },
            None => {},
        }
        i = i + 1;
    }
    assert(keys.subrange(0, keys.len() as int) =~= keys);
    found
}

/// The row names the mouse with this key.
pub open spec fn names_mouse(row: ResolvedConnection, key: Seq<char>) -> bool {
    match row.resolution {
        IdentityResolution::Resolved { identity } => identity@ == key,
        IdentityResolution::Unassociated { .. } => false,
    }
}

/// What a scan makes of the endpoint that a mouse has on a transport. Where a
/// row of the mouse was found on the transport, it is the endpoint of the last
/// such row. Where none was, a USB endpoint of a mouse that the scan found is
/// dropped on a transport that was scanned, and any other endpoint stays.
pub open spec fn scan_decides(
    before: Option<DeviceEndpoint>,
    after: Option<DeviceEndpoint>,
    rows: Seq<ResolvedConnection>,
    selection: TransportSelection,
    key: Seq<char>,
    transport: TransportKind,
) -> bool {
    let scanned = selection is Auto || selection == TransportSelection::Exact(transport);
    let found = exists|i: int| 0 <= i < rows.len() && names_mouse(#[trigger] rows[i], key);
    let shown = exists|i: int|
        0 <= i < rows.len() && names_mouse(#[trigger] rows[i], key) && rows[i].endpoint.transport
            == transport;
    &&& shown ==> exists|i: int|
        0 <= i < rows.len() && names_mouse(#[trigger] rows[i], key) && rows[i].endpoint.transport
            == transport && after == Some(rows[i].endpoint) && forall|j: int|
            i < j < rows.len() && names_mouse(#[trigger] rows[j], key) ==> rows[j].endpoint.transport
                != transport
    &&& found && !shown && scanned && (transport is Wired || transport is Receiver) ==> after
        is None
    &&& !shown && (!found || !scanned || transport is Ble) ==> after == before
}

/// A scan decides the USB endpoints of each mouse that it found: on a USB
/// transport that was scanned, the mouse has an endpoint afterwards exactly
/// where some row of that mouse was found on the transport, and it is the
/// endpoint of such a row. Nothing but endpoints changes.
pub proof fn law_scans_decide_endpoints(
    devices: &mut DeviceMap,
    rows: &Vec<ResolvedConnection>,
    selection: TransportSelection,
    key: Seq<char>,
    transport: TransportKind,
)
    requires
        call_ensures(sync_endpoint_associations, (devices, rows, selection), ()),
    ensures
        final(devices)@.dom() == old(devices)@.dom(),
        old(devices)@.dom().contains(key) ==> ({
            let before = old(devices)@[key];
            let after = final(devices)@[key];
            &&& scan_decides(
                before.identity.endpoints.at(transport),
                after.identity.endpoints.at(transport),
                rows@,
                selection,
                key,
                transport,
            )
            &&& after.identity.id == before.identity.id
            &&& after.identity.display_name == before.identity.display_name
            &&& after.identity.preferred_transport == before.identity.preferred_transport
            &&& after.identity.physical_id == before.identity.physical_id
            &&& after.profile_metadata == before.profile_metadata
            &&& after.profiles == before.profiles
            &&& after.profile_names == before.profile_names
        }),
{
    assert(final(devices)@.dom() =~= old(devices)@.dom());
    if old(devices)@.dom().contains(key) {
        lemma_scan_decides(old(devices)@[key], rows@, selection, key, transport);
    }
}

pub(crate) proof fn lemma_scan_decides(
    device: DeviceState,
    rows: Seq<ResolvedConnection>,
    selection: TransportSelection,
    key: Seq<char>,
    transport: TransportKind,
)
    ensures
        scan_decides(
            device.identity.endpoints.at(transport),
            synced(device, key, rows, selection).identity.endpoints.at(transport),
            rows,
            selection,
            key,
            transport,
        ),
{
    let before = undropped(device.identity.endpoints, selection);
    assert forall|row: ResolvedConnection| #[trigger] row_of(row, key) == names_mouse(row, key) by {}
    let shown = exists|i: int|
        0 <= i < rows.len() && names_mouse(#[trigger] rows[i], key) && rows[i].endpoint.transport
            == transport;
    if exists|i: int| 0 <= i < rows.len() && names_mouse(#[trigger] rows[i], key) {
        let i = choose|i: int| 0 <= i < rows.len() && names_mouse(#[trigger] rows[i], key);
        assert(row_of(rows[i], key));
        assert(has_row(rows, key));
    }
    if shown {
        let i = choose|i: int|
            0 <= i < rows.len() && names_mouse(#[trigger] rows[i], key)
                && rows[i].endpoint.transport == transport;
        assert(row_of(rows[i], key));
        lemma_last_row(before, rows, key, transport);
        let last = choose|i: int|
            0 <= i < rows.len() && row_of(#[trigger] rows[i], key) && rows[i].endpoint.transport
                == transport && overlaid_rows(before, rows, key).at(transport) == Some(
                rows[i].endpoint,
            ) && forall|j: int|
                i < j < rows.len() && row_of(#[trigger] rows[j], key)
                    ==> rows[j].endpoint.transport != transport;
        assert(names_mouse(rows[last], key));
        assert forall|j: int| last < j < rows.len() && names_mouse(
            #[trigger] rows[j],
            key,
        ) implies rows[j].endpoint.transport != transport by {
            assert(row_of(rows[j], key));
        }
    } else {
        assert forall|i: int| 0 <= i < rows.len() && row_of(
            #[trigger] rows[i],
            key,
        ) implies rows[i].endpoint.transport != transport by {
            assert(names_mouse(rows[i], key));
        }
        lemma_overlaid(before, rows, key, transport);
    }
}

proof fn lemma_last_row(
    endpoints: TransportMap<DeviceEndpoint>,
    rows: Seq<ResolvedConnection>,
    key: Seq<char>,
    transport: TransportKind,
)
    requires
        exists|i: int|
            0 <= i < rows.len() && row_of(#[trigger] rows[i], key) && rows[i].endpoint.transport
                == transport,
    ensures
        exists|i: int|
            0 <= i < rows.len() && row_of(#[trigger] rows[i], key) && rows[i].endpoint.transport
                == transport && overlaid_rows(endpoints, rows, key).at(transport) == Some(
                rows[i].endpoint,
            ) && forall|j: int|
                i < j < rows.len() && row_of(#[trigger] rows[j], key)
                    ==> rows[j].endpoint.transport != transport,
    decreases rows.len(),
{
    let front = rows.drop_last();
    let last = rows.last();
    let n = rows.len() - 1;
    assert(rows[n] == last);
    if row_of(last, key) && last.endpoint.transport == transport {
        assert(row_of(rows[n], key));
    } else {
        let i = choose|i: int|
            0 <= i < rows.len() && row_of(#[trigger] rows[i], key) && rows[i].endpoint.transport
                == transport;
        assert(i < n);
        assert(front[i] == rows[i]);
        lemma_last_row(endpoints, front, key, transport);
        let k = choose|i: int|
            0 <= i < front.len() && row_of(#[trigger] front[i], key)
                && front[i].endpoint.transport == transport && overlaid_rows(
                endpoints,
                front,
                key,
            ).at(transport) == Some(front[i].endpoint) && forall|j: int|
                i < j < front.len() && row_of(#[trigger] front[j], key)
                    ==> front[j].endpoint.transport != transport;
        assert(rows[k] == front[k]);
        assert forall|j: int| k < j < rows.len() && row_of(
            #[trigger] rows[j],
            key,
        ) implies rows[j].endpoint.transport != transport by {
            if j < n {
                assert(front[j] == rows[j]);
            }
        }
    }
}

/// The summary of one mouse says what its rows say: it is connected where one
/// of them is, and its transports are those on which one of them was found,
/// each once and in order.
pub open spec fn sums_up(
    found: DiscoveredView,
    rows: Seq<ResolvedConnection>,
    key: Seq<char>,
) -> bool {
    &&& found.connected <==> exists|i: int|
        0 <= i < rows.len() && names_mouse(#[trigger] rows[i], key) && rows[i].connected
    &&& forall|transport: TransportKind|
        #![trigger found.transports.contains(transport)]
        found.transports.contains(transport) <==> exists|i: int|
            0 <= i < rows.len() && names_mouse(#[trigger] rows[i], key)
                && rows[i].endpoint.transport == transport
    &&& forall|i: int, j: int|
        #![trigger found.transports[i], found.transports[j]]
        0 <= i < j < found.transports.len() ==> found.transports[i] != found.transports[j]
            && !(found.transports[i] is Ble) && !(found.transports[j] is Wired)
}

proof fn lemma_sums_up(rows: Seq<ResolvedConnection>, key: Seq<char>, found: DiscoveredView)
    requires
        found.connected == seen_connected(rows, key),
        found.transports == seen_transports(rows, key),
    ensures
        sums_up(found, rows, key),
{
    assert forall|row: ResolvedConnection| #[trigger] row_of(row, key) == names_mouse(row, key) by {}
    assert(forall|i: int|
        0 <= i < rows.len() ==> row_of(#[trigger] rows[i], key) == names_mouse(rows[i], key));
    let w = seen_on(rows, key, TransportKind::Wired);
    let r = seen_on(rows, key, TransportKind::Receiver);
    let b = seen_on(rows, key, TransportKind::Ble);
    let list = found.transports;
    if w {
        assert(list[0] is Wired);
    }
    if r {
        assert(list[if w { 1int } else { 0 }] is Receiver);
    }
    if b {
        assert(list[list.len() - 1] is Ble);
    }
    assert forall|transport: TransportKind| #[trigger] list.contains(transport) <==> seen_on(
        rows,
        key,
        transport,
    ) by {
        match transport {
            TransportKind::Wired => {},
            TransportKind::Receiver => {},
            TransportKind::Ble => {},
        }
    }
    assert forall|transport: TransportKind| #[trigger] seen_on(rows, key, transport) == (exists|i: int|
        0 <= i < rows.len() && names_mouse(#[trigger] rows[i], key) && rows[i].endpoint.transport
            == transport) by {
        if seen_on(rows, key, transport) {
            let i = choose|i: int|
                0 <= i < rows.len() && row_of(#[trigger] rows[i], key)
                    && rows[i].endpoint.transport == transport;
            assert(names_mouse(rows[i], key));
        }
    }
    if seen_connected(rows, key) {
        let i = choose|i: int|
            0 <= i < rows.len() && row_of(#[trigger] rows[i], key) && rows[i].connected;
        assert(names_mouse(rows[i], key));
    }
}

/// The keys with a row, in order.
spec fn found_keys(keys: Seq<Seq<char>>, rows: Seq<ResolvedConnection>) -> Seq<Seq<char>>
    decreases keys.len(),
{
    if keys.len() == 0 {
        Seq::empty()
    } else if has_row(rows, keys.last()) {
        found_keys(keys.drop_last(), rows).push(keys.last())
    } else {
        found_keys(keys.drop_last(), rows)
    }
}

proof fn lemma_aggregated(
    keys: Seq<Seq<char>>,
    devices: Map<Seq<char>, DeviceState>,
    rows: Seq<ResolvedConnection>,
)
    requires
        forall|i: int, j: int|
            #![trigger keys[i], keys[j]]
            0 <= i < j < keys.len() ==> lex_less(keys[i], keys[j]),
    ensures
        ({
            let named = found_keys(keys, rows);
            let views = aggregated(keys, devices, rows);
            &&& named.len() == views.len()
            &&& forall|i: int|
                0 <= i < named.len() ==> keys.contains(#[trigger] named[i]) && has_row(
                    rows,
                    named[i],
                ) && views[i].identity == devices[named[i]].identity && sums_up(
                    views[i],
                    rows,
                    named[i],
                )
            &&& forall|i: int|
                0 <= i < keys.len() && has_row(rows, #[trigger] keys[i]) ==> named.contains(keys[i])
            &&& forall|i: int, j: int|
                #![trigger named[i], named[j]]
                0 <= i < j < named.len() ==> lex_less(named[i], named[j])
        }),
    decreases keys.len(),
{
    if keys.len() > 0 {
        let front = keys.drop_last();
        let key = keys.last();
        let n = keys.len() - 1;
        assert(keys[n] == key);
        assert forall|i: int, j: int|
            #![trigger front[i], front[j]]
            0 <= i < j < front.len() implies lex_less(front[i], front[j]) by {
            assert(front[i] == keys[i] && front[j] == keys[j]);
        }
        lemma_aggregated(front, devices, rows);
        let named = found_keys(keys, rows);
        let less = found_keys(front, rows);
        let views = aggregated(keys, devices, rows);
        assert forall|i: int| 0 <= i < less.len() implies keys.contains(#[trigger] less[i]) && (
        keys.len() > 0 ==> lex_less(less[i], key)) by {
            assert(front.contains(less[i]));
            let k = choose|k: int| 0 <= k < front.len() && front[k] == less[i];
            assert(keys[k] == front[k]);
            assert(lex_less(keys[k], keys[n]));
        }
        if has_row(rows, key) {
            assert(named[less.len() as int] == key);
            lemma_sums_up(rows, key, views.last());
            assert forall|i: int| 0 <= i < keys.len() && has_row(
                rows,
                #[trigger] keys[i],
            ) implies named.contains(keys[i]) by {
                if i < n {
                    assert(front[i] == keys[i]);
                    let k = choose|k: int| 0 <= k < less.len() && less[k] == keys[i];
                    assert(named[k] == keys[i]);
                }
            }
        } else {
            assert forall|i: int| 0 <= i < keys.len() && has_row(
                rows,
                #[trigger] keys[i],
            ) implies named.contains(keys[i]) by {
                assert(front[i] == keys[i]);
            }
        }
    }
}

/// A discovery lists exactly the stored mice to which some row was resolved,
/// each once and in key order, with its stored identity and with what its
/// rows say.
pub proof fn law_discovery_lists_found_mice(
    devices: &DeviceMap,
    rows: &Vec<ResolvedConnection>,
    found: Vec<DiscoveredDevice>,
)
    requires
        devices.listed(),
        call_ensures(aggregate_discovered_devices, (devices, rows), found),
    ensures
        exists|named: Seq<Seq<char>>| #[trigger]
            lists_found(*devices, rows@, found@, named),
{
    lemma_lists_found(*devices, rows@, found@);
}

pub(crate) proof fn lemma_lists_found(
    devices: DeviceMap,
    rows: Seq<ResolvedConnection>,
    found: Seq<DiscoveredDevice>,
)
    requires
        devices.listed(),
        discovered_views(found) == aggregated(devices.keys(), devices@, rows),
    ensures
        exists|named: Seq<Seq<char>>| #[trigger] lists_found(devices, rows, found, named),
{
    let named = found_keys(devices.keys(), rows);
    lemma_aggregated(devices.keys(), devices@, rows);
    assert forall|row: ResolvedConnection, key: Seq<char>| #[trigger]
        row_of(row, key) == names_mouse(row, key) by {}
    assert forall|key: Seq<char>| #[trigger] has_row(rows, key) == (exists|i: int|
        0 <= i < rows.len() && names_mouse(#[trigger] rows[i], key)) by {
        if has_row(rows, key) {
            let i = choose|i: int| 0 <= i < rows.len() && row_of(#[trigger] rows[i], key);
            assert(names_mouse(rows[i], key));
        }
    }
    let views = discovered_views(found);
    assert(views.len() == found.len());
    assert forall|i: int| 0 <= i < named.len() implies devices@.dom().contains(#[trigger] named[i])
        && found[i].identity == devices@[named[i]].identity && sums_up(
        found[i]@,
        rows,
        named[i],
    ) by {
        assert(views[i] == found[i]@);
        assert(devices.keys().contains(named[i]));
    }
    assert forall|key: Seq<char>| #[trigger] devices@.dom().contains(key) && has_row(
        rows,
        key,
    ) implies named.contains(key) by {
        let i = choose|i: int| 0 <= i < devices.keys().len() && #[trigger] devices.keys()[i] == key;
        assert(devices.keys()[i] == key);
    }
    assert(lists_found(devices, rows, found, named));
}

/// The list holds the mice with the given keys, and these are the stored ones
/// that the scan found.
pub open spec fn lists_found(
    devices: DeviceMap,
    rows: Seq<ResolvedConnection>,
    found: Seq<DiscoveredDevice>,
    named: Seq<Seq<char>>,
) -> bool {
    &&& named.len() == found.len()
    &&& forall|i: int|
        0 <= i < named.len() ==> devices@.dom().contains(#[trigger] named[i]) && found[i].identity
            == devices@[named[i]].identity && sums_up(found[i]@, rows, named[i])
    &&& forall|key: Seq<char>| #[trigger]
        named.contains(key) <==> devices@.dom().contains(key) && exists|i: int|
            0 <= i < rows.len() && names_mouse(#[trigger] rows[i], key)
    &&& forall|i: int, j: int|
        #![trigger named[i], named[j]]
        0 <= i < j < named.len() ==> lex_less(named[i], named[j])
}

/// The endpoint of a transport in a list of found endpoints is the last one
/// with that transport, and there is one exactly where the list holds one.
proof fn lemma_listed_endpoints(discovered: Seq<DiscoveredEndpoint>, transport: TransportKind)
    ensures
        ({
            let listed = listed_endpoints(discovered).at(transport);
            match listed {
                Some(endpoint) => exists|i: int|
                    0 <= i < discovered.len() && #[trigger] discovered[i].endpoint == endpoint
                        && endpoint.transport == transport && forall|j: int|
                        i < j < discovered.len() ==> #[trigger] discovered[j].endpoint.transport
                            != transport,
                None => forall|j: int|
                    0 <= j < discovered.len() ==> #[trigger] discovered[j].endpoint.transport
                        != transport,
            }
        }),
    decreases discovered.len(),
{
    if discovered.len() > 0 {
        let front = discovered.drop_last();
        let last = discovered.last().endpoint;
        let n = discovered.len() - 1;
        assert(discovered[n].endpoint == last);
        lemma_listed_endpoints(front, transport);
        assert(forall|j: int| 0 <= j < n ==> #[trigger] front[j] == discovered[j]);
        if last.transport == transport {
        } else if listed_endpoints(front).at(transport) is Some {
            let endpoint = listed_endpoints(front).at(transport)->0;
            let i = choose|i: int|
                0 <= i < front.len() && #[trigger] front[i].endpoint == endpoint
                    && endpoint.transport == transport && forall|j: int|
                    i < j < front.len() ==> #[trigger] front[j].endpoint.transport != transport;
            assert(discovered[i].endpoint == endpoint);
            assert forall|j: int| i < j < discovered.len() implies #[trigger] discovered[
                j
            ].endpoint.transport != transport by {
                if j < n {
                    assert(front[j] == discovered[j]);
                }
            }
        } else {
            assert forall|j: int| 0 <= j < discovered.len() implies #[trigger] discovered[
                j
            ].endpoint.transport != transport by {
                if j < n {
                    assert(front[j] == discovered[j]);
                }
            }
        }
    }
}

/// The first discovery of an installation without mice makes one mouse. It
/// has the name of the first endpoint that was found, no token, no evidence,
/// and on each transport the last endpoint that was found there. An
/// installation that has a mouse is left as it is.
pub proof fn law_first_discovery_makes_one_mouse(
    state: &mut StateFile,
    discovered: &Vec<DiscoveredEndpoint>,
    r: Result<(), ManagerError>,
    key: Seq<char>,
    transport: TransportKind,
)
    requires
        call_ensures(ensure_legacy_mouse, (state, discovered), r),
    ensures
        old(state).devices@.dom().contains(key) ==> r is Ok && *final(state) == *old(state),
        old(state).devices@.dom() == Set::<Seq<char>>::empty() && 0
            < old(state).next_device_number < u64::MAX ==> r is Ok,
        r is Err ==> *final(state) == *old(state),
        final(state).selected_device == old(state).selected_device,
        final(state).identity_mode == old(state).identity_mode,
        final(state).identity_setup == old(state).identity_setup,
        !old(state).devices@.dom().contains(key) && final(state).devices@.dom().contains(key) ==> ({
            let made = final(state).devices@[key];
            &&& key == crate::device::logical_key(old(state).next_device_number as nat)
            &&& final(state).next_device_number == old(state).next_device_number + 1
            &&& final(state).devices@.dom() == set![key]
            &&& made.identity.id@ == key
            &&& made.identity.physical_id is None
            &&& made.identity.preferred_transport is None
            &&& made.profile_metadata.desired is None && made.profile_metadata.observed is None
            &&& forall|profile: ProfileId| #[trigger] made.profiles.at(profile) is None
            &&& discovered@.len() == 0 ==> made.identity.display_name is None
            &&& discovered@.len() > 0 ==> text_of(made.identity.display_name) == nonblank(
                text_of(discovered@[0].endpoint.display_name),
            )
            &&& match made.identity.endpoints.at(transport) {
                Some(endpoint) => exists|i: int|
                    0 <= i < discovered@.len() && #[trigger] discovered@[i].endpoint == endpoint
                        && endpoint.transport == transport && forall|j: int|
                        i < j < discovered@.len() ==> #[trigger] discovered@[j].endpoint.transport
                            != transport,
                None => forall|j: int|
                    0 <= j < discovered@.len() ==> #[trigger] discovered@[j].endpoint.transport
                        != transport,
            }
        }),
{
    lemma_listed_endpoints(discovered@, transport);
    if old(state).devices@.dom() == Set::<Seq<char>>::empty() {
        assert(old(state).devices@ =~= Map::<Seq<char>, DeviceState>::empty());
    }
    if !old(state).devices@.dom().contains(key) && final(state).devices@.dom().contains(key) {
        assert(final(state).devices@.dom() =~= set![key]);
    }
}

/// A mouse that a scan found has an endpoint on a scanned USB transport exactly
/// where some row of that mouse has that transport, whatever was stored before,
/// and the endpoint is that of such a row.
pub proof fn law_scanned_usb_endpoints_are_those_seen(
    devices: &mut DeviceMap,
    rows: &Vec<ResolvedConnection>,
    selection: TransportSelection,
    key: Seq<char>,
    transport: TransportKind,
)
    requires
        call_ensures(sync_endpoint_associations, (devices, rows, selection), ()),
        old(devices)@.dom().contains(key),
        exists|i: int| 0 <= i < rows@.len() && names_mouse(#[trigger] rows@[i], key),
        transport is Wired || transport is Receiver,
        selection is Auto || selection == TransportSelection::Exact(transport),
    ensures
        final(devices)@[key].identity.endpoints.at(transport) is Some <==> exists|i: int|
            0 <= i < rows@.len() && names_mouse(#[trigger] rows@[i], key)
                && rows@[i].endpoint.transport == transport,
        final(devices)@[key].identity.endpoints.at(transport) matches Some(endpoint) ==> exists|
            i: int,
        |
            0 <= i < rows@.len() && names_mouse(#[trigger] rows@[i], key)
                && rows@[i].endpoint.transport == transport && rows@[i].endpoint == endpoint,
{
    lemma_scan_decides(old(devices)@[key], rows@, selection, key, transport);
}

} // verus!
