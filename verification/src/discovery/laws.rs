//! What discovery as a whole keeps.

use vstd::prelude::*;

use crate::cache::{attachment, is_attached, surviving, trusted};
use crate::ceremony::finalize::legacy_device;
use crate::device::{DeviceEndpoint, DeviceIdentity, LocatorView, TransportSelection};
use crate::discovery::association::{
    has_row, lemma_overlaid, row_of, synced_devices, undropped,
};
use crate::discovery::resolution::{
    ble_resolution, first_with_ble_locator, has_ble_locator, is_known, journal_reserves, owns,
    owns_alone, token_resolution, unassociated,
};
use crate::discovery::scan::{
    needs_reading, readings_after, resolved_rows, scanned_row, scanned_rows, unread, Readings,
};
use crate::operation::{
    DiscoveredEndpoint, IdentityResolution, ResolvedConnection, UnassociatedReason,
};
use crate::protocol::{PhysicalId, TransportKind, WatermarkDecode};
use crate::state::{DeviceState, IdentitySetupJournal, StateFile};
use crate::text::lemma_lex_total;

verus! {

/// A scan makes up no mouse and loses none. It changes nothing of a mouse but
/// its endpoint associations, and those only where a connection was resolved
/// to it.
pub proof fn law_discovery_makes_up_no_mouse(
    devices: Map<Seq<char>, DeviceState>,
    rows: Seq<ResolvedConnection>,
    selection: TransportSelection,
    key: Seq<char>,
)
    ensures
        synced_devices(devices, rows, selection).dom() =~= devices.dom(),
        devices.dom().contains(key) ==> {
            let before = devices[key];
            let after = synced_devices(devices, rows, selection)[key];
            &&& after == (DeviceState {
                identity: DeviceIdentity {
                    endpoints: after.identity.endpoints,
                    ..before.identity
                },
                ..before
            })
            &&& !has_row(rows, key) ==> after == before
        },
{
}

/// In legacy mode every connection belongs to the one fuzzy mouse, whatever
/// its watermark says.
pub proof fn law_legacy_connections_share_one_mouse(
    state: StateFile,
    readings: Readings,
    discovered: Seq<DiscoveredEndpoint>,
    index: int,
)
    requires
        state.identity_mode is Legacy,
        legacy_device(state.devices) is Some,
        0 <= index < discovered.len(),
    ensures
        resolved_rows(state, readings, discovered)[index].resolution
            == (IdentityResolution::Resolved {
            identity: legacy_device(state.devices)->0.identity.id,
        }),
{
    let rows = scanned_rows(state, readings, discovered);
    assert(rows[index].resolution is Resolved);
}

/// A token that a running ceremony has set aside belongs to nobody until the
/// ceremony is over.
pub proof fn law_pending_tokens_are_not_adoptable(
    devices: Map<Seq<char>, DeviceState>,
    journal: IdentitySetupJournal,
    token: PhysicalId,
)
    requires
        journal_reserves(journal, token),
        !token.is_reserved(),
    ensures
        token_resolution(devices, Some(journal), token) == unassociated(
            UnassociatedReason::ReservedByJournal,
            Some(token),
        ),
{
}

/// The readings after the watermarks of the endpoints were read and kept, one
/// after the other.
pub open spec fn recorded(
    readings: Readings,
    endpoints: Seq<DeviceEndpoint>,
    decodes: Seq<WatermarkDecode>,
) -> Readings
    decreases endpoints.len(),
{
    if endpoints.len() == 0 {
        readings
    } else {
        recorded(readings, endpoints.drop_last(), decodes.drop_last()).insert(
            attachment(endpoints.last()@),
            (decodes.last(), endpoints.last()@),
        )
    }
}

/// No two endpoints of the scan are attached at the same place.
pub open spec fn attached_apart(discovered: Seq<DiscoveredEndpoint>) -> bool {
    forall|i: int, j: int|
        #![trigger discovered[i], discovered[j]]
        0 <= i < j < discovered.len() ==> attachment(discovered[i].endpoint@) != attachment(
            discovered[j].endpoint@,
        )
}

/// The endpoint is one of those whose watermark has to be read.
spec fn listed_unread(
    readings: Readings,
    discovered: Seq<DiscoveredEndpoint>,
    endpoint: DeviceEndpoint,
) -> bool {
    exists|i: int|
        0 <= i < discovered.len() && needs_reading(readings, #[trigger] discovered[i])
            && discovered[i].endpoint == endpoint
}

proof fn lemma_unread(readings: Readings, discovered: Seq<DiscoveredEndpoint>)
    ensures
        forall|k: int|
            0 <= k < unread(readings, discovered).len() ==> listed_unread(
                readings,
                discovered,
                #[trigger] unread(readings, discovered)[k],
            ),
        forall|i: int|
            0 <= i < discovered.len() && needs_reading(readings, #[trigger] discovered[i])
                ==> unread(readings, discovered).contains(discovered[i].endpoint),
        (forall|i: int|
            0 <= i < discovered.len() ==> !needs_reading(readings, #[trigger] discovered[i]))
            ==> unread(readings, discovered).len() == 0,
    decreases discovered.len(),
{
    if discovered.len() > 0 {
        let front = discovered.drop_last();
        let last = discovered.last();
        let earlier = unread(readings, front);
        let all = unread(readings, discovered);
        lemma_unread(readings, front);
        assert(discovered[discovered.len() - 1] == last);
        assert forall|i: int| 0 <= i < front.len() implies #[trigger] front[i]
            == discovered[i] by {}
        assert forall|k: int| 0 <= k < all.len() implies listed_unread(
            readings,
            discovered,
            #[trigger] all[k],
        ) by {
            if k < earlier.len() {
                assert(all[k] == earlier[k]);
                assert(listed_unread(readings, front, earlier[k]));
                let i = choose|i: int|
                    0 <= i < front.len() && needs_reading(readings, #[trigger] front[i])
                        && front[i].endpoint == earlier[k];
                assert(needs_reading(readings, discovered[i]));
            } else {
                assert(needs_reading(readings, discovered[discovered.len() - 1]));
            }
        }
        assert forall|i: int|
            0 <= i < discovered.len() && needs_reading(
                readings,
                #[trigger] discovered[i],
            ) implies all.contains(discovered[i].endpoint) by {
            if i < front.len() {
                assert(needs_reading(readings, front[i]));
                assert(earlier.contains(front[i].endpoint));
                let k = choose|k: int|
                    0 <= k < earlier.len() && earlier[k] == front[i].endpoint;
                assert(all[k] == discovered[i].endpoint);
            } else {
                assert(all[all.len() - 1] == discovered[i].endpoint);
            }
        }
    }
}

/// A place that none of the endpoints has keeps its reading; a place that all
/// endpoints at it agree on has the reading of that endpoint.
proof fn lemma_recorded(
    readings: Readings,
    endpoints: Seq<DeviceEndpoint>,
    decodes: Seq<WatermarkDecode>,
    endpoint: DeviceEndpoint,
)
    requires
        decodes.len() == endpoints.len(),
        forall|k: int|
            0 <= k < endpoints.len() && attachment((#[trigger] endpoints[k])@) == attachment(
                endpoint@,
            ) ==> endpoints[k] == endpoint,
    ensures
        ({
            let after = recorded(readings, endpoints, decodes);
            if endpoints.contains(endpoint) {
                trusted(after, endpoint@) is Some
            } else {
                trusted(after, endpoint@) == trusted(readings, endpoint@)
            }
        }),
    decreases endpoints.len(),
{
    if endpoints.len() > 0 {
        let front = endpoints.drop_last();
        let last = endpoints.last();
        assert(endpoints[endpoints.len() - 1] == last);
        assert forall|k: int| 0 <= k < front.len() implies #[trigger] front[k]
            == endpoints[k] by {}
        lemma_recorded(readings, front, decodes.drop_last(), endpoint);
        if last == endpoint {
            assert(endpoints.contains(endpoint));
        } else {
            if endpoints.contains(endpoint) {
                let k = choose|k: int| 0 <= k < endpoints.len() && endpoints[k] == endpoint;
                assert(front[k] == endpoint);
            }
            if front.contains(endpoint) {
                let k = choose|k: int| 0 <= k < front.len() && front[k] == endpoint;
                assert(endpoints[k] == endpoint);
            }
        }
    }
}

/// After a scan every connected USB endpoint has its reading.
proof fn lemma_read_once(
    readings: Readings,
    discovered: Seq<DiscoveredEndpoint>,
    decodes: Seq<WatermarkDecode>,
    index: int,
)
    requires
        attached_apart(discovered),
        decodes.len() == unread(readings, discovered).len(),
        0 <= index < discovered.len(),
    ensures
        !needs_reading(
            surviving(recorded(readings, unread(readings, discovered), decodes), discovered),
            discovered[index],
        ),
{
    let found = discovered[index];
    let endpoints = unread(readings, discovered);
    let after = recorded(readings, endpoints, decodes);
    if found.connected && found.endpoint.transport.is_usb() {
        lemma_unread(readings, discovered);
        assert forall|k: int|
            0 <= k < endpoints.len() && attachment((#[trigger] endpoints[k])@) == attachment(
                found.endpoint@,
            ) implies endpoints[k] == found.endpoint by {
            assert(listed_unread(readings, discovered, endpoints[k]));
            let i = choose|i: int|
                0 <= i < discovered.len() && needs_reading(readings, #[trigger] discovered[i])
                    && discovered[i].endpoint == endpoints[k];
            if i < index {
                assert(attachment(discovered[i].endpoint@) != attachment(
                    discovered[index].endpoint@,
                ));
            } else if index < i {
                assert(attachment(discovered[index].endpoint@) != attachment(
                    discovered[i].endpoint@,
                ));
            }
        }
        lemma_recorded(readings, endpoints, decodes, found.endpoint);
        assert(trusted(after, found.endpoint@) is Some);
        assert(is_attached(discovered, found.endpoint@));
        assert(surviving(after, discovered).dom().contains(attachment(found.endpoint@)));
    }
}

/// A scan leaves the BLE locator of every mouse as it was.
proof fn lemma_sync_keeps_ble_locators(
    before: StateFile,
    readings: Readings,
    discovered: Seq<DiscoveredEndpoint>,
    selection: TransportSelection,
    key: Seq<char>,
    locator: LocatorView,
)
    requires
        before.inventory(),
        before.identity_mode is Persistent,
    ensures
        ({
            let rows = resolved_rows(before, readings, discovered);
            has_ble_locator(synced_devices(before.devices@, rows, selection), key, locator)
                == has_ble_locator(before.devices@, key, locator)
        }),
{
    let devices = before.devices@;
    let rows = resolved_rows(before, readings, discovered);
    let after = synced_devices(devices, rows, selection);
    assert(after.dom() =~= devices.dom());
    if devices.dom().contains(key) {
        let held = undropped(devices[key].identity.endpoints, selection);
        let ble = TransportKind::Ble;
        lemma_overlaid(held, rows, key, ble);
        if after[key].identity.endpoints.ble != devices[key].identity.endpoints.ble {
            let i = choose|i: int|
                0 <= i < rows.len() && row_of(#[trigger] rows[i], key)
                    && rows[i].endpoint.transport == ble
                    && after[key].identity.endpoints.at(ble) == Some(rows[i].endpoint);
            let seen = rows[i].endpoint.locator@;
            let unfolded = scanned_rows(before, readings, discovered);
            assert(unfolded[i].resolution == ble_resolution(devices, seen));
            assert(rows[i] == unfolded[i]);
            let owner = choose|k: Seq<char>| first_with_ble_locator(devices, k, seen);
            assert(has_ble_locator(devices, owner, seen));
            assert(devices[owner].identity.id@ == owner);
            assert(owner == key);
        }
    }
}

/// A connection resolves to the same after a scan as in it.
proof fn lemma_resolution_is_stable(
    before: StateFile,
    after: StateFile,
    readings: Readings,
    discovered: Seq<DiscoveredEndpoint>,
    selection: TransportSelection,
    found: DiscoveredEndpoint,
)
    requires
        before.inventory(),
        before.identity_mode is Persistent,
        after.same_but_devices(before),
        after.devices@ == synced_devices(
            before.devices@,
            resolved_rows(before, readings, discovered),
            selection,
        ),
    ensures
        scanned_row(after, readings, found) == scanned_row(before, readings, found),
{
    let old_devices = before.devices@;
    let new_devices = after.devices@;
    assert(new_devices.dom() =~= old_devices.dom());
    assert forall|key: Seq<char>, token: PhysicalId| #[trigger]
        owns(new_devices, key, token) == owns(old_devices, key, token) by {}
    assert forall|key: Seq<char>, token: PhysicalId| #[trigger]
        owns_alone(new_devices, key, token) == owns_alone(old_devices, key, token) by {
        if owns_alone(old_devices, key, token) {
            assert forall|other: Seq<char>| #[trigger]
                owns(new_devices, other, token) implies other == key by {
                assert(owns(old_devices, other, token));
            }
            assert(owns(new_devices, key, token));
        }
        if owns_alone(new_devices, key, token) {
            assert forall|other: Seq<char>| #[trigger]
                owns(old_devices, other, token) implies other == key by {
                assert(owns(new_devices, other, token));
            }
            assert(owns(old_devices, key, token));
        }
    }
    assert forall|token: PhysicalId| #[trigger]
        token_resolution(new_devices, before.identity_setup, token) == token_resolution(
            old_devices,
            before.identity_setup,
            token,
        ) by {
        if is_known(old_devices, token) {
            let key = choose|key: Seq<char>| #[trigger] owns(old_devices, key, token);
            assert(owns(new_devices, key, token));
        }
        if is_known(new_devices, token) {
            let key = choose|key: Seq<char>| #[trigger] owns(new_devices, key, token);
            assert(owns(old_devices, key, token));
        }
        if exists|key: Seq<char>| owns_alone(old_devices, key, token) {
            let a = choose|key: Seq<char>| owns_alone(old_devices, key, token);
            assert(owns_alone(new_devices, a, token));
            let b = choose|key: Seq<char>| owns_alone(new_devices, key, token);
            assert(owns(new_devices, b, token));
            assert(a == b);
        }
        if exists|key: Seq<char>| owns_alone(new_devices, key, token) {
            let b = choose|key: Seq<char>| owns_alone(new_devices, key, token);
            assert(owns_alone(old_devices, b, token));
        }
    }
    let locator = found.endpoint.locator@;
    assert forall|key: Seq<char>| #[trigger]
        has_ble_locator(new_devices, key, locator) == has_ble_locator(
            old_devices,
            key,
            locator,
        ) by {
        lemma_sync_keeps_ble_locators(before, readings, discovered, selection, key, locator);
    }
    assert forall|key: Seq<char>| #[trigger]
        first_with_ble_locator(new_devices, key, locator) == first_with_ble_locator(
            old_devices,
            key,
            locator,
        ) by {
        assert(has_ble_locator(new_devices, key, locator) == has_ble_locator(
            old_devices,
            key,
            locator,
        ));
        if first_with_ble_locator(old_devices, key, locator) {
            assert forall|other: Seq<char>| #[trigger]
                has_ble_locator(new_devices, other, locator) implies !crate::text::lex_less(
                other,
                key,
            ) by {
                assert(has_ble_locator(old_devices, other, locator));
            }
        }
        if first_with_ble_locator(new_devices, key, locator) {
            assert forall|other: Seq<char>| #[trigger]
                has_ble_locator(old_devices, other, locator) implies !crate::text::lex_less(
                other,
                key,
            ) by {
                assert(has_ble_locator(new_devices, other, locator));
            }
        }
    }
    assert(ble_resolution(new_devices, locator) == ble_resolution(old_devices, locator)) by {
        if exists|key: Seq<char>| first_with_ble_locator(old_devices, key, locator) {
            let a = choose|key: Seq<char>| first_with_ble_locator(old_devices, key, locator);
            assert(first_with_ble_locator(new_devices, a, locator));
            let b = choose|key: Seq<char>| first_with_ble_locator(new_devices, key, locator);
            assert(has_ble_locator(new_devices, a, locator));
            assert(has_ble_locator(new_devices, b, locator));
            lemma_lex_total(a, b);
            assert(a == b);
        }
        if exists|key: Seq<char>| first_with_ble_locator(new_devices, key, locator) {
            let b = choose|key: Seq<char>| first_with_ble_locator(new_devices, key, locator);
            assert(first_with_ble_locator(old_devices, b, locator));
        }
    }
}

/// Each mouse is authenticated once per continuous attachment.
///
/// `kept` are the readings that a scan of a persistent installation leaves
/// behind, whatever its reads gave, and `after` is the state that it leaves. A
/// second scan that finds the same endpoints asks for no read, drops no reading
/// and resolves every connection as the first one did.
pub proof fn law_attached_mice_are_read_once(
    before: StateFile,
    after: StateFile,
    readings: Readings,
    kept: Readings,
    discovered: Seq<DiscoveredEndpoint>,
    decodes: Seq<WatermarkDecode>,
    selection: TransportSelection,
)
    requires
        before.inventory(),
        before.identity_mode is Persistent,
        attached_apart(discovered),
        decodes.len() == unread(readings, discovered).len(),
        kept == readings_after(
            before.identity_mode,
            recorded(readings, unread(readings, discovered), decodes),
            discovered,
        ),
        after.same_but_devices(before),
        after.devices@ == synced_devices(
            before.devices@,
            resolved_rows(before, kept, discovered),
            selection,
        ),
    ensures
        unread(kept, discovered) == Seq::<DeviceEndpoint>::empty(),
        readings_after(after.identity_mode, kept, discovered) == kept,
        resolved_rows(after, kept, discovered) == resolved_rows(before, kept, discovered),
{
    assert forall|i: int| 0 <= i < discovered.len() implies !needs_reading(
        kept,
        #[trigger] discovered[i],
    ) by {
        lemma_read_once(readings, discovered, decodes, i);
    }
    lemma_unread(kept, discovered);
    assert(surviving(kept, discovered) =~= kept);
    assert forall|i: int| 0 <= i < discovered.len() implies #[trigger] scanned_row(
        after,
        kept,
        discovered[i],
    ) == scanned_row(before, kept, discovered[i]) by {
        lemma_resolution_is_stable(before, after, kept, discovered, selection, discovered[i]);
    }
    assert(scanned_rows(after, kept, discovered) =~= scanned_rows(before, kept, discovered));
    assert(resolved_rows(after, kept, discovered) =~= resolved_rows(before, kept, discovered));
}

} // verus!
