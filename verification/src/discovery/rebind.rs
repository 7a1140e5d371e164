//! Finding the endpoints that a stored endpoint may have moved to.

use vstd::prelude::*;

use crate::device::{locator_less, DeviceEndpoint, LocatorView};
use crate::operation::DiscoveredEndpoint;
use crate::protocol::TransportKind;
use crate::text::{lemma_lex_irreflexive, lemma_lex_total, lemma_lex_transitive};

verus! {

/// A connected endpoint of the same model on the transport. Vendor and product
/// are the only stable signal: serials are empty and locators change on replug.
pub open spec fn is_candidate(
    found: DiscoveredEndpoint,
    transport: TransportKind,
    stored: DeviceEndpoint,
) -> bool {
    &&& found.connected
    &&& found.endpoint.transport == transport
    &&& found.endpoint.vendor_id == stored.vendor_id
    &&& found.endpoint.product_id == stored.product_id
}

/// The row at a position is the first candidate with its locator.
pub open spec fn is_first_candidate(
    discovered: Seq<DiscoveredEndpoint>,
    position: int,
    transport: TransportKind,
    stored: DeviceEndpoint,
) -> bool {
    &&& 0 <= position < discovered.len()
    &&& is_candidate(discovered[position], transport, stored)
    &&& forall|earlier: int|
        #![trigger discovered[earlier]]
        0 <= earlier < position && is_candidate(discovered[earlier], transport, stored)
            ==> discovered[earlier].endpoint.locator@ != discovered[position].endpoint.locator@
}

/// The endpoint is listed.
pub open spec fn lists_locator(candidates: Seq<DeviceEndpoint>, locator: LocatorView) -> bool {
    exists|i: int| 0 <= i < candidates.len() && (#[trigger] candidates[i]).locator@ == locator
}

/// An endpoint stems from the first candidate with its locator.
pub open spec fn stems_from(
    discovered: Seq<DiscoveredEndpoint>,
    candidate: DeviceEndpoint,
    transport: TransportKind,
    stored: DeviceEndpoint,
) -> bool {
    exists|position: int| #[trigger]
        is_first_candidate(discovered, position, transport, stored)
            && discovered[position].endpoint == candidate
}

/// Every endpoint comes before the ones behind it.
pub open spec fn in_locator_order(candidates: Seq<DeviceEndpoint>) -> bool {
    forall|i: int, j: int|
        #![trigger candidates[i], candidates[j]]
        0 <= i < j < candidates.len() ==> locator_less(
            candidates[i].locator@,
            candidates[j].locator@,
        )
}

/// The list holds, in locator order, the first candidate with each locator.
pub open spec fn are_candidates(
    discovered: Seq<DiscoveredEndpoint>,
    transport: TransportKind,
    stored: DeviceEndpoint,
    candidates: Seq<DeviceEndpoint>,
) -> bool {
    &&& in_locator_order(candidates)
    &&& forall|i: int|
        #![trigger candidates[i]]
        0 <= i < candidates.len() ==> stems_from(discovered, candidates[i], transport, stored)
    &&& forall|k: int|
        #![trigger discovered[k]]
        0 <= k < discovered.len() && is_candidate(discovered[k], transport, stored)
            ==> lists_locator(candidates, discovered[k].endpoint.locator@)
}

proof fn lemma_locator_transitive(a: LocatorView, b: LocatorView, c: LocatorView)
    requires
        locator_less(a, b),
        locator_less(b, c),
    ensures
        locator_less(a, c),
{
    match (a, b, c) {
        (LocatorView::UsbPath(x), LocatorView::UsbPath(y), LocatorView::UsbPath(z)) =>
            lemma_lex_transitive(x, y, z),
        (
            LocatorView::BlePlatformId(x),
            LocatorView::BlePlatformId(y),
            LocatorView::BlePlatformId(z),
        ) => lemma_lex_transitive(x, y, z),
        _ => {},
    }
}

proof fn lemma_locator_total(a: LocatorView, b: LocatorView)
    ensures
        a == b || locator_less(a, b) || locator_less(b, a),
{
    match (a, b) {
        (LocatorView::UsbPath(x), LocatorView::UsbPath(y)) => lemma_lex_total(x, y),
        (LocatorView::BlePlatformId(x), LocatorView::BlePlatformId(y)) => lemma_lex_total(x, y),
        _ => {},
    }
}

proof fn lemma_locator_irreflexive(a: LocatorView)
    ensures
        !locator_less(a, a),
{
    match a {
        LocatorView::UsbPath(x) => lemma_lex_irreflexive(x),
        LocatorView::BlePlatformId(x) => lemma_lex_irreflexive(x),
    }
}

fn same_model(a: Option<u16>, b: Option<u16>) -> (r: bool)
    ensures
        r == (a == b),
{
    match (a, b) {
        (Some(x), Some(y)) => x == y,
        (None, None) => true,
        _ => false,
    }
}

/// Puts an endpoint into its place unless its locator is listed.
fn insert_candidate(candidates: &mut Vec<DeviceEndpoint>, endpoint: &DeviceEndpoint)
    requires
        in_locator_order(old(candidates)@),
    ensures
        in_locator_order(final(candidates)@),
        if lists_locator(old(candidates)@, endpoint.locator@) {
            final(candidates)@ == old(candidates)@
        } else {
            exists|place: int|
                0 <= place <= old(candidates)@.len() && final(candidates)@ == #[trigger] old(
                    candidates,
                )@.insert(place, *endpoint)
        },
{
    let ghost before = candidates@;
    let mut place: usize = 0;
    while place < candidates.len() && candidates[place].locator.before(&endpoint.locator)
        invariant
            candidates@ == before,
            place <= before.len(),
            forall|i: int|
                #![trigger before[i]]
                0 <= i < place ==> locator_less(before[i].locator@, endpoint.locator@),
        ensures
            candidates@ == before,
            place <= before.len(),
            forall|i: int|
                #![trigger before[i]]
                0 <= i < place ==> locator_less(before[i].locator@, endpoint.locator@),
            place < before.len() ==> !locator_less(
                before[place as int].locator@,
                endpoint.locator@,
            ),
        decreases before.len() - place,
    {
        place = place + 1;
    }
    if place < candidates.len() && candidates[place].locator.same_locator(&endpoint.locator) {
        assert(before[place as int].locator@ == endpoint.locator@);
        return;
    }
    proof {
        if place < before.len() {
            lemma_locator_total(before[place as int].locator@, endpoint.locator@);
        }
        assert forall|i: int| place <= i < before.len() implies locator_less(
            endpoint.locator@,
            (#[trigger] before[i]).locator@,
        ) by {
            if place < i {
                lemma_locator_transitive(
                    endpoint.locator@,
                    before[place as int].locator@,
                    before[i].locator@,
                );
            }
        }
        if lists_locator(before, endpoint.locator@) {
            let i = choose|i: int|
                0 <= i < before.len() && (#[trigger] before[i]).locator@ == endpoint.locator@;
            lemma_locator_irreflexive(endpoint.locator@);
        }
    }
    candidates.insert(place, endpoint.clone());
    assert(candidates@ == before.insert(place as int, *endpoint));
    assert forall|i: int, j: int|
        #![trigger candidates@[i], candidates@[j]]
        0 <= i < j < candidates@.len() implies locator_less(
        candidates@[i].locator@,
        candidates@[j].locator@,
    ) by {
        let inserted = before.insert(place as int, *endpoint);
        let p = place as int;
        if i != p && j != p {
            let a = if i < p { i } else { i - 1 };
            let b = if j < p { j } else { j - 1 };
            assert(inserted[i] == before[a]);
            assert(inserted[j] == before[b]);
        } else if i == p {
            assert(inserted[j] == before[j - 1]);
        } else {
            assert(inserted[i] == before[i]);
        }
    }
}

/// Filters discoveries down to the endpoints that a stored endpoint may have
/// moved to, sorted by locator and without duplicates.
pub fn rebind_candidates(
    discovered: &Vec<DiscoveredEndpoint>,
    transport: TransportKind,
    stored: &DeviceEndpoint,
) -> (r: Vec<DeviceEndpoint>)
    ensures
        are_candidates(discovered@, transport, *stored, r@),
{
    let mut candidates: Vec<DeviceEndpoint> = Vec::new();
    let mut i: usize = 0;
    while i < discovered.len()
        invariant
            i <= discovered@.len(),
            in_locator_order(candidates@),
            forall|j: int|
                #![trigger candidates@[j]]
                0 <= j < candidates@.len() ==> stems_from(
                    discovered@,
                    candidates@[j],
                    transport,
                    *stored,
                ),
            forall|j: int|
                #![trigger candidates@[j]]
                0 <= j < candidates@.len() ==> exists|k: int|
                    0 <= k < i && (#[trigger] discovered@[k]).endpoint == candidates@[j]
                        && is_candidate(discovered@[k], transport, *stored),
            forall|k: int|
                #![trigger discovered@[k]]
                0 <= k < i && is_candidate(discovered@[k], transport, *stored) ==> lists_locator(
                    candidates@,
                    discovered@[k].endpoint.locator@,
                ),
        decreases discovered@.len() - i,
    {
        let found = &discovered[i];
        if found.connected && found.endpoint.transport == transport && same_model(
            found.endpoint.vendor_id,
            stored.vendor_id,
        ) && same_model(found.endpoint.product_id, stored.product_id) {
            let ghost before = candidates@;
            insert_candidate(&mut candidates, &found.endpoint);
            proof {
                let locator = found.endpoint.locator@;
                if !lists_locator(before, locator) {
                    let place = choose|place: int|
                        0 <= place <= before.len() && candidates@ == #[trigger] before.insert(
                            place,
                            found.endpoint,
                        );
                    assert(candidates@[place] == found.endpoint);
                    assert forall|earlier: int|
                        #![trigger discovered@[earlier]]
                        0 <= earlier < i && is_candidate(
                            discovered@[earlier],
                            transport,
                            *stored,
                        ) implies discovered@[earlier].endpoint.locator@ != locator by {
                        assert(lists_locator(before, discovered@[earlier].endpoint.locator@));
                    }
                    assert(is_first_candidate(discovered@, i as int, transport, *stored));
                    assert forall|j: int|
                        #![trigger candidates@[j]]
                        0 <= j < candidates@.len() implies stems_from(
                        discovered@,
                        candidates@[j],
                        transport,
                        *stored,
                    ) && exists|k: int|
                        0 <= k < i + 1 && (#[trigger] discovered@[k]).endpoint == candidates@[j]
                            && is_candidate(discovered@[k], transport, *stored) by {
                        if j == place {
                            assert(discovered@[i as int].endpoint == candidates@[j]);
                        } else {
                            let old_j = if j < place { j } else { j - 1 };
                            assert(before[old_j] == candidates@[j]);
                        }
                    }
                    assert forall|k: int|
                        #![trigger discovered@[k]]
                        0 <= k < i + 1 && is_candidate(
                            discovered@[k],
                            transport,
                            *stored,
                        ) implies lists_locator(
                        candidates@,
                        discovered@[k].endpoint.locator@,
                    ) by {
                        if k == i {
                            assert(candidates@[place].locator@ == locator);
                        } else {
                            let at = choose|at: int|
                                0 <= at < before.len() && (#[trigger] before[at]).locator@
                                    == discovered@[k].endpoint.locator@;
                            let now = if at < place { at } else { at + 1 };
                            assert(candidates@[now] == before[at]);
                        }
                    }
                }
            }
        }
        i = i + 1;
    }
    candidates
}

/// The endpoints that a stored endpoint may have moved to are connected, of the
/// same transport, vendor and product, each the first of the scan with its
/// locator, and they are listed in the order of their locators, each locator
/// once.
pub proof fn law_moved_endpoints_are_of_the_same_model(
    discovered: &Vec<DiscoveredEndpoint>,
    transport: TransportKind,
    stored: &DeviceEndpoint,
    r: Vec<DeviceEndpoint>,
    i: int,
    j: int,
)
    requires
        call_ensures(rebind_candidates, (discovered, transport, stored), r),
        0 <= i < j <= r@.len(),
    ensures
        r@[i].transport == transport,
        r@[i].vendor_id == stored.vendor_id,
        r@[i].product_id == stored.product_id,
        exists|k: int|
            0 <= k < discovered@.len() && (#[trigger] discovered@[k]).connected
                && discovered@[k].endpoint == r@[i] && is_earliest(
                discovered@,
                k,
                transport,
                *stored,
            ),
        j < r@.len() ==> locator_less(r@[i].locator@, r@[j].locator@) && r@[i].locator@
            != r@[j].locator@,
{
    assert(stems_from(discovered@, r@[i], transport, *stored));
    let k = choose|k: int| #[trigger]
        is_first_candidate(discovered@, k, transport, *stored) && discovered@[k].endpoint == r@[i];
    assert(discovered@[k].connected);
    assert(is_earliest(discovered@, k, transport, *stored)) by {
        assert forall|e: int| 0 <= e < k && (#[trigger] discovered@[e]).connected
            && discovered@[e].endpoint.transport == transport && discovered@[e].endpoint.vendor_id
            == stored.vendor_id && discovered@[e].endpoint.product_id
            == stored.product_id implies discovered@[e].endpoint.locator@
            != discovered@[k].endpoint.locator@ by {
            assert(is_candidate(discovered@[e], transport, *stored));
        }
    }
    lemma_locator_irreflexive(r@[i].locator@);
}

/// No earlier row of the scan is connected with the same transport, vendor,
/// product and locator.
pub open spec fn is_earliest(
    discovered: Seq<DiscoveredEndpoint>,
    position: int,
    transport: TransportKind,
    stored: DeviceEndpoint,
) -> bool {
    forall|e: int|
        0 <= e < position && (#[trigger] discovered[e]).connected
            && discovered[e].endpoint.transport == transport && discovered[e].endpoint.vendor_id
            == stored.vendor_id && discovered[e].endpoint.product_id == stored.product_id
            ==> discovered[e].endpoint.locator@ != discovered[position].endpoint.locator@
}

/// Every connected endpoint of a scan with the transport, vendor and product of
/// a stored one has its locator among those that the stored one may have moved
/// to.
pub proof fn law_no_moved_endpoint_is_missed(
    discovered: &Vec<DiscoveredEndpoint>,
    transport: TransportKind,
    stored: &DeviceEndpoint,
    r: Vec<DeviceEndpoint>,
    k: int,
)
    requires
        call_ensures(rebind_candidates, (discovered, transport, stored), r),
        0 <= k < discovered@.len(),
        discovered@[k].connected,
        discovered@[k].endpoint.transport == transport,
        discovered@[k].endpoint.vendor_id == stored.vendor_id,
        discovered@[k].endpoint.product_id == stored.product_id,
    ensures
        exists|i: int|
            0 <= i < r@.len() && (#[trigger] r@[i]).locator@ == discovered@[k].endpoint.locator@,
{
    assert(is_candidate(discovered@[k], transport, *stored));
    assert(lists_locator(r@, discovered@[k].endpoint.locator@));
}

} // verus!
