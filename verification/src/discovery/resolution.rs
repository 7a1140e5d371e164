//! Resolving one connection against the stored logical mice.

use vstd::prelude::*;

use crate::device::{DeviceEndpoint, DeviceId, EndpointView, LocatorView};
use crate::devices::DeviceMap;
use crate::exact::SameValue;
use crate::operation::{IdentityResolution, ResolvedConnection, UnassociatedReason};
use crate::protocol::{PhysicalId, TransportKind, WatermarkDecode};
use crate::state::{DeviceState, IdentitySetupJournal};
use crate::text::{lemma_lex_total, lex_less};

verus! {

/// Tells whether a token may never be assigned to a mouse.
pub fn is_reserved_token(token: PhysicalId) -> (r: bool)
    ensures
        r == token.is_reserved(),
{
    let bytes = token.token_bytes();
    let mut i: usize = 0;
    while i < 16
        invariant
            i <= 16,
            bytes == token.token,
            forall|j: int| 0 <= j < i ==> bytes[j] == 0,
        decreases 16 - i,
    {
        if bytes[i] != 0 {
            return false;
        }
        i = i + 1;
    }
    true
}

/// The journal has set the token aside: as a pending one or as the one that a
/// restore rotates out.
pub open spec fn journal_reserves(journal: IdentitySetupJournal, token: PhysicalId) -> bool {
    exists|i: int|
        #![trigger journal.subjects@[i]]
        0 <= i < journal.subjects@.len() && (journal.subjects@[i].token == Some(token)
            || journal.subjects@[i].old_token == Some(token))
}

pub fn is_token(slot: &Option<PhysicalId>, token: PhysicalId) -> (r: bool)
    ensures
        r == (*slot == Some(token)),
{
    match slot {
        Some(other) => other.same(&token),
        None => false,
    }
}

/// Tells whether the journal has set a token aside.
pub fn journal_reserves_token(journal: &IdentitySetupJournal, token: PhysicalId) -> (r: bool)
    ensures
        r == journal_reserves(*journal, token),
{
    let mut i: usize = 0;
    while i < journal.subjects.len()
        invariant
            i <= journal.subjects@.len(),
            forall|j: int|
                #![trigger journal.subjects@[j]]
                0 <= j < i ==> journal.subjects@[j].token != Some(token)
                    && journal.subjects@[j].old_token != Some(token),
        decreases journal.subjects@.len() - i,
    {
        if is_token(&journal.subjects[i].token, token) || is_token(
            &journal.subjects[i].old_token,
            token,
        ) {
            assert(journal.subjects@[i as int].token == Some(token)
                || journal.subjects@[i as int].old_token == Some(token));
            return true;
        }
        i = i + 1;
    }
    false
}

/// The stored mouse with this key carries the token.
pub open spec fn owns(devices: Map<Seq<char>, DeviceState>, key: Seq<char>, token: PhysicalId) -> bool {
    devices.dom().contains(key) && devices[key].identity.physical_id == Some(token)
}

/// Some stored mouse carries the token.
pub open spec fn is_known(devices: Map<Seq<char>, DeviceState>, token: PhysicalId) -> bool {
    exists|key: Seq<char>| #[trigger] owns(devices, key, token)
}

/// The stored mouse with this key carries the token, and no other does.
pub open spec fn owns_alone(
    devices: Map<Seq<char>, DeviceState>,
    key: Seq<char>,
    token: PhysicalId,
) -> bool {
    owns(devices, key, token) && forall|other: Seq<char>| #[trigger]
        owns(devices, other, token) ==> other == key
}

pub open spec fn unassociated(
    reason: UnassociatedReason,
    physical_id: Option<PhysicalId>,
) -> IdentityResolution {
    IdentityResolution::Unassociated { reason, physical_id }
}

/// What a connection with a valid token resolves to. Only the one stored mouse
/// that carries the token is ever claimed.
pub open spec fn token_resolution(
    devices: Map<Seq<char>, DeviceState>,
    journal: Option<IdentitySetupJournal>,
    token: PhysicalId,
) -> IdentityResolution {
    if token.is_reserved() {
        unassociated(UnassociatedReason::Reserved, Some(token))
    } else if journal is Some && journal_reserves(journal->0, token) {
        unassociated(UnassociatedReason::ReservedByJournal, Some(token))
    } else if !is_known(devices, token) {
        unassociated(UnassociatedReason::Unknown, Some(token))
    } else if exists|key: Seq<char>| owns_alone(devices, key, token) {
        let key = choose|key: Seq<char>| owns_alone(devices, key, token);
        IdentityResolution::Resolved { identity: devices[key].identity.id }
    } else {
        unassociated(UnassociatedReason::Duplicate, Some(token))
    }
}

/// Tells whether some stored mouse carries a token.
pub fn is_known_token(devices: &DeviceMap, token: PhysicalId) -> (r: bool)
    ensures
        r == is_known(devices@, token),
{
    let len: usize = devices.len();
    let mut i: usize = 0;
    while i < len
        invariant
            i <= len,
            len == devices.keys().len(),
            devices.listed(),
            forall|j: int| 0 <= j < i ==> !owns(devices@, #[trigger] devices.keys()[j], token),
        decreases len - i,
    {
        if is_token(&devices.state_at(i).identity.physical_id, token) {
            assert(owns(devices@, devices.keys()[i as int], token));
            return true;
        }
        i = i + 1;
    }
    proof {
        assert forall|key: Seq<char>| !#[trigger] owns(devices@, key, token) by {
            if devices@.dom().contains(key) {
                let j = choose|j: int| 0 <= j < len && #[trigger] devices.keys()[j] == key;
                assert(!owns(devices@, devices.keys()[j], token));
            }
        }
    }
    false
}

/// Resolves a connection with a valid token. Unknown beats incorrect identity.
pub fn resolve_valid_token(
    devices: &DeviceMap,
    journal: Option<&IdentitySetupJournal>,
    token: PhysicalId,
) -> (r: IdentityResolution)
    ensures
        r == token_resolution(
            devices@,
            match journal {
                Some(journal) => Some(*journal),
                None => None,
            },
            token,
        ),
{
    if is_reserved_token(token) {
        return IdentityResolution::Unassociated {
            reason: UnassociatedReason::Reserved,
            physical_id: Some(token),
        };
    }
    if let Some(journal) = journal {
        if journal_reserves_token(journal, token) {
            return IdentityResolution::Unassociated {
                reason: UnassociatedReason::ReservedByJournal,
                physical_id: Some(token),
            };
        }
    }
    let len: usize = devices.len();
    let mut owner: Option<usize> = None;
    let mut i: usize = 0;
    while i < len
        invariant
            i <= len,
            len == devices.keys().len(),
            devices.listed(),
            !token.is_reserved(),
            journal is Some ==> !journal_reserves(*journal->0, token),
            match owner {
                None => forall|j: int|
                    0 <= j < i ==> !owns(devices@, #[trigger] devices.keys()[j], token),
                Some(at) => at < i && owns(devices@, devices.keys()[at as int], token) && forall|j:
                    int|
                    0 <= j < i && j != at ==> !owns(
                        devices@,
                        #[trigger] devices.keys()[j],
                        token,
                    ),
            },
        decreases len - i,
    {
        if is_token(&devices.state_at(i).identity.physical_id, token) {
            assert(owns(devices@, devices.keys()[i as int], token));
            if let Some(at) = owner {
                proof {
                    let a = devices.keys()[at as int];
                    let b = devices.keys()[i as int];
                    assert(lex_less(a, b));
                    crate::text::lemma_lex_irreflexive(a);
                    assert forall|key: Seq<char>| !owns_alone(devices@, key, token) by {
                        if owns_alone(devices@, key, token) {
                            assert(owns(devices@, a, token));
                            assert(owns(devices@, b, token));
                        }
                    }
                }
                return IdentityResolution::Unassociated {
                    reason: UnassociatedReason::Duplicate,
                    physical_id: Some(token),
                };
            }
            owner = Some(i);
        }
        i = i + 1;
    }
    match owner {
        None => {
            proof {
                assert forall|key: Seq<char>| !#[trigger] owns(devices@, key, token) by {
                    if devices@.dom().contains(key) {
                        let j = choose|j: int| 0 <= j < len && #[trigger] devices.keys()[j] == key;
                        assert(!owns(devices@, devices.keys()[j], token));
                    }
                }
            }
            IdentityResolution::Unassociated {
                reason: UnassociatedReason::Unknown,
                physical_id: Some(token),
            }
        },
        Some(at) => {
            proof {
                let k = devices.keys()[at as int];
                assert(owns_alone(devices@, k, token)) by {
                    assert forall|other: Seq<char>| #[trigger]
                        owns(devices@, other, token) implies other == k by {
                        let j = choose|j: int| 0 <= j < len && #[trigger] devices.keys()[j] == other;
                        assert(owns(devices@, devices.keys()[j], token));
                    }
                }
                let chosen = choose|key: Seq<char>| owns_alone(devices@, key, token);
                assert(owns(devices@, chosen, token));
            }
            IdentityResolution::Resolved { identity: devices.state_at(at).identity.id.clone() }
        },
    }
}

/// The stored mouse with this key has the BLE locator.
pub open spec fn has_ble_locator(
    devices: Map<Seq<char>, DeviceState>,
    key: Seq<char>,
    locator: LocatorView,
) -> bool {
    &&& devices.dom().contains(key)
    &&& devices[key].identity.endpoints.ble matches Some(endpoint)
    &&& endpoint.locator@ == locator
}

/// The first stored mouse, in key order, that has the BLE locator.
pub open spec fn first_with_ble_locator(
    devices: Map<Seq<char>, DeviceState>,
    key: Seq<char>,
    locator: LocatorView,
) -> bool {
    &&& has_ble_locator(devices, key, locator)
    &&& forall|other: Seq<char>| #[trigger]
        has_ble_locator(devices, other, locator) ==> !lex_less(other, key)
}

/// What a BLE connection resolves to: an explicitly associated mouse or
/// nothing.
pub open spec fn ble_resolution(
    devices: Map<Seq<char>, DeviceState>,
    locator: LocatorView,
) -> IdentityResolution {
    if exists|key: Seq<char>| first_with_ble_locator(devices, key, locator) {
        let key = choose|key: Seq<char>| first_with_ble_locator(devices, key, locator);
        IdentityResolution::Resolved { identity: devices[key].identity.id }
    } else {
        unassociated(UnassociatedReason::Absent, None)
    }
}

fn resolve_ble(devices: &DeviceMap, endpoint: &DeviceEndpoint) -> (r: IdentityResolution)
    ensures
        r == ble_resolution(devices@, endpoint.locator@),
{
    let ghost locator = endpoint.locator@;
    let len: usize = devices.len();
    let mut i: usize = 0;
    while i < len
        invariant
            i <= len,
            len == devices.keys().len(),
            devices.listed(),
            locator == endpoint.locator@,
            forall|j: int|
                0 <= j < i ==> !has_ble_locator(devices@, #[trigger] devices.keys()[j], locator),
        decreases len - i,
    {
        let device = devices.state_at(i);
        let hit: bool = match device.identity.endpoint(TransportKind::Ble) {
            Some(stored) => stored.locator.same_locator(&endpoint.locator),
            None => false,
        };
        if hit {
            proof {
                let k = devices.keys()[i as int];
                assert(has_ble_locator(devices@, k, locator));
                assert(first_with_ble_locator(devices@, k, locator)) by {
                    assert forall|other: Seq<char>| #[trigger]
                        has_ble_locator(devices@, other, locator) implies !lex_less(other, k) by {
                        let j = choose|j: int| 0 <= j < len && #[trigger] devices.keys()[j] == other;
                        if j < i {
                            assert(!has_ble_locator(devices@, devices.keys()[j], locator));
                        } else if i < j {
                            if lex_less(other, k) {
                                crate::text::lemma_lex_transitive(other, k, other);
                                crate::text::lemma_lex_irreflexive(other);
                            }
                        } else {
                            crate::text::lemma_lex_irreflexive(other);
                        }
                    }
                }
                let chosen = choose|key: Seq<char>| first_with_ble_locator(devices@, key, locator);
                assert(has_ble_locator(devices@, chosen, locator));
                lemma_lex_total(chosen, k);
            }
            return IdentityResolution::Resolved { identity: device.identity.id.clone() };
        }
        i = i + 1;
    }
    proof {
        assert forall|key: Seq<char>| !#[trigger] has_ble_locator(devices@, key, locator) by {
            if devices@.dom().contains(key) {
                let j = choose|j: int| 0 <= j < len && #[trigger] devices.keys()[j] == key;
                assert(!has_ble_locator(devices@, devices.keys()[j], locator));
            }
        }
    }
    IdentityResolution::Unassociated { reason: UnassociatedReason::Absent, physical_id: None }
}

/// What a connection resolves to.
pub open spec fn connection_resolution(
    devices: Map<Seq<char>, DeviceState>,
    journal: Option<IdentitySetupJournal>,
    legacy_id: Option<DeviceId>,
    endpoint: EndpointView,
    decode: Option<WatermarkDecode>,
) -> IdentityResolution {
    match legacy_id {
        Some(identity) => IdentityResolution::Resolved { identity },
        None => if !endpoint.transport.is_usb() {
            ble_resolution(devices, endpoint.locator)
        } else {
            match decode {
                Some(WatermarkDecode::Valid(token)) => token_resolution(devices, journal, token),
                Some(WatermarkDecode::Malformed) => unassociated(
                    UnassociatedReason::Malformed,
                    None,
                ),
                Some(WatermarkDecode::UnsupportedVersion { version }) => unassociated(
                    UnassociatedReason::Unsupported { version },
                    None,
                ),
                Some(WatermarkDecode::Absent) | None => unassociated(
                    UnassociatedReason::Absent,
                    None,
                ),
            }
        },
    }
}

/// Resolves one discovered connection against the stored logical mice.
pub fn resolve_connection(
    devices: &DeviceMap,
    journal: Option<&IdentitySetupJournal>,
    legacy_id: Option<&DeviceId>,
    endpoint: &DeviceEndpoint,
    decode: Option<WatermarkDecode>,
) -> (r: IdentityResolution)
    ensures
        r == connection_resolution(
            devices@,
            match journal {
                Some(journal) => Some(*journal),
                None => None,
            },
            match legacy_id {
                Some(id) => Some(*id),
                None => None,
            },
            endpoint@,
            decode,
        ),
{
    if let Some(identity) = legacy_id {
        return IdentityResolution::Resolved { identity: identity.clone() };
    }
    match endpoint.transport {
        TransportKind::Ble => resolve_ble(devices, endpoint),
        TransportKind::Wired | TransportKind::Receiver => match decode {
            Some(WatermarkDecode::Valid(token)) => resolve_valid_token(devices, journal, token),
            Some(WatermarkDecode::Absent) | None => IdentityResolution::Unassociated {
                reason: UnassociatedReason::Absent,
                physical_id: None,
            },
            Some(WatermarkDecode::Malformed) => IdentityResolution::Unassociated {
                reason: UnassociatedReason::Malformed,
                physical_id: None,
            },
            Some(WatermarkDecode::UnsupportedVersion { version }) =>
                IdentityResolution::Unassociated {
                reason: UnassociatedReason::Unsupported { version },
                physical_id: None,
            },
        },
    }
}

/// A row shows a valid token that no stored mouse carries.
pub open spec fn shows_unknown(row: ResolvedConnection, token: PhysicalId) -> bool {
    row.resolution == unassociated(UnassociatedReason::Unknown, Some(token))
}

/// Another row of the same transport shows the same unknown token.
pub open spec fn is_doubled(rows: Seq<ResolvedConnection>, index: int) -> bool {
    exists|token: PhysicalId, other: int|
        #![trigger shows_unknown(rows[other], token)]
        {
            &&& 0 <= other < rows.len()
            &&& other != index
            &&& shows_unknown(rows[index], token)
            &&& shows_unknown(rows[other], token)
            &&& rows[other].endpoint.transport == rows[index].endpoint.transport
        }
}

/// A row after same-scan duplicates were folded.
pub open spec fn folded(rows: Seq<ResolvedConnection>, index: int) -> ResolvedConnection {
    let row = rows[index];
    if is_doubled(rows, index) {
        ResolvedConnection {
            resolution: unassociated(
                UnassociatedReason::Duplicate,
                row.resolution->physical_id,
            ),
            ..row
        }
    } else {
        row
    }
}

fn unknown_token(row: &ResolvedConnection) -> (r: Option<PhysicalId>)
    ensures
        match r {
            Some(token) => shows_unknown(*row, token),
            None => forall|token: PhysicalId| !#[trigger] shows_unknown(*row, token),
        },
{
    match &row.resolution {
        IdentityResolution::Unassociated { reason, physical_id } => match reason {
            UnassociatedReason::Unknown => *physical_id,
            _ => None,
        },
        IdentityResolution::Resolved { .. } => None,
    }
}

fn find_double(rows: &Vec<ResolvedConnection>, index: usize) -> (r: Option<PhysicalId>)
    requires
        index < rows@.len(),
    ensures
        r is Some <==> is_doubled(rows@, index as int),
        r matches Some(token) ==> shows_unknown(rows@[index as int], token),
{
    let token = match unknown_token(&rows[index]) {
        Some(token) => token,
        None => {
            assert(!is_doubled(rows@, index as int));
            return None;
        },
    };
    let mut other: usize = 0;
    while other < rows.len()
        invariant
            other <= rows@.len(),
            index < rows@.len(),
            shows_unknown(rows@[index as int], token),
            forall|j: int|
                0 <= j < other && j != index && (#[trigger] rows@[j]).endpoint.transport
                    == rows@[index as int].endpoint.transport ==> !shows_unknown(rows@[j], token),
        decreases rows@.len() - other,
    {
        if other != index && rows[other].endpoint.transport == rows[index].endpoint.transport {
            if let Some(shown) = unknown_token(&rows[other]) {
                if shown.same(&token) {
                    assert(shows_unknown(rows@[other as int], token));
                    return Some(token);
                }
            }
        }
        other = other + 1;
    }
    proof {
        if is_doubled(rows@, index as int) {
            let (shown, j) = choose|shown: PhysicalId, j: int|
                #![trigger shows_unknown(rows@[j], shown)]
                {
                    &&& 0 <= j < rows@.len()
                    &&& j != index
                    &&& shows_unknown(rows@[index as int], shown)
                    &&& shows_unknown(rows@[j], shown)
                    &&& rows@[j].endpoint.transport == rows@[index as int].endpoint.transport
                };
            assert(shown == token);
            assert(!shows_unknown(rows@[j], token));
        }
    }
    None
}

/// Folds same-scan duplicates: when two connections of one transport show the
/// same unknown token, neither may be adopted. One mouse has at most one
/// endpoint per transport, so the same token on two transports is no duplicate.
pub fn mark_scan_duplicates(resolved: &mut Vec<ResolvedConnection>)
    ensures
        final(resolved)@.len() == old(resolved)@.len(),
        forall|i: int|
            0 <= i < old(resolved)@.len() ==> #[trigger] final(resolved)@[i] == folded(
                old(resolved)@,
                i,
            ),
{
    let ghost rows = resolved@;
    let mut doubles: Vec<Option<PhysicalId>> = Vec::new();
    while doubles.len() < resolved.len()
        invariant
            resolved@ == rows,
            doubles@.len() <= rows.len(),
            forall|i: int|
                #![trigger doubles@[i]]
                0 <= i < doubles@.len() ==> (doubles@[i] is Some <==> is_doubled(rows, i)) && (
                doubles@[i] matches Some(token) ==> shows_unknown(rows[i], token)),
        decreases rows.len() - doubles@.len(),
    {
        let double = find_double(resolved, doubles.len());
        doubles.push(double);
    }
    let mut i: usize = 0;
    while i < resolved.len()
        invariant
            i <= rows.len(),
            resolved@.len() == rows.len(),
            doubles@.len() == rows.len(),
            forall|j: int|
                #![trigger doubles@[j]]
                0 <= j < rows.len() ==> (doubles@[j] is Some <==> is_doubled(rows, j)) && (
                doubles@[j] matches Some(token) ==> shows_unknown(rows[j], token)),
            forall|j: int| 0 <= j < i ==> #[trigger] resolved@[j] == folded(rows, j),
            forall|j: int| i <= j < rows.len() ==> #[trigger] resolved@[j] == rows[j],
        decreases rows.len() - i,
    {
        if let Some(token) = doubles[i] {
            resolved[i].resolution = IdentityResolution::Unassociated {
                reason: UnassociatedReason::Duplicate,
                physical_id: Some(token),
            };
            assert(resolved@[i as int] == folded(rows, i as int));
        }
        i = i + 1;
    }
}

/// A connection is resolved to a stored mouse only on exact evidence: in
/// persistent mode either that mouse alone carries the connection's valid,
/// assignable and unreserved token, or the BLE locator was associated with it.
pub proof fn law_resolution_never_guesses(
    devices: Map<Seq<char>, DeviceState>,
    journal: Option<IdentitySetupJournal>,
    endpoint: EndpointView,
    decode: Option<WatermarkDecode>,
    identity: DeviceId,
)
    requires
        connection_resolution(devices, journal, None, endpoint, decode)
            == (IdentityResolution::Resolved { identity }),
    ensures
        endpoint.transport.is_usb() ==> {
            &&& decode matches Some(WatermarkDecode::Valid(token))
            &&& !token.is_reserved()
            &&& journal matches Some(j) ==> !journal_reserves(j, token)
            &&& exists|key: Seq<char>|
                owns_alone(devices, key, token) && devices[key].identity.id == identity
        },
        !endpoint.transport.is_usb() ==> exists|key: Seq<char>|
            has_ble_locator(devices, key, endpoint.locator) && devices[key].identity.id
                == identity,
{
    if endpoint.transport.is_usb() {
        let token = decode->0->Valid_0;
        let key = choose|key: Seq<char>| owns_alone(devices, key, token);
        assert(owns_alone(devices, key, token) && devices[key].identity.id == identity);
    } else {
        let key = choose|key: Seq<char>| first_with_ble_locator(devices, key, endpoint.locator);
        assert(has_ble_locator(devices, key, endpoint.locator) && devices[key].identity.id
            == identity);
    }
}

/// A stored token that only one mouse carries resolves to that mouse, unless
/// it is reserved or set aside by a ceremony.
pub proof fn law_known_token_resolves(
    devices: Map<Seq<char>, DeviceState>,
    journal: Option<IdentitySetupJournal>,
    key: Seq<char>,
    token: PhysicalId,
)
    requires
        owns_alone(devices, key, token),
        !token.is_reserved(),
        journal matches Some(j) ==> !journal_reserves(j, token),
    ensures
        token_resolution(devices, journal, token) == (IdentityResolution::Resolved {
            identity: devices[key].identity.id,
        }),
{
    assert(is_known(devices, token)) by {
        assert(owns(devices, key, token));
    }
    let chosen = choose|k: Seq<char>| owns_alone(devices, k, token);
    assert(owns(devices, chosen, token));
}

/// Folding touches nothing but unknown tokens shown twice on one transport:
/// the same token on a wired and a receiver connection stays adoptable.
pub proof fn law_folding_is_per_transport(rows: Seq<ResolvedConnection>, index: int)
    requires
        0 <= index < rows.len(),
        forall|other: int|
            0 <= other < rows.len() && other != index ==> (
            #[trigger] rows[other]).endpoint.transport != rows[index].endpoint.transport,
    ensures
        folded(rows, index) == rows[index],
{
}

/// The token of a subject, or the one that it gives up, is this one.
pub open spec fn sets_aside(journal: IdentitySetupJournal, token: PhysicalId) -> bool {
    exists|i: int|
        0 <= i < journal.subjects@.len() && ((#[trigger] journal.subjects@[i]).token == Some(token)
            || journal.subjects@[i].old_token == Some(token))
}

/// The stored mouse with this key carries the token.
pub open spec fn carries(devices: DeviceMap, key: Seq<char>, token: PhysicalId) -> bool {
    devices@.dom().contains(key) && devices@[key].identity.physical_id == Some(token)
}

/// A valid token resolves to the one stored mouse that carries it. The token
/// that no mouse may carry, one that a ceremony has set aside, one that no
/// mouse carries and one that two mice carry are each reported as that, with
/// the token, in this order.
pub proof fn law_tokens_resolve_to_their_one_mouse(
    devices: &DeviceMap,
    journal: Option<&IdentitySetupJournal>,
    token: PhysicalId,
    r: IdentityResolution,
    known: bool,
    key: Seq<char>,
    other: Seq<char>,
)
    requires
        call_ensures(resolve_valid_token, (devices, journal, token), r),
        call_ensures(is_known_token, (devices, token), known),
    ensures
        ({
            let zero = forall|i: int| 0 <= i < 16 ==> #[trigger] token.token[i] == 0;
            let aside = journal is Some && sets_aside(*journal->0, token);
            &&& zero ==> r == (IdentityResolution::Unassociated {
                reason: UnassociatedReason::Reserved,
                physical_id: Some(token),
            })
            &&& !zero && aside ==> r == (IdentityResolution::Unassociated {
                reason: UnassociatedReason::ReservedByJournal,
                physical_id: Some(token),
            })
            &&& !zero && !aside && !known ==> r == (IdentityResolution::Unassociated {
                reason: UnassociatedReason::Unknown,
                physical_id: Some(token),
            })
            &&& !zero && !aside && carries(*devices, key, token) && carries(*devices, other, token)
                && key != other ==> r == (IdentityResolution::Unassociated {
                reason: UnassociatedReason::Duplicate,
                physical_id: Some(token),
            })
            &&& !zero && !aside && carries(*devices, key, token) && (forall|k: Seq<char>| #[trigger]
                carries(*devices, k, token) ==> k == key) ==> r == (IdentityResolution::Resolved {
                identity: devices@[key].identity.id,
            })
            &&& known <==> exists|k: Seq<char>| #[trigger] carries(*devices, k, token)
        }),
{
    let wide = match journal {
        Some(journal) => Some(*journal),
        None => None,
    };
    assert forall|k: Seq<char>| #[trigger] owns(devices@, k, token) == carries(
        *devices,
        k,
        token,
    ) by {}
    assert forall|k: Seq<char>| #[trigger] carries(*devices, k, token) == owns(
        devices@,
        k,
        token,
    ) by {}
    if let Some(j) = journal {
        assert(journal_reserves(*j, token) == sets_aside(*j, token));
    }
    if carries(*devices, key, token) {
        assert(owns(devices@, key, token));
        assert(is_known(devices@, token));
        if carries(*devices, other, token) && key != other {
            assert(owns(devices@, other, token));
            assert forall|k: Seq<char>| !owns_alone(devices@, k, token) by {}
        }
        if forall|k: Seq<char>| #[trigger] carries(*devices, k, token) ==> k == key {
            assert(owns_alone(devices@, key, token));
            if !token.is_reserved() && !(journal is Some && sets_aside(*journal->0, token)) {
                law_known_token_resolves(devices@, wide, key, token);
            }
        }
    }
}

/// The stored mouse with this key is associated with the BLE locator.
pub open spec fn associated_with(devices: DeviceMap, key: Seq<char>, locator: LocatorView) -> bool {
    &&& devices@.dom().contains(key)
    &&& devices@[key].identity.endpoints.ble matches Some(endpoint)
    &&& endpoint.locator@ == locator
}

/// A connection resolves to the one mouse of a legacy installation where there
/// is one. Elsewhere a BLE connection resolves to the first mouse that is
/// associated with its locator, a USB connection with a valid watermark goes by
/// its token, and any other connection is reported with the reason.
pub proof fn law_connections_resolve_by_evidence(
    devices: &DeviceMap,
    journal: Option<&IdentitySetupJournal>,
    legacy_id: Option<&DeviceId>,
    endpoint: &DeviceEndpoint,
    decode: Option<WatermarkDecode>,
    by_token: IdentityResolution,
    token: PhysicalId,
    key: Seq<char>,
    r: IdentityResolution,
)
    requires
        call_ensures(resolve_connection, (devices, journal, legacy_id, endpoint, decode), r),
        call_ensures(resolve_valid_token, (devices, journal, token), by_token),
    ensures
        legacy_id matches Some(id) ==> r == (IdentityResolution::Resolved { identity: *id }),
        legacy_id is None && endpoint.transport is Ble ==> {
            &&& associated_with(*devices, key, endpoint.locator@) && (forall|k: Seq<char>|
                #[trigger] associated_with(*devices, k, endpoint.locator@) && k != key ==> lex_less(
                    key,
                    k,
                )) ==> r == (IdentityResolution::Resolved { identity: devices@[key].identity.id })
            &&& (forall|k: Seq<char>| !#[trigger] associated_with(*devices, k, endpoint.locator@))
                ==> r == (IdentityResolution::Unassociated {
                reason: UnassociatedReason::Absent,
                physical_id: None,
            })
        },
        legacy_id is None && !(endpoint.transport is Ble) ==> {
            &&& decode == Some(WatermarkDecode::Valid(token)) ==> r == by_token
            &&& decode is None || decode->0 is Absent ==> r == (IdentityResolution::Unassociated {
                reason: UnassociatedReason::Absent,
                physical_id: None,
            })
            &&& decode == Some(WatermarkDecode::Malformed) ==> r == (
            IdentityResolution::Unassociated {
                reason: UnassociatedReason::Malformed,
                physical_id: None,
            })
            &&& decode matches Some(WatermarkDecode::UnsupportedVersion { version }) ==> r == (
            IdentityResolution::Unassociated {
                reason: UnassociatedReason::Unsupported { version },
                physical_id: None,
            })
        },
{
    if legacy_id is None && endpoint.transport is Ble {
        let locator = endpoint.locator@;
        assert forall|k: Seq<char>| #[trigger] has_ble_locator(devices@, k, locator)
            == associated_with(*devices, k, locator) by {}
        assert forall|k: Seq<char>| #[trigger] associated_with(*devices, k, locator)
            == has_ble_locator(devices@, k, locator) by {}
        if associated_with(*devices, key, locator) && (forall|k: Seq<char>| #[trigger]
            associated_with(*devices, k, locator) && k != key ==> lex_less(key, k)) {
            assert forall|k: Seq<char>| #[trigger]
                has_ble_locator(devices@, k, locator) implies !lex_less(k, key) by {
                assert(associated_with(*devices, k, locator));
                crate::text::lemma_lex_irreflexive(key);
                if k != key && lex_less(k, key) {
                    crate::text::lemma_lex_transitive(key, k, key);
                }
            }
            assert(first_with_ble_locator(devices@, key, locator));
            let chosen = choose|k: Seq<char>| first_with_ble_locator(devices@, k, locator);
            assert(has_ble_locator(devices@, chosen, locator));
            assert(associated_with(*devices, chosen, locator));
        }
    }
}

/// The row reports this token as one that no mouse carries.
pub open spec fn reports_unknown(row: ResolvedConnection, token: PhysicalId) -> bool {
    match row.resolution {
        IdentityResolution::Unassociated { reason, physical_id } => reason is Unknown && physical_id
            == Some(token),
        IdentityResolution::Resolved { .. } => false,
    }
}

/// A row becomes a duplicate, with its token, exactly where another row of the
/// same transport reports the same unknown token; every other row stays, and
/// endpoints and connections are never touched.
pub proof fn law_same_scan_doubles_are_not_adoptable(
    rows: &mut Vec<ResolvedConnection>,
    index: int,
    token: PhysicalId,
)
    requires
        call_ensures(mark_scan_duplicates, (rows,), ()),
        0 <= index < old(rows)@.len(),
    ensures
        ({
            let before = old(rows)@;
            let row = before[index];
            let after = final(rows)@[index];
            let doubled = exists|other: int|
                0 <= other < before.len() && other != index && reports_unknown(
                    #[trigger] before[other],
                    token,
                ) && before[other].endpoint.transport == row.endpoint.transport;
            &&& final(rows)@.len() == before.len()
            &&& after.endpoint == row.endpoint
            &&& after.connected == row.connected
            &&& reports_unknown(row, token) && doubled ==> after.resolution == (
            IdentityResolution::Unassociated {
                reason: UnassociatedReason::Duplicate,
                physical_id: Some(token),
            })
            &&& reports_unknown(row, token) && !doubled ==> after == row
            &&& (forall|t: PhysicalId| !#[trigger] reports_unknown(row, t)) ==> after == row
        }),
{
    let before = old(rows)@;
    let row = before[index];
    assert(final(rows)@[index] == folded(before, index));
    assert forall|r: ResolvedConnection, t: PhysicalId| #[trigger] shows_unknown(r, t)
        == reports_unknown(r, t) by {}
    assert forall|r: ResolvedConnection, t: PhysicalId| #[trigger] reports_unknown(r, t)
        == shows_unknown(r, t) by {}
    if is_doubled(before, index) {
        let (t, other) = choose|t: PhysicalId, other: int|
            #![trigger shows_unknown(before[other], t)]
            {
                &&& 0 <= other < before.len()
                &&& other != index
                &&& shows_unknown(before[index], t)
                &&& shows_unknown(before[other], t)
                &&& before[other].endpoint.transport == before[index].endpoint.transport
            };
        assert(reports_unknown(before[other], t));
        assert(reports_unknown(row, t));
    }
    if reports_unknown(row, token) && exists|other: int|
        0 <= other < before.len() && other != index && reports_unknown(
            #[trigger] before[other],
            token,
        ) && before[other].endpoint.transport == row.endpoint.transport {
        let other = choose|other: int|
            0 <= other < before.len() && other != index && reports_unknown(
                #[trigger] before[other],
                token,
            ) && before[other].endpoint.transport == row.endpoint.transport;
        assert(shows_unknown(before[other], token));
        assert(is_doubled(before, index));
    }
}

} // verus!
