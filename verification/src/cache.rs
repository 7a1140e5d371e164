//! What is known about the watermark of each attached endpoint.

use vstd::prelude::*;

use crate::device::{DeviceEndpoint, EndpointView, LocatorView};
use crate::operation::DiscoveredEndpoint;
use crate::protocol::{is_usb_transport, TransportKind, WatermarkDecode};

verus! {

/// Where an endpoint is attached.
pub open spec fn attachment(endpoint: EndpointView) -> (TransportKind, LocatorView) {
    (endpoint.transport, endpoint.locator)
}

#[derive(Debug, PartialEq, Eq)]
struct CacheEntry {
    endpoint: DeviceEndpoint,
    decode: WatermarkDecode,
}

/// Watermark readings per attachment.
///
/// A reading is keyed by transport and locator but trusted only while the
/// whole endpoint is the same, so another unit at the same path is never
/// mistaken for the one that was read.
#[derive(Debug, PartialEq, Eq)]
pub struct IdentityCache {
    entries: Vec<CacheEntry>,
}

spec fn entry_key(entry: CacheEntry) -> (TransportKind, LocatorView) {
    attachment(entry.endpoint@)
}

spec fn distinct(entries: Seq<CacheEntry>) -> bool {
    forall|i: int, j: int|
        #![trigger entries[i], entries[j]]
        0 <= i < j < entries.len() ==> entry_key(entries[i]) != entry_key(entries[j])
}

spec fn has_key(entries: Seq<CacheEntry>, key: (TransportKind, LocatorView)) -> bool {
    exists|i: int| 0 <= i < entries.len() && entry_key(#[trigger] entries[i]) == key
}

spec fn place(entries: Seq<CacheEntry>, key: (TransportKind, LocatorView)) -> int {
    choose|i: int| 0 <= i < entries.len() && entry_key(#[trigger] entries[i]) == key
}

spec fn entry_map(entries: Seq<CacheEntry>) -> Map<
    (TransportKind, LocatorView),
    (WatermarkDecode, EndpointView),
> {
    Map::new(
        |key: (TransportKind, LocatorView)| has_key(entries, key),
        |key: (TransportKind, LocatorView)|
            {
                let entry = entries[place(entries, key)];
                (entry.decode, entry.endpoint@)
            },
    )
}

proof fn lemma_entry(entries: Seq<CacheEntry>, i: int)
    requires
        distinct(entries),
        0 <= i < entries.len(),
    ensures
        entry_map(entries).dom().contains(entry_key(entries[i])),
        entry_map(entries)[entry_key(entries[i])] == (entries[i].decode, entries[i].endpoint@),
{
    let p = place(entries, entry_key(entries[i]));
    assert(entry_key(entries[p]) == entry_key(entries[i]));
    if p < i {
        assert(entry_key(entries[p]) != entry_key(entries[i]));
    } else if i < p {
        assert(entry_key(entries[i]) != entry_key(entries[p]));
    }
}

/// The entry is one of those from `low` on, and it survives.
spec fn comes_from(
    before: Seq<CacheEntry>,
    low: int,
    discovered: Seq<DiscoveredEndpoint>,
    entry: CacheEntry,
) -> bool {
    survives(discovered, entry.endpoint@) && exists|i: int|
        low <= i < before.len() && entry == #[trigger] before[i]
}

spec fn is_kept(kept: Seq<CacheEntry>, entry: CacheEntry) -> bool {
    exists|k: int| 0 <= k < kept.len() && #[trigger] kept[k] == entry
}

/// The reading for an endpoint, if there is one that can be trusted.
pub open spec fn trusted(
    readings: Map<(TransportKind, LocatorView), (WatermarkDecode, EndpointView)>,
    endpoint: EndpointView,
) -> Option<WatermarkDecode> {
    let key = attachment(endpoint);
    if readings.dom().contains(key) && readings[key].1 == endpoint {
        Some(readings[key].0)
    } else {
        None
    }
}

/// The endpoint is attached now.
pub open spec fn is_attached(discovered: Seq<DiscoveredEndpoint>, endpoint: EndpointView) -> bool {
    exists|i: int|
        #![trigger discovered[i]]
        0 <= i < discovered.len() && discovered[i].connected && discovered[i].endpoint@ == endpoint
}

/// A reading survives a scan in which its whole endpoint is still attached.
pub open spec fn survives(discovered: Seq<DiscoveredEndpoint>, endpoint: EndpointView) -> bool {
    endpoint.transport.is_usb() && is_attached(discovered, endpoint)
}

/// The readings that survive a scan.
pub open spec fn surviving(
    readings: Map<(TransportKind, LocatorView), (WatermarkDecode, EndpointView)>,
    discovered: Seq<DiscoveredEndpoint>,
) -> Map<(TransportKind, LocatorView), (WatermarkDecode, EndpointView)> {
    readings.restrict(
        Set::new(
            |key: (TransportKind, LocatorView)|
                readings.dom().contains(key) && survives(discovered, readings[key].1),
        ),
    )
}

impl View for IdentityCache {
    type V = Map<(TransportKind, LocatorView), (WatermarkDecode, EndpointView)>;

    closed spec fn view(&self) -> Self::V {
        entry_map(self.entries@)
    }
}

impl IdentityCache {
    #[verifier::type_invariant]
    spec fn wf(self) -> bool {
        distinct(self.entries@)
    }

    pub fn new() -> (r: Self)
        ensures
            r@ == Map::<(TransportKind, LocatorView), (WatermarkDecode, EndpointView)>::empty(),
    {
        let r = IdentityCache { entries: Vec::new() };
        assert(r@ =~= Map::<
            (TransportKind, LocatorView),
            (WatermarkDecode, EndpointView),
        >::empty());
        r
    }

    /// The reading for an endpoint, if there is one that can be trusted.
    pub fn lookup(&self, endpoint: &DeviceEndpoint) -> (r: Option<WatermarkDecode>)
        ensures
            r == trusted(self@, endpoint@),
    {
        proof {
            use_type_invariant(self);
        }
        let mut i: usize = 0;
        while i < self.entries.len()
            invariant
                i <= self.entries@.len(),
                distinct(self.entries@),
                forall|j: int|
                    0 <= j < i ==> (#[trigger] self.entries@[j]).endpoint@ != endpoint@,
            decreases self.entries@.len() - i,
        {
            if self.entries[i].endpoint.same_endpoint(endpoint) {
                proof {
                    lemma_entry(self.entries@, i as int);
                }
                return Some(self.entries[i].decode);
            }
            i = i + 1;
        }
        proof {
            let key = attachment(endpoint@);
            if self@.dom().contains(key) && self@[key].1 == endpoint@ {
                let p = place(self.entries@, key);
                assert(self.entries@[p].endpoint@ != endpoint@);
            }
        }
        None
    }

    /// Keeps a reading, in place of any earlier one for the same attachment.
    pub fn record(&mut self, endpoint: DeviceEndpoint, decode: WatermarkDecode)
        ensures
            final(self)@ == old(self)@.insert(attachment(endpoint@), (decode, endpoint@)),
    {
        proof {
            use_type_invariant(&*self);
        }
        let ghost before = self.entries@;
        let ghost key = attachment(endpoint@);
        let ghost fresh = CacheEntry { endpoint, decode };
        let mut entries: Vec<CacheEntry> = Vec::new();
        std::mem::swap(&mut entries, &mut self.entries);
        let mut i: usize = 0;
        while i < entries.len() && !(entries[i].endpoint.transport == endpoint.transport
            && entries[i].endpoint.locator.same_locator(&endpoint.locator))
            invariant
                i <= entries@.len(),
                entries@ == before,
                key == attachment(endpoint@),
                forall|j: int| 0 <= j < i ==> entry_key(#[trigger] entries@[j]) != key,
            decreases entries@.len() - i,
        {
            i = i + 1;
        }
        if i < entries.len() {
            entries[i] = CacheEntry { endpoint, decode };
            proof {
                let after = entries@;
                assert(after =~= before.update(i as int, fresh));
                assert(distinct(after)) by {
                    assert forall|a: int, b: int|
                        #![trigger after[a], after[b]]
                        0 <= a < b < after.len() implies entry_key(after[a]) != entry_key(
                        after[b],
                    ) by {
                        assert(entry_key(before[a]) != entry_key(before[b]));
                    }
                }
                lemma_same_keys(before, after, i as int, fresh);
            }
        } else {
            entries.push(CacheEntry { endpoint, decode });
            proof {
                let after = entries@;
                assert(after =~= before.push(fresh));
                assert(distinct(after)) by {
                    assert forall|a: int, b: int|
                        #![trigger after[a], after[b]]
                        0 <= a < b < after.len() implies entry_key(after[a]) != entry_key(
                        after[b],
                    ) by {
                        if b < before.len() {
                            assert(entry_key(before[a]) != entry_key(before[b]));
                        } else {
                            assert(entry_key(before[a]) != key);
                        }
                    }
                }
                lemma_pushed(before, fresh);
            }
        }
        self.entries = entries;
    }

    /// Drops every reading whose endpoint is not attached any more.
    pub fn retain_attached(&mut self, discovered: &Vec<DiscoveredEndpoint>)
        ensures
            final(self)@ == surviving(old(self)@, discovered@),
    {
        proof {
            use_type_invariant(&*self);
        }
        let ghost before = self.entries@;
        let mut entries: Vec<CacheEntry> = Vec::new();
        std::mem::swap(&mut entries, &mut self.entries);
        let mut kept: Vec<CacheEntry> = Vec::new();
        // Entries move over from the back, those that survive.
        while entries.len() > 0
            invariant
                distinct(before),
                entries@ == before.subrange(0, entries@.len() as int),
                entries@.len() <= before.len(),
                distinct(kept@),
                forall|k: int|
                    0 <= k < kept@.len() ==> comes_from(
                        before,
                        entries@.len() as int,
                        discovered@,
                        #[trigger] kept@[k],
                    ),
                forall|i: int|
                    entries@.len() <= i < before.len() && survives(
                        discovered@,
                        (#[trigger] before[i]).endpoint@,
                    ) ==> is_kept(kept@, before[i]),
            decreases entries@.len(),
        {
            let ghost at = entries@.len() - 1;
            let ghost passed = kept@;
            let entry = entries.pop().unwrap();
            assert(entry == before[at]);
            assert(entries@ =~= before.subrange(0, entries@.len() as int));
            if is_surviving(discovered, &entry.endpoint) {
                kept.push(entry);
                proof {
                    lemma_moved(before, passed, discovered@, at);
                }
            } else {
                proof {
                    assert forall|k: int| 0 <= k < passed.len() implies comes_from(
                        before,
                        at,
                        discovered@,
                        #[trigger] passed[k],
                    ) by {
                        assert(comes_from(before, at + 1, discovered@, passed[k]));
                    }
                }
            }
        }
        proof {
            lemma_kept(before, kept@, discovered@);
        }
        self.entries = kept;
    }
}

proof fn lemma_moved(
    before: Seq<CacheEntry>,
    passed: Seq<CacheEntry>,
    discovered: Seq<DiscoveredEndpoint>,
    at: int,
)
    requires
        distinct(before),
        distinct(passed),
        0 <= at < before.len(),
        survives(discovered, before[at].endpoint@),
        forall|k: int|
            0 <= k < passed.len() ==> comes_from(before, at + 1, discovered, #[trigger] passed[k]),
        forall|i: int|
            at < i < before.len() && survives(discovered, (#[trigger] before[i]).endpoint@)
                ==> is_kept(passed, before[i]),
    ensures
        distinct(passed.push(before[at])),
        forall|k: int|
            0 <= k < passed.push(before[at]).len() ==> comes_from(
                before,
                at,
                discovered,
                #[trigger] passed.push(before[at])[k],
            ),
        forall|i: int|
            at <= i < before.len() && survives(discovered, (#[trigger] before[i]).endpoint@)
                ==> is_kept(passed.push(before[at]), before[i]),
{
    let now = passed.push(before[at]);
    assert forall|a: int, b: int|
        #![trigger now[a], now[b]]
        0 <= a < b < now.len() implies entry_key(now[a]) != entry_key(now[b]) by {
        if b < passed.len() {
            assert(entry_key(passed[a]) != entry_key(passed[b]));
        } else {
            assert(comes_from(before, at + 1, discovered, passed[a]));
            let i = choose|i: int| at < i < before.len() && passed[a] == #[trigger] before[i];
            assert(entry_key(before[at]) != entry_key(before[i]));
        }
    }
    assert forall|k: int| 0 <= k < now.len() implies comes_from(
        before,
        at,
        discovered,
        #[trigger] now[k],
    ) by {
        if k < passed.len() {
            assert(comes_from(before, at + 1, discovered, passed[k]));
        } else {
            assert(now[k] == before[at]);
        }
    }
    assert forall|i: int|
        at <= i < before.len() && survives(
            discovered,
            (#[trigger] before[i]).endpoint@,
        ) implies is_kept(now, before[i]) by {
        if i == at {
            assert(now[passed.len() as int] == before[i]);
        } else {
            assert(is_kept(passed, before[i]));
            let k = choose|k: int| 0 <= k < passed.len() && #[trigger] passed[k] == before[i];
            assert(now[k] == before[i]);
        }
    }
}

fn is_surviving(discovered: &Vec<DiscoveredEndpoint>, endpoint: &DeviceEndpoint) -> (r: bool)
    ensures
        r == survives(discovered@, endpoint@),
{
    if !is_usb_transport(endpoint.transport) {
        return false;
    }
    let mut i: usize = 0;
    while i < discovered.len()
        invariant
            i <= discovered@.len(),
            endpoint.transport.is_usb(),
            forall|j: int|
                #![trigger discovered@[j]]
                0 <= j < i ==> !(discovered@[j].connected && discovered@[j].endpoint@ == endpoint@),
        decreases discovered@.len() - i,
    {
        if discovered[i].connected && discovered[i].endpoint.same_endpoint(endpoint) {
            assert(discovered@[i as int].connected);
            return true;
        }
        i = i + 1;
    }
    false
}

proof fn lemma_same_keys(before: Seq<CacheEntry>, after: Seq<CacheEntry>, at: int, fresh: CacheEntry)
    requires
        distinct(before),
        distinct(after),
        0 <= at < before.len(),
        after == before.update(at, fresh),
        entry_key(before[at]) == entry_key(fresh),
    ensures
        entry_map(after) == entry_map(before).insert(
            entry_key(fresh),
            (fresh.decode, fresh.endpoint@),
        ),
{
    let m = entry_map(before).insert(entry_key(fresh), (fresh.decode, fresh.endpoint@));
    assert forall|key: (TransportKind, LocatorView)|
        entry_map(after).dom().contains(key) == m.dom().contains(key) by {
        if has_key(after, key) {
            let p = place(after, key);
            assert(entry_key(before[p]) == key);
        }
        if has_key(before, key) {
            let p = place(before, key);
            assert(entry_key(after[p]) == key);
        }
    }
    assert forall|key: (TransportKind, LocatorView)|
        entry_map(after).dom().contains(key) implies entry_map(after)[key] == m[key] by {
        let p = place(after, key);
        lemma_entry(after, p);
        if p != at {
            lemma_entry(before, p);
            if key == entry_key(fresh) {
                lemma_entry(after, at);
                if p < at {
                    assert(entry_key(after[p]) != entry_key(after[at]));
                } else {
                    assert(entry_key(after[at]) != entry_key(after[p]));
                }
            }
        }
    }
    assert(entry_map(after) =~= m);
}

proof fn lemma_pushed(before: Seq<CacheEntry>, fresh: CacheEntry)
    requires
        distinct(before),
        distinct(before.push(fresh)),
    ensures
        entry_map(before.push(fresh)) == entry_map(before).insert(
            entry_key(fresh),
            (fresh.decode, fresh.endpoint@),
        ),
{
    let after = before.push(fresh);
    let m = entry_map(before).insert(entry_key(fresh), (fresh.decode, fresh.endpoint@));
    assert(after[before.len() as int] == fresh);
    assert forall|key: (TransportKind, LocatorView)|
        entry_map(after).dom().contains(key) == m.dom().contains(key) by {
        if has_key(after, key) {
            let p = place(after, key);
            if p < before.len() {
                assert(entry_key(before[p]) == key);
            }
        }
        if has_key(before, key) {
            let p = place(before, key);
            assert(entry_key(after[p]) == key);
        }
    }
    assert forall|key: (TransportKind, LocatorView)|
        entry_map(after).dom().contains(key) implies entry_map(after)[key] == m[key] by {
        let p = place(after, key);
        lemma_entry(after, p);
        if p < before.len() {
            lemma_entry(before, p);
            assert(entry_key(after[p]) != entry_key(after[before.len() as int]));
        }
    }
    assert(entry_map(after) =~= m);
}

proof fn lemma_kept(
    before: Seq<CacheEntry>,
    kept: Seq<CacheEntry>,
    discovered: Seq<DiscoveredEndpoint>,
)
    requires
        distinct(before),
        distinct(kept),
        forall|k: int|
            0 <= k < kept.len() ==> comes_from(before, 0, discovered, #[trigger] kept[k]),
        forall|i: int|
            0 <= i < before.len() && survives(discovered, (#[trigger] before[i]).endpoint@)
                ==> is_kept(kept, before[i]),
    ensures
        entry_map(kept) == surviving(entry_map(before), discovered),
{
    let m = surviving(entry_map(before), discovered);
    assert forall|key: (TransportKind, LocatorView)|
        entry_map(kept).dom().contains(key) == m.dom().contains(key) by {
        if has_key(kept, key) {
            let k = place(kept, key);
            assert(comes_from(before, 0, discovered, kept[k]));
            let i = choose|i: int| 0 <= i < before.len() && kept[k] == #[trigger] before[i];
            lemma_entry(before, i);
        }
        if m.dom().contains(key) {
            let i = place(before, key);
            lemma_entry(before, i);
            assert(survives(discovered, before[i].endpoint@));
            assert(is_kept(kept, before[i]));
            let k = choose|k: int| 0 <= k < kept.len() && (#[trigger] kept[k]) == before[i];
            assert(entry_key(kept[k]) == key);
        }
    }
    assert forall|key: (TransportKind, LocatorView)|
        entry_map(kept).dom().contains(key) implies entry_map(kept)[key] == m[key] by {
        let k = place(kept, key);
        lemma_entry(kept, k);
        assert(comes_from(before, 0, discovered, kept[k]));
        let i = choose|i: int| 0 <= i < before.len() && kept[k] == #[trigger] before[i];
        lemma_entry(before, i);
    }
    assert(entry_map(kept) =~= m);
}

/// A reading that was just kept is trusted for that very endpoint and for no
/// other at the same place, and it is forgotten once the endpoint is gone.
pub proof fn law_readings_belong_to_one_endpoint(
    readings: Map<(TransportKind, LocatorView), (WatermarkDecode, EndpointView)>,
    endpoint: EndpointView,
    other: EndpointView,
    decode: WatermarkDecode,
    discovered: Seq<DiscoveredEndpoint>,
)
    ensures
        trusted(readings.insert(attachment(endpoint), (decode, endpoint)), endpoint) == Some(decode),
        other != endpoint && attachment(other) == attachment(endpoint) ==> trusted(
            readings.insert(attachment(endpoint), (decode, endpoint)),
            other,
        ) is None,
        attachment(other) != attachment(endpoint) ==> trusted(
            readings.insert(attachment(endpoint), (decode, endpoint)),
            other,
        ) == trusted(readings, other),
        !is_attached(discovered, endpoint) ==> trusted(surviving(readings, discovered), endpoint)
            is None,
        survives(discovered, endpoint) ==> trusted(surviving(readings, discovered), endpoint)
            == trusted(readings, endpoint),
{
}

/// A reading is trusted exactly where it is on record for the same transport
/// and locator and the whole endpoint is the one that was read.
pub proof fn law_readings_are_trusted_whole(
    cache: &IdentityCache,
    endpoint: &DeviceEndpoint,
    r: Option<WatermarkDecode>,
)
    requires
        call_ensures(IdentityCache::lookup, (cache, endpoint), r),
    ensures
        ({
            let key = (endpoint.transport, endpoint.locator@);
            &&& r is Some <==> cache@.dom().contains(key) && cache@[key].1 == endpoint@
            &&& r matches Some(decode) ==> cache@[key].0 == decode
        }),
{
}

/// Keeping a reading replaces the one for the same transport and locator and
/// no other.
pub proof fn law_readings_are_kept_apart(
    cache: &mut IdentityCache,
    endpoint: DeviceEndpoint,
    decode: WatermarkDecode,
    key: (TransportKind, LocatorView),
)
    requires
        call_ensures(IdentityCache::record, (cache, endpoint, decode), ()),
    ensures
        key == (endpoint.transport, endpoint.locator@) ==> final(cache)@.dom().contains(key)
            && final(cache)@[key] == (decode, endpoint@),
        key != (endpoint.transport, endpoint.locator@) ==> final(cache)@.dom().contains(key)
            == old(cache)@.dom().contains(key) && (final(cache)@.dom().contains(key)
            ==> final(cache)@[key] == old(cache)@[key]),
{
}

/// After a scan exactly those readings are left whose whole endpoint is a USB
/// one that the scan shows as connected.
pub proof fn law_scans_drop_stale_readings(
    cache: &mut IdentityCache,
    discovered: &Vec<DiscoveredEndpoint>,
    key: (TransportKind, LocatorView),
)
    requires
        call_ensures(IdentityCache::retain_attached, (cache, discovered), ()),
    ensures
        ({
            let read = old(cache)@[key].1;
            let connected = exists|i: int|
                0 <= i < discovered@.len() && (#[trigger] discovered@[i]).connected
                    && discovered@[i].endpoint@ == read;
            &&& final(cache)@.dom().contains(key) <==> old(cache)@.dom().contains(key) && connected
                && (read.transport is Wired || read.transport is Receiver)
            &&& final(cache)@.dom().contains(key) ==> final(cache)@[key] == old(cache)@[key]
        }),
{
}

} // verus!
