//! A discovery scan, step by step, and the choice of the device to work on.

use vstd::prelude::*;

use crate::cache::{attachment, surviving, trusted};
use crate::ceremony::finalize::legacy_device;
use crate::device::{DeviceEndpoint, DeviceId, EndpointView, LocatorView, TransportSelection};
use crate::discovery::association::{
    aggregate_discovered_devices, aggregated, discovered_views, ensure_legacy_mouse,
    is_legacy_mouse, lemma_lists_found, lemma_scan_decides, lists_found, scan_decides,
    sync_endpoint_associations, synced_devices,
};
use crate::discovery::resolution::{
    connection_resolution, folded, is_doubled, mark_scan_duplicates, resolve_connection,
    shows_unknown,
};
use crate::error::{id_texts, viewed, ManagerError, ManagerErrorView};
use crate::manager::{not_found, preferring, DeviceManager};
use crate::operation::{
    DiscoveredDevice, DiscoveredEndpoint, DiscoveryView, IdentityResolution, ResolvedConnection,
    UnassociatedReason,
};
use crate::protocol::{
    is_usb_transport, DpiState, PhysicalId, ProfileMetadata, TransportKind, WatermarkDecode,
};
use crate::resources::evidence::nothing_changes;
use crate::session::{SessionReply, SessionRequest, Step};
use crate::state::{allocation_error, DeviceState, IdentityMode, StateFile};
use crate::text::{lemma_lex_irreflexive, lemma_lex_total, lemma_lex_transitive, lex_less};

verus! {

/// Watermark readings by attachment.
pub type Readings = Map<(TransportKind, LocatorView), (WatermarkDecode, EndpointView)>;

/// The watermark of the endpoint has to be read: it is attached over USB, and
/// no reading for this very endpoint is at hand.
pub open spec fn needs_reading(readings: Readings, found: DiscoveredEndpoint) -> bool {
    found.connected && found.endpoint.transport.is_usb() && trusted(readings, found.endpoint@)
        is None
}

/// The endpoints whose watermark has to be read, in the order of the scan.
pub open spec fn unread(readings: Readings, discovered: Seq<DiscoveredEndpoint>) -> Seq<
    DeviceEndpoint,
>
    decreases discovered.len(),
{
    if discovered.len() == 0 {
        Seq::empty()
    } else {
        let front = unread(readings, discovered.drop_last());
        if needs_reading(readings, discovered.last()) {
            front.push(discovered.last().endpoint)
        } else {
            front
        }
    }
}

/// The watermark reading that counts for a connection. Legacy mode makes no
/// identity claim and looks at none.
pub open spec fn counted_reading(
    mode: IdentityMode,
    readings: Readings,
    found: DiscoveredEndpoint,
) -> Option<WatermarkDecode> {
    if mode is Persistent && found.connected && found.endpoint.transport.is_usb() {
        trusted(readings, found.endpoint@)
    } else {
        None
    }
}

/// The key of the fuzzy mouse, in legacy mode.
pub open spec fn legacy_key(state: StateFile) -> Option<DeviceId> {
    if state.identity_mode is Legacy && legacy_device(state.devices) is Some {
        Some(legacy_device(state.devices)->0.identity.id)
    } else {
        None
    }
}

/// One connection of a scan, resolved on its own.
pub open spec fn scanned_row(
    state: StateFile,
    readings: Readings,
    found: DiscoveredEndpoint,
) -> ResolvedConnection {
    ResolvedConnection {
        endpoint: found.endpoint,
        connected: found.connected,
        resolution: connection_resolution(
            state.devices@,
            state.identity_setup,
            legacy_key(state),
            found.endpoint@,
            counted_reading(state.identity_mode, readings, found),
        ),
    }
}

/// The connections of a scan, each resolved on its own.
pub open spec fn scanned_rows(
    state: StateFile,
    readings: Readings,
    discovered: Seq<DiscoveredEndpoint>,
) -> Seq<ResolvedConnection> {
    Seq::new(discovered.len(), |i: int| scanned_row(state, readings, discovered[i]))
}

/// The connections of a scan, with same-scan duplicates folded.
pub open spec fn resolved_rows(
    state: StateFile,
    readings: Readings,
    discovered: Seq<DiscoveredEndpoint>,
) -> Seq<ResolvedConnection> {
    let rows = scanned_rows(state, readings, discovered);
    Seq::new(rows.len(), |i: int| folded(rows, i))
}

/// The readings that are still good after a scan. Legacy mode looks at none
/// and drops none.
pub open spec fn readings_after(
    mode: IdentityMode,
    readings: Readings,
    discovered: Seq<DiscoveredEndpoint>,
) -> Readings {
    if mode is Persistent {
        surviving(readings, discovered)
    } else {
        readings
    }
}

/// Where the reading of an endpoint's watermark stands.
#[derive(Clone, Copy, Debug, PartialEq, Eq, Structural)]
pub enum WatermarkRead {
    /// The metadata that names the active profile is being read.
    Metadata,
    /// The sensitivity image of the active profile is being read.
    Image,
}

impl WatermarkRead {
    pub open spec fn follows(
        self,
        reply: SessionReply,
        step: Step<WatermarkRead, WatermarkDecode>,
    ) -> bool {
        match (self, reply) {
            (WatermarkRead::Metadata, SessionReply::ProfileMetadata(metadata)) => step
                == Step::<WatermarkRead, WatermarkDecode>::Ask {
                request: SessionRequest::ReadDpi(metadata.current_profile),
                next: WatermarkRead::Image,
            },
            (WatermarkRead::Image, SessionReply::Dpi { state, watermark }) => step == Step::<
                WatermarkRead,
                WatermarkDecode,
            >::Done(Ok(watermark)),
            (_, SessionReply::Failed(error)) => step == Step::<
                WatermarkRead,
                WatermarkDecode,
            >::Done(Err(error)),
            _ => true,
        }
    }

    /// The reply is of the sort that is waited for.
    pub open spec fn expects(self, reply: SessionReply) -> bool {
        match self {
            WatermarkRead::Metadata => reply.fits(SessionRequest::ReadProfileMetadata),
            WatermarkRead::Image => reply is Dpi || reply is Failed,
        }
    }

    /// Goes on with the reply to the request that was handed out last.
    pub fn resume(self, reply: SessionReply) -> (r: Step<WatermarkRead, WatermarkDecode>)
        requires
            self.expects(reply),
        ensures
            self.follows(reply, r),
    {
        match reply {
            SessionReply::Failed(error) => Step::Done(Err(error)),
            SessionReply::ProfileMetadata(metadata) => Step::Ask {
                request: SessionRequest::ReadDpi(metadata.current()),
                next: WatermarkRead::Image,
            },
            SessionReply::Dpi { state: _, watermark } => Step::Done(Ok(watermark)),
            _ => vstd::pervasive::unreached(),
        }
    }
}

/// Begins to read the watermark of the active profile.
pub fn current_watermark() -> (r: Step<WatermarkRead, WatermarkDecode>)
    ensures
        r == (Step::<WatermarkRead, WatermarkDecode>::Ask {
            request: SessionRequest::ReadProfileMetadata,
            next: WatermarkRead::Metadata,
        }),
{
    Step::Ask { request: SessionRequest::ReadProfileMetadata, next: WatermarkRead::Metadata }
}

/// What a reading amounts to for discovery: a transport that cannot produce a
/// watermark counts as one without.
pub fn read_endpoint_identity(outcome: Result<WatermarkDecode, ManagerError>) -> (r: Result<
    WatermarkDecode,
    ManagerError,
>)
    ensures
        r == (match outcome {
            Err(error) if error is UnsupportedOperation => Ok(WatermarkDecode::Absent),
            _ => outcome,
        }),
{
    match outcome {
        Ok(decode) => Ok(decode),
        Err(error) => match error {
            ManagerError::UnsupportedOperation { .. } => Ok(WatermarkDecode::Absent),
            _ => Err(error),
        },
    }
}

impl DeviceManager {
    /// Begins a scan: a legacy installation gets its one fuzzy mouse, and a
    /// persistent one is told which watermarks have to be read.
    pub fn begin_discovery(&mut self, discovered: &Vec<DiscoveredEndpoint>) -> (r: Result<
        Vec<DeviceEndpoint>,
        ManagerError,
    >)
        ensures
            final(self).identity_cache == old(self).identity_cache,
            old(self).state.identity_mode is Persistent ==> {
                &&& final(self).state == old(self).state
                &&& r matches Ok(endpoints)
                &&& endpoints@ == unread(old(self).identity_cache@, discovered@)
            },
            old(self).state.identity_mode is Legacy ==> {
                let before = old(self).state;
                let after = final(self).state;
                let number = before.next_device_number;
                let key = crate::device::logical_key(number as nat);
                &&& r matches Ok(endpoints) ==> endpoints@.len() == 0
                &&& if discovered@.len() == 0 || before.devices@ != Map::<
                    Seq<char>,
                    DeviceState,
                >::empty() {
                    r is Ok && after == before
                } else if 0 < number < u64::MAX {
                    &&& r is Ok
                    &&& after.next_device_number == number + 1
                    &&& after.selected_device == before.selected_device
                    &&& after.identity_mode == before.identity_mode
                    &&& after.identity_setup == before.identity_setup
                    &&& after.devices@.dom().contains(key)
                    &&& is_legacy_mouse(after.devices@[key], key, discovered@)
                    &&& after.devices@ == Map::<Seq<char>, DeviceState>::empty().insert(
                        key,
                        after.devices@[key],
                    )
                } else {
                    &&& after == before
                    &&& r matches Err(error)
                    &&& error@ == ManagerErrorView::State(allocation_error(number))
                }
            },
    {
        let mut endpoints: Vec<DeviceEndpoint> = Vec::new();
        if self.state.identity_mode.is_legacy() {
            if discovered.len() > 0 {
                match ensure_legacy_mouse(&mut self.state, discovered) {
                    Ok(_) => {},
                    Err(error) => {
                        return Err(error);
                    },
                }
            }
            return Ok(endpoints);
        }
        let mut i: usize = 0;
        assert(discovered@.subrange(0, 0) =~= Seq::<DiscoveredEndpoint>::empty());
        while i < discovered.len()
            invariant
                i <= discovered@.len(),
                *self == *old(self),
                endpoints@ == unread(
                    old(self).identity_cache@,
                    discovered@.subrange(0, i as int),
                ),
            decreases discovered@.len() - i,
        {
            proof {
                let next = discovered@.subrange(0, i + 1);
                assert(next.drop_last() =~= discovered@.subrange(0, i as int));
                assert(next.last() == discovered@[i as int]);
            }
            let found = &discovered[i];
            if found.connected && is_usb_transport(found.endpoint.transport)
                && self.identity_cache.lookup(&found.endpoint).is_none() {
                endpoints.push(found.endpoint.clone());
            }
            i = i + 1;
        }
        assert(discovered@.subrange(0, discovered@.len() as int) =~= discovered@);
        Ok(endpoints)
    }

    /// Keeps a watermark that was read from an attached endpoint.
    pub fn record_identity(&mut self, endpoint: DeviceEndpoint, decode: WatermarkDecode)
        ensures
            final(self).state == old(self).state,
            final(self).identity_cache@ == old(self).identity_cache@.insert(
                attachment(endpoint@),
                (decode, endpoint@),
            ),
    {
        self.identity_cache.record(endpoint, decode);
    }

    /// Completes a scan: readings of endpoints that are gone are dropped, every
    /// connection is resolved, the stored associations are brought in step, and
    /// the scan is summed up per mouse.
    pub fn discover(
        &mut self,
        discovered: &Vec<DiscoveredEndpoint>,
        selection: TransportSelection,
    ) -> (r: DiscoveryView)
        ensures
            final(self).identity_cache@ == readings_after(
                old(self).state.identity_mode,
                old(self).identity_cache@,
                discovered@,
            ),
            r.mode == old(self).state.identity_mode,
            r.connections@ == resolved_rows(
                old(self).state,
                final(self).identity_cache@,
                discovered@,
            ),
            final(self).state.same_but_devices(old(self).state),
            final(self).state.devices@ == synced_devices(
                old(self).state.devices@,
                r.connections@,
                selection,
            ),
            discovered_views(r.devices@) == aggregated(
                final(self).state.devices.keys(),
                final(self).state.devices@,
                r.connections@,
            ),
    {
        let mode = self.state.identity_mode;
        if !mode.is_legacy() {
            self.identity_cache.retain_attached(discovered);
        }
        let ghost readings = self.identity_cache@;
        let legacy_id: Option<DeviceId> = if mode.is_legacy() && self.state.devices.len() > 0 {
            Some(self.state.devices.state_at(0).identity.id.clone())
        } else {
            None
        };
        assert(legacy_id == legacy_key(self.state));
        let mut rows: Vec<ResolvedConnection> = Vec::new();
        while rows.len() < discovered.len()
            invariant
                rows@.len() <= discovered@.len(),
                self.state == old(self).state,
                self.identity_cache@ == readings,
                mode == self.state.identity_mode,
                legacy_id == legacy_key(self.state),
                forall|i: int|
                    0 <= i < rows@.len() ==> #[trigger] rows@[i] == scanned_row(
                        self.state,
                        readings,
                        discovered@[i],
                    ),
            decreases discovered@.len() - rows@.len(),
        {
            let found = &discovered[rows.len()];
            let decode: Option<WatermarkDecode> = if !mode.is_legacy() && found.connected
                && is_usb_transport(found.endpoint.transport) {
                self.identity_cache.lookup(&found.endpoint)
            } else {
                None
            };
            let resolution = resolve_connection(
                &self.state.devices,
                self.state.identity_setup.as_ref(),
                legacy_id.as_ref(),
                &found.endpoint,
                decode,
            );
            rows.push(
                ResolvedConnection {
                    endpoint: found.endpoint.clone(),
                    connected: found.connected,
                    resolution,
                },
            );
        }
        assert(rows@ =~= scanned_rows(old(self).state, readings, discovered@));
        mark_scan_duplicates(&mut rows);
        assert(rows@ =~= resolved_rows(old(self).state, readings, discovered@));
        sync_endpoint_associations(&mut self.state.devices, &rows, selection);
        let devices = aggregate_discovered_devices(&self.state.devices, &rows);
        DiscoveryView { mode, devices, connections: rows }
    }

    /// Completes a scan and gives the logical mice alone.
    pub fn list_devices(
        &mut self,
        discovered: &Vec<DiscoveredEndpoint>,
        selection: TransportSelection,
    ) -> (r: Vec<DiscoveredDevice>)
        ensures
            ({
                let readings = readings_after(
                    old(self).state.identity_mode,
                    old(self).identity_cache@,
                    discovered@,
                );
                let rows = resolved_rows(old(self).state, readings, discovered@);
                &&& final(self).identity_cache@ == readings
                &&& final(self).state.same_but_devices(old(self).state)
                &&& final(self).state.devices@ == synced_devices(
                    old(self).state.devices@,
                    rows,
                    selection,
                )
                &&& discovered_views(r@) == aggregated(
                    final(self).state.devices.keys(),
                    final(self).state.devices@,
                    rows,
                )
            }),
    {
        self.discover(discovered, selection).devices
    }
}

/// The mouse is connected in this scan.
pub open spec fn is_connected(discovered: Seq<DiscoveredDevice>, key: Seq<char>) -> bool {
    exists|i: int|
        #![trigger discovered[i]]
        0 <= i < discovered.len() && discovered[i].connected && discovered[i].identity.id@ == key
}

/// The keys are exactly those of the connected mice, in order and each once.
pub open spec fn lists_connected(
    keys: Seq<Seq<char>>,
    discovered: Seq<DiscoveredDevice>,
) -> bool {
    &&& forall|i: int, j: int|
        #![trigger keys[i], keys[j]]
        0 <= i < j < keys.len() ==> lex_less(keys[i], keys[j])
    &&& forall|key: Seq<char>|
        #![trigger keys.contains(key)]
        #![trigger is_connected(discovered, key)]
        keys.contains(key) <==> is_connected(discovered, key)
}

spec fn ordered_ids(ids: Seq<DeviceId>) -> bool {
    forall|i: int, j: int|
        #![trigger ids[i], ids[j]]
        0 <= i < j < ids.len() ==> lex_less(ids[i]@, ids[j]@)
}

spec fn holds_key(ids: Seq<DeviceId>, key: Seq<char>) -> bool {
    exists|i: int| 0 <= i < ids.len() && (#[trigger] ids[i])@ == key
}

/// Adds a key to an ordered list unless it is there.
fn insert_ordered(ids: &mut Vec<DeviceId>, id: &DeviceId)
    requires
        ordered_ids(old(ids)@),
    ensures
        ordered_ids(final(ids)@),
        forall|key: Seq<char>| #[trigger]
            holds_key(final(ids)@, key) <==> holds_key(old(ids)@, key) || key == id@,
{
    let ghost before = ids@;
    let mut at: usize = 0;
    while at < ids.len() && ids[at].before(id)
        invariant
            at <= ids@.len(),
            ids@ == before,
            forall|j: int| 0 <= j < at ==> lex_less((#[trigger] ids@[j])@, id@),
        decreases ids@.len() - at,
    {
        at = at + 1;
    }
    if at < ids.len() && ids[at].same_key(id) {
        assert(before[at as int]@ == id@);
        return;
    }
    let fresh = id.clone();
    ids.insert(at, fresh);
    proof {
        let after = ids@;
        if at < before.len() {
            lemma_lex_total(before[at as int]@, id@);
        }
        assert forall|i: int| 0 <= i < after.len() implies (#[trigger] after[i])@ == (if i < at {
            before[i]@
        } else if i == at {
            id@
        } else {
            before[i - 1]@
        }) by {}
        assert forall|i: int, j: int|
            #![trigger after[i], after[j]]
            0 <= i < j < after.len() implies lex_less(after[i]@, after[j]@) by {
            if i == at {
                if j - 1 > at {
                    assert(lex_less(before[at as int]@, before[j - 1]@));
                    lemma_lex_transitive(id@, before[at as int]@, before[j - 1]@);
                }
            } else if j == at {
                assert(lex_less(before[i]@, id@));
            } else if j < at {
                assert(lex_less(before[i]@, before[j]@));
            } else if i < at {
                assert(lex_less(before[i]@, before[j - 1]@));
            } else {
                assert(lex_less(before[i - 1]@, before[j - 1]@));
            }
        }
        assert forall|key: Seq<char>| #[trigger]
            holds_key(after, key) <==> holds_key(before, key) || key == id@ by {
            if holds_key(after, key) {
                let i = choose|i: int| 0 <= i < after.len() && (#[trigger] after[i])@ == key;
                if i < at {
                    assert(before[i]@ == key);
                } else if i > at {
                    assert(before[i - 1]@ == key);
                }
            }
            if holds_key(before, key) {
                let i = choose|i: int| 0 <= i < before.len() && (#[trigger] before[i])@ == key;
                if i < at {
                    assert(after[i]@ == key);
                } else {
                    assert(after[i + 1]@ == key);
                }
            }
            if key == id@ {
                assert(after[at as int]@ == key);
            }
        }
    }
}

/// Lists the keys of the connected mice in order.
fn list_connected(discovered: &Vec<DiscoveredDevice>) -> (r: Vec<DeviceId>)
    ensures
        lists_connected(id_texts(r@), discovered@),
{
    let mut ids: Vec<DeviceId> = Vec::new();
    let mut i: usize = 0;
    while i < discovered.len()
        invariant
            i <= discovered@.len(),
            ordered_ids(ids@),
            forall|key: Seq<char>| #[trigger]
                holds_key(ids@, key) <==> is_connected(discovered@.subrange(0, i as int), key),
        decreases discovered@.len() - i,
    {
        let found = &discovered[i];
        let ghost part = discovered@.subrange(0, i as int);
        let ghost next = discovered@.subrange(0, i + 1);
        let ghost earlier = ids@;
        if found.connected {
            insert_ordered(&mut ids, &found.identity.id);
        }
        proof {
            assert forall|key: Seq<char>| #[trigger]
                holds_key(ids@, key) <==> is_connected(next, key) by {
                assert(holds_key(ids@, key) <==> holds_key(earlier, key) || (found.connected && key
                    == found.identity.id@));
                assert forall|j: int| 0 <= j < part.len() implies #[trigger] next[j] == part[j] by {}
                assert(next[i as int] == *found);
                if is_connected(part, key) {
                    let j = choose|j: int|
                        #![trigger part[j]]
                        0 <= j < part.len() && part[j].connected && part[j].identity.id@ == key;
                    assert(next[j] == part[j]);
                }
                if is_connected(next, key) {
                    let j = choose|j: int|
                        #![trigger next[j]]
                        0 <= j < next.len() && next[j].connected && next[j].identity.id@ == key;
                    if j < i {
                        assert(part[j] == next[j]);
                    }
                }
            }
        }
        i = i + 1;
    }
    proof {
        assert(discovered@.subrange(0, discovered@.len() as int) =~= discovered@);
        let texts = id_texts(ids@);
        assert forall|key: Seq<char>|
            #![trigger texts.contains(key)]
            #![trigger is_connected(discovered@, key)]
            texts.contains(key) <==> is_connected(discovered@, key) by {
            assert(holds_key(ids@, key) <==> is_connected(discovered@, key));
            if texts.contains(key) {
                let j = choose|j: int| 0 <= j < texts.len() && texts[j] == key;
                assert(ids@[j]@ == key);
            }
            if holds_key(ids@, key) {
                let j = choose|j: int| 0 <= j < ids@.len() && (#[trigger] ids@[j])@ == key;
                assert(texts[j] == key);
            }
        }
    }
    ids
}

/// Exactly this mouse is connected.
pub open spec fn is_sole(discovered: Seq<DiscoveredDevice>, key: Seq<char>) -> bool {
    is_connected(discovered, key) && forall|other: Seq<char>| #[trigger]
        is_connected(discovered, other) ==> other == key
}

/// The choice falls on a mouse: an exact transport becomes its preferred one,
/// and a mouse that was chosen for lack of alternatives becomes the selected
/// one.
pub open spec fn settles(
    before: StateFile,
    after: StateFile,
    key: Seq<char>,
    selection: TransportSelection,
    select: bool,
    r: Result<DeviceId, ManagerError>,
) -> bool {
    if (selection is Exact || select) && !before.devices@.dom().contains(key) {
        viewed(r) == Err::<DeviceId, ManagerErrorView>(not_found(key)) && after.agrees(before)
    } else {
        &&& r matches Ok(id)
        &&& id@ == key
        &&& after.devices@ == (match selection {
            TransportSelection::Exact(transport) => before.devices@.insert(
                key,
                preferring(before.devices@[key], transport),
            ),
            TransportSelection::Auto => before.devices@,
        })
        &&& after.selected_device == (if select {
            Some(id)
        } else {
            before.selected_device
        })
        &&& after.next_device_number == before.next_device_number
        &&& after.identity_mode == before.identity_mode
        &&& after.identity_setup == before.identity_setup
    }
}

/// `r` is the outcome of choosing the device to work on.
///
/// An explicit device must be stored and connected. Otherwise the selected
/// device is taken where it is connected, else the only connected one. Several
/// connected mice are ambiguous: they are reported, and nothing changes.
pub open spec fn device_choice(
    before: StateFile,
    after: StateFile,
    discovered: Seq<DiscoveredDevice>,
    explicit: Option<Seq<char>>,
    selection: TransportSelection,
    r: Result<DeviceId, ManagerError>,
) -> bool {
    match explicit {
        Some(key) => if !before.devices@.dom().contains(key) {
            viewed(r) == Err::<DeviceId, ManagerErrorView>(not_found(key)) && after == before
        } else if !is_connected(discovered, key) {
            viewed(r) == Err::<DeviceId, ManagerErrorView>(
                ManagerErrorView::DeviceDisconnected(key),
            ) && after == before
        } else {
            settles(before, after, key, selection, false, r)
        },
        None => if before.selected_device is Some && is_connected(
            discovered,
            before.selected_device->0@,
        ) {
            settles(before, after, before.selected_device->0@, selection, false, r)
        } else if forall|key: Seq<char>| !#[trigger] is_connected(discovered, key) {
            viewed(r) == Err::<DeviceId, ManagerErrorView>(
                ManagerErrorView::NoDevice { selection },
            ) && after == before
        } else if exists|key: Seq<char>| is_sole(discovered, key) {
            exists|key: Seq<char>| #[trigger]
                is_sole(discovered, key) && settles(before, after, key, selection, true, r)
        } else {
            &&& r matches Err(error)
            &&& error@ matches ManagerErrorView::AmbiguousDevice {
                selection: refused,
                candidates,
            }
            &&& refused == selection
            &&& lists_connected(candidates, discovered)
            &&& after == before
        },
    }
}

/// What an ordered list of connected mice says about how many there are.
proof fn lemma_listed_connected(keys: Seq<Seq<char>>, discovered: Seq<DiscoveredDevice>)
    requires
        lists_connected(keys, discovered),
    ensures
        keys.len() == 0 ==> forall|key: Seq<char>| !#[trigger] is_connected(discovered, key),
        keys.len() > 0 ==> is_connected(discovered, keys[0]),
        keys.len() == 1 ==> is_sole(discovered, keys[0]),
        keys.len() != 1 ==> forall|key: Seq<char>| !#[trigger] is_sole(discovered, key),
{
    if keys.len() > 0 {
        assert(keys.contains(keys[0]));
    }
    if keys.len() == 0 {
        assert forall|key: Seq<char>| !#[trigger] is_connected(discovered, key) by {
            assert(!keys.contains(key));
        }
    }
    if keys.len() == 1 {
        assert forall|other: Seq<char>| #[trigger]
            is_connected(discovered, other) implies other == keys[0] by {
            assert(keys.contains(other));
        }
    }
    if keys.len() > 1 {
        assert(keys.contains(keys[1]));
        assert(lex_less(keys[0], keys[1]));
        lemma_lex_irreflexive(keys[0]);
        assert forall|key: Seq<char>| !#[trigger] is_sole(discovered, key) by {
            assert(is_connected(discovered, keys[0]));
            assert(is_connected(discovered, keys[1]));
        }
    }
}

fn find_connected(discovered: &Vec<DiscoveredDevice>, key: &DeviceId) -> (r: bool)
    ensures
        r == is_connected(discovered@, key@),
{
    let mut i: usize = 0;
    while i < discovered.len()
        invariant
            i <= discovered@.len(),
            forall|j: int|
                #![trigger discovered@[j]]
                0 <= j < i ==> !(discovered@[j].connected && discovered@[j].identity.id@ == key@),
        decreases discovered@.len() - i,
    {
        if discovered[i].connected && discovered[i].identity.id.same_key(key) {
            assert(discovered@[i as int].connected);
            return true;
        }
        i = i + 1;
    }
    false
}

impl DeviceManager {
    fn settle(&mut self, id: DeviceId, selection: TransportSelection, select: bool) -> (r: Result<
        DeviceId,
        ManagerError,
    >)
        ensures
            final(self).identity_cache == old(self).identity_cache,
            settles(old(self).state, final(self).state, id@, selection, select, r),
    {
        if let TransportSelection::Exact(transport) = selection {
            match self.set_preferred_transport(&id, transport) {
                Ok(_) => {},
                Err(error) => {
                    return Err(error);
                },
            }
        }
        if select {
            if !self.state.devices.contains_key(&id) {
                return Err(ManagerError::DeviceNotFound(id));
            }
            self.state.selected_device = Some(id.clone());
        }
        Ok(id)
    }

    /// Chooses the device to work on among the mice of a scan.
    pub fn resolve_device(
        &mut self,
        discovered: &Vec<DiscoveredDevice>,
        explicit: Option<&DeviceId>,
        selection: TransportSelection,
    ) -> (r: Result<DeviceId, ManagerError>)
        ensures
            final(self).identity_cache == old(self).identity_cache,
            device_choice(
                old(self).state,
                final(self).state,
                discovered@,
                match explicit {
                    Some(id) => Some(id@),
                    None => None,
                },
                selection,
                r,
            ),
    {
        if let Some(id) = explicit {
            if !self.state.devices.contains_key(id) {
                return Err(ManagerError::DeviceNotFound(id.clone()));
            }
            if !find_connected(discovered, id) {
                return Err(ManagerError::DeviceDisconnected(id.clone()));
            }
            return self.settle(id.clone(), selection, false);
        }
        let selected = self.state.selected_device.clone();
        if let Some(id) = selected {
            if find_connected(discovered, &id) {
                return self.settle(id, selection, false);
            }
        }
        let candidates = list_connected(discovered);
        proof {
            lemma_listed_connected(id_texts(candidates@), discovered@);
        }
        if candidates.len() == 0 {
            return Err(ManagerError::NoDevice { selection });
        }
        if candidates.len() == 1 {
            let id = candidates[0].clone();
            assert(id_texts(candidates@)[0] == id@);
            return self.settle(id, selection, true);
        }
        assert(is_connected(discovered@, id_texts(candidates@)[0]));
        Err(ManagerError::AmbiguousDevice { selection, candidates })
    }
}

/// Without an explicit device nothing is ever guessed: the chosen mouse is the
/// selected one or the only connected one. Where several are connected and none
/// of them is selected, none is chosen and nothing changes.
pub proof fn law_choice_is_never_a_guess(
    before: StateFile,
    after: StateFile,
    discovered: Seq<DiscoveredDevice>,
    selection: TransportSelection,
    r: Result<DeviceId, ManagerError>,
)
    requires
        device_choice(before, after, discovered, None, selection, r),
    ensures
        r matches Ok(id) ==> {
            &&& is_connected(discovered, id@)
            &&& (before.selected_device is Some && before.selected_device->0@ == id@) || is_sole(
                discovered,
                id@,
            )
        },
        forall|one: Seq<char>, other: Seq<char>|
            one != other && #[trigger] is_connected(discovered, one) && #[trigger] is_connected(
                discovered,
                other,
            ) && !(before.selected_device is Some && is_connected(
                discovered,
                before.selected_device->0@,
            )) ==> {
                &&& r matches Err(error)
                &&& error@ is AmbiguousDevice
                &&& lists_connected(error@->candidates, discovered)
                &&& after == before
            },
{
    if !(before.selected_device is Some && is_connected(
        discovered,
        before.selected_device->0@,
    )) && r is Ok {
        let key = choose|key: Seq<char>| #[trigger]
            is_sole(discovered, key) && settles(before, after, key, selection, true, r);
        assert(is_sole(discovered, r->Ok_0@));
    }
}

/// A watermark has to be read exactly for the endpoints that are connected over
/// USB and for which no reading of the very same endpoint is at hand. Nothing
/// has to be read in a legacy installation, and nothing changes in a persistent
/// one.
pub proof fn law_unread_attachments_are_asked_for(
    manager: &mut DeviceManager,
    discovered: &Vec<DiscoveredEndpoint>,
    r: Result<Vec<DeviceEndpoint>, ManagerError>,
    endpoint: DeviceEndpoint,
)
    requires
        call_ensures(DeviceManager::begin_discovery, (manager, discovered), r),
    ensures
        ({
            let readings = old(manager).identity_cache@;
            let key = (endpoint.transport, endpoint.locator@);
            let fresh = !(readings.dom().contains(key) && readings[key].1 == endpoint@);
            let attached = exists|i: int|
                0 <= i < discovered@.len() && (#[trigger] discovered@[i]).connected
                    && discovered@[i].endpoint == endpoint;
            &&& old(manager).state.identity_mode is Legacy ==> (r matches Ok(list) ==> list@.len()
                == 0)
            &&& old(manager).state.identity_mode is Persistent ==> {
                &&& r matches Ok(list)
                &&& list@.contains(endpoint) <==> attached && fresh && (endpoint.transport is Wired
                    || endpoint.transport is Receiver)
                &&& final(manager).state == old(manager).state
            }
        }),
{
    if old(manager).state.identity_mode is Persistent {
        lemma_unread(old(manager).identity_cache@, discovered@, endpoint);
    }
}

proof fn lemma_unread(
    readings: Readings,
    discovered: Seq<DiscoveredEndpoint>,
    endpoint: DeviceEndpoint,
)
    ensures
        unread(readings, discovered).contains(endpoint) <==> exists|i: int|
            0 <= i < discovered.len() && (#[trigger] discovered[i]).connected
                && discovered[i].endpoint == endpoint && needs_reading(readings, discovered[i]),
    decreases discovered.len(),
{
    if discovered.len() > 0 {
        let front = discovered.drop_last();
        let last = discovered.last();
        let n = discovered.len() - 1;
        lemma_unread(readings, front, endpoint);
        let less = unread(readings, front);
        let all = unread(readings, discovered);
        assert(discovered[n] == last);
        if all.contains(endpoint) {
            let k = choose|k: int| 0 <= k < all.len() && all[k] == endpoint;
            if k < less.len() {
                assert(less[k] == endpoint);
                let i = choose|i: int|
                    0 <= i < front.len() && (#[trigger] front[i]).connected && front[i].endpoint
                        == endpoint && needs_reading(readings, front[i]);
                assert(discovered[i] == front[i]);
            }
        }
        if exists|i: int|
            0 <= i < discovered.len() && (#[trigger] discovered[i]).connected
                && discovered[i].endpoint == endpoint && needs_reading(readings, discovered[i]) {
            let i = choose|i: int|
                0 <= i < discovered.len() && (#[trigger] discovered[i]).connected
                    && discovered[i].endpoint == endpoint && needs_reading(
                    readings,
                    discovered[i],
                );
            if i < n {
                assert(front[i] == discovered[i]);
                let k = choose|k: int| 0 <= k < less.len() && less[k] == endpoint;
                assert(all[k] == endpoint);
            } else {
                assert(all[less.len() as int] == endpoint);
            }
        }
    }
}

/// The watermark of a mouse is that of the sensitivity image of the profile
/// which the mouse itself names as the current one. A transport that cannot
/// show one counts as showing none; any other failure stays a failure.
pub proof fn law_watermark_is_that_of_the_current_profile(
    metadata: ProfileMetadata,
    image: DpiState,
    watermark: WatermarkDecode,
    error: ManagerError,
    stage: WatermarkRead,
    first: Step<WatermarkRead, WatermarkDecode>,
    second: Step<WatermarkRead, WatermarkDecode>,
    third: Step<WatermarkRead, WatermarkDecode>,
    failed: Step<WatermarkRead, WatermarkDecode>,
    read: Result<WatermarkDecode, ManagerError>,
    unread: Result<WatermarkDecode, ManagerError>,
)
    requires
        call_ensures(current_watermark, (), first),
        call_ensures(
            WatermarkRead::resume,
            (WatermarkRead::Metadata, SessionReply::ProfileMetadata(metadata)),
            second,
        ),
        call_ensures(
            WatermarkRead::resume,
            (WatermarkRead::Image, SessionReply::Dpi { state: image, watermark }),
            third,
        ),
        call_ensures(WatermarkRead::resume, (stage, SessionReply::Failed(error)), failed),
        call_ensures(read_endpoint_identity, (Ok(watermark),), read),
        call_ensures(read_endpoint_identity, (Err(error),), unread),
    ensures
        first matches Step::Ask { request, next } && request is ReadProfileMetadata && next
            is Metadata,
        second matches Step::Ask { request, next } && request == SessionRequest::ReadDpi(
            metadata.current_profile,
        ) && next is Image,
        third == Step::<WatermarkRead, WatermarkDecode>::Done(Ok(watermark)),
        failed == Step::<WatermarkRead, WatermarkDecode>::Done(Err(error)),
        read == Ok::<WatermarkDecode, ManagerError>(watermark),
        error is UnsupportedOperation ==> unread == Ok::<WatermarkDecode, ManagerError>(
            WatermarkDecode::Absent,
        ),
        !(error is UnsupportedOperation) ==> unread == Err::<WatermarkDecode, ManagerError>(error),
{
}

/// A scan of a persistent installation has one row for each endpoint that it
/// found, in order. A row is resolved by what was read of its own connected USB
/// endpoint, unless it reports an unknown token and another row has the same
/// transport.
pub proof fn law_scans_resolve_each_connection(
    manager: &mut DeviceManager,
    discovered: &Vec<DiscoveredEndpoint>,
    selection: TransportSelection,
    r: DiscoveryView,
    index: int,
    alone: IdentityResolution,
)
    requires
        old(manager).state.devices.listed(),
        call_ensures(DeviceManager::discover, (manager, discovered, selection), r),
        0 <= index < discovered@.len(),
        old(manager).state.identity_mode is Persistent,
        ({
            let found = discovered@[index];
            let key = (found.endpoint.transport, found.endpoint.locator@);
            let readings = old(manager).identity_cache@;
            let decode = if found.connected && !(found.endpoint.transport is Ble)
                && readings.dom().contains(key) && readings[key].1 == found.endpoint@ {
                Some(readings[key].0)
            } else {
                None
            };
            call_ensures(
                resolve_connection,
                (
                    &old(manager).state.devices,
                    match old(manager).state.identity_setup {
                        Some(ref journal) => Some(journal),
                        None => None,
                    },
                    None,
                    &found.endpoint,
                    decode,
                ),
                alone,
            )
        }),
    ensures
        r.mode == old(manager).state.identity_mode,
        r.connections@.len() == discovered@.len(),
        r.connections@[index].endpoint == discovered@[index].endpoint,
        r.connections@[index].connected == discovered@[index].connected,
        r.connections@[index].resolution == alone || {
            &&& alone matches IdentityResolution::Unassociated { reason, physical_id }
            &&& reason is Unknown
            &&& r.connections@[index].resolution == (IdentityResolution::Unassociated {
                reason: UnassociatedReason::Duplicate,
                physical_id,
            })
            &&& exists|other: int|
                0 <= other < discovered@.len() && other != index && (
                #[trigger] discovered@[other]).endpoint.transport
                    == discovered@[index].endpoint.transport
        },
{
    let before = old(manager).state;
    let rows = scanned_rows(before, final(manager).identity_cache@, discovered@);
    let found = discovered@[index];
    let readings = old(manager).identity_cache@;
    let key = (found.endpoint.transport, found.endpoint.locator@);
    assert(r.connections@[index] == folded(rows, index));
    assert(found.endpoint@.transport == found.endpoint.transport);
    if found.connected && readings.dom().contains(key) && readings[key].1 == found.endpoint@ {
        assert(discovered@[index].connected);
    }
    assert(rows[index] == scanned_row(before, final(manager).identity_cache@, found));
    assert(rows[index].resolution == alone);
    if is_doubled(rows, index) {
        let (t, other) = choose|t: PhysicalId, other: int|
            #![trigger shows_unknown(rows[other], t)]
            {
                &&& 0 <= other < rows.len()
                &&& other != index
                &&& shows_unknown(rows[index], t)
                &&& shows_unknown(rows[other], t)
                &&& rows[other].endpoint.transport == rows[index].endpoint.transport
            };
        assert(discovered@[other].endpoint.transport == rows[other].endpoint.transport);
    }
}

/// In a legacy installation every connection of a scan is resolved to the first
/// stored mouse, and no reading is dropped.
pub proof fn law_legacy_scans_claim_one_mouse(
    manager: &mut DeviceManager,
    discovered: &Vec<DiscoveredEndpoint>,
    selection: TransportSelection,
    r: DiscoveryView,
    index: int,
    key: Seq<char>,
)
    requires
        old(manager).state.devices.listed(),
        call_ensures(DeviceManager::discover, (manager, discovered, selection), r),
        0 <= index < discovered@.len(),
        old(manager).state.identity_mode is Legacy,
        old(manager).state.devices@.dom().contains(key),
        forall|other: Seq<char>| #[trigger]
            old(manager).state.devices@.dom().contains(other) && other != key ==> lex_less(
                key,
                other,
            ),
    ensures
        r.mode is Legacy,
        r.connections@.len() == discovered@.len(),
        r.connections@[index] == (ResolvedConnection {
            endpoint: discovered@[index].endpoint,
            connected: discovered@[index].connected,
            resolution: IdentityResolution::Resolved {
                identity: old(manager).state.devices@[key].identity.id,
            },
        }),
        final(manager).identity_cache@ == old(manager).identity_cache@,
{
    let before = old(manager).state;
    let devices = before.devices;
    let rows = scanned_rows(before, final(manager).identity_cache@, discovered@);
    let at = choose|i: int| 0 <= i < devices.keys().len() && #[trigger] devices.keys()[i] == key;
    if at > 0 {
        let least = devices.keys()[0];
        assert(lex_less(least, devices.keys()[at]));
        assert(devices@.dom().contains(least));
        lemma_lex_irreflexive(key);
        lemma_lex_transitive(key, least, key);
    }
    assert(legacy_key(before) == Some(devices@[key].identity.id));
    assert(r.connections@[index] == folded(rows, index));
    assert(rows[index] == scanned_row(
        before,
        final(manager).identity_cache@,
        discovered@[index],
    ));
    assert(!is_doubled(rows, index));
}

/// A scan brings the endpoints of each stored mouse in step with its rows,
/// changes nothing else on record, and lists the mice that it found.
pub proof fn law_scans_keep_the_record_in_step(
    manager: &mut DeviceManager,
    discovered: &Vec<DiscoveredEndpoint>,
    selection: TransportSelection,
    r: DiscoveryView,
    key: Seq<char>,
    transport: TransportKind,
)
    requires
        call_ensures(DeviceManager::discover, (manager, discovered, selection), r),
        final(manager).state.devices.listed(),
    ensures
        final(manager).state.devices@.dom() == old(manager).state.devices@.dom(),
        final(manager).state.selected_device == old(manager).state.selected_device,
        final(manager).state.next_device_number == old(manager).state.next_device_number,
        final(manager).state.identity_mode == old(manager).state.identity_mode,
        final(manager).state.identity_setup == old(manager).state.identity_setup,
        old(manager).state.devices@.dom().contains(key) ==> ({
            let before = old(manager).state.devices@[key];
            let after = final(manager).state.devices@[key];
            &&& scan_decides(
                before.identity.endpoints.at(transport),
                after.identity.endpoints.at(transport),
                r.connections@,
                selection,
                key,
                transport,
            )
            &&& after.identity.physical_id == before.identity.physical_id
            &&& after.identity.display_name == before.identity.display_name
            &&& after.profile_metadata == before.profile_metadata
            &&& after.profiles == before.profiles
        }),
        exists|named: Seq<Seq<char>>| #[trigger]
            lists_found(final(manager).state.devices, r.connections@, r.devices@, named),
{
    let before = old(manager).state.devices@;
    assert(final(manager).state.devices@.dom() =~= before.dom());
    if before.dom().contains(key) {
        lemma_scan_decides(before[key], r.connections@, selection, key, transport);
    }
    lemma_lists_found(final(manager).state.devices, r.connections@, r.devices@);
}

/// The scan shows the mouse as connected.
pub open spec fn shows_connected(discovered: Seq<DiscoveredDevice>, key: Seq<char>) -> bool {
    exists|i: int|
        0 <= i < discovered.len() && (#[trigger] discovered[i]).connected
            && discovered[i].identity.id@ == key
}

/// A named device is taken exactly where it is stored and connected. Without a
/// name the selected device is taken where it is connected, else the only one
/// that is; no connected device and several of them are errors, which change
/// nothing.
pub proof fn law_devices_are_chosen(
    manager: &mut DeviceManager,
    discovered: &Vec<DiscoveredDevice>,
    explicit: Option<&DeviceId>,
    selection: TransportSelection,
    r: Result<DeviceId, ManagerError>,
    one: Seq<char>,
    other: Seq<char>,
)
    requires
        call_ensures(DeviceManager::resolve_device, (manager, discovered, explicit, selection), r),
    ensures
        ({
            let before = old(manager).state;
            let stored = before.devices@.dom();
            let selected = before.selected_device is Some && shows_connected(
                discovered@,
                before.selected_device->0@,
            );
            &&& explicit matches Some(id) ==> {
                &&& !stored.contains(id@) ==> viewed(r) == Err::<DeviceId, ManagerErrorView>(
                    ManagerErrorView::DeviceNotFound(id@),
                )
                &&& stored.contains(id@) && !shows_connected(discovered@, id@) ==> viewed(r)
                    == Err::<DeviceId, ManagerErrorView>(
                    ManagerErrorView::DeviceDisconnected(id@),
                )
                &&& stored.contains(id@) && shows_connected(discovered@, id@) ==> (r matches Ok(
                    chosen,
                ) && chosen@ == id@)
            }
            &&& explicit is None && selected && stored.contains(before.selected_device->0@) ==> (
            r matches Ok(chosen) && chosen@ == before.selected_device->0@)
            &&& explicit is None && !selected && (forall|key: Seq<char>| !#[trigger]
                shows_connected(discovered@, key)) ==> viewed(r) == Err::<
                DeviceId,
                ManagerErrorView,
            >(ManagerErrorView::NoDevice { selection })
            &&& explicit is None && !selected && shows_connected(discovered@, one) && (forall|key:
                Seq<char>| #[trigger]
                shows_connected(discovered@, key) ==> key == one) && stored.contains(one) ==> (
            r matches Ok(chosen) && chosen@ == one && final(manager).state.selected_device == Some(
                chosen,
            ))
            &&& explicit is None && !selected && one != other && shows_connected(discovered@, one)
                && shows_connected(discovered@, other) ==> (viewed(r) matches Err(
                ManagerErrorView::AmbiguousDevice { selection: refused, candidates },
            ) && refused == selection && candidates.contains(one) && candidates.contains(other))
        }),
{
    let before = old(manager).state;
    assert forall|key: Seq<char>| #[trigger] is_connected(discovered@, key) == shows_connected(
        discovered@,
        key,
    ) by {}
    assert forall|key: Seq<char>| #[trigger] shows_connected(discovered@, key) == is_connected(
        discovered@,
        key,
    ) by {}
    if explicit is None && !(before.selected_device is Some && is_connected(
        discovered@,
        before.selected_device->0@,
    )) {
        if shows_connected(discovered@, one) {
            assert(is_connected(discovered@, one));
            if forall|key: Seq<char>| #[trigger] shows_connected(discovered@, key) ==> key == one {
                assert(is_sole(discovered@, one));
                let key = choose|key: Seq<char>| #[trigger]
                    is_sole(discovered@, key) && settles(
                        before,
                        final(manager).state,
                        key,
                        selection,
                        true,
                        r,
                    );
                assert(is_connected(discovered@, key));
                assert(key == one);
            }
            if one != other && shows_connected(discovered@, other) {
                assert(is_connected(discovered@, other));
                assert forall|key: Seq<char>| !#[trigger] is_sole(discovered@, key) by {}
            }
        }
    }
}

/// Choosing a device sets its preferred transport where one was asked for
/// exactly, selects it only where it was the only one, and changes nothing
/// else; an error changes nothing.
pub proof fn law_choices_change_little(
    manager: &mut DeviceManager,
    discovered: &Vec<DiscoveredDevice>,
    explicit: Option<&DeviceId>,
    selection: TransportSelection,
    r: Result<DeviceId, ManagerError>,
)
    requires
        call_ensures(DeviceManager::resolve_device, (manager, discovered, explicit, selection), r),
    ensures
        r is Err ==> nothing_changes(old(manager).state, final(manager).state),
        r matches Ok(chosen) ==> {
            let before = old(manager).state;
            let after = final(manager).state;
            &&& after.next_device_number == before.next_device_number
            &&& after.identity_mode == before.identity_mode
            &&& after.identity_setup == before.identity_setup
            &&& after.selected_device == before.selected_device || (explicit is None
                && after.selected_device == Some(chosen))
            &&& selection is Auto ==> after.devices@ == before.devices@
            &&& selection matches TransportSelection::Exact(transport) ==> {
                let had = before.devices@[chosen@];
                let has = after.devices@[chosen@];
                &&& before.devices@.dom().contains(chosen@)
                &&& after.devices@ == before.devices@.insert(chosen@, has)
                &&& has.identity.preferred_transport == Some(transport)
                &&& has.identity.endpoints == had.identity.endpoints
                &&& has.identity.physical_id == had.identity.physical_id
                &&& has.identity.display_name == had.identity.display_name
                &&& has.identity.id == had.identity.id
                &&& has.profile_metadata == had.profile_metadata
                &&& has.profiles == had.profiles
                &&& has.profile_names == had.profile_names
            }
        },
{
    let before = old(manager).state;
    if explicit is None && !(before.selected_device is Some && is_connected(
        discovered@,
        before.selected_device->0@,
    )) && exists|key: Seq<char>| is_sole(discovered@, key) {
        let sole = choose|key: Seq<char>| is_sole(discovered@, key);
        assert(is_connected(discovered@, sole));
        let key = choose|key: Seq<char>| #[trigger]
            is_sole(discovered@, key) && settles(
                before,
                final(manager).state,
                key,
                selection,
                true,
                r,
            );
        assert(settles(before, final(manager).state, key, selection, true, r));
    }
}

/// A legacy installation gets its one mouse from the first scan that finds
/// anything, and from no other; a scan that finds nothing changes nothing.
pub proof fn law_legacy_scans_make_the_first_mouse(
    manager: &mut DeviceManager,
    discovered: &Vec<DiscoveredEndpoint>,
    r: Result<Vec<DeviceEndpoint>, ManagerError>,
    key: Seq<char>,
)
    requires
        call_ensures(DeviceManager::begin_discovery, (manager, discovered), r),
        old(manager).state.identity_mode is Legacy,
    ensures
        discovered@.len() == 0 || old(manager).state.devices@.dom().contains(key) ==> r is Ok
            && final(manager).state == old(manager).state,
        discovered@.len() > 0 && old(manager).state.devices@.dom() == Set::<Seq<char>>::empty() && 0
            < old(manager).state.next_device_number < u64::MAX ==> {
            let made = final(manager).state.devices@[crate::device::logical_key(
                old(manager).state.next_device_number as nat,
            )];
            &&& r is Ok
            &&& final(manager).state.devices@.dom() == set![crate::device::logical_key(
                old(manager).state.next_device_number as nat,
            )]
            &&& made.identity.physical_id is None
            &&& crate::text::text_of(made.identity.display_name) == crate::text::nonblank(
                crate::text::text_of(discovered@[0].endpoint.display_name),
            )
        },
        r is Err ==> final(manager).state == old(manager).state,
{
    let before = old(manager).state.devices@;
    if before.dom() == Set::<Seq<char>>::empty() {
        assert(before =~= Map::<Seq<char>, DeviceState>::empty());
        if discovered@.len() > 0 && 0 < old(manager).state.next_device_number < u64::MAX {
            assert(final(manager).state.devices@.dom() =~= set![crate::device::logical_key(
                old(manager).state.next_device_number as nat,
            )]);
        }
    }
}

/// Listing the mice of a scan leaves the record and the readings as looking at
/// the whole scan does, and it lists exactly the mice that the rows of that
/// scan name, with what those rows say.
pub proof fn law_listing_is_a_whole_scan(
    listing: &mut DeviceManager,
    looking: &mut DeviceManager,
    discovered: &Vec<DiscoveredEndpoint>,
    selection: TransportSelection,
    listed: Vec<DiscoveredDevice>,
    seen: DiscoveryView,
)
    requires
        *old(listing) == *old(looking),
        call_ensures(DeviceManager::list_devices, (listing, discovered, selection), listed),
        call_ensures(DeviceManager::discover, (looking, discovered, selection), seen),
        final(listing).state.devices.listed(),
    ensures
        final(listing).state.devices@ == final(looking).state.devices@,
        final(listing).identity_cache@ == final(looking).identity_cache@,
        exists|named: Seq<Seq<char>>| #[trigger]
            lists_found(final(listing).state.devices, seen.connections@, listed@, named),
{
    lemma_lists_found(final(listing).state.devices, seen.connections@, listed@);
}

/// A reading is kept for the attachment that it was made on, and the record of
/// the mice is not touched.
pub proof fn law_readings_are_recorded(
    manager: &mut DeviceManager,
    endpoint: DeviceEndpoint,
    decode: WatermarkDecode,
    key: (TransportKind, LocatorView),
)
    requires
        call_ensures(DeviceManager::record_identity, (manager, endpoint, decode), ()),
    ensures
        final(manager).state == old(manager).state,
        ({
            let before = old(manager).identity_cache@;
            let after = final(manager).identity_cache@;
            let own = (endpoint.transport, endpoint.locator@);
            &&& key == own ==> after.dom().contains(key) && after[key] == (decode, endpoint@)
            &&& key != own ==> after.dom().contains(key) == before.dom().contains(key) && (
            after.dom().contains(key) ==> after[key] == before[key])
        }),
{
}

} // verus!
