//! The values that manager operations take and give.

use vstd::prelude::*;

use crate::device::{DeviceEndpoint, DeviceId, DeviceIdentity};
use crate::protocol::{
    BatteryEvent, ButtonsState, ConnectionChangedEvent, DpiButtonEvent, DpiIndexChangedEvent,
    DpiState, InputEvent, LedModeChangedEvent, PhysicalId, PollingRate, PreferencesState,
    ProfileChangedEvent, ProfileId, ProfileMetadata, ProfileSnapshot, TransportKind,
};
use crate::resources::buttons::ButtonSlotDelta;
use crate::resources::dpi::DpiDelta;
use crate::resources::settings::PreferencesDelta;
use crate::slots::ProfileMap;
use crate::state::{IdentityMode, ResourceState, Verification};

verus! {

/// The verification performed after a write operation.
#[derive(Clone, Copy, Debug, PartialEq, Eq, Hash, Structural)]
pub enum VerificationMethod {
    /// Rely on the transport's own acknowledgement of the write.
    Transport,
    /// Verify the write by reading the value back from the device.
    Readback,
}

impl Default for VerificationMethod {
    fn default() -> (r: Self)
        ensures
            r == VerificationMethod::Transport,
    {
        VerificationMethod::Transport
    }
}

/// Where a delta-merge reads the baseline image it merges against.
#[derive(Clone, Copy, Debug, PartialEq, Eq, Hash, Structural)]
pub enum BaselineSource {
    /// Read the live image from the device immediately before merging.
    Live,
    /// Merge against the durable stored baseline (desired, then observed).
    Stored,
}

impl Default for BaselineSource {
    fn default() -> (r: Self)
        ensures
            r == BaselineSource::Live,
    {
        BaselineSource::Live
    }
}

/// Safety and verification policy for an update.
#[derive(Clone, Copy, Debug, PartialEq, Eq, Structural)]
pub struct UpdatePolicy {
    /// Permit explicit captured defaults when a transport cannot read a baseline.
    pub allow_explicit_defaults: bool,
    /// The requested post-write verification strength.
    pub verification: VerificationMethod,
    /// Where a delta-merge reads its baseline image.
    pub baseline: BaselineSource,
}

impl Default for UpdatePolicy {
    fn default() -> (r: Self)
        ensures
            r == (UpdatePolicy {
                allow_explicit_defaults: false,
                verification: VerificationMethod::Transport,
                baseline: BaselineSource::Live,
            }),
    {
        UpdatePolicy {
            allow_explicit_defaults: false,
            verification: VerificationMethod::Transport,
            baseline: BaselineSource::Live,
        }
    }
}

/// Durable desired and observed evidence for one operation resource.
#[derive(Clone, Copy, Debug, PartialEq, Eq)]
pub struct ResourceSnapshot<T> {
    pub resource: ResourceState<T>,
}

/// The requested value and evidence produced by a write.
#[derive(Clone, Copy, Debug, PartialEq, Eq)]
pub struct WriteOutcome<T> {
    pub desired: T,
    pub observed: Option<T>,
    pub verification: Verification,
}

/// One complete profile image observed during an all-profile refresh.
#[derive(Clone, Copy, Debug, PartialEq, Eq)]
pub struct RefreshedProfile {
    pub dpi: DpiState,
    pub preferences: PreferencesState,
    pub buttons: ButtonsState,
    pub polling_rate: PollingRate,
}

/// Profile resource whose fresh observation differs from durable desired state.
#[derive(Clone, Copy, Debug, PartialEq, Eq, PartialOrd, Ord, Hash, Structural)]
pub enum ProfileResourceKind {
    Dpi,
    Preferences,
    Buttons,
    PollingRate,
}

/// Fresh USB observations captured across all five hardware profile slots.
#[derive(Debug, PartialEq, Eq)]
pub struct FullProfileRefreshOutcome {
    pub original_metadata: ProfileMetadata,
    pub restored_metadata: ProfileMetadata,
    pub temporarily_expanded: bool,
    pub profiles: ProfileMap<RefreshedProfile>,
    pub drift: ProfileMap<Vec<ProfileResourceKind>>,
    pub profile_metadata_drift: bool,
}

/// A raw transport endpoint discovered before logical association. It carries
/// no logical key.
#[derive(Debug, PartialEq, Eq)]
pub struct DiscoveredEndpoint {
    pub endpoint: DeviceEndpoint,
    pub connected: bool,
}

impl Clone for DiscoveredEndpoint {
    fn clone(&self) -> (r: Self)
        ensures
            r == *self,
    {
        DiscoveredEndpoint { endpoint: self.endpoint.clone(), connected: self.connected }
    }
}

/// A discovered logical mouse and whether it is currently connected.
#[derive(Debug, PartialEq, Eq)]
pub struct DiscoveredDevice {
    pub identity: DeviceIdentity,
    pub connected: bool,
    /// Transports on which the device was discovered this scan, sorted and
    /// without duplicates.
    pub transports: Vec<TransportKind>,
}

/// A discovered compatible hardware connection, before any durable
/// association. Rows are one per endpoint and are never aggregated.
#[derive(Debug, PartialEq, Eq)]
pub struct DiscoveredConnection {
    pub endpoint: DeviceEndpoint,
    pub connected: bool,
    /// The token observed on this connection, when the transport read one.
    pub physical_id: Option<PhysicalId>,
}

/// Why a discovered connection has no associated durable logical mouse.
#[derive(Clone, Copy, Debug, PartialEq, Eq, Hash, Structural)]
pub enum UnassociatedReason {
    /// No watermark was observed; no identity claim is possible.
    Absent,
    /// A watermark marker was present but malformed.
    Malformed,
    /// A valid marker of a format version that is not supported here.
    Unsupported { version: u8 },
    /// A valid token with no registered logical mouse; adoptable.
    Unknown,
    /// The token is claimed more than once; automatic association is refused.
    Duplicate,
    /// The token is never assignable to a device.
    Reserved,
    /// The token is reserved by the active identity-setup journal.
    ReservedByJournal,
}

/// Strict result of resolving one connection against the durable logical mice.
/// Resolution never guesses.
#[derive(Debug, PartialEq, Eq)]
pub enum IdentityResolution {
    /// A valid known token resolved to the exact durable logical mouse.
    Resolved { identity: DeviceId },
    /// No durable logical mouse is claimed.
    Unassociated {
        reason: UnassociatedReason,
        /// The valid token observed on the connection, when one exists.
        physical_id: Option<PhysicalId>,
    },
}

impl Clone for IdentityResolution {
    fn clone(&self) -> (r: Self)
        ensures
            r == *self,
    {
        match self {
            IdentityResolution::Resolved { identity } => IdentityResolution::Resolved {
                identity: identity.clone(),
            },
            IdentityResolution::Unassociated { reason, physical_id } =>
                IdentityResolution::Unassociated { reason: *reason, physical_id: *physical_id },
        }
    }
}

/// One discovered connection with its resolution.
#[derive(Debug, PartialEq, Eq)]
pub struct ResolvedConnection {
    pub endpoint: DeviceEndpoint,
    pub connected: bool,
    pub resolution: IdentityResolution,
}

/// Aggregate result of a mode-aware discovery scan.
#[derive(Debug, PartialEq, Eq)]
pub struct DiscoveryView {
    /// The installation identity mode at scan time.
    pub mode: IdentityMode,
    /// Logical mice with connections seen this scan, aggregated per device.
    pub devices: Vec<DiscoveredDevice>,
    /// Every compatible connection observed this scan, resolved individually.
    pub connections: Vec<ResolvedConnection>,
}

/// A supported USB device appeared or disappeared.
#[derive(Clone, Copy, Debug, PartialEq, Eq, Hash, Structural)]
pub enum DeviceTopologyEvent {
    Connected,
    Disconnected,
}

/// Which physical-identity ceremony a progress report describes.
#[derive(Clone, Copy, Debug, PartialEq, Eq, Hash, Structural)]
pub enum IdentityCeremonyKind {
    /// First transition into persistent physical identity: two mice are
    /// captured and stamped.
    InitialEnrollment,
    /// Adding a further mouse to an already-identified installation.
    AddMouse,
    /// Reassociating a logical mouse whose watermark was lost or erased.
    Restore,
    /// Adopting a valid token unknown to this installation.
    ForeignAdoption,
    /// Associating a BLE platform endpoint with a logical mouse.
    BleAssociation,
}

/// Status of a running physical-identity ceremony.
#[derive(Debug, PartialEq, Eq)]
pub enum IdentityCeremonyStage {
    /// Ceremony created; no physical action has started yet.
    Ready,
    /// Waiting for the user to reconnect or present the physical mouse.
    AwaitingReconnect,
    /// Reading the watermark and capturing the presented device's state.
    Capturing,
    /// Assigning the physical token and writing the watermark.
    Stamping,
    /// The stamped watermark was read back and verified.
    Verified,
    /// The ceremony completed successfully.
    Complete,
    /// The ceremony was aborted by the user.
    Cancelled,
    /// The ceremony failed; `error` is a machine-readable diagnostic.
    Failed { error: String },
}

/// Progress snapshot of a running physical-identity ceremony.
#[derive(Debug, PartialEq, Eq)]
pub struct IdentityCeremonyProgress {
    pub kind: IdentityCeremonyKind,
    pub stage: IdentityCeremonyStage,
    /// The physical device currently being processed, counted from one.
    pub step: Option<u8>,
    /// Total number of physical devices the ceremony processes.
    pub total_steps: Option<u8>,
    /// The logical mouse being processed or produced, when known.
    pub identity: Option<DeviceId>,
    /// The physical token assigned or observed, when known.
    pub physical_id: Option<PhysicalId>,
    /// The endpoint currently driving the ceremony, when known.
    pub endpoint: Option<DeviceEndpoint>,
}

/// An action that a frontend can request against a ceremony.
#[derive(Clone, Copy, Debug, PartialEq, Eq, Hash, Structural)]
pub enum IdentityCeremonyAction {
    /// Start a ceremony of the given kind.
    Begin(IdentityCeremonyKind),
    /// The user reconnected or presented the physical mouse; proceed.
    Reconnected,
    /// Capture the presented device's current state.
    Capture,
    /// Assign the generated token and stamp the watermark.
    Stamp,
    /// Adopt the observed valid foreign token as a new logical mouse.
    Adopt,
    /// Associate the presented endpoint with the target logical mouse.
    Associate,
    /// Apply legacy name migration when the match is unique.
    AcceptMigration,
    /// Skip legacy name migration; use fresh defaults.
    SkipMigration,
    /// Abort the running ceremony.
    Cancel,
}

/// Resource status read from one logical device identity.
#[derive(Debug, PartialEq, Eq)]
pub struct DeviceStatus {
    pub identity: DeviceIdentity,
    pub battery: Option<u8>,
    pub profile_metadata: Option<ResourceSnapshot<ProfileMetadata>>,
    pub polling_rate: Option<ResourceSnapshot<PollingRate>>,
}

/// One complete USB working-profile read performed through a single session.
#[derive(Debug, PartialEq, Eq)]
pub struct LiveProfileSnapshot {
    pub identity: DeviceIdentity,
    pub battery: Option<u8>,
    pub profile_metadata: ProfileMetadata,
    pub profile: ProfileSnapshot,
    pub polling_rate: PollingRate,
}

/// Complete profile verification evidence after a profile-reload workflow.
#[derive(Clone, Copy, Debug, PartialEq, Eq)]
pub struct ProfileVerificationOutcome {
    pub profile: ProfileId,
    pub dpi: WriteOutcome<DpiState>,
    pub preferences: WriteOutcome<PreferencesState>,
    pub buttons: WriteOutcome<ButtonsState>,
    pub polling_rate: WriteOutcome<PollingRate>,
}

/// Complete profile verification evidence after a physical power cycle.
#[derive(Clone, Copy, Debug, PartialEq, Eq)]
pub struct PowerCycleVerificationOutcome {
    pub profile: ProfileId,
    pub dpi: WriteOutcome<DpiState>,
    pub preferences: WriteOutcome<PreferencesState>,
    pub buttons: WriteOutcome<ButtonsState>,
    pub polling_rate: WriteOutcome<PollingRate>,
}

/// Complete profile images held by a frontend while it edits a draft.
#[derive(Clone, Copy, Debug, PartialEq, Eq)]
pub struct ProfileUpdateBaseline {
    pub dpi: DpiState,
    pub preferences: PreferencesState,
    pub buttons: ButtonsState,
}

/// Composite profile delta applied through one session.
///
/// Every field is optional. Empty updates are rejected before any transport
/// access; the polling rate may not be combined with other fields because its
/// report must remain isolated.
#[derive(Debug, PartialEq, Eq)]
pub struct ProfileUpdate {
    pub dpi: Option<DpiDelta>,
    pub preferences: Option<PreferencesDelta>,
    pub buttons: Vec<ButtonSlotDelta>,
    pub polling_rate: Option<PollingRate>,
}

impl Default for ProfileUpdate {
    fn default() -> (r: Self)
        ensures
            r.changes_nothing(),
    {
        ProfileUpdate { dpi: None, preferences: None, buttons: Vec::new(), polling_rate: None }
    }
}

impl ProfileUpdate {
    pub open spec fn changes_non_rate(self) -> bool {
        self.dpi is Some || self.preferences is Some || self.buttons@.len() > 0
    }

    pub open spec fn changes_nothing(self) -> bool {
        !self.changes_non_rate() && self.polling_rate is None
    }

    pub fn is_empty(&self) -> (r: bool)
        ensures
            r == self.changes_nothing(),
    {
        self.dpi.is_none() && self.preferences.is_none() && self.buttons.len() == 0
            && self.polling_rate.is_none()
    }

    pub fn has_non_rate(&self) -> (r: bool)
        ensures
            r == self.changes_non_rate(),
    {
        self.dpi.is_some() || self.preferences.is_some() || self.buttons.len() > 0
    }

    pub fn has_polling(&self) -> (r: bool)
        ensures
            r == (self.polling_rate is Some),
    {
        self.polling_rate.is_some()
    }
}

/// Outcome of a composite profile update; `None` for what was not part of it.
#[derive(Clone, Copy, Debug, PartialEq, Eq)]
pub struct ProfileUpdateOutcome {
    pub dpi: Option<WriteOutcome<DpiState>>,
    pub preferences: Option<WriteOutcome<PreferencesState>>,
    pub buttons: Option<WriteOutcome<ButtonsState>>,
    pub polling_rate: Option<WriteOutcome<PollingRate>>,
}

impl Default for ProfileUpdateOutcome {
    fn default() -> (r: Self)
        ensures
            r == (ProfileUpdateOutcome {
                dpi: None,
                preferences: None,
                buttons: None,
                polling_rate: None,
            }),
    {
        ProfileUpdateOutcome { dpi: None, preferences: None, buttons: None, polling_rate: None }
    }
}

/// Input events exposed by the manager.
///
/// The stream is lossy and bounded: a subscriber that falls behind is told how
/// many reports were dropped.
#[derive(Clone, Copy, Debug, PartialEq, Eq)]
pub enum DeviceEvent {
    BatteryChanged(BatteryEvent),
    ActiveDpiStageChanged(DpiButtonEvent),
    ProfileChanged(ProfileChangedEvent),
    SecondaryProfileChanged(ProfileChangedEvent),
    ConnectionChanged(ConnectionChangedEvent),
    DpiIndexChanged(DpiIndexChangedEvent),
    LedModeChanged(LedModeChangedEvent),
    ProfileSync(ProfileChangedEvent),
    Disconnected,
    /// `skipped` reports were dropped before this notification.
    Lagged { skipped: u64 },
}

/// The event that an input report is passed on as.
pub open spec fn event_for(event: InputEvent) -> DeviceEvent {
    match event {
        InputEvent::ActiveDpiStageChanged(event) => DeviceEvent::ActiveDpiStageChanged(event),
        InputEvent::ProfileChanged(event) => DeviceEvent::ProfileChanged(event),
        InputEvent::SecondaryProfileChanged(event) => DeviceEvent::SecondaryProfileChanged(event),
        InputEvent::BatteryChanged(event) => DeviceEvent::BatteryChanged(event),
        InputEvent::ConnectionChanged(event) => DeviceEvent::ConnectionChanged(event),
        InputEvent::DpiIndexChanged(event) => DeviceEvent::DpiIndexChanged(event),
        InputEvent::LedModeChanged(event) => DeviceEvent::LedModeChanged(event),
        InputEvent::ProfileSync(event) => DeviceEvent::ProfileSync(event),
    }
}

impl From<InputEvent> for DeviceEvent {
    fn from(event: InputEvent) -> (r: Self) {
        match event {
            InputEvent::ActiveDpiStageChanged(event) => DeviceEvent::ActiveDpiStageChanged(event),
            InputEvent::ProfileChanged(event) => DeviceEvent::ProfileChanged(event),
            InputEvent::SecondaryProfileChanged(event) => DeviceEvent::SecondaryProfileChanged(
                event,
            ),
            InputEvent::BatteryChanged(event) => DeviceEvent::BatteryChanged(event),
            InputEvent::ConnectionChanged(event) => DeviceEvent::ConnectionChanged(event),
            InputEvent::DpiIndexChanged(event) => DeviceEvent::DpiIndexChanged(event),
            InputEvent::LedModeChanged(event) => DeviceEvent::LedModeChanged(event),
            InputEvent::ProfileSync(event) => DeviceEvent::ProfileSync(event),
        }
    }
}

impl vstd::std_specs::convert::FromSpecImpl<InputEvent> for DeviceEvent {
    open spec fn obeys_from_spec() -> bool {
        true
    }

    open spec fn from_spec(event: InputEvent) -> DeviceEvent {
        event_for(event)
    }
}

/// No two different input reports are passed on as the same event, and none is
/// mistaken for a gap or a disconnect.
pub proof fn law_events_keep_reports(a: InputEvent, b: InputEvent)
    ensures
        event_for(a) == event_for(b) ==> a == b,
        !(event_for(a) is Lagged),
        !(event_for(a) is Disconnected),
{
}

} // verus!
