//! Errors of the state document and of manager operations.

use vstd::prelude::*;

use crate::device::{
    transport_label, transport_name, DeviceEndpoint, DeviceId, TransportSelection,
};
use crate::manager::{quote, quoted};
use crate::operation::IdentityCeremonyAction;
use crate::protocol::{PhysicalId, ProfileId, ProtocolError, TransportKind};
use crate::state::{IdentitySetupPhase, IdentitySetupStage, SCHEMA_VERSION};
use crate::text::{decimal, decimal_text};

verus! {

/// Errors of loading, validating or storing durable manager state.
///
/// Failures of the file system and of the document decoder are carried as the
/// text that describes them.
#[derive(Clone, Debug, PartialEq, Eq)]
pub enum StateError {
    /// The platform did not provide a usable base directory.
    StatePathUnavailable { reason: String },
    /// An I/O operation failed at the given path.
    Io { path: String, source: String },
    /// The state document could not be encoded or decoded.
    Serde(String),
    /// Another process currently owns the product-wide state lock.
    LockBusy { path: String },
    /// The file uses a schema version this package does not understand.
    UnsupportedSchema { found: u32, expected: u32 },
    /// The document is well-formed but violates state invariants.
    InvalidState(String),
}

/// A state error with its texts as sequences of code points.
pub enum StateErrorView {
    StatePathUnavailable { reason: Seq<char> },
    Io { path: Seq<char>, source: Seq<char> },
    Serde(Seq<char>),
    LockBusy { path: Seq<char> },
    UnsupportedSchema { found: u32, expected: u32 },
    InvalidState(Seq<char>),
}

impl View for StateError {
    type V = StateErrorView;

    open spec fn view(&self) -> StateErrorView {
        match *self {
            StateError::StatePathUnavailable { reason } => StateErrorView::StatePathUnavailable {
                reason: reason@,
            },
            StateError::Io { path, source } => StateErrorView::Io { path: path@, source: source@ },
            StateError::Serde(detail) => StateErrorView::Serde(detail@),
            StateError::LockBusy { path } => StateErrorView::LockBusy { path: path@ },
            StateError::UnsupportedSchema { found, expected } => StateErrorView::UnsupportedSchema {
                found,
                expected,
            },
            StateError::InvalidState(detail) => StateErrorView::InvalidState(detail@),
        }
    }
}

/// A result with its error as a view.
pub open spec fn state_result<T>(r: Result<T, StateError>) -> Result<T, StateErrorView> {
    match r {
        Ok(value) => Ok(value),
        Err(error) => Err(error@),
    }
}

impl StateError {
    /// Creates an unavailable-state-path error.
    pub fn state_path_unavailable(reason: &str) -> (r: Self)
        ensures
            r@ == (StateErrorView::StatePathUnavailable { reason: reason@ }),
    {
        StateError::StatePathUnavailable { reason: reason.to_owned() }
    }

    /// Creates a path-qualified I/O error.
    pub fn io(path: &str, source: &str) -> (r: Self)
        ensures
            r@ == (StateErrorView::Io { path: path@, source: source@ }),
    {
        StateError::Io { path: path.to_owned(), source: source.to_owned() }
    }

    /// Creates an unsupported-schema error for the manager's current schema.
    pub fn unsupported_schema(found: u32) -> (r: Self)
        ensures
            r@ == (StateErrorView::UnsupportedSchema { found, expected: SCHEMA_VERSION }),
    {
        StateError::UnsupportedSchema { found, expected: SCHEMA_VERSION }
    }

    /// Creates an invalid-state error from a human-readable detail.
    pub fn invalid_state(detail: &str) -> (r: Self)
        ensures
            r@ == StateErrorView::InvalidState(detail@),
    {
        StateError::InvalidState(detail.to_owned())
    }
}

/// A failure below the manager: the driver refused a value or reported a
/// fault of its own.
#[derive(Clone, Debug, PartialEq, Eq)]
pub enum DriverError {
    Protocol(ProtocolError),
    Failed(String),
}

/// A span of time: whole seconds, and nanoseconds on top of them.
#[derive(Clone, Copy, Debug, PartialEq, Eq)]
pub struct TimeSpan {
    seconds: u64,
    nanos: u32,
}

impl View for TimeSpan {
    type V = (u64, u32);

    closed spec fn view(&self) -> (u64, u32) {
        (self.seconds, self.nanos)
    }
}

/// What the debug form of `std::time::Duration` is for so many seconds and
/// nanoseconds.
pub uninterp spec fn duration_debug(seconds: u64, nanos: u32) -> Seq<char>;

/// Formats a span with the debug formatter of `std::time::Duration`, whose
/// result depends on the span alone. Fewer nanoseconds than make up a second
/// are what `Duration::new` takes without carrying.
#[verifier::external_body]
fn debug_duration(seconds: u64, nanos: u32) -> (r: String)
    requires
        nanos < 1_000_000_000,
    ensures
        r@ == duration_debug(seconds, nanos),
{
    format!("{:?}", std::time::Duration::new(seconds, nanos))
}

/// How a span is shown.
pub open spec fn span_text(span: (u64, u32)) -> Seq<char> {
    duration_debug(span.0, span.1)
}

impl TimeSpan {
    #[verifier::type_invariant]
    spec fn is_normal(self) -> bool {
        self.nanos < 1_000_000_000
    }

    /// A span of whole seconds and less than a second of nanoseconds.
    pub fn new(seconds: u64, nanos: u32) -> (r: TimeSpan)
        requires
            nanos < 1_000_000_000,
        ensures
            r@ == (seconds, nanos),
    {
        TimeSpan { seconds, nanos }
    }

    /// How the span is shown.
    pub fn text(self) -> (r: String)
        ensures
            r@ == span_text(self@),
    {
        proof {
            use_type_invariant(&self);
        }
        debug_duration(self.seconds, self.nanos)
    }
}

/// Errors returned by manager operations.
///
/// Failures of the BLE stack are carried as the text that describes them.
#[derive(Debug, PartialEq, Eq)]
pub enum ManagerError {
    /// Durable manager state could not be loaded or stored.
    State(StateError),
    /// A transport worker or USB driver operation failed.
    Driver(DriverError),
    /// A BLE transport operation failed.
    Ble(String),
    /// The selected transport cannot perform the requested operation.
    UnsupportedOperation { operation: &'static str, transport: TransportKind },
    /// The operation is dangerous and needs explicit authorization.
    ExplicitAuthorizationRequired { operation: &'static str, transport: TransportKind },
    /// A partial update has no complete baseline to merge against.
    MissingBaseline { resource: &'static str, profile: Option<ProfileId> },
    /// The requested exact device is not currently available.
    DeviceNotFound(DeviceId),
    /// More than one connected device matched a transport selection.
    AmbiguousDevice { selection: TransportSelection, candidates: Vec<DeviceId> },
    /// No connected device matched a transport selection.
    NoDevice { selection: TransportSelection },
    /// An explicitly requested device was discovered but is disconnected.
    DeviceDisconnected(DeviceId),
    /// The exact USB device did not disappear within the wait window.
    PowerCycleDisappearanceTimeout { device: DeviceId, timeout: TimeSpan },
    /// The exact USB device did not return within the wait window.
    PowerCycleReappearanceTimeout { device: DeviceId, timeout: TimeSpan },
    /// Profile-reload verification has no distinct enabled profile to use.
    NoAlternateProfile { target: ProfileId, maximum: ProfileId },
    /// A normalized readback differs from the requested value.
    VerificationMismatch { resource: &'static str, profile: Option<ProfileId> },
    /// Profile capture completed, but the original metadata could not be
    /// restored.
    RefreshRestorationFailed { restore: String },
    /// Profile capture and metadata restoration both failed.
    RefreshRestoreFailed { refresh: String, restore: String },
    /// A protocol-level validation failure with operation context.
    Protocol { operation: &'static str, source: ProtocolError },
    /// The requested update is invalid before reaching a transport.
    InvalidUpdate(String),
    /// A per-device operation could not acquire its lock within the timeout.
    DeviceOperationBusy {
        device: DeviceId,
        operation: &'static str,
        timeout: TimeSpan,
        path: String,
    },
    /// The device takes part in a running identity ceremony.
    DeviceInvolvedInSetup { device: DeviceId, phase: IdentitySetupPhase },
    /// The opened attachment does not carry the mouse's own watermark.
    AttachmentNotAuthenticated { device: DeviceId, endpoint: DeviceEndpoint, detail: String },
    /// Another identity ceremony is already running.
    IdentitySetupInProgress { phase: IdentitySetupPhase },
    /// The ceremony cannot proceed; `reason` is machine-readable.
    IdentityCeremonyRefused { phase: IdentitySetupPhase, reason: &'static str, detail: String },
    /// No identity ceremony is running.
    NoIdentityCeremony,
    /// The action does not fit the running ceremony.
    InvalidCeremonyAction {
        action: IdentityCeremonyAction,
        phase: IdentitySetupPhase,
        stage: IdentitySetupStage,
    },
    /// The token is never assignable to a device.
    ReservedPhysicalId { physical_id: PhysicalId },
    /// The presented mouse carries a marker that must not be overwritten.
    IntactIdentityMarker { endpoint: DeviceEndpoint, detail: String },
    /// The system's random source failed.
    TokenGeneration { source: getrandom::Error },
}

/// A manager error with its texts as sequences of code points.
pub enum ManagerErrorView {
    State(StateErrorView),
    Driver(DriverError),
    Ble(Seq<char>),
    UnsupportedOperation { operation: Seq<char>, transport: TransportKind },
    ExplicitAuthorizationRequired { operation: Seq<char>, transport: TransportKind },
    MissingBaseline { resource: Seq<char>, profile: Option<ProfileId> },
    DeviceNotFound(Seq<char>),
    AmbiguousDevice { selection: TransportSelection, candidates: Seq<Seq<char>> },
    NoDevice { selection: TransportSelection },
    DeviceDisconnected(Seq<char>),
    PowerCycleDisappearanceTimeout { device: Seq<char>, timeout: (u64, u32) },
    PowerCycleReappearanceTimeout { device: Seq<char>, timeout: (u64, u32) },
    NoAlternateProfile { target: ProfileId, maximum: ProfileId },
    VerificationMismatch { resource: Seq<char>, profile: Option<ProfileId> },
    RefreshRestorationFailed { restore: Seq<char> },
    RefreshRestoreFailed { refresh: Seq<char>, restore: Seq<char> },
    Protocol { operation: Seq<char>, source: ProtocolError },
    InvalidUpdate(Seq<char>),
    DeviceOperationBusy {
        device: Seq<char>,
        operation: Seq<char>,
        timeout: (u64, u32),
        path: Seq<char>,
    },
    DeviceInvolvedInSetup { device: Seq<char>, phase: IdentitySetupPhase },
    AttachmentNotAuthenticated { device: Seq<char>, endpoint: DeviceEndpoint, detail: Seq<char> },
    IdentitySetupInProgress { phase: IdentitySetupPhase },
    IdentityCeremonyRefused { phase: IdentitySetupPhase, reason: Seq<char>, detail: Seq<char> },
    NoIdentityCeremony,
    InvalidCeremonyAction {
        action: IdentityCeremonyAction,
        phase: IdentitySetupPhase,
        stage: IdentitySetupStage,
    },
    ReservedPhysicalId { physical_id: PhysicalId },
    IntactIdentityMarker { endpoint: DeviceEndpoint, detail: Seq<char> },
    TokenGeneration { source: getrandom::Error },
}

/// The texts of a list of device keys.
pub open spec fn id_texts(ids: Seq<DeviceId>) -> Seq<Seq<char>> {
    Seq::new(ids.len(), |i: int| ids[i]@)
}

impl View for ManagerError {
    type V = ManagerErrorView;

    open spec fn view(&self) -> ManagerErrorView {
        match *self {
            ManagerError::State(error) => ManagerErrorView::State(error@),
            ManagerError::Driver(error) => ManagerErrorView::Driver(error),
            ManagerError::Ble(detail) => ManagerErrorView::Ble(detail@),
            ManagerError::UnsupportedOperation { operation, transport } =>
                ManagerErrorView::UnsupportedOperation { operation: operation@, transport },
            ManagerError::ExplicitAuthorizationRequired { operation, transport } =>
                ManagerErrorView::ExplicitAuthorizationRequired {
                operation: operation@,
                transport,
            },
            ManagerError::MissingBaseline { resource, profile } =>
                ManagerErrorView::MissingBaseline { resource: resource@, profile },
            ManagerError::DeviceNotFound(device) => ManagerErrorView::DeviceNotFound(device@),
            ManagerError::AmbiguousDevice { selection, candidates } =>
                ManagerErrorView::AmbiguousDevice { selection, candidates: id_texts(candidates@) },
            ManagerError::NoDevice { selection } => ManagerErrorView::NoDevice { selection },
            ManagerError::DeviceDisconnected(device) => ManagerErrorView::DeviceDisconnected(
                device@,
            ),
            ManagerError::PowerCycleDisappearanceTimeout { device, timeout } =>
                ManagerErrorView::PowerCycleDisappearanceTimeout {
                device: device@,
                timeout: timeout@,
            },
            ManagerError::PowerCycleReappearanceTimeout { device, timeout } =>
                ManagerErrorView::PowerCycleReappearanceTimeout {
                device: device@,
                timeout: timeout@,
            },
            ManagerError::NoAlternateProfile { target, maximum } =>
                ManagerErrorView::NoAlternateProfile { target, maximum },
            ManagerError::VerificationMismatch { resource, profile } =>
                ManagerErrorView::VerificationMismatch { resource: resource@, profile },
            ManagerError::RefreshRestorationFailed { restore } =>
                ManagerErrorView::RefreshRestorationFailed { restore: restore@ },
            ManagerError::RefreshRestoreFailed { refresh, restore } =>
                ManagerErrorView::RefreshRestoreFailed { refresh: refresh@, restore: restore@ },
            ManagerError::Protocol { operation, source } => ManagerErrorView::Protocol {
                operation: operation@,
                source,
            },
            ManagerError::InvalidUpdate(detail) => ManagerErrorView::InvalidUpdate(detail@),
            ManagerError::DeviceOperationBusy { device, operation, timeout, path } =>
                ManagerErrorView::DeviceOperationBusy {
                device: device@,
                operation: operation@,
                timeout: timeout@,
                path: path@,
            },
            ManagerError::DeviceInvolvedInSetup { device, phase } =>
                ManagerErrorView::DeviceInvolvedInSetup { device: device@, phase },
            ManagerError::AttachmentNotAuthenticated { device, endpoint, detail } =>
                ManagerErrorView::AttachmentNotAuthenticated {
                device: device@,
                endpoint,
                detail: detail@,
            },
            ManagerError::IdentitySetupInProgress { phase } =>
                ManagerErrorView::IdentitySetupInProgress { phase },
            ManagerError::IdentityCeremonyRefused { phase, reason, detail } =>
                ManagerErrorView::IdentityCeremonyRefused {
                phase,
                reason: reason@,
                detail: detail@,
            },
            ManagerError::NoIdentityCeremony => ManagerErrorView::NoIdentityCeremony,
            ManagerError::InvalidCeremonyAction { action, phase, stage } =>
                ManagerErrorView::InvalidCeremonyAction { action, phase, stage },
            ManagerError::ReservedPhysicalId { physical_id } =>
                ManagerErrorView::ReservedPhysicalId { physical_id },
            ManagerError::IntactIdentityMarker { endpoint, detail } =>
                ManagerErrorView::IntactIdentityMarker { endpoint, detail: detail@ },
            ManagerError::TokenGeneration { source } => ManagerErrorView::TokenGeneration {
                source,
            },
        }
    }
}

/// A result with its error as a view.
pub open spec fn viewed<T>(r: Result<T, ManagerError>) -> Result<T, ManagerErrorView> {
    match r {
        Ok(value) => Ok(value),
        Err(error) => Err(error@),
    }
}

pub open spec fn phase_label(phase: IdentitySetupPhase) -> Seq<char> {
    match phase {
        IdentitySetupPhase::InitialEnrollment => "InitialEnrollment"@,
        IdentitySetupPhase::AddMouse => "AddMouse"@,
        IdentitySetupPhase::Restore => "Restore"@,
        IdentitySetupPhase::ForeignAdoption => "ForeignAdoption"@,
        IdentitySetupPhase::BleAssociation => "BleAssociation"@,
    }
}

pub fn phase_name(phase: IdentitySetupPhase) -> (r: &'static str)
    ensures
        r@ == phase_label(phase),
{
    match phase {
        IdentitySetupPhase::InitialEnrollment => "InitialEnrollment",
        IdentitySetupPhase::AddMouse => "AddMouse",
        IdentitySetupPhase::Restore => "Restore",
        IdentitySetupPhase::ForeignAdoption => "ForeignAdoption",
        IdentitySetupPhase::BleAssociation => "BleAssociation",
    }
}

pub open spec fn selection_label(selection: TransportSelection) -> Seq<char> {
    match selection {
        TransportSelection::Auto => "Auto"@,
        TransportSelection::Exact(transport) => "Exact("@ + transport_label(transport) + ")"@,
    }
}

fn selection_text(selection: TransportSelection) -> (r: String)
    ensures
        r@ == selection_label(selection),
{
    match selection {
        TransportSelection::Auto => "Auto".to_owned(),
        TransportSelection::Exact(transport) => {
            let mut text = "Exact(".to_owned();
            text.append(transport_name(transport));
            text.append(")");
            text
        },
    }
}

pub open spec fn profile_number(profile: ProfileId) -> Seq<char> {
    decimal(profile.index() as nat)
}

pub fn profile_text(profile: ProfileId) -> (r: String)
    ensures
        r@ == profile_number(profile),
{
    decimal_text(profile.get() as u64)
}

pub open spec fn optional_profile(profile: Option<ProfileId>) -> Seq<char> {
    match profile {
        Some(profile) => "Some("@ + profile_number(profile) + ")"@,
        None => "None"@,
    }
}

fn optional_profile_text(profile: Option<ProfileId>) -> (r: String)
    ensures
        r@ == optional_profile(profile),
{
    match profile {
        Some(profile) => {
            let mut text = "Some(".to_owned();
            let number = profile_text(profile);
            text.append(number.as_str());
            text.append(")");
            text
        },
        None => "None".to_owned(),
    }
}

/// How a device key is shown in a list.
pub open spec fn listed_key(key: Seq<char>) -> Seq<char> {
    "DeviceId("@ + quoted(key) + ")"@
}

fn listed_id(id: &DeviceId) -> (r: String)
    ensures
        r@ == listed_key(id@),
{
    let mut text = "DeviceId(".to_owned();
    let key = quote(id.as_str());
    text.append(key.as_str());
    text.append(")");
    text
}

/// A list of device keys, separated by commas.
pub open spec fn listed_keys(keys: Seq<Seq<char>>) -> Seq<char>
    decreases keys.len(),
{
    if keys.len() == 0 {
        ""@
    } else if keys.len() == 1 {
        listed_key(keys[0])
    } else {
        listed_keys(keys.drop_last()) + ", "@ + listed_key(keys.last())
    }
}

fn listed_ids(ids: &Vec<DeviceId>) -> (r: String)
    ensures
        r@ == listed_keys(id_texts(ids@)),
{
    if ids.len() == 0 {
        return "".to_owned();
    }
    let ghost texts = id_texts(ids@);
    let mut text = listed_id(&ids[0]);
    let mut i: usize = 1;
    assert(texts.subrange(0, 1)[0] == texts[0]);
    while i < ids.len()
        invariant
            1 <= i <= ids@.len(),
            texts == id_texts(ids@),
            text@ == listed_keys(texts.subrange(0, i as int)),
        decreases ids@.len() - i,
    {
        proof {
            let next = texts.subrange(0, i + 1);
            assert(next.drop_last() =~= texts.subrange(0, i as int));
            assert(next.last() == ids@[i as int]@);
        }
        text.append(", ");
        let key = listed_id(&ids[i]);
        text.append(key.as_str());
        i = i + 1;
    }
    assert(texts.subrange(0, ids@.len() as int) =~= texts);
    text
}

pub open spec fn state_error_text(error: StateErrorView) -> Seq<char> {
    match error {
        StateErrorView::StatePathUnavailable { reason } =>
            "unable to determine a base path for manager state: "@ + reason,
        StateErrorView::Io { path, source } => "I/O error at "@ + path + ": "@ + source,
        StateErrorView::Serde(detail) => "invalid state JSON: "@ + detail,
        StateErrorView::LockBusy { path } => "manager state is locked by another process at "@
            + path,
        StateErrorView::UnsupportedSchema { found, expected } =>
            "unsupported state schema version "@ + decimal(found as nat) + "; expected "@ + decimal(
            expected as nat,
        ),
        StateErrorView::InvalidState(detail) => "invalid manager state: "@ + detail,
    }
}

impl StateError {
    /// The text that is shown to the user.
    pub fn message(&self) -> (r: String)
        ensures
            r@ == state_error_text(self@),
    {
        match self {
            StateError::StatePathUnavailable { reason } => {
                let mut text = "unable to determine a base path for manager state: ".to_owned();
                text.append(reason.as_str());
                text
            },
            StateError::Io { path, source } => {
                let mut text = "I/O error at ".to_owned();
                text.append(path.as_str());
                text.append(": ");
                text.append(source.as_str());
                text
            },
            StateError::Serde(detail) => {
                let mut text = "invalid state JSON: ".to_owned();
                text.append(detail.as_str());
                text
            },
            StateError::LockBusy { path } => {
                let mut text = "manager state is locked by another process at ".to_owned();
                text.append(path.as_str());
                text
            },
            StateError::UnsupportedSchema { found, expected } => {
                let mut text = "unsupported state schema version ".to_owned();
                let found_text = decimal_text(*found as u64);
                text.append(found_text.as_str());
                text.append("; expected ");
                let expected_text = decimal_text(*expected as u64);
                text.append(expected_text.as_str());
                text
            },
            StateError::InvalidState(detail) => {
                let mut text = "invalid manager state: ".to_owned();
                text.append(detail.as_str());
                text
            },
        }
    }
}

pub open spec fn driver_error_text(error: DriverError) -> Seq<char> {
    match error {
        DriverError::Protocol(_) => "the driver rejected a protocol value"@,
        DriverError::Failed(detail) => detail@,
    }
}

/// The text that is shown to the user for an error. The technical source of a
/// protocol failure is left out.
pub open spec fn error_text(error: ManagerErrorView) -> Seq<char> {
    match error {
        ManagerErrorView::State(error) => state_error_text(error),
        ManagerErrorView::Driver(error) => driver_error_text(error),
        ManagerErrorView::Ble(detail) => detail,
        ManagerErrorView::UnsupportedOperation { operation, transport } => operation
            + " isn't supported over "@ + transport_label(transport),
        ManagerErrorView::ExplicitAuthorizationRequired { operation, transport } => operation
            + " on "@ + transport_label(transport) + " needs your permission"@,
        ManagerErrorView::MissingBaseline { resource, profile } => "no saved "@ + resource
            + " for profile "@ + optional_profile(profile),
        ManagerErrorView::DeviceNotFound(device) => "device not found: "@ + device,
        ManagerErrorView::AmbiguousDevice { selection, candidates } =>
            "multiple connected devices match transport selection "@ + selection_label(selection)
            + ": ["@ + listed_keys(candidates) + "]"@,
        ManagerErrorView::NoDevice { selection } =>
            "no connected device matches transport selection "@ + selection_label(selection),
        ManagerErrorView::DeviceDisconnected(device) => "device is disconnected: "@ + device,
        ManagerErrorView::PowerCycleDisappearanceTimeout { device, timeout } =>
            "timed out waiting for USB device "@ + device
            + " to disconnect during the power-cycle check after "@ + span_text(timeout),
        ManagerErrorView::PowerCycleReappearanceTimeout { device, timeout } =>
            "timed out waiting for USB device "@ + device
            + " to reconnect during the power-cycle check after "@ + span_text(timeout),
        ManagerErrorView::NoAlternateProfile { target, maximum } =>
            "no alternate profile available for target "@ + profile_number(target) + " (maximum "@
            + profile_number(maximum) + ")"@,
        ManagerErrorView::VerificationMismatch { resource, profile } =>
            "confirmation mismatch for "@ + resource + " on profile "@ + optional_profile(profile),
        ManagerErrorView::RefreshRestorationFailed { restore } =>
            "read the profiles, but couldn't restore the original setup ("@ + restore
            + "); the mouse may be left on a different profile or with extra profiles enabled"@,
        ManagerErrorView::RefreshRestoreFailed { refresh, restore } =>
            "reading the profiles failed ("@ + refresh
            + "); restoring the original setup also failed ("@ + restore
            + "); the mouse may be left on a different profile or with extra profiles enabled"@,
        ManagerErrorView::Protocol { operation, source } => "invalid update for "@ + operation,
        ManagerErrorView::InvalidUpdate(detail) => "invalid update: "@ + detail,
        ManagerErrorView::DeviceOperationBusy { device, operation, timeout, path } => "device "@
            + device + " is busy: operation "@ + operation + " timed out after "@ + span_text(
            timeout,
        ) + " waiting for lock at "@ + path,
        ManagerErrorView::DeviceInvolvedInSetup { device, phase } => "device "@ + device
            + " takes part in a running identity setup: "@ + phase_label(phase),
        ManagerErrorView::AttachmentNotAuthenticated { device, endpoint, detail } => "device "@
            + device + " is not authenticated on this connection: "@ + detail,
        ManagerErrorView::IdentitySetupInProgress { phase } =>
            "an identity setup is already in progress: "@ + phase_label(phase),
        ManagerErrorView::IdentityCeremonyRefused { phase, reason, detail } => phase_label(phase)
            + " refused ("@ + reason + "): "@ + detail,
        ManagerErrorView::NoIdentityCeremony => "no identity setup is in progress"@,
        ManagerErrorView::InvalidCeremonyAction { action, phase, stage } =>
            "the action does not fit the running identity setup: "@ + phase_label(phase),
        ManagerErrorView::ReservedPhysicalId { physical_id } =>
            "the physical identity token is reserved"@,
        ManagerErrorView::IntactIdentityMarker { endpoint, detail } =>
            "the mouse carries an intact identity marker: "@ + detail,
        ManagerErrorView::TokenGeneration { source } => "could not generate a physical identity token"@,
    }
}

impl ManagerError {
    /// The text that is shown to the user.
    pub fn message(&self) -> (r: String)
        ensures
            r@ == error_text(self@),
    {
        match self {
            ManagerError::State(error) => error.message(),
            ManagerError::Driver(error) => match error {
                DriverError::Protocol(_) => "the driver rejected a protocol value".to_owned(),
                DriverError::Failed(detail) => detail.clone(),
            },
            ManagerError::Ble(detail) => detail.clone(),
            ManagerError::UnsupportedOperation { operation, transport } => {
                let mut text = (*operation).to_owned();
                text.append(" isn't supported over ");
                text.append(transport_name(*transport));
                text
            },
            ManagerError::ExplicitAuthorizationRequired { operation, transport } => {
                let mut text = (*operation).to_owned();
                text.append(" on ");
                text.append(transport_name(*transport));
                text.append(" needs your permission");
                text
            },
            ManagerError::MissingBaseline { resource, profile } => {
                let mut text = "no saved ".to_owned();
                text.append(*resource);
                text.append(" for profile ");
                let slot = optional_profile_text(*profile);
                text.append(slot.as_str());
                text
            },
            ManagerError::DeviceNotFound(device) => {
                let mut text = "device not found: ".to_owned();
                text.append(device.as_str());
                text
            },
            ManagerError::AmbiguousDevice { selection, candidates } => {
                let mut text = "multiple connected devices match transport selection ".to_owned();
                let chosen = selection_text(*selection);
                text.append(chosen.as_str());
                text.append(": [");
                let list = listed_ids(candidates);
                text.append(list.as_str());
                text.append("]");
                text
            },
            ManagerError::NoDevice { selection } => {
                let mut text = "no connected device matches transport selection ".to_owned();
                let chosen = selection_text(*selection);
                text.append(chosen.as_str());
                text
            },
            ManagerError::DeviceDisconnected(device) => {
                let mut text = "device is disconnected: ".to_owned();
                text.append(device.as_str());
                text
            },
            ManagerError::PowerCycleDisappearanceTimeout { device, timeout } => {
                let mut text = "timed out waiting for USB device ".to_owned();
                text.append(device.as_str());
                text.append(" to disconnect during the power-cycle check after ");
                let span = timeout.text();
                text.append(span.as_str());
                text
            },
            ManagerError::PowerCycleReappearanceTimeout { device, timeout } => {
                let mut text = "timed out waiting for USB device ".to_owned();
                text.append(device.as_str());
                text.append(" to reconnect during the power-cycle check after ");
                let span = timeout.text();
                text.append(span.as_str());
                text
            },
            ManagerError::NoAlternateProfile { target, maximum } => {
                let mut text = "no alternate profile available for target ".to_owned();
                let target_text = profile_text(*target);
                text.append(target_text.as_str());
                text.append(" (maximum ");
                let maximum_text = profile_text(*maximum);
                text.append(maximum_text.as_str());
                text.append(")");
                text
            },
            ManagerError::VerificationMismatch { resource, profile } => {
                let mut text = "confirmation mismatch for ".to_owned();
                text.append(*resource);
                text.append(" on profile ");
                let slot = optional_profile_text(*profile);
                text.append(slot.as_str());
                text
            },
            ManagerError::RefreshRestorationFailed { restore } => {
                let mut text =
                    "read the profiles, but couldn't restore the original setup (".to_owned();
                text.append(restore.as_str());
                text.append(
                    "); the mouse may be left on a different profile or with extra profiles enabled",
                );
                text
            },
            ManagerError::RefreshRestoreFailed { refresh, restore } => {
                let mut text = "reading the profiles failed (".to_owned();
                text.append(refresh.as_str());
                text.append("); restoring the original setup also failed (");
                text.append(restore.as_str());
                text.append(
                    "); the mouse may be left on a different profile or with extra profiles enabled",
                );
                text
            },
            ManagerError::Protocol { operation, source: _ } => {
                let mut text = "invalid update for ".to_owned();
                text.append(*operation);
                text
            },
            ManagerError::InvalidUpdate(detail) => {
                let mut text = "invalid update: ".to_owned();
                text.append(detail.as_str());
                text
            },
            ManagerError::DeviceOperationBusy { device, operation, timeout, path } => {
                let mut text = "device ".to_owned();
                text.append(device.as_str());
                text.append(" is busy: operation ");
                text.append(*operation);
                text.append(" timed out after ");
                let span = timeout.text();
                text.append(span.as_str());
                text.append(" waiting for lock at ");
                text.append(path.as_str());
                text
            },
            ManagerError::DeviceInvolvedInSetup { device, phase } => {
                let mut text = "device ".to_owned();
                text.append(device.as_str());
                text.append(" takes part in a running identity setup: ");
                text.append(phase_name(*phase));
                text
            },
            ManagerError::AttachmentNotAuthenticated { device, endpoint: _, detail } => {
                let mut text = "device ".to_owned();
                text.append(device.as_str());
                text.append(" is not authenticated on this connection: ");
                text.append(detail.as_str());
                text
            },
            ManagerError::IdentitySetupInProgress { phase } => {
                let mut text = "an identity setup is already in progress: ".to_owned();
                text.append(phase_name(*phase));
                text
            },
            ManagerError::IdentityCeremonyRefused { phase, reason, detail } => {
                let mut text = phase_name(*phase).to_owned();
                text.append(" refused (");
                text.append(*reason);
                text.append("): ");
                text.append(detail.as_str());
                text
            },
            ManagerError::NoIdentityCeremony => "no identity setup is in progress".to_owned(),
            ManagerError::InvalidCeremonyAction { action: _, phase, stage: _ } => {
                let mut text = "the action does not fit the running identity setup: ".to_owned();
                text.append(phase_name(*phase));
                text
            },
            ManagerError::ReservedPhysicalId { physical_id: _ } =>
                "the physical identity token is reserved".to_owned(),
            ManagerError::IntactIdentityMarker { endpoint: _, detail } => {
                let mut text = "the mouse carries an intact identity marker: ".to_owned();
                text.append(detail.as_str());
                text
            },
            ManagerError::TokenGeneration { source: _ } =>
                "could not generate a physical identity token".to_owned(),
        }
    }
}

/// What is shown for a protocol failure does not depend on its technical
/// source.
pub proof fn law_protocol_text_hides_source(operation: Seq<char>, a: ProtocolError, b: ProtocolError)
    ensures
        error_text(ManagerErrorView::Protocol { operation, source: a }) == error_text(
            ManagerErrorView::Protocol { operation, source: b },
        ),
{
}

/// The text holds the part, letter for letter.
pub open spec fn mentions(text: Seq<char>, part: Seq<char>) -> bool {
    exists|at: int|
        0 <= at && at + part.len() <= text.len() && #[trigger] text.subrange(at, at + part.len())
            == part
}

proof fn lemma_mentions(text: Seq<char>, front: Seq<char>, part: Seq<char>, back: Seq<char>)
    requires
        text =~= front + part + back,
    ensures
        mentions(text, part),
{
    let at = front.len() as int;
    assert(text.subrange(at, at + part.len()) =~= part);
}

/// What is shown for an error mentions everything that the error is about:
/// devices, operations, resources, profiles, transports, phases and details.
pub proof fn law_messages_mention_what_they_are_about(error: &ManagerError, text: String)
    requires
        call_ensures(ManagerError::message, (error,), text),
    ensures
        match error {
            ManagerError::UnsupportedOperation { operation, transport } => {
                &&& mentions(text@, operation@)
                &&& mentions(text@, transport_label(*transport))
            },
            ManagerError::ExplicitAuthorizationRequired { operation, transport } => {
                &&& mentions(text@, operation@)
                &&& mentions(text@, transport_label(*transport))
            },
            ManagerError::MissingBaseline { resource, profile } => {
                &&& mentions(text@, resource@)
                &&& mentions(text@, optional_profile(*profile))
            },
            ManagerError::DeviceNotFound(device) => mentions(text@, device@),
            ManagerError::DeviceDisconnected(device) => mentions(text@, device@),
            ManagerError::PowerCycleDisappearanceTimeout { device, timeout } => {
                &&& mentions(text@, device@)
                &&& mentions(text@, span_text(timeout@))
            },
            ManagerError::PowerCycleReappearanceTimeout { device, timeout } => {
                &&& mentions(text@, device@)
                &&& mentions(text@, span_text(timeout@))
            },
            ManagerError::NoAlternateProfile { target, maximum } => {
                &&& mentions(text@, profile_number(*target))
                &&& mentions(text@, profile_number(*maximum))
            },
            ManagerError::VerificationMismatch { resource, profile } => {
                &&& mentions(text@, resource@)
                &&& mentions(text@, optional_profile(*profile))
            },
            ManagerError::RefreshRestorationFailed { restore } => mentions(text@, restore@),
            ManagerError::RefreshRestoreFailed { refresh, restore } => {
                &&& mentions(text@, refresh@)
                &&& mentions(text@, restore@)
            },
            ManagerError::Protocol { operation, .. } => mentions(text@, operation@),
            ManagerError::InvalidUpdate(detail) => mentions(text@, detail@),
            ManagerError::DeviceOperationBusy { device, operation, timeout, path } => {
                &&& mentions(text@, device@)
                &&& mentions(text@, operation@)
                &&& mentions(text@, span_text(timeout@))
                &&& mentions(text@, path@)
            },
            ManagerError::DeviceInvolvedInSetup { device, phase } => {
                &&& mentions(text@, device@)
                &&& mentions(text@, phase_label(*phase))
            },
            ManagerError::AttachmentNotAuthenticated { device, detail, .. } => {
                &&& mentions(text@, device@)
                &&& mentions(text@, detail@)
            },
            ManagerError::IdentitySetupInProgress { phase } => mentions(text@, phase_label(*phase)),
            ManagerError::IdentityCeremonyRefused { phase, reason, detail } => {
                &&& mentions(text@, phase_label(*phase))
                &&& mentions(text@, reason@)
                &&& mentions(text@, detail@)
            },
            ManagerError::InvalidCeremonyAction { phase, .. } => mentions(text@, phase_label(*phase)),
            ManagerError::IntactIdentityMarker { detail, .. } => mentions(text@, detail@),
            ManagerError::NoDevice { selection } => mentions(text@, selection_label(*selection)),
            ManagerError::AmbiguousDevice { selection, candidates } => {
                &&& mentions(text@, selection_label(*selection))
                &&& mentions(text@, listed_keys(id_texts(candidates@)))
            },
            _ => true,
        },
{
    match error {
        ManagerError::UnsupportedOperation { operation, transport } => {
            lemma_mentions(
                text@,
                Seq::<char>::empty(),
                operation@,
                " isn't supported over "@ + transport_label(*transport),
            );
            lemma_mentions(
                text@,
                operation@ + " isn't supported over "@,
                transport_label(*transport),
                Seq::<char>::empty(),
            );
        },
        ManagerError::ExplicitAuthorizationRequired { operation, transport } => {
            lemma_mentions(
                text@,
                Seq::<char>::empty(),
                operation@,
                " on "@ + transport_label(*transport) + " needs your permission"@,
            );
            lemma_mentions(
                text@,
                operation@ + " on "@,
                transport_label(*transport),
                " needs your permission"@,
            );
        },
        ManagerError::MissingBaseline { resource, profile } => {
            lemma_mentions(
                text@,
                "no saved "@,
                resource@,
                " for profile "@ + optional_profile(*profile),
            );
            lemma_mentions(
                text@,
                "no saved "@ + resource@ + " for profile "@,
                optional_profile(*profile),
                Seq::<char>::empty(),
            );
        },
        ManagerError::DeviceNotFound(device) => {
            lemma_mentions(text@, "device not found: "@, device@, Seq::<char>::empty());
        },
        ManagerError::DeviceDisconnected(device) => {
            lemma_mentions(text@, "device is disconnected: "@, device@, Seq::<char>::empty());
        },
        ManagerError::PowerCycleDisappearanceTimeout { device, timeout } => {
            lemma_mentions(
                text@,
                "timed out waiting for USB device "@,
                device@,
                " to disconnect during the power-cycle check after "@ + span_text(timeout@),
            );
            lemma_mentions(
                text@,
                "timed out waiting for USB device "@ + device@
                    + " to disconnect during the power-cycle check after "@,
                span_text(timeout@),
                Seq::<char>::empty(),
            );
        },
        ManagerError::PowerCycleReappearanceTimeout { device, timeout } => {
            lemma_mentions(
                text@,
                "timed out waiting for USB device "@,
                device@,
                " to reconnect during the power-cycle check after "@ + span_text(timeout@),
            );
            lemma_mentions(
                text@,
                "timed out waiting for USB device "@ + device@
                    + " to reconnect during the power-cycle check after "@,
                span_text(timeout@),
                Seq::<char>::empty(),
            );
        },
        ManagerError::NoAlternateProfile { target, maximum } => {
            lemma_mentions(
                text@,
                "no alternate profile available for target "@,
                profile_number(*target),
                " (maximum "@ + profile_number(*maximum) + ")"@,
            );
            lemma_mentions(
                text@,
                "no alternate profile available for target "@ + profile_number(*target)
                    + " (maximum "@,
                profile_number(*maximum),
                ")"@,
            );
        },
        ManagerError::VerificationMismatch { resource, profile } => {
            lemma_mentions(
                text@,
                "confirmation mismatch for "@,
                resource@,
                " on profile "@ + optional_profile(*profile),
            );
            lemma_mentions(
                text@,
                "confirmation mismatch for "@ + resource@ + " on profile "@,
                optional_profile(*profile),
                Seq::<char>::empty(),
            );
        },
        ManagerError::RefreshRestorationFailed { restore } => {
            lemma_mentions(
                text@,
                "read the profiles, but couldn't restore the original setup ("@,
                restore@,
                "); the mouse may be left on a different profile or with extra profiles enabled"@,
            );
        },
        ManagerError::RefreshRestoreFailed { refresh, restore } => {
            lemma_mentions(
                text@,
                "reading the profiles failed ("@,
                refresh@,
                "); restoring the original setup also failed ("@ + restore@
                    + "); the mouse may be left on a different profile or with extra profiles enabled"@,
            );
            lemma_mentions(
                text@,
                "reading the profiles failed ("@ + refresh@
                    + "); restoring the original setup also failed ("@,
                restore@,
                "); the mouse may be left on a different profile or with extra profiles enabled"@,
            );
        },
        ManagerError::Protocol { operation, .. } => {
            lemma_mentions(text@, "invalid update for "@, operation@, Seq::<char>::empty());
        },
        ManagerError::InvalidUpdate(detail) => {
            lemma_mentions(text@, "invalid update: "@, detail@, Seq::<char>::empty());
        },
        ManagerError::DeviceOperationBusy { device, operation, timeout, path } => {
            lemma_mentions(
                text@,
                "device "@,
                device@,
                " is busy: operation "@ + operation@ + " timed out after "@
                    + span_text(timeout@) + " waiting for lock at "@ + path@,
            );
            lemma_mentions(
                text@,
                "device "@ + device@ + " is busy: operation "@,
                operation@,
                " timed out after "@ + span_text(timeout@) + " waiting for lock at "@ + path@,
            );
            lemma_mentions(
                text@,
                "device "@ + device@ + " is busy: operation "@ + operation@ + " timed out after "@,
                span_text(timeout@),
                " waiting for lock at "@ + path@,
            );
            lemma_mentions(
                text@,
                "device "@ + device@ + " is busy: operation "@ + operation@
                    + " timed out after "@ + span_text(timeout@) + " waiting for lock at "@,
                path@,
                Seq::<char>::empty(),
            );
        },
        ManagerError::DeviceInvolvedInSetup { device, phase } => {
            lemma_mentions(
                text@,
                "device "@,
                device@,
                " takes part in a running identity setup: "@ + phase_label(*phase),
            );
            lemma_mentions(
                text@,
                "device "@ + device@ + " takes part in a running identity setup: "@,
                phase_label(*phase),
                Seq::<char>::empty(),
            );
        },
        ManagerError::AttachmentNotAuthenticated { device, detail, .. } => {
            lemma_mentions(
                text@,
                "device "@,
                device@,
                " is not authenticated on this connection: "@ + detail@,
            );
            lemma_mentions(
                text@,
                "device "@ + device@ + " is not authenticated on this connection: "@,
                detail@,
                Seq::<char>::empty(),
            );
        },
        ManagerError::IdentitySetupInProgress { phase } => {
            lemma_mentions(
                text@,
                "an identity setup is already in progress: "@,
                phase_label(*phase),
                Seq::<char>::empty(),
            );
        },
        ManagerError::IdentityCeremonyRefused { phase, reason, detail } => {
            lemma_mentions(
                text@,
                Seq::<char>::empty(),
                phase_label(*phase),
                " refused ("@ + reason@ + "): "@ + detail@,
            );
            lemma_mentions(text@, phase_label(*phase) + " refused ("@, reason@, "): "@ + detail@);
            lemma_mentions(
                text@,
                phase_label(*phase) + " refused ("@ + reason@ + "): "@,
                detail@,
                Seq::<char>::empty(),
            );
        },
        ManagerError::InvalidCeremonyAction { phase, .. } => {
            lemma_mentions(
                text@,
                "the action does not fit the running identity setup: "@,
                phase_label(*phase),
                Seq::<char>::empty(),
            );
        },
        ManagerError::IntactIdentityMarker { detail, .. } => {
            lemma_mentions(
                text@,
                "the mouse carries an intact identity marker: "@,
                detail@,
                Seq::<char>::empty(),
            );
        },
        ManagerError::NoDevice { selection } => {
            lemma_mentions(
                text@,
                "no connected device matches transport selection "@,
                selection_label(*selection),
                Seq::<char>::empty(),
            );
        },
        ManagerError::AmbiguousDevice { selection, candidates } => {
            lemma_mentions(
                text@,
                "multiple connected devices match transport selection "@,
                selection_label(*selection),
                ": ["@ + listed_keys(id_texts(candidates@)) + "]"@,
            );
            lemma_mentions(
                text@,
                "multiple connected devices match transport selection "@
                    + selection_label(*selection) + ": ["@,
                listed_keys(id_texts(candidates@)),
                "]"@,
            );
        },
        _ => {},
    }
}

/// Phases, transports and selections are each shown in words of their own.
pub proof fn law_labels_tell_things_apart(
    phase: IdentitySetupPhase,
    other_phase: IdentitySetupPhase,
    selection: TransportSelection,
    other_selection: TransportSelection,
)
    ensures
        phase_label(phase) == phase_label(other_phase) ==> phase == other_phase,
        selection_label(selection) == selection_label(other_selection) ==> selection
            == other_selection,
{
    reveal_strlit("InitialEnrollment");
    reveal_strlit("AddMouse");
    reveal_strlit("Restore");
    reveal_strlit("ForeignAdoption");
    reveal_strlit("BleAssociation");
    reveal_strlit("Wired");
    reveal_strlit("Receiver");
    reveal_strlit("Ble");
    reveal_strlit("Auto");
    reveal_strlit("Exact(");
    reveal_strlit(")");
    assert("InitialEnrollment"@.len() == 17);
    assert("AddMouse"@.len() == 8);
    assert("Restore"@.len() == 7);
    assert("ForeignAdoption"@.len() == 15);
    assert("BleAssociation"@.len() == 14);
    assert("Wired"@.len() == 5);
    assert("Receiver"@.len() == 8);
    assert("Ble"@.len() == 3);
    assert("Auto"@.len() == 4);
    assert("Exact("@.len() == 6);
    assert(")"@.len() == 1);
    let sizes = |p: IdentitySetupPhase| phase_label(p).len();
    assert(sizes(phase) == sizes(other_phase) ==> phase == other_phase);
    assert(selection_label(selection).len() == selection_label(other_selection).len() ==> selection
        == other_selection);
}

/// What is shown for a failure of the state file mentions everything that the
/// failure is about.
pub proof fn law_state_messages_mention_what_they_are_about(error: &StateError, text: String)
    requires
        call_ensures(StateError::message, (error,), text),
    ensures
        match error {
            StateError::StatePathUnavailable { reason } => mentions(text@, reason@),
            StateError::Io { path, source } => mentions(text@, path@) && mentions(text@, source@),
            StateError::Serde(detail) => mentions(text@, detail@),
            StateError::LockBusy { path } => mentions(text@, path@),
            StateError::UnsupportedSchema { found, expected } => mentions(
                text@,
                decimal(*found as nat),
            ) && mentions(text@, decimal(*expected as nat)),
            StateError::InvalidState(detail) => mentions(text@, detail@),
        },
{
    let none = Seq::<char>::empty();
    match error {
        StateError::StatePathUnavailable { reason } => {
            lemma_mentions(
                text@,
                "unable to determine a base path for manager state: "@,
                reason@,
                none,
            );
        },
        StateError::Io { path, source } => {
            lemma_mentions(text@, "I/O error at "@, path@, ": "@ + source@);
            lemma_mentions(text@, "I/O error at "@ + path@ + ": "@, source@, none);
        },
        StateError::Serde(detail) => {
            lemma_mentions(text@, "invalid state JSON: "@, detail@, none);
        },
        StateError::LockBusy { path } => {
            lemma_mentions(
                text@,
                "manager state is locked by another process at "@,
                path@,
                none,
            );
        },
        StateError::UnsupportedSchema { found, expected } => {
            let old_number = decimal(*found as nat);
            let new_number = decimal(*expected as nat);
            lemma_mentions(
                text@,
                "unsupported state schema version "@,
                old_number,
                "; expected "@ + new_number,
            );
            lemma_mentions(
                text@,
                "unsupported state schema version "@ + old_number + "; expected "@,
                new_number,
                none,
            );
        },
        StateError::InvalidState(detail) => {
            lemma_mentions(text@, "invalid manager state: "@, detail@, none);
        },
    }
}

} // verus!
