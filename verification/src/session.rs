//! What an open hardware session is asked and what it answers.
//!
//! Operations that need hardware hand out one request at a time and are
//! resumed with the reply. The routing of a write to the driver and the order
//! of the driver calls behind a metadata write are decided here as well.

use vstd::prelude::*;

use crate::device::{
    transport_label, transport_name, DeviceEndpoint, DeviceLocator, LocatorView, TransportSelection,
};
use crate::error::{ManagerError, ManagerErrorView};
use crate::exact::SameValue;
use crate::manager::{quote, quoted};
use crate::operation::{DiscoveredEndpoint, VerificationMethod};
use crate::protocol::{
    is_usb_transport, ButtonsState, DpiState, PhysicalId, PollingRate, PreferencesState, ProfileId,
    ProfileMetadata, ProfileSnapshot, TransportKind, WatermarkDecode,
};

verus! {

/// The result of a session write.
///
/// A transport-verified write is acknowledged at acceptance and carries no
/// value; a readback-verified one carries what a fresh read after the write
/// gave.
#[derive(Clone, Copy, Debug, PartialEq, Eq)]
pub enum SessionWrite<T> {
    ReadbackVerified(T),
    Acknowledged,
}

/// One thing to do against the open session.
#[derive(Clone, Copy, Debug, PartialEq, Eq)]
pub enum SessionRequest {
    ReadBattery,
    ReadProfileMetadata,
    ReadProfile(ProfileId),
    ReadDpi(ProfileId),
    ReadPreferences(ProfileId),
    ReadButtons(ProfileId),
    /// Reads the live polling rate. The profile is an alias on the wire and
    /// never identifies the content.
    ReadLivePollingRate(ProfileId),
    /// Writes a sensitivity image, overlaid with the watermark of the token
    /// where one is given.
    WriteDpi { state: DpiState, stamp: Option<PhysicalId>, verification: VerificationMethod },
    WritePreferences { state: PreferencesState, verification: VerificationMethod },
    WriteButtons { state: ButtonsState, verification: VerificationMethod },
    WritePollingRate { profile: ProfileId, rate: PollingRate, verification: VerificationMethod },
    WriteProfileMetadata(ProfileMetadata),
}

/// What came of a request.
#[derive(Debug, PartialEq, Eq)]
pub enum SessionReply {
    Battery(u8),
    ProfileMetadata(ProfileMetadata),
    Profile(ProfileSnapshot),
    /// A sensitivity image and what its tail decodes to.
    Dpi { state: DpiState, watermark: WatermarkDecode },
    Preferences(PreferencesState),
    Buttons(ButtonsState),
    PollingRate(PollingRate),
    /// The image that was sent, with its watermark, and the outcome. The
    /// watermark is that of the image which was read back, absent when none
    /// was.
    DpiWritten { desired: DpiState, write: SessionWrite<DpiState>, watermark: WatermarkDecode },
    PreferencesWritten(SessionWrite<PreferencesState>),
    ButtonsWritten(SessionWrite<ButtonsState>),
    PollingRateWritten(SessionWrite<PollingRate>),
    ProfileMetadataWritten(SessionWrite<ProfileMetadata>),
    Failed(ManagerError),
}

/// The image is the one that was to be written, but for the watermark of the
/// token where one was given.
pub open spec fn is_written_form(
    state: DpiState,
    stamp: Option<PhysicalId>,
    written: DpiState,
) -> bool {
    match stamp {
        Some(_) => written == (DpiState { preserved_tail: written.preserved_tail, ..state }),
        None => written == state,
    }
}

fn has_written_form(state: &DpiState, stamp: &Option<PhysicalId>, written: &DpiState) -> (r: bool)
    ensures
        r == is_written_form(*state, *stamp, *written),
{
    match stamp {
        Some(_) => written.same(&DpiState { preserved_tail: written.preserved_tail, ..*state }),
        None => written.same(state),
    }
}

impl SessionReply {
    /// The reply is of the sort that the request asks for. A reply to a
    /// sensitivity write is about the very image that was to be written.
    pub open spec fn fits(self, request: SessionRequest) -> bool {
        ||| self is Failed
        ||| match request {
            SessionRequest::ReadBattery => self is Battery,
            SessionRequest::ReadProfileMetadata => self is ProfileMetadata,
            SessionRequest::ReadProfile(_) => self is Profile,
            SessionRequest::ReadDpi(_) => self is Dpi,
            SessionRequest::ReadPreferences(_) => self is Preferences,
            SessionRequest::ReadButtons(_) => self is Buttons,
            SessionRequest::ReadLivePollingRate(_) => self is PollingRate,
            SessionRequest::WriteDpi { state, stamp, .. } => {
                &&& self matches SessionReply::DpiWritten { desired, .. }
                &&& is_written_form(state, stamp, desired)
            },
            SessionRequest::WritePreferences { .. } => self is PreferencesWritten,
            SessionRequest::WriteButtons { .. } => self is ButtonsWritten,
            SessionRequest::WritePollingRate { .. } => self is PollingRateWritten,
            SessionRequest::WriteProfileMetadata(_) => self is ProfileMetadataWritten,
        }
    }

    /// Tells whether the reply fits the request.
    pub fn answers(&self, request: &SessionRequest) -> (r: bool)
        ensures
            r == self.fits(*request),
    {
        match (self, request) {
            (SessionReply::Failed(_), _) => true,
            (SessionReply::Battery(_), SessionRequest::ReadBattery) => true,
            (SessionReply::ProfileMetadata(_), SessionRequest::ReadProfileMetadata) => true,
            (SessionReply::Profile(_), SessionRequest::ReadProfile(_)) => true,
            (SessionReply::Dpi { .. }, SessionRequest::ReadDpi(_)) => true,
            (SessionReply::Preferences(_), SessionRequest::ReadPreferences(_)) => true,
            (SessionReply::Buttons(_), SessionRequest::ReadButtons(_)) => true,
            (SessionReply::PollingRate(_), SessionRequest::ReadLivePollingRate(_)) => true,
            (
                SessionReply::DpiWritten { desired, .. },
                SessionRequest::WriteDpi { state, stamp, .. },
            ) => has_written_form(state, stamp, desired),
            (SessionReply::PreferencesWritten(_), SessionRequest::WritePreferences { .. }) => true,
            (SessionReply::ButtonsWritten(_), SessionRequest::WriteButtons { .. }) => true,
            (SessionReply::PollingRateWritten(_), SessionRequest::WritePollingRate { .. }) => true,
            (
                SessionReply::ProfileMetadataWritten(_),
                SessionRequest::WriteProfileMetadata(_),
            ) => true,
            _ => false,
        }
    }

    /// The transport cannot do what was asked.
    pub open spec fn is_unsupported(self) -> bool {
        self matches SessionReply::Failed(error) && error is UnsupportedOperation
    }
}

/// What an operation does next.
#[derive(Debug, PartialEq, Eq)]
pub enum Step<M, T> {
    /// Perform the request and resume with the reply.
    Ask { request: SessionRequest, next: M },
    /// The operation is over.
    Done(Result<T, ManagerError>),
}

/// The outcome of requiring that metadata was written exactly.
pub open spec fn exact_outcome(
    target: ProfileMetadata,
    write: SessionWrite<ProfileMetadata>,
) -> Result<ProfileMetadata, ManagerErrorView> {
    if write == SessionWrite::ReadbackVerified(target) {
        Ok(target)
    } else {
        Err(
            ManagerErrorView::VerificationMismatch {
                resource: "profile metadata"@,
                profile: Some(target.current_profile),
            },
        )
    }
}

/// Requires that a metadata write was read back exactly as it was sent.
pub fn require_exact_metadata(
    target: ProfileMetadata,
    write: SessionWrite<ProfileMetadata>,
) -> (r: Result<ProfileMetadata, ManagerError>)
    ensures
        crate::error::viewed(r) == exact_outcome(target, write),
{
    match write {
        SessionWrite::ReadbackVerified(actual) => if actual == target {
            return Ok(actual);
        },
        SessionWrite::Acknowledged => {},
    }
    Err(
        ManagerError::VerificationMismatch {
            resource: "profile metadata",
            profile: Some(target.current()),
        },
    )
}

/// How the driver performs a write.
#[derive(Clone, Copy, Debug, PartialEq, Eq, Structural)]
pub enum WriteRoute {
    /// Send and rely on the acknowledgement.
    Send,
    /// Send, read back and report what was read.
    SendAndReadBack,
}

/// Every transport can send; only USB can read back.
pub open spec fn routed(
    transport: TransportKind,
    verification: VerificationMethod,
    operation: Seq<char>,
) -> Result<WriteRoute, ManagerErrorView> {
    match verification {
        VerificationMethod::Transport => Ok(WriteRoute::Send),
        VerificationMethod::Readback => if transport.is_usb() {
            Ok(WriteRoute::SendAndReadBack)
        } else {
            Err(ManagerErrorView::UnsupportedOperation { operation, transport })
        },
    }
}

/// Decides how a write with the requested verification is performed.
pub fn route_write(
    transport: TransportKind,
    verification: VerificationMethod,
    operation: &'static str,
) -> (r: Result<WriteRoute, ManagerError>)
    ensures
        crate::error::viewed(r) == routed(transport, verification, operation@),
{
    match verification {
        VerificationMethod::Transport => Ok(WriteRoute::Send),
        VerificationMethod::Readback => if is_usb_transport(transport) {
            Ok(WriteRoute::SendAndReadBack)
        } else {
            Err(ManagerError::UnsupportedOperation { operation, transport })
        },
    }
}

/// The result of a write along a route, given what the driver read back.
pub fn routed_write<T: Copy>(route: WriteRoute, read_back: T) -> (r: SessionWrite<T>)
    ensures
        r == (match route {
            WriteRoute::Send => SessionWrite::Acknowledged,
            WriteRoute::SendAndReadBack => SessionWrite::ReadbackVerified(read_back),
        }),
{
    match route {
        WriteRoute::Send => SessionWrite::Acknowledged,
        WriteRoute::SendAndReadBack => SessionWrite::ReadbackVerified(read_back),
    }
}

/// Refuses what only USB can do.
pub fn require_usb(transport: TransportKind, operation: &'static str) -> (r: Result<
    (),
    ManagerError,
>)
    ensures
        crate::error::viewed(r) == (if transport.is_usb() {
            Ok(())
        } else {
            Err(ManagerErrorView::UnsupportedOperation { operation: operation@, transport })
        }),
{
    if is_usb_transport(transport) {
        Ok(())
    } else {
        Err(ManagerError::UnsupportedOperation { operation, transport })
    }
}

/// A driver call behind a metadata write.
#[derive(Clone, Copy, Debug, PartialEq, Eq, Structural)]
pub enum MetadataCall {
    SetMaximum(ProfileId),
    Activate(ProfileId),
}

/// How far a metadata write has come.
#[derive(Clone, Copy, Debug, PartialEq, Eq, Structural)]
pub enum MetadataStage {
    /// The current metadata was read.
    Read,
    /// The maximum was raised.
    Raised,
    /// The target profile was activated.
    Activated,
    /// The maximum was set to its final value.
    Settled,
}

/// The next driver call, or `None` when the write is over.
pub open spec fn next_metadata_call(
    target: ProfileMetadata,
    stage: MetadataStage,
    actual: ProfileMetadata,
) -> Option<(MetadataCall, MetadataStage)> {
    if stage is Read && target.maximum_profile.index() > actual.maximum_profile.index() {
        Some((MetadataCall::SetMaximum(target.maximum_profile), MetadataStage::Raised))
    } else if (stage is Read || stage is Raised) && target.current_profile
        != actual.current_profile {
        Some((MetadataCall::Activate(target.current_profile), MetadataStage::Activated))
    } else if !(stage is Settled) && target.maximum_profile != actual.maximum_profile {
        Some((MetadataCall::SetMaximum(target.maximum_profile), MetadataStage::Settled))
    } else {
        None
    }
}

/// Decides the next driver call of a metadata write.
///
/// The maximum is raised before a profile that is not enabled yet is
/// activated, and lowered only after the target profile is active, so the
/// active profile is always among the enabled ones.
pub fn plan_metadata_call(
    target: ProfileMetadata,
    stage: MetadataStage,
    actual: ProfileMetadata,
) -> (r: Option<(MetadataCall, MetadataStage)>)
    ensures
        r == next_metadata_call(target, stage, actual),
{
    let read: bool = match stage {
        MetadataStage::Read => true,
        _ => false,
    };
    if read && target.maximum().get() > actual.maximum().get() {
        return Some((MetadataCall::SetMaximum(target.maximum()), MetadataStage::Raised));
    }
    let before_activation: bool = match stage {
        MetadataStage::Read | MetadataStage::Raised => true,
        _ => false,
    };
    if before_activation && target.current() != actual.current() {
        return Some((MetadataCall::Activate(target.current()), MetadataStage::Activated));
    }
    let settled: bool = match stage {
        MetadataStage::Settled => true,
        _ => false,
    };
    if !settled && target.maximum() != actual.maximum() {
        return Some((MetadataCall::SetMaximum(target.maximum()), MetadataStage::Settled));
    }
    None
}

/// What a driver call does when the mouse obeys.
pub open spec fn obeyed(actual: ProfileMetadata, call: MetadataCall) -> ProfileMetadata {
    match call {
        MetadataCall::SetMaximum(maximum) => ProfileMetadata {
            maximum_profile: maximum,
            ..actual
        },
        MetadataCall::Activate(current) => ProfileMetadata { current_profile: current, ..actual },
    }
}

/// The metadata when the write is over and the mouse obeyed every call.
pub open spec fn settled_metadata(
    target: ProfileMetadata,
    stage: MetadataStage,
    actual: ProfileMetadata,
    calls: nat,
) -> ProfileMetadata
    decreases calls,
{
    match next_metadata_call(target, stage, actual) {
        Some((call, next)) if calls > 0 => settled_metadata(
            target,
            next,
            obeyed(actual, call),
            (calls - 1) as nat,
        ),
        _ => actual,
    }
}

/// While metadata is written to a mouse that obeys, the active profile is
/// always an enabled one.
pub proof fn law_metadata_write_stays_valid(
    target: ProfileMetadata,
    stage: MetadataStage,
    actual: ProfileMetadata,
)
    requires
        target.wf(),
        actual.wf(),
        stage is Raised ==> actual.maximum_profile == target.maximum_profile,
        stage is Activated ==> actual.current_profile == target.current_profile,
    ensures
        next_metadata_call(target, stage, actual) matches Some((call, next)) ==> {
            &&& obeyed(actual, call).wf()
            &&& next is Raised ==> obeyed(actual, call).maximum_profile == target.maximum_profile
            &&& next is Activated ==> obeyed(actual, call).current_profile
                == target.current_profile
        },
{
}

/// A metadata write to a mouse that obeys ends with exactly the target after at
/// most three calls.
pub proof fn law_metadata_write_reaches_target(target: ProfileMetadata, actual: ProfileMetadata)
    requires
        target.wf(),
        actual.wf(),
    ensures
        settled_metadata(target, MetadataStage::Read, actual, 3) == target,
{
    reveal_with_fuel(settled_metadata, 4);
}

/// The transports that a selection scans, in order.
pub open spec fn scanned(selection: TransportSelection) -> Seq<TransportKind> {
    match selection {
        TransportSelection::Auto => seq![
            TransportKind::Wired,
            TransportKind::Receiver,
            TransportKind::Ble,
        ],
        TransportSelection::Exact(transport) => seq![transport],
    }
}

/// Lists the transports that a selection scans, in order.
pub fn scan_transports(selection: TransportSelection) -> (r: Vec<TransportKind>)
    ensures
        r@ == scanned(selection),
{
    let mut r: Vec<TransportKind> = Vec::new();
    match selection {
        TransportSelection::Auto => {
            r.push(TransportKind::Wired);
            r.push(TransportKind::Receiver);
            r.push(TransportKind::Ble);
        },
        TransportSelection::Exact(transport) => {
            r.push(transport);
        },
    }
    assert(r@ =~= scanned(selection));
    r
}

/// What the USB driver reports about one device.
#[derive(Debug, PartialEq, Eq)]
pub struct UsbDeviceInfo {
    pub vendor_id: u16,
    pub product_id: u16,
    pub serial_number: Option<String>,
    pub path: String,
    pub product: Option<String>,
}

/// What the BLE stack reports about one device. The identifier is in the form
/// in which it can be reopened.
#[derive(Debug, PartialEq, Eq)]
pub struct BleDeviceInfo {
    pub platform_id: String,
    pub name: Option<String>,
    pub connected: bool,
}

fn optional_str(text: &Option<String>) -> (r: Option<&str>)
    ensures
        crate::device::str_text(r) == crate::text::text_of(*text),
{
    match text {
        Some(text) => Some(text.as_str()),
        None => None,
    }
}

/// The endpoint that a reported USB device becomes.
pub open spec fn usb_described(
    transport: TransportKind,
    info: UsbDeviceInfo,
) -> Result<crate::device::EndpointView, crate::error::StateErrorView> {
    crate::device::usb_endpoint(
        transport,
        info.vendor_id,
        info.product_id,
        crate::text::text_of(info.serial_number),
        info.path@,
        crate::text::text_of(info.product),
    )
}

/// The endpoint that a reported BLE device becomes.
pub open spec fn ble_described(info: BleDeviceInfo) -> Result<
    crate::device::EndpointView,
    crate::error::StateErrorView,
> {
    crate::device::ble_endpoint(info.platform_id@, crate::text::text_of(info.name))
}

/// Turns the reported USB devices into connected endpoints, in order. The
/// first one that cannot be described fails the whole list.
pub fn usb_discoveries(transport: TransportKind, infos: &Vec<UsbDeviceInfo>) -> (r: Result<
    Vec<DiscoveredEndpoint>,
    ManagerError,
>)
    ensures
        match r {
            Ok(found) => {
                &&& found@.len() == infos@.len()
                &&& forall|i: int|
                    #![trigger found@[i]]
                    0 <= i < infos@.len() ==> found@[i].connected && usb_described(
                        transport,
                        infos@[i],
                    ) == Ok::<crate::device::EndpointView, crate::error::StateErrorView>(
                        found@[i].endpoint@,
                    )
            },
            Err(error) => exists|i: int|
                #![trigger infos@[i]]
                {
                    &&& 0 <= i < infos@.len()
                    &&& usb_described(transport, infos@[i]) matches Err(source)
                    &&& error@ == ManagerErrorView::State(source)
                    &&& forall|j: int|
                        0 <= j < i ==> usb_described(transport, #[trigger] infos@[j]) is Ok
                },
        },
{
    let mut found: Vec<DiscoveredEndpoint> = Vec::new();
    let mut i: usize = 0;
    while i < infos.len()
        invariant
            i <= infos@.len(),
            found@.len() == i,
            forall|j: int|
                #![trigger found@[j]]
                0 <= j < i ==> found@[j].connected && usb_described(transport, infos@[j]) == Ok::<
                    crate::device::EndpointView,
                    crate::error::StateErrorView,
                >(found@[j].endpoint@),
            forall|j: int| 0 <= j < i ==> usb_described(transport, #[trigger] infos@[j]) is Ok,
        decreases infos@.len() - i,
    {
        let info = &infos[i];
        match DeviceEndpoint::usb(
            transport,
            info.vendor_id,
            info.product_id,
            optional_str(&info.serial_number),
            info.path.as_str(),
            optional_str(&info.product),
        ) {
            Ok(endpoint) => {
                found.push(DiscoveredEndpoint { endpoint, connected: true });
            },
            Err(error) => {
                assert(usb_described(transport, infos@[i as int]) is Err);
                return Err(ManagerError::State(error));
            },
        }
        i = i + 1;
    }
    Ok(found)
}

/// Turns the reported BLE devices into endpoints, in order. The first one that
/// cannot be described fails the whole list.
pub fn ble_discoveries(infos: &Vec<BleDeviceInfo>) -> (r: Result<
    Vec<DiscoveredEndpoint>,
    ManagerError,
>)
    ensures
        match r {
            Ok(found) => {
                &&& found@.len() == infos@.len()
                &&& forall|i: int|
                    #![trigger found@[i]]
                    0 <= i < infos@.len() ==> found@[i].connected == infos@[i].connected
                        && ble_described(infos@[i]) == Ok::<
                        crate::device::EndpointView,
                        crate::error::StateErrorView,
                    >(found@[i].endpoint@)
            },
            Err(error) => exists|i: int|
                #![trigger infos@[i]]
                {
                    &&& 0 <= i < infos@.len()
                    &&& ble_described(infos@[i]) matches Err(source)
                    &&& error@ == ManagerErrorView::State(source)
                    &&& forall|j: int| 0 <= j < i ==> ble_described(#[trigger] infos@[j]) is Ok
                },
        },
{
    let mut found: Vec<DiscoveredEndpoint> = Vec::new();
    let mut i: usize = 0;
    while i < infos.len()
        invariant
            i <= infos@.len(),
            found@.len() == i,
            forall|j: int|
                #![trigger found@[j]]
                0 <= j < i ==> found@[j].connected == infos@[j].connected && ble_described(infos@[j])
                    == Ok::<crate::device::EndpointView, crate::error::StateErrorView>(
                    found@[j].endpoint@,
                ),
            forall|j: int| 0 <= j < i ==> ble_described(#[trigger] infos@[j]) is Ok,
        decreases infos@.len() - i,
    {
        let info = &infos[i];
        match DeviceEndpoint::ble(info.platform_id.as_str(), optional_str(&info.name)) {
            Ok(endpoint) => {
                found.push(DiscoveredEndpoint { endpoint, connected: info.connected });
            },
            Err(error) => {
                assert(ble_described(infos@[i as int]) is Err);
                return Err(ManagerError::State(error));
            },
        }
        i = i + 1;
    }
    Ok(found)
}

/// What to open for an endpoint: a HID path on a USB transport or a BLE
/// platform identifier.
#[derive(Debug, PartialEq, Eq)]
pub enum OpenTarget {
    Usb { transport: TransportKind, path: String },
    Ble { platform_id: String },
}

/// A locator as diagnostics show it.
pub open spec fn locator_text(locator: LocatorView) -> Seq<char> {
    match locator {
        LocatorView::UsbPath(path) => "UsbPath("@ + quoted(path) + ")"@,
        LocatorView::BlePlatformId(id) => "BlePlatformId("@ + quoted(id) + ")"@,
    }
}

fn describe_locator(locator: &DeviceLocator) -> (r: String)
    ensures
        r@ == locator_text(locator@),
{
    let (name, inner): (&str, &String) = match locator {
        DeviceLocator::UsbPath(path) => ("UsbPath(", path),
        DeviceLocator::BlePlatformId(id) => ("BlePlatformId(", id),
    };
    let mut text = name.to_owned();
    let shown = quote(inner.as_str());
    text.append(shown.as_str());
    text.append(")");
    text
}

/// Decides how an endpoint is opened; a locator of the wrong sort is refused.
pub fn open_target(endpoint: &DeviceEndpoint) -> (r: Result<OpenTarget, ManagerError>)
    ensures
        match r {
            Ok(OpenTarget::Usb { transport, path }) => {
                &&& endpoint.transport.is_usb()
                &&& transport == endpoint.transport
                &&& endpoint.locator@ == LocatorView::UsbPath(path@)
            },
            Ok(OpenTarget::Ble { platform_id }) => {
                &&& endpoint.transport is Ble
                &&& endpoint.locator@ == LocatorView::BlePlatformId(platform_id@)
            },
            Err(error) => {
                &&& endpoint.transport.is_usb() != (endpoint.locator is UsbPath)
                &&& error@ == ManagerErrorView::InvalidUpdate(
                    (if endpoint.transport.is_usb() {
                        "USB open expected UsbPath locator for transport "@
                    } else {
                        "BLE open expected BlePlatformId locator for transport "@
                    }) + transport_label(endpoint.transport) + ", got "@ + locator_text(
                        endpoint.locator@,
                    ),
                )
            },
        },
{
    match endpoint.transport {
        TransportKind::Wired | TransportKind::Receiver => match &endpoint.locator {
            DeviceLocator::UsbPath(path) => Ok(
                OpenTarget::Usb { transport: endpoint.transport, path: path.clone() },
            ),
            DeviceLocator::BlePlatformId(_) => {
                let mut text = "USB open expected UsbPath locator for transport ".to_owned();
                text.append(transport_name(endpoint.transport));
                text.append(", got ");
                let locator = describe_locator(&endpoint.locator);
                text.append(locator.as_str());
                Err(ManagerError::InvalidUpdate(text))
            },
        },
        TransportKind::Ble => match &endpoint.locator {
            DeviceLocator::BlePlatformId(platform_id) => Ok(
                OpenTarget::Ble { platform_id: platform_id.clone() },
            ),
            DeviceLocator::UsbPath(_) => {
                let mut text = "BLE open expected BlePlatformId locator for transport ".to_owned();
                text.append(transport_name(endpoint.transport));
                text.append(", got ");
                let locator = describe_locator(&endpoint.locator);
                text.append(locator.as_str());
                Err(ManagerError::InvalidUpdate(text))
            },
        },
    }
}

/// A coherent endpoint can always be opened as what it is.
pub proof fn law_coherent_endpoint_has_target(endpoint: DeviceEndpoint)
    requires
        endpoint.coherent(),
    ensures
        endpoint.transport.is_usb() == (endpoint.locator is UsbPath),
{
}

/// Metadata count as written exactly where they were read back as they were
/// sent.
pub proof fn law_exact_metadata_are_read_back(
    target: ProfileMetadata,
    write: SessionWrite<ProfileMetadata>,
    r: Result<ProfileMetadata, ManagerError>,
)
    requires
        call_ensures(require_exact_metadata, (target, write), r),
    ensures
        r is Ok <==> (write matches SessionWrite::ReadbackVerified(seen) && seen == target),
        r matches Ok(given) ==> given == target,
        r is Err ==> (crate::error::viewed(r) matches Err(
            ManagerErrorView::VerificationMismatch { resource, profile },
        ) && profile == Some(target.current_profile) && resource == "profile metadata"@),
{
}

/// A write is read back exactly where that is asked for, and that is refused
/// over BLE; what was read back is what is reported.
pub proof fn law_readback_needs_usb(
    transport: TransportKind,
    verification: VerificationMethod,
    operation: &'static str,
    route: Result<WriteRoute, ManagerError>,
    usb: Result<(), ManagerError>,
    seen: ProfileMetadata,
    write: SessionWrite<ProfileMetadata>,
)
    requires
        call_ensures(route_write, (transport, verification, operation), route),
        call_ensures(require_usb, (transport, operation), usb),
        route is Ok,
        call_ensures(routed_write::<ProfileMetadata>, (route->Ok_0, seen), write),
    ensures
        usb is Ok <==> transport is Wired || transport is Receiver,
        verification is Readback <==> write == SessionWrite::ReadbackVerified(seen),
        verification is Transport <==> write is Acknowledged,
        verification is Readback ==> usb is Ok,
{
}

/// A readback over BLE is refused, and so is whatever only USB can do; both
/// name the operation.
pub proof fn law_ble_is_refused_by_name(
    verification: VerificationMethod,
    operation: &'static str,
    transport: TransportKind,
    route: Result<WriteRoute, ManagerError>,
    usb: Result<(), ManagerError>,
)
    requires
        call_ensures(route_write, (transport, verification, operation), route),
        call_ensures(require_usb, (transport, operation), usb),
    ensures
        route is Err <==> transport is Ble && verification is Readback,
        route is Err ==> crate::error::viewed(route) == Err::<WriteRoute, ManagerErrorView>(
            ManagerErrorView::UnsupportedOperation { operation: operation@, transport },
        ),
        usb is Err ==> crate::error::viewed(usb) == Err::<(), ManagerErrorView>(
            ManagerErrorView::UnsupportedOperation { operation: operation@, transport },
        ),
{
}

/// A selection scans a transport exactly where it selects it, each once, and
/// USB before BLE.
pub proof fn law_selected_transports_are_scanned(
    selection: TransportSelection,
    r: Vec<TransportKind>,
    transport: TransportKind,
)
    requires
        call_ensures(scan_transports, (selection,), r),
    ensures
        r@.contains(transport) <==> selection is Auto || selection == TransportSelection::Exact(
            transport,
        ),
        forall|i: int, j: int|
            #![trigger r@[i], r@[j]]
            0 <= i < j < r@.len() ==> r@[i] != r@[j] && !(r@[i] is Ble) && !(r@[j] is Wired),
{
    if selection is Auto {
        assert(r@[0] is Wired && r@[1] is Receiver && r@[2] is Ble);
        match transport {
            TransportKind::Wired => {
                assert(r@[0] == transport);
            },
            TransportKind::Receiver => {
                assert(r@[1] == transport);
            },
            TransportKind::Ble => {
                assert(r@[2] == transport);
            },
        }
    } else {
        assert(r@.len() == 1 && r@[0] == selection->Exact_0);
    }
}

/// A driver that reports USB devices which can be described gives one connected
/// endpoint for each, in order, with its transport, numbers and path; a blank
/// path fails the whole list, and so does a transport that is not USB.
pub proof fn law_reported_usb_devices_are_listed(
    transport: TransportKind,
    infos: &Vec<UsbDeviceInfo>,
    r: Result<Vec<DiscoveredEndpoint>, ManagerError>,
    i: int,
)
    requires
        call_ensures(usb_discoveries, (transport, infos), r),
        0 <= i < infos@.len(),
    ensures
        r matches Ok(found) ==> {
            &&& found@.len() == infos@.len()
            &&& found@[i].connected
            &&& found@[i].endpoint.transport == transport
            &&& found@[i].endpoint.vendor_id == Some(infos@[i].vendor_id)
            &&& found@[i].endpoint.product_id == Some(infos@[i].product_id)
            &&& found@[i].endpoint.locator@ == LocatorView::UsbPath(infos@[i].path@)
            &&& crate::text::text_of(found@[i].endpoint.serial_number) == crate::text::nonblank(
                crate::text::text_of(infos@[i].serial_number),
            )
            &&& crate::text::text_of(found@[i].endpoint.display_name) == crate::text::nonblank(
                crate::text::text_of(infos@[i].product),
            )
        },
        transport is Ble || crate::text::trimmed(infos@[i].path@).len() == 0 ==> r is Err,
        !(transport is Ble) && (forall|j: int|
            0 <= j < infos@.len() ==> crate::text::trimmed(#[trigger] infos@[j].path@).len() > 0)
            ==> r is Ok,
{
    if let Ok(found) = r {
        assert(found@[i].connected);
    }
    assert(infos@[i] == infos@[i]);
}

/// A BLE stack that reports devices with identifiers gives one endpoint for
/// each, in order, as connected as it is reported; a blank identifier fails the
/// whole list.
pub proof fn law_reported_ble_devices_are_listed(
    infos: &Vec<BleDeviceInfo>,
    r: Result<Vec<DiscoveredEndpoint>, ManagerError>,
    i: int,
)
    requires
        call_ensures(ble_discoveries, (infos,), r),
        0 <= i < infos@.len(),
    ensures
        r matches Ok(found) ==> {
            &&& found@.len() == infos@.len()
            &&& found@[i].connected == infos@[i].connected
            &&& found@[i].endpoint.transport is Ble
            &&& found@[i].endpoint.vendor_id is None && found@[i].endpoint.product_id is None
            &&& found@[i].endpoint.serial_number is None
            &&& found@[i].endpoint.locator@ == LocatorView::BlePlatformId(
                crate::text::trimmed(infos@[i].platform_id@),
            )
            &&& crate::text::text_of(found@[i].endpoint.display_name) == crate::text::nonblank(
                crate::text::text_of(infos@[i].name),
            )
        },
        crate::text::trimmed(infos@[i].platform_id@).len() == 0 ==> r is Err,
        (forall|j: int|
            0 <= j < infos@.len() ==> crate::text::trimmed(#[trigger] infos@[j].platform_id@).len()
                > 0) ==> r is Ok,
{
    if let Ok(found) = r {
        assert(found@[i].connected == infos@[i].connected);
    }
}

/// An endpoint is opened by its own locator on its own transport, and a locator
/// of the wrong sort is refused.
pub proof fn law_endpoints_open_as_they_are(
    endpoint: &DeviceEndpoint,
    r: Result<OpenTarget, ManagerError>,
)
    requires
        call_ensures(open_target, (endpoint,), r),
    ensures
        match (endpoint.transport, endpoint.locator) {
            (TransportKind::Ble, DeviceLocator::BlePlatformId(id)) => r matches Ok(
                OpenTarget::Ble { platform_id },
            ) && platform_id@ == id@,
            (TransportKind::Wired, DeviceLocator::UsbPath(path)) => r matches Ok(
                OpenTarget::Usb { transport, path: opened },
            ) && transport is Wired && opened@ == path@,
            (TransportKind::Receiver, DeviceLocator::UsbPath(path)) => r matches Ok(
                OpenTarget::Usb { transport, path: opened },
            ) && transport is Receiver && opened@ == path@,
            _ => crate::error::viewed(r) matches Err(error) && error is InvalidUpdate,
        },
{
}

/// A reply answers a request exactly where it is about the same thing, or where
/// it is a failure; the outcome of a sensitivity write is about the image that
/// was handed out, with another tail only where it was stamped.
pub proof fn law_replies_answer_their_request(
    reply: &SessionReply,
    request: &SessionRequest,
    r: bool,
)
    requires
        call_ensures(SessionReply::answers, (reply, request), r),
    ensures
        *reply is Failed ==> r,
        !(*reply is Failed) ==> {
            &&& *request is ReadBattery ==> (r <==> *reply is Battery)
            &&& *request is ReadProfileMetadata ==> (r <==> *reply is ProfileMetadata)
            &&& *request is ReadProfile ==> (r <==> *reply is Profile)
            &&& *request is ReadDpi ==> (r <==> *reply is Dpi)
            &&& *request is ReadPreferences ==> (r <==> *reply is Preferences)
            &&& *request is ReadButtons ==> (r <==> *reply is Buttons)
            &&& *request is ReadLivePollingRate ==> (r <==> *reply is PollingRate)
            &&& *request is WritePreferences ==> (r <==> *reply is PreferencesWritten)
            &&& *request is WriteButtons ==> (r <==> *reply is ButtonsWritten)
            &&& *request is WritePollingRate ==> (r <==> *reply is PollingRateWritten)
            &&& *request is WriteProfileMetadata ==> (r <==> *reply is ProfileMetadataWritten)
            &&& *request matches SessionRequest::WriteDpi { state, stamp, verification } ==> (r <==> (
            *reply matches SessionReply::DpiWritten { desired, write, watermark } && {
                &&& desired.profile == state.profile
                &&& desired.stages == state.stages
                &&& desired.active_stage == state.active_stage
                &&& desired.sensor == state.sensor
                &&& stamp is None ==> desired.preserved_tail == state.preserved_tail
            }))
        },
{
}

/// Each driver call of a metadata write sets what the target says. The maximum
/// is raised first, lowered last, and never set twice in a row; where the mouse
/// already holds the target, there is nothing to do.
pub proof fn law_metadata_calls_lead_to_the_target(
    target: ProfileMetadata,
    stage: MetadataStage,
    actual: ProfileMetadata,
    r: Option<(MetadataCall, MetadataStage)>,
)
    requires
        call_ensures(plan_metadata_call, (target, stage, actual), r),
    ensures
        actual == target ==> r is None,
        r matches Some((MetadataCall::SetMaximum(maximum), _)) ==> maximum == target.maximum_profile
            && maximum != actual.maximum_profile,
        r matches Some((MetadataCall::Activate(current), next)) ==> current
            == target.current_profile && current != actual.current_profile && next is Activated && (
        actual.maximum_profile.index() >= target.maximum_profile.index() || stage is Raised),
        stage is Read && r is None ==> actual == target,
        stage is Settled ==> r is None,
        r matches Some((call, next)) ==> (match next {
            MetadataStage::Read => false,
            MetadataStage::Raised => stage is Read && call is SetMaximum,
            MetadataStage::Activated => (stage is Read || stage is Raised) && call is Activate,
            MetadataStage::Settled => call is SetMaximum && !(stage is Settled),
        }),
{
}

} // verus!
