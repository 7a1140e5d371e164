//! Presentation-neutral packets for debug commands.
//!
//! No device and no state is touched. The wire image comes from the protocol
//! encoder; these functions add the framing and the header fields.

use vstd::prelude::*;

use crate::protocol::{DpiFraming, PreferencesFraming, ProtocolError, TransportKind};

verus! {

/// The report family of an [`OfflinePacket`].
#[derive(Clone, Copy, Debug, PartialEq, Eq, Structural)]
pub enum OfflinePacketKind {
    Dpi,
    Preferences,
    Buttons,
}

/// Wire framing of an offline packet.
#[derive(Clone, Copy, Debug, PartialEq, Eq, Structural)]
pub enum OfflinePacketFraming {
    /// The write-shaped image without readback padding.
    Compact,
    /// The full feature-report image including required trailing padding.
    Full,
    /// A fixed-size image with no compact/full distinction.
    Fixed,
}

impl From<DpiFraming> for OfflinePacketFraming {
    fn from(framing: DpiFraming) -> (r: Self) {
        match framing {
            DpiFraming::Compact => OfflinePacketFraming::Compact,
            DpiFraming::Full => OfflinePacketFraming::Full,
        }
    }
}

impl vstd::std_specs::convert::FromSpecImpl<DpiFraming> for OfflinePacketFraming {
    open spec fn obeys_from_spec() -> bool {
        true
    }

    open spec fn from_spec(framing: DpiFraming) -> OfflinePacketFraming {
        match framing {
            DpiFraming::Compact => OfflinePacketFraming::Compact,
            DpiFraming::Full => OfflinePacketFraming::Full,
        }
    }
}

/// The packet framing of a preferences report.
pub open spec fn preferences_framing(framing: PreferencesFraming) -> OfflinePacketFraming {
    match framing {
        PreferencesFraming::Compact => OfflinePacketFraming::Compact,
        PreferencesFraming::Full => OfflinePacketFraming::Full,
    }
}

impl From<PreferencesFraming> for OfflinePacketFraming {
    fn from(framing: PreferencesFraming) -> (r: Self) {
        match framing {
            PreferencesFraming::Compact => OfflinePacketFraming::Compact,
            PreferencesFraming::Full => OfflinePacketFraming::Full,
        }
    }
}

impl vstd::std_specs::convert::FromSpecImpl<PreferencesFraming> for OfflinePacketFraming {
    open spec fn obeys_from_spec() -> bool {
        true
    }

    open spec fn from_spec(framing: PreferencesFraming) -> OfflinePacketFraming {
        preferences_framing(framing)
    }
}

/// Exact bytes and protocol metadata of a debug packet.
#[derive(Debug, PartialEq, Eq)]
pub struct OfflinePacket {
    pub kind: OfflinePacketKind,
    pub report_id: u8,
    pub declared_length: u8,
    pub framing: OfflinePacketFraming,
    /// Present for sensitivity packets, whose write framing depends on it.
    pub transport: Option<TransportKind>,
    /// The exact transmitted image.
    pub bytes: Vec<u8>,
}

impl OfflinePacket {
    /// The packet frames the image: its header fields are the first two bytes.
    pub open spec fn frames(
        self,
        kind: OfflinePacketKind,
        image: Seq<u8>,
        framing: OfflinePacketFraming,
        transport: Option<TransportKind>,
    ) -> bool {
        &&& self.kind == kind
        &&& self.report_id == image[0]
        &&& self.declared_length == image[1]
        &&& self.framing == framing
        &&& self.transport == transport
        &&& self.bytes@ == image
    }

    pub fn as_bytes(&self) -> (r: &[u8])
        ensures
            r@ == self.bytes@,
    {
        self.bytes.as_slice()
    }

    pub fn len(&self) -> (r: usize)
        ensures
            r == self.bytes@.len(),
    {
        self.bytes.len()
    }

    pub fn is_empty(&self) -> (r: bool)
        ensures
            r == (self.bytes@.len() == 0),
    {
        self.bytes.len() == 0
    }
}

fn packet(
    kind: OfflinePacketKind,
    bytes: Vec<u8>,
    framing: OfflinePacketFraming,
    transport: Option<TransportKind>,
) -> (r: OfflinePacket)
    requires
        bytes@.len() >= 2,
    ensures
        r.frames(kind, bytes@, framing, transport),
{
    OfflinePacket {
        kind,
        report_id: bytes[0],
        declared_length: bytes[1],
        framing,
        transport,
        bytes,
    }
}

/// Frames the encoded sensitivity image for the write transport. Every
/// transport writes the compact form; an encoder error is passed on.
pub fn encode_debug_dpi(report: Result<Vec<u8>, ProtocolError>, transport: TransportKind) -> (r:
    Result<OfflinePacket, ProtocolError>)
    requires
        report matches Ok(bytes) ==> bytes@.len() >= 2,
    ensures
        match report {
            Ok(bytes) => r matches Ok(framed) && framed.frames(
                OfflinePacketKind::Dpi,
                bytes@,
                OfflinePacketFraming::Compact,
                Some(transport),
            ),
            Err(error) => r == Err::<OfflinePacket, ProtocolError>(error),
        },
{
    match report {
        Ok(bytes) => Ok(
            packet(
                OfflinePacketKind::Dpi,
                bytes,
                OfflinePacketFraming::from(DpiFraming::Compact),
                Some(transport),
            ),
        ),
        Err(error) => Err(error),
    }
}

/// The `debug dpi` command.
pub fn debug_dpi(report: Result<Vec<u8>, ProtocolError>, transport: TransportKind) -> (r: Result<
    OfflinePacket,
    ProtocolError,
>)
    requires
        report matches Ok(bytes) ==> bytes@.len() >= 2,
    ensures
        match report {
            Ok(bytes) => r matches Ok(framed) && framed.frames(
                OfflinePacketKind::Dpi,
                bytes@,
                OfflinePacketFraming::Compact,
                Some(transport),
            ),
            Err(error) => r == Err::<OfflinePacket, ProtocolError>(error),
        },
{
    encode_debug_dpi(report, transport)
}

/// Frames the encoded preferences image, compact or full.
pub fn encode_debug_prefs(report: Vec<u8>, framing: PreferencesFraming) -> (r: OfflinePacket)
    requires
        report@.len() >= 2,
    ensures
        r.frames(
            OfflinePacketKind::Preferences,
            report@,
            preferences_framing(framing),
            None,
        ),
{
    packet(OfflinePacketKind::Preferences, report, OfflinePacketFraming::from(framing), None)
}

/// Descriptive alias for [`encode_debug_prefs`].
pub fn encode_debug_preferences(report: Vec<u8>, framing: PreferencesFraming) -> (r: OfflinePacket)
    requires
        report@.len() >= 2,
    ensures
        r.frames(
            OfflinePacketKind::Preferences,
            report@,
            preferences_framing(framing),
            None,
        ),
{
    encode_debug_prefs(report, framing)
}

/// The `debug prefs` command.
pub fn debug_prefs(report: Vec<u8>, framing: PreferencesFraming) -> (r: OfflinePacket)
    requires
        report@.len() >= 2,
    ensures
        r.frames(
            OfflinePacketKind::Preferences,
            report@,
            preferences_framing(framing),
            None,
        ),
{
    encode_debug_prefs(report, framing)
}

/// Frames the encoded button table.
pub fn encode_debug_buttons(report: Vec<u8>) -> (r: OfflinePacket)
    requires
        report@.len() >= 2,
    ensures
        r.frames(OfflinePacketKind::Buttons, report@, OfflinePacketFraming::Fixed, None),
{
    packet(OfflinePacketKind::Buttons, report, OfflinePacketFraming::Fixed, None)
}

/// The `debug buttons` command.
pub fn debug_buttons(report: Vec<u8>) -> (r: OfflinePacket)
    requires
        report@.len() >= 2,
    ensures
        r.frames(OfflinePacketKind::Buttons, report@, OfflinePacketFraming::Fixed, None),
{
    encode_debug_buttons(report)
}

/// A debug packet holds the encoded image byte for byte, and its header fields
/// are the first two bytes. A sensitivity packet is compact and names its
/// transport, a preferences packet is framed as asked for, and a button packet
/// has a fixed form.
pub proof fn law_packets_hold_the_image(
    dpi: Vec<u8>,
    preferences: Vec<u8>,
    buttons: Vec<u8>,
    transport: TransportKind,
    framing: PreferencesFraming,
    error: ProtocolError,
    dpi_packet: Result<OfflinePacket, ProtocolError>,
    failed: Result<OfflinePacket, ProtocolError>,
    preferences_packet: OfflinePacket,
    buttons_packet: OfflinePacket,
)
    requires
        call_ensures(debug_dpi, (Ok(dpi), transport), dpi_packet),
        call_ensures(debug_dpi, (Err(error), transport), failed),
        call_ensures(debug_prefs, (preferences, framing), preferences_packet),
        call_ensures(debug_buttons, (buttons,), buttons_packet),
    ensures
        dpi_packet matches Ok(packet) && {
            &&& packet.kind is Dpi
            &&& packet.framing is Compact
            &&& packet.transport == Some(transport)
            &&& packet.bytes@ == dpi@
            &&& packet.report_id == dpi@[0]
            &&& packet.declared_length == dpi@[1]
        },
        failed == Err::<OfflinePacket, ProtocolError>(error),
        preferences_packet.kind is Preferences,
        preferences_packet.framing is Full <==> framing is Full,
        preferences_packet.framing is Compact <==> framing is Compact,
        preferences_packet.transport is None,
        preferences_packet.bytes@ == preferences@,
        preferences_packet.report_id == preferences@[0],
        preferences_packet.declared_length == preferences@[1],
        buttons_packet.kind is Buttons,
        buttons_packet.framing is Fixed,
        buttons_packet.transport is None,
        buttons_packet.bytes@ == buttons@,
        buttons_packet.report_id == buttons@[0],
        buttons_packet.declared_length == buttons@[1],
{
}

} // verus!
