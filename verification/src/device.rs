//! Logical device keys, transport endpoints and identities.

use vstd::prelude::*;

use crate::error::{state_result, StateError, StateErrorView};
use crate::protocol::{PhysicalId, TransportKind};
use crate::slots::TransportMap;
use crate::text::{
    decimal, decimal_text, is_blank, is_digit, is_numeral, lemma_decimal_injective,
    lemma_decimal_round_trip, lemma_numeral_round_trip, lemma_trim_fixed, lemma_trim_idempotent,
    lex_before, lex_less, nonblank, normalize_optional, numeral_value, parse_numeral, same_text,
    text_of, trim, trimmed,
};

verus! {

/// `mouse-`, the start of every logical key.
pub open spec fn key_prefix() -> Seq<char> {
    seq!['m', 'o', 'u', 's', 'e', '-']
}

/// The logical key with number `n`.
pub open spec fn logical_key(n: nat) -> Seq<char> {
    key_prefix() + decimal(n)
}

/// The number of a logical key `mouse-N`, for `N` from one to the largest
/// 64-bit number, written without leading zeros.
pub open spec fn logical_number(s: Seq<char>) -> Option<u64> {
    let suffix = s.subrange(6, s.len() as int);
    if s.len() > 6 && s.subrange(0, 6) == key_prefix() && is_numeral(suffix) && 0 < numeral_value(
        suffix,
    ) <= u64::MAX {
        Some(numeral_value(suffix) as u64)
    } else {
        None
    }
}

/// A text is the key of exactly the number that is read from it.
pub proof fn lemma_logical_number(s: Seq<char>, n: u64)
    ensures
        logical_number(s) == Some(n) <==> n > 0 && s == logical_key(n as nat),
{
    let suffix = s.subrange(6, s.len() as int);
    if logical_number(s) == Some(n) {
        lemma_numeral_round_trip(suffix);
        assert(s =~= s.subrange(0, 6) + suffix);
    }
    if n > 0 && s == logical_key(n as nat) {
        lemma_decimal_round_trip(n as nat);
        assert(s.subrange(0, 6) =~= key_prefix());
        assert(suffix =~= decimal(n as nat));
    }
}

/// A logical key is its own trimmed form, and not blank.
proof fn lemma_key_trimmed(s: Seq<char>)
    requires
        logical_number(s) is Some,
    ensures
        trimmed(s) == s,
        !is_blank(s),
{
    let suffix = s.subrange(6, s.len() as int);
    assert(s[0] == s.subrange(0, 6)[0]);
    assert(s[s.len() - 1] == suffix[suffix.len() - 1]);
    assert(is_digit(suffix[suffix.len() - 1]));
    lemma_trim_fixed(s);
}

fn key_prefix_text() -> (r: &'static str)
    ensures
        r@ == key_prefix(),
{
    proof {
        reveal_strlit("mouse-");
    }
    assert("mouse-"@ =~= key_prefix());
    "mouse-"
}

/// Reads the number out of `mouse-N`.
pub fn parse_logical_number(value: &str) -> (r: Option<u64>)
    ensures
        r == logical_number(value@),
{
    let len: usize = value.unicode_len();
    if len <= 6 {
        return None;
    }
    if !same_text(value.substring_char(0, 6), key_prefix_text()) {
        return None;
    }
    match parse_numeral(value.substring_char(6, len)) {
        Some(n) => if n == 0 {
            None
        } else {
            Some(n)
        },
        None => None,
    }
}

/// The outcome of checking a text against the form `mouse-N`.
pub open spec fn logical_id_check(s: Seq<char>) -> Result<(), StateErrorView> {
    if is_blank(s) {
        Err(StateErrorView::InvalidState("device identity must not be blank"@))
    } else if s != trimmed(s) {
        Err(
            StateErrorView::InvalidState(
                "device identity '"@ + s + "' must not have surrounding whitespace"@,
            ),
        )
    } else if logical_number(s) is Some {
        Ok(())
    } else {
        Err(StateErrorView::InvalidState("device identity '"@ + s + "' must be mouse-N (N >= 1)"@))
    }
}

/// Checks a text against the form `mouse-N`.
pub fn validate_logical_id(value: &str) -> (r: Result<(), StateError>)
    ensures
        state_result(r) == logical_id_check(value@),
        r is Ok <==> logical_number(value@) is Some,
{
    proof {
        if logical_number(value@) is Some {
            lemma_key_trimmed(value@);
        }
    }
    let inner = trim(value);
    if inner.is_empty() {
        return Err(StateError::invalid_state("device identity must not be blank"));
    }
    if !same_text(value, inner) {
        let mut detail = "device identity '".to_owned();
        detail.append(value);
        detail.append("' must not have surrounding whitespace");
        return Err(StateError::InvalidState(detail));
    }
    match parse_logical_number(value) {
        Some(_) => Ok(()),
        None => {
            let mut detail = "device identity '".to_owned();
            detail.append(value);
            detail.append("' must be mouse-N (N >= 1)");
            Err(StateError::InvalidState(detail))
        },
    }
}

/// A validated, stable logical key for one physical mouse.
///
/// The value is formatted `mouse-N` with N at least one. No transport path or
/// serial is ever used to compose it.
#[derive(Debug, PartialEq, Eq, PartialOrd, Ord, Hash)]
pub struct DeviceId {
    text: String,
}

impl View for DeviceId {
    type V = Seq<char>;

    closed spec fn view(&self) -> Seq<char> {
        self.text@
    }
}

impl Clone for DeviceId {
    fn clone(&self) -> (r: Self)
        ensures
            r == *self,
    {
        proof {
            use_type_invariant(self);
        }
        DeviceId { text: self.text.clone() }
    }
}

impl DeviceId {
    #[verifier::type_invariant]
    spec fn canonical(self) -> bool {
        logical_number(self.text@) is Some
    }

    /// Creates a device key, rejecting values that are not `mouse-N`.
    pub fn new(value: &str) -> (r: Result<DeviceId, StateError>)
        ensures
            match r {
                Ok(id) => logical_id_check(value@) is Ok && id@ == value@,
                Err(error) => logical_id_check(value@) == Err::<(), StateErrorView>(error@),
            },
            r is Ok <==> logical_number(value@) is Some,
    {
        match validate_logical_id(value) {
            Ok(_) => Ok(DeviceId { text: value.to_owned() }),
            Err(error) => Err(error),
        }
    }

    /// Creates a device key from a numeric allocation.
    pub fn from_number(number: u64) -> (r: Result<DeviceId, StateError>)
        ensures
            match r {
                Ok(id) => number > 0 && id@ == logical_key(number as nat),
                Err(error) => number == 0 && error@ == StateErrorView::InvalidState(
                    "device number must be >= 1"@,
                ),
            },
    {
        if number == 0 {
            return Err(StateError::invalid_state("device number must be >= 1"));
        }
        let mut text = key_prefix_text().to_owned();
        let digits = decimal_text(number);
        text.append(digits.as_str());
        proof {
            lemma_logical_number(text@, number);
        }
        Ok(DeviceId { text })
    }

    /// Returns the numeric suffix. Every key has one.
    pub fn number(&self) -> (r: Option<u64>)
        ensures
            r == logical_number(self@),
            r is Some,
            self@ == logical_key(r->0 as nat),
    {
        proof {
            use_type_invariant(self);
            lemma_logical_number(self.text@, logical_number(self.text@)->0);
        }
        parse_logical_number(self.text.as_str())
    }

    /// Returns the key's text.
    pub fn as_str(&self) -> (r: &str)
        ensures
            r@ == self@,
    {
        self.text.as_str()
    }

    /// Tells whether two keys are the same.
    pub fn same_key(&self, other: &DeviceId) -> (r: bool)
        ensures
            r == (self@ == other@),
    {
        self.text == other.text
    }

    /// Tells whether this key comes before another in the order of their
    /// texts.
    pub fn before(&self, other: &DeviceId) -> (r: bool)
        ensures
            r == lex_less(self@, other@),
    {
        lex_before(self.text.as_str(), other.text.as_str())
    }
}

/// A key made from a number reads back as that number, and a key made from a
/// text that denotes a number is the key of that number.
pub proof fn law_device_id_round_trip(s: Seq<char>, n: u64)
    requires
        n > 0,
    ensures
        logical_number(logical_key(n as nat)) == Some(n),
        logical_number(s) == Some(n) ==> s == logical_key(n as nat),
        logical_id_check(s) is Ok <==> logical_number(s) is Some,
{
    lemma_logical_number(logical_key(n as nat), n);
    lemma_logical_number(s, n);
    if logical_number(s) is Some {
        lemma_key_trimmed(s);
    }
}

/// Different numbers have different keys.
pub proof fn law_device_id_injective(a: u64, b: u64)
    requires
        logical_key(a as nat) == logical_key(b as nat),
    ensures
        a == b,
{
    let x = logical_key(a as nat);
    assert(x.subrange(6, x.len() as int) =~= decimal(a as nat));
    assert(x.subrange(6, x.len() as int) =~= decimal(b as nat));
    lemma_decimal_injective(a as nat, b as nat);
}

/// How discovery should select transports.
#[derive(Clone, Copy, Debug, PartialEq, Eq, Hash, Structural)]
pub enum TransportSelection {
    Auto,
    Exact(TransportKind),
}

impl Default for TransportSelection {
    fn default() -> (r: Self)
        ensures
            r == TransportSelection::Auto,
    {
        TransportSelection::Auto
    }
}

/// The current platform-specific selector for an exact device.
#[derive(Debug, PartialEq, Eq, PartialOrd, Ord, Hash)]
pub enum DeviceLocator {
    /// The current openable HID path, kept verbatim.
    UsbPath(String),
    /// The stable platform identifier used to reopen a BLE device.
    BlePlatformId(String),
}

/// A locator with its text as a sequence of code points.
pub enum LocatorView {
    UsbPath(Seq<char>),
    BlePlatformId(Seq<char>),
}

impl View for DeviceLocator {
    type V = LocatorView;

    open spec fn view(&self) -> LocatorView {
        match *self {
            DeviceLocator::UsbPath(path) => LocatorView::UsbPath(path@),
            DeviceLocator::BlePlatformId(id) => LocatorView::BlePlatformId(id@),
        }
    }
}

impl Clone for DeviceLocator {
    fn clone(&self) -> (r: Self)
        ensures
            r == *self,
    {
        match self {
            DeviceLocator::UsbPath(path) => DeviceLocator::UsbPath(path.clone()),
            DeviceLocator::BlePlatformId(id) => DeviceLocator::BlePlatformId(id.clone()),
        }
    }
}

/// USB paths come before BLE identifiers; within one sort the texts decide.
pub open spec fn locator_less(a: LocatorView, b: LocatorView) -> bool {
    match (a, b) {
        (LocatorView::UsbPath(x), LocatorView::UsbPath(y)) => lex_less(x, y),
        (LocatorView::UsbPath(_), LocatorView::BlePlatformId(_)) => true,
        (LocatorView::BlePlatformId(_), LocatorView::UsbPath(_)) => false,
        (LocatorView::BlePlatformId(x), LocatorView::BlePlatformId(y)) => lex_less(x, y),
    }
}

impl DeviceLocator {
    /// Tells whether two locators are the same.
    pub fn same_locator(&self, other: &DeviceLocator) -> (r: bool)
        ensures
            r == (self@ == other@),
    {
        match (self, other) {
            (DeviceLocator::UsbPath(a), DeviceLocator::UsbPath(b)) => *a == *b,
            (DeviceLocator::BlePlatformId(a), DeviceLocator::BlePlatformId(b)) => *a == *b,
            _ => false,
        }
    }

    /// Tells whether this locator comes before another.
    pub fn before(&self, other: &DeviceLocator) -> (r: bool)
        ensures
            r == locator_less(self@, other@),
    {
        match (self, other) {
            (DeviceLocator::UsbPath(a), DeviceLocator::UsbPath(b)) => lex_before(
                a.as_str(),
                b.as_str(),
            ),
            (DeviceLocator::UsbPath(_), DeviceLocator::BlePlatformId(_)) => true,
            (DeviceLocator::BlePlatformId(_), DeviceLocator::UsbPath(_)) => false,
            (DeviceLocator::BlePlatformId(a), DeviceLocator::BlePlatformId(b)) => lex_before(
                a.as_str(),
                b.as_str(),
            ),
        }
    }
}

/// A transport-specific presence of a logical mouse.
///
/// This is a locator with metadata only, never a physical identity.
#[derive(Debug, PartialEq, Eq)]
pub struct DeviceEndpoint {
    pub transport: TransportKind,
    pub vendor_id: Option<u16>,
    pub product_id: Option<u16>,
    /// The reported serial, trimmed; a blank one is absent. Metadata only.
    pub serial_number: Option<String>,
    pub locator: DeviceLocator,
    pub display_name: Option<String>,
}

/// An endpoint with its texts as sequences of code points.
pub struct EndpointView {
    pub transport: TransportKind,
    pub vendor_id: Option<u16>,
    pub product_id: Option<u16>,
    pub serial_number: Option<Seq<char>>,
    pub locator: LocatorView,
    pub display_name: Option<Seq<char>>,
}

impl View for DeviceEndpoint {
    type V = EndpointView;

    open spec fn view(&self) -> EndpointView {
        EndpointView {
            transport: self.transport,
            vendor_id: self.vendor_id,
            product_id: self.product_id,
            serial_number: text_of(self.serial_number),
            locator: self.locator@,
            display_name: text_of(self.display_name),
        }
    }
}

impl Clone for DeviceEndpoint {
    fn clone(&self) -> (r: Self)
        ensures
            r == *self,
    {
        DeviceEndpoint {
            transport: self.transport,
            vendor_id: self.vendor_id,
            product_id: self.product_id,
            serial_number: self.serial_number.clone(),
            locator: self.locator.clone(),
            display_name: self.display_name.clone(),
        }
    }
}

/// The outcome of describing a USB endpoint.
pub open spec fn usb_endpoint(
    transport: TransportKind,
    vendor_id: u16,
    product_id: u16,
    serial_number: Option<Seq<char>>,
    current_path: Seq<char>,
    display_name: Option<Seq<char>>,
) -> Result<EndpointView, StateErrorView> {
    if !transport.is_usb() {
        Err(StateErrorView::InvalidState("USB endpoint must use wired or receiver transport"@))
    } else if is_blank(current_path) {
        Err(StateErrorView::InvalidState("USB endpoint requires a nonblank current HID path"@))
    } else {
        Ok(
            EndpointView {
                transport,
                vendor_id: Some(vendor_id),
                product_id: Some(product_id),
                serial_number: nonblank(serial_number),
                locator: LocatorView::UsbPath(current_path),
                display_name: nonblank(display_name),
            },
        )
    }
}

/// The outcome of describing a BLE endpoint.
pub open spec fn ble_endpoint(platform_id: Seq<char>, display_name: Option<Seq<char>>) -> Result<
    EndpointView,
    StateErrorView,
> {
    if is_blank(platform_id) {
        Err(StateErrorView::InvalidState("BLE platform device ID must not be blank"@))
    } else {
        Ok(
            EndpointView {
                transport: TransportKind::Ble,
                vendor_id: None,
                product_id: None,
                serial_number: None,
                locator: LocatorView::BlePlatformId(trimmed(platform_id)),
                display_name: nonblank(display_name),
            },
        )
    }
}

pub open spec fn endpoint_result(r: Result<DeviceEndpoint, StateError>) -> Result<
    EndpointView,
    StateErrorView,
> {
    match r {
        Ok(endpoint) => Ok(endpoint@),
        Err(error) => Err(error@),
    }
}

pub open spec fn str_text(s: Option<&str>) -> Option<Seq<char>> {
    match s {
        Some(text) => Some(text@),
        None => None,
    }
}

pub fn same_optional_text(a: &Option<String>, b: &Option<String>) -> (r: bool)
    ensures
        r == (text_of(*a) == text_of(*b)),
{
    match (a, b) {
        (None, None) => true,
        (Some(x), Some(y)) => *x == *y,
        _ => false,
    }
}

impl DeviceEndpoint {
    /// Builds an endpoint for a wired device or a 2.4 GHz receiver. The
    /// current HID path is kept verbatim.
    pub fn usb(
        transport: TransportKind,
        vendor_id: u16,
        product_id: u16,
        serial_number: Option<&str>,
        current_path: &str,
        display_name: Option<&str>,
    ) -> (r: Result<DeviceEndpoint, StateError>)
        ensures
            endpoint_result(r) == usb_endpoint(
                transport,
                vendor_id,
                product_id,
                str_text(serial_number),
                current_path@,
                str_text(display_name),
            ),
    {
        match transport {
            TransportKind::Wired | TransportKind::Receiver => {},
            TransportKind::Ble => {
                return Err(
                    StateError::invalid_state("USB endpoint must use wired or receiver transport"),
                );
            },
        }
        if trim(current_path).is_empty() {
            return Err(
                StateError::invalid_state("USB endpoint requires a nonblank current HID path"),
            );
        }
        Ok(
            DeviceEndpoint {
                transport,
                vendor_id: Some(vendor_id),
                product_id: Some(product_id),
                serial_number: normalize_optional(serial_number),
                locator: DeviceLocator::UsbPath(current_path.to_owned()),
                display_name: normalize_optional(display_name),
            },
        )
    }

    /// Builds an endpoint for a BLE device using its platform identifier. The
    /// advertised name is display metadata only.
    pub fn ble(platform_id: &str, display_name: Option<&str>) -> (r: Result<
        DeviceEndpoint,
        StateError,
    >)
        ensures
            endpoint_result(r) == ble_endpoint(platform_id@, str_text(display_name)),
    {
        let inner = trim(platform_id);
        if inner.is_empty() {
            return Err(StateError::invalid_state("BLE platform device ID must not be blank"));
        }
        Ok(
            DeviceEndpoint {
                transport: TransportKind::Ble,
                vendor_id: None,
                product_id: None,
                serial_number: None,
                locator: DeviceLocator::BlePlatformId(inner.to_owned()),
                display_name: normalize_optional(display_name),
            },
        )
    }

    /// Transport and locator go together: USB transports have a path and both
    /// USB identifiers, BLE has a platform identifier.
    pub open spec fn coherent(self) -> bool {
        if self.transport.is_usb() {
            self.locator is UsbPath && self.vendor_id is Some && self.product_id is Some
        } else {
            self.locator is BlePlatformId
        }
    }

    /// Returns true when transport and locator variants cohere.
    pub fn is_coherent(&self) -> (r: bool)
        ensures
            r == self.coherent(),
    {
        match (&self.transport, &self.locator) {
            (TransportKind::Wired, DeviceLocator::UsbPath(_)) | (
                TransportKind::Receiver,
                DeviceLocator::UsbPath(_),
            ) => self.vendor_id.is_some() && self.product_id.is_some(),
            (TransportKind::Ble, DeviceLocator::BlePlatformId(_)) => true,
            _ => false,
        }
    }

    /// Tells whether two endpoints are the same in every part.
    pub fn same_endpoint(&self, other: &DeviceEndpoint) -> (r: bool)
        ensures
            r == (self@ == other@),
    {
        self.transport == other.transport && self.vendor_id == other.vendor_id && self.product_id
            == other.product_id && same_optional_text(&self.serial_number, &other.serial_number)
            && self.locator.same_locator(&other.locator) && same_optional_text(
            &self.display_name,
            &other.display_name,
        )
    }
}

/// Every endpoint that the two constructors build is coherent.
pub proof fn law_built_endpoints_cohere(
    endpoint: DeviceEndpoint,
    transport: TransportKind,
    vendor_id: u16,
    product_id: u16,
    serial_number: Option<Seq<char>>,
    text: Seq<char>,
    display_name: Option<Seq<char>>,
)
    ensures
        usb_endpoint(transport, vendor_id, product_id, serial_number, text, display_name) == Ok::<
            EndpointView,
            StateErrorView,
        >(endpoint@) ==> endpoint.coherent() && endpoint_defect(
            transport,
            endpoint,
            text,
        ) is None,
        ble_endpoint(text, display_name) == Ok::<EndpointView, StateErrorView>(endpoint@)
            ==> endpoint.coherent() && endpoint_defect(
            TransportKind::Ble,
            endpoint,
            text,
        ) is None,
{
    lemma_trim_idempotent(text);
    match serial_number {
        Some(serial) => {
            lemma_trim_idempotent(serial);
        },
        None => {},
    }
}

/// The name of a transport as diagnostics show it.
pub open spec fn transport_label(transport: TransportKind) -> Seq<char> {
    match transport {
        TransportKind::Wired => "Wired"@,
        TransportKind::Receiver => "Receiver"@,
        TransportKind::Ble => "Ble"@,
    }
}

pub fn transport_name(transport: TransportKind) -> (r: &'static str)
    ensures
        r@ == transport_label(transport),
{
    match transport {
        TransportKind::Wired => "Wired",
        TransportKind::Receiver => "Receiver",
        TransportKind::Ble => "Ble",
    }
}

/// What is wrong with an endpoint stored under a transport, if anything.
pub open spec fn endpoint_defect(
    kind: TransportKind,
    endpoint: DeviceEndpoint,
    id: Seq<char>,
) -> Option<Seq<char>> {
    if kind != endpoint.transport {
        Some(
            "endpoint key "@ + transport_label(kind) + " does not match endpoint transport "@
                + transport_label(endpoint.transport) + " for device "@ + id,
        )
    } else if !endpoint.coherent() {
        Some(
            "endpoint transport/locator mismatch for device "@ + id + " transport "@
                + transport_label(kind),
        )
    } else if endpoint.locator@ matches LocatorView::UsbPath(path) && is_blank(path) {
        Some(
            "USB locator for device "@ + id + " transport "@ + transport_label(kind) + " is blank"@,
        )
    } else if endpoint.locator@ matches LocatorView::BlePlatformId(platform) && is_blank(platform) {
        Some("BLE locator for device "@ + id + " is blank"@)
    } else if text_of(endpoint.serial_number) matches Some(serial) && is_blank(serial) {
        Some("serial for device "@ + id + " transport "@ + transport_label(kind) + " is blank"@)
    } else {
        None
    }
}

fn find_endpoint_defect(kind: TransportKind, endpoint: &DeviceEndpoint, id: &DeviceId) -> (r:
    Option<String>)
    ensures
        text_of(r) == endpoint_defect(kind, *endpoint, id@),
{
    if kind != endpoint.transport {
        let mut detail = "endpoint key ".to_owned();
        detail.append(transport_name(kind));
        detail.append(" does not match endpoint transport ");
        detail.append(transport_name(endpoint.transport));
        detail.append(" for device ");
        detail.append(id.as_str());
        return Some(detail);
    }
    if !endpoint.is_coherent() {
        let mut detail = "endpoint transport/locator mismatch for device ".to_owned();
        detail.append(id.as_str());
        detail.append(" transport ");
        detail.append(transport_name(kind));
        return Some(detail);
    }
    match &endpoint.locator {
        DeviceLocator::UsbPath(path) => {
            if trim(path.as_str()).is_empty() {
                let mut detail = "USB locator for device ".to_owned();
                detail.append(id.as_str());
                detail.append(" transport ");
                detail.append(transport_name(kind));
                detail.append(" is blank");
                return Some(detail);
            }
        },
        DeviceLocator::BlePlatformId(platform) => {
            if trim(platform.as_str()).is_empty() {
                let mut detail = "BLE locator for device ".to_owned();
                detail.append(id.as_str());
                detail.append(" is blank");
                return Some(detail);
            }
        },
    }
    if let Some(serial) = &endpoint.serial_number {
        if trim(serial.as_str()).is_empty() {
            let mut detail = "serial for device ".to_owned();
            detail.append(id.as_str());
            detail.append(" transport ");
            detail.append(transport_name(kind));
            detail.append(" is blank");
            return Some(detail);
        }
    }
    None
}

/// A durable logical mouse identity that can own several endpoints.
///
/// The logical `mouse-N` is the only stable key; each transport on which the
/// mouse was seen adds an endpoint. The physical token is present once the
/// mouse has been enrolled.
#[derive(Debug, PartialEq, Eq)]
pub struct DeviceIdentity {
    pub id: DeviceId,
    pub display_name: Option<String>,
    pub endpoints: TransportMap<DeviceEndpoint>,
    pub preferred_transport: Option<TransportKind>,
    pub physical_id: Option<PhysicalId>,
}

/// Copies an endpoint map.
pub fn clone_endpoints(endpoints: &TransportMap<DeviceEndpoint>) -> (r: TransportMap<
    DeviceEndpoint,
>)
    ensures
        r == *endpoints,
{
    TransportMap {
        wired: endpoints.wired.clone(),
        receiver: endpoints.receiver.clone(),
        ble: endpoints.ble.clone(),
    }
}

impl Clone for DeviceIdentity {
    fn clone(&self) -> (r: Self)
        ensures
            r == *self,
    {
        DeviceIdentity {
            id: self.id.clone(),
            display_name: self.display_name.clone(),
            endpoints: clone_endpoints(&self.endpoints),
            preferred_transport: self.preferred_transport,
            physical_id: self.physical_id,
        }
    }
}

impl DeviceIdentity {
    /// A fresh identity: nothing but a key and a name.
    pub open spec fn is_fresh(self, id: Seq<char>, display_name: Option<Seq<char>>) -> bool {
        &&& self.id@ == id
        &&& text_of(self.display_name) == nonblank(display_name)
        &&& self.endpoints == TransportMap::<DeviceEndpoint>::empty()
        &&& self.preferred_transport is None
        &&& self.physical_id is None
    }

    /// The endpoint to open for a hardware operation: the preferred transport
    /// if it is stored, else the first of wired, receiver and BLE that is.
    pub open spec fn chosen_endpoint(self) -> Option<DeviceEndpoint> {
        let preferred = match self.preferred_transport {
            Some(transport) => self.endpoints.at(transport),
            None => None,
        };
        if preferred is Some {
            preferred
        } else if self.endpoints.wired is Some {
            self.endpoints.wired
        } else if self.endpoints.receiver is Some {
            self.endpoints.receiver
        } else {
            self.endpoints.ble
        }
    }

    /// The first defect among the stored endpoints, in transport order.
    pub open spec fn defect(self) -> Option<Seq<char>> {
        let wired = match self.endpoints.wired {
            Some(endpoint) => endpoint_defect(TransportKind::Wired, endpoint, self.id@),
            None => None,
        };
        let receiver = match self.endpoints.receiver {
            Some(endpoint) => endpoint_defect(TransportKind::Receiver, endpoint, self.id@),
            None => None,
        };
        let ble = match self.endpoints.ble {
            Some(endpoint) => endpoint_defect(TransportKind::Ble, endpoint, self.id@),
            None => None,
        };
        if wired is Some {
            wired
        } else if receiver is Some {
            receiver
        } else {
            ble
        }
    }

    /// Creates a logical identity with no endpoints.
    pub fn new(id: DeviceId, display_name: Option<String>) -> (r: Self)
        ensures
            r.is_fresh(id@, text_of(display_name)),
            r.id == id,
    {
        let name = match &display_name {
            Some(text) => normalize_optional(Some(text.as_str())),
            None => None,
        };
        DeviceIdentity {
            id,
            display_name: name,
            endpoints: TransportMap::new(),
            preferred_transport: None,
            physical_id: None,
        }
    }

    /// Inserts or replaces the endpoint for its transport.
    pub fn upsert_endpoint(&mut self, endpoint: DeviceEndpoint)
        ensures
            *final(self) == (DeviceIdentity {
                endpoints: old(self).endpoints.with(endpoint.transport, Some(endpoint)),
                ..*old(self)
            }),
    {
        self.endpoints.insert(endpoint.transport, endpoint);
    }

    /// Returns the endpoint for the given transport, if present.
    pub fn endpoint(&self, transport: TransportKind) -> (r: Option<&DeviceEndpoint>)
        ensures
            r is Some <==> self.endpoints.at(transport) is Some,
            r matches Some(e) ==> self.endpoints.at(transport) == Some(*e),
    {
        self.endpoints.get(transport)
    }

    /// Returns true when an endpoint for the transport exists.
    pub fn has_endpoint(&self, transport: TransportKind) -> (r: bool)
        ensures
            r == (self.endpoints.at(transport) is Some),
    {
        self.endpoints.contains_key(transport)
    }

    /// Selects the endpoint that should be opened for a hardware operation.
    pub fn selected_endpoint(&self) -> (r: Option<&DeviceEndpoint>)
        ensures
            r is Some <==> self.chosen_endpoint() is Some,
            r matches Some(e) ==> self.chosen_endpoint() == Some(*e),
    {
        if let Some(preferred) = self.preferred_transport {
            if let Some(endpoint) = self.endpoints.get(preferred) {
                return Some(endpoint);
            }
        }
        if let Some(endpoint) = self.endpoints.get(TransportKind::Wired) {
            return Some(endpoint);
        }
        if let Some(endpoint) = self.endpoints.get(TransportKind::Receiver) {
            return Some(endpoint);
        }
        self.endpoints.get(TransportKind::Ble)
    }

    /// Returns the transport of the selected endpoint, if any.
    pub fn selected_transport(&self) -> (r: Option<TransportKind>)
        ensures
            r == (match self.chosen_endpoint() {
                Some(endpoint) => Some(endpoint.transport),
                None => None,
            }),
    {
        match self.selected_endpoint() {
            Some(endpoint) => Some(endpoint.transport),
            None => None,
        }
    }

    /// Validates transport and locator coherence of all endpoints.
    pub fn validate(&self) -> (r: Result<(), StateError>)
        ensures
            state_result(r) == (match self.defect() {
                Some(detail) => Err(StateErrorView::InvalidState(detail)),
                None => Ok::<(), StateErrorView>(()),
            }),
    {
        if let Some(endpoint) = &self.endpoints.wired {
            if let Some(detail) = find_endpoint_defect(TransportKind::Wired, endpoint, &self.id) {
                return Err(StateError::InvalidState(detail));
            }
        }
        if let Some(endpoint) = &self.endpoints.receiver {
            if let Some(detail) = find_endpoint_defect(TransportKind::Receiver, endpoint, &self.id) {
                return Err(StateError::InvalidState(detail));
            }
        }
        if let Some(endpoint) = &self.endpoints.ble {
            if let Some(detail) = find_endpoint_defect(TransportKind::Ble, endpoint, &self.id) {
                return Err(StateError::InvalidState(detail));
            }
        }
        Ok(())
    }
}

/// An identity always has an endpoint to open once it has stored one, the
/// preferred transport wins where it is stored, and without a preference the
/// order is wired, receiver, BLE.
pub proof fn law_endpoint_choice(identity: DeviceIdentity, transport: TransportKind)
    ensures
        identity.endpoints.at(transport) is Some ==> identity.chosen_endpoint() is Some,
        identity.preferred_transport == Some(transport) && identity.endpoints.at(transport) is Some
            ==> identity.chosen_endpoint() == identity.endpoints.at(transport),
        identity.preferred_transport is None && identity.endpoints.wired is Some
            ==> identity.chosen_endpoint() == identity.endpoints.wired,
        identity.preferred_transport is None && identity.endpoints.wired is None
            && identity.endpoints.receiver is Some ==> identity.chosen_endpoint()
            == identity.endpoints.receiver,
{
}

/// The endpoint to open is the preferred one where it is stored. Where no
/// preference is set, or the preferred one is not stored, it is the first of
/// wired, receiver and BLE that is stored.
pub proof fn law_absent_preference_falls_back(
    identity: &DeviceIdentity,
    r: Option<&DeviceEndpoint>,
    transport: Option<TransportKind>,
)
    requires
        call_ensures(DeviceIdentity::selected_endpoint, (identity,), r),
        call_ensures(DeviceIdentity::selected_transport, (identity,), transport),
    ensures
        ({
            let endpoints = identity.endpoints;
            let preferred = identity.preferred_transport is Some && endpoints.at(
                identity.preferred_transport->0,
            ) is Some;
            &&& r is None <==> endpoints.wired is None && endpoints.receiver is None
                && endpoints.ble is None
            &&& r matches Some(endpoint) ==> {
                &&& transport == Some(endpoint.transport)
                &&& preferred ==> endpoints.at(identity.preferred_transport->0) == Some(*endpoint)
                &&& !preferred && endpoints.wired is Some ==> endpoints.wired == Some(*endpoint)
                &&& !preferred && endpoints.wired is None && endpoints.receiver is Some
                    ==> endpoints.receiver == Some(*endpoint)
                &&& !preferred && endpoints.wired is None && endpoints.receiver is None
                    ==> endpoints.ble == Some(*endpoint)
            }
            &&& r is None ==> transport is None
        }),
{
}

/// A USB endpoint is described exactly where the transport is a USB one and
/// the path is not blank; it keeps the path letter for letter and both USB
/// numbers, and its texts are trimmed, blank ones left out.
pub proof fn law_usb_endpoints_keep_their_path(
    transport: TransportKind,
    vendor_id: u16,
    product_id: u16,
    serial_number: Option<&str>,
    current_path: &str,
    display_name: Option<&str>,
    r: Result<DeviceEndpoint, StateError>,
)
    requires
        call_ensures(
            DeviceEndpoint::usb,
            (transport, vendor_id, product_id, serial_number, current_path, display_name),
            r,
        ),
    ensures
        r is Ok <==> (transport is Wired || transport is Receiver) && trimmed(current_path@).len()
            > 0,
        r matches Ok(endpoint) ==> {
            &&& endpoint.transport == transport
            &&& endpoint.vendor_id == Some(vendor_id)
            &&& endpoint.product_id == Some(product_id)
            &&& endpoint.locator@ == LocatorView::UsbPath(current_path@)
            &&& named_or_absent(serial_number, endpoint.serial_number)
            &&& named_or_absent(display_name, endpoint.display_name)
        },
{
}

/// A text is stored trimmed; one with nothing but white space is not stored.
pub open spec fn named_or_absent(given: Option<&str>, stored: Option<String>) -> bool {
    match given {
        Some(text) => if trimmed(text@).len() > 0 {
            stored matches Some(kept) && kept@ == trimmed(text@)
        } else {
            stored is None
        },
        None => stored is None,
    }
}

/// A BLE endpoint is described exactly where the identifier is not blank; it
/// keeps the identifier trimmed, and has no USB numbers and no serial.
pub proof fn law_ble_endpoints_keep_their_identifier(
    platform_id: &str,
    display_name: Option<&str>,
    r: Result<DeviceEndpoint, StateError>,
)
    requires
        call_ensures(DeviceEndpoint::ble, (platform_id, display_name), r),
    ensures
        r is Ok <==> trimmed(platform_id@).len() > 0,
        r matches Ok(endpoint) ==> {
            &&& endpoint.transport is Ble
            &&& endpoint.vendor_id is None && endpoint.product_id is None
            &&& endpoint.serial_number is None
            &&& endpoint.locator@ == LocatorView::BlePlatformId(trimmed(platform_id@))
            &&& named_or_absent(display_name, endpoint.display_name)
        },
{
}

/// The endpoint may be stored under the transport: it is of that transport, a
/// USB one has a path that is not blank and both USB numbers, a BLE one has an
/// identifier that is not blank, and a serial is not blank.
pub open spec fn fits_slot(endpoint: DeviceEndpoint, transport: TransportKind) -> bool {
    &&& endpoint.transport == transport
    &&& match endpoint.locator {
        DeviceLocator::UsbPath(path) => !(transport is Ble) && endpoint.vendor_id is Some
            && endpoint.product_id is Some && trimmed(path@).len() > 0,
        DeviceLocator::BlePlatformId(id) => transport is Ble && trimmed(id@).len() > 0,
    }
    &&& endpoint.serial_number matches Some(serial) ==> trimmed(serial@).len() > 0
}

/// An identity is valid exactly when each endpoint fits the transport under
/// which it is stored.
pub proof fn law_identities_are_checked_whole(
    identity: &DeviceIdentity,
    r: Result<(), StateError>,
)
    requires
        call_ensures(DeviceIdentity::validate, (identity,), r),
    ensures
        r is Ok <==> {
            &&& identity.endpoints.wired matches Some(endpoint) ==> fits_slot(
                endpoint,
                TransportKind::Wired,
            )
            &&& identity.endpoints.receiver matches Some(endpoint) ==> fits_slot(
                endpoint,
                TransportKind::Receiver,
            )
            &&& identity.endpoints.ble matches Some(endpoint) ==> fits_slot(
                endpoint,
                TransportKind::Ble,
            )
        },
{
    lemma_defect(identity.endpoints.wired, TransportKind::Wired, identity.id@);
    lemma_defect(identity.endpoints.receiver, TransportKind::Receiver, identity.id@);
    lemma_defect(identity.endpoints.ble, TransportKind::Ble, identity.id@);
}

proof fn lemma_defect(slot: Option<DeviceEndpoint>, transport: TransportKind, id: Seq<char>)
    ensures
        slot matches Some(endpoint) ==> (endpoint_defect(transport, endpoint, id) is None
            <==> fits_slot(endpoint, transport)),
{
}

/// Storing an endpoint replaces the one of its transport and changes nothing
/// else.
pub proof fn law_endpoints_are_stored_by_transport(
    identity: &mut DeviceIdentity,
    endpoint: DeviceEndpoint,
    other: TransportKind,
)
    requires
        call_ensures(DeviceIdentity::upsert_endpoint, (identity, endpoint), ()),
    ensures
        final(identity).endpoints.at(endpoint.transport) == Some(endpoint),
        other != endpoint.transport ==> final(identity).endpoints.at(other)
            == old(identity).endpoints.at(other),
        final(identity).id == old(identity).id,
        final(identity).display_name == old(identity).display_name,
        final(identity).preferred_transport == old(identity).preferred_transport,
        final(identity).physical_id == old(identity).physical_id,
{
}

/// A key is read from a text exactly where the text is `mouse-` and the number
/// without sign or leading zero, and the number is not zero.
pub proof fn law_keys_are_mouse_numbers(value: &str, r: Result<DeviceId, StateError>, number: u64)
    requires
        call_ensures(DeviceId::new, (value,), r),
    ensures
        r matches Ok(id) ==> id@ == value@,
        number > 0 && value@ == "mouse-"@ + decimal(number as nat) ==> r is Ok,
        r is Ok ==> exists|n: u64| n > 0 && value@ == "mouse-"@ + #[trigger] decimal(n as nat),
{
    reveal_strlit("mouse-");
    assert("mouse-"@ =~= key_prefix());
    if number > 0 {
        lemma_logical_number(value@, number);
        assert(logical_key(number as nat) =~= "mouse-"@ + decimal(number as nat));
    }
    if r is Ok {
        let n = logical_number(value@)->0;
        lemma_logical_number(value@, n);
        assert(value@ =~= "mouse-"@ + decimal(n as nat));
    }
}

/// Paths come before platform identifiers, and equal locators come before
/// neither; of two different locators exactly one comes first.
pub proof fn law_locators_are_ordered(
    a: &DeviceLocator,
    b: &DeviceLocator,
    ab: bool,
    ba: bool,
    same: bool,
)
    requires
        call_ensures(DeviceLocator::before, (a, b), ab),
        call_ensures(DeviceLocator::before, (b, a), ba),
        call_ensures(DeviceLocator::same_locator, (a, b), same),
    ensures
        a is UsbPath && b is BlePlatformId ==> ab && !ba,
        same <==> !ab && !ba,
        !(ab && ba),
        same <==> (match (*a, *b) {
            (DeviceLocator::UsbPath(x), DeviceLocator::UsbPath(y)) => x@ == y@,
            (DeviceLocator::BlePlatformId(x), DeviceLocator::BlePlatformId(y)) => x@ == y@,
            _ => false,
        }),
{
    let x = match *a {
        DeviceLocator::UsbPath(text) => text@,
        DeviceLocator::BlePlatformId(text) => text@,
    };
    let y = match *b {
        DeviceLocator::UsbPath(text) => text@,
        DeviceLocator::BlePlatformId(text) => text@,
    };
    crate::text::lemma_lex_total(x, y);
    crate::text::lemma_lex_irreflexive(x);
    if crate::text::lex_less(x, y) && crate::text::lex_less(y, x) {
        crate::text::lemma_lex_transitive(x, y, x);
    }
}

/// A new identity has its key and its trimmed name and nothing else.
pub proof fn law_new_identities_are_bare(
    id: DeviceId,
    display_name: Option<String>,
    r: DeviceIdentity,
    transport: TransportKind,
)
    requires
        call_ensures(DeviceIdentity::new, (id, display_name), r),
    ensures
        r.id == id,
        r.endpoints.at(transport) is None,
        r.preferred_transport is None,
        r.physical_id is None,
        display_name is None ==> r.display_name is None,
        display_name matches Some(name) ==> {
            &&& trimmed(name@).len() > 0 ==> (r.display_name matches Some(text) && text@ == trimmed(
                name@,
            ))
            &&& trimmed(name@).len() == 0 ==> r.display_name is None
        },
{
}

} // verus!
